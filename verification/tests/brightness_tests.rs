use asus_numpad::brightness::{brightness_command, Brightness};

#[test]
fn test_default_brightness_is_full() {
    assert_eq!(Brightness::default(), Brightness::Full);
}

#[test]
fn test_brightness_cycle_sequence() {
    // from Zero a cycle jumps to the default level, then runs
    // Low, Half, Full, Low, ... and never returns to Zero
    let mut b = Brightness::Zero;
    assert_eq!(b.cycle(), Brightness::Full);
    assert_eq!(b.cycle(), Brightness::Low);
    assert_eq!(b.cycle(), Brightness::Half);
    assert_eq!(b.cycle(), Brightness::Full);
    assert_eq!(b.cycle(), Brightness::Low);
    assert_eq!(b, Brightness::Low);
}

#[test]
fn test_brightness_command_bytes() {
    assert_eq!(
        brightness_command(Brightness::Low),
        vec![0x05, 0x00, 0x3d, 0x03, 0x06, 0x00, 0x07, 0x00, 0x0d, 0x14, 0x03, 31, 0xad],
    );
    assert_eq!(
        brightness_command(Brightness::Zero),
        vec![0x05, 0x00, 0x3d, 0x03, 0x06, 0x00, 0x07, 0x00, 0x0d, 0x14, 0x03, 0, 0xad],
    );
    assert_eq!(brightness_command(Brightness::Half)[11], 24);
    assert_eq!(brightness_command(Brightness::Full)[11], 1);
}
