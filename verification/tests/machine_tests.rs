use asus_numpad::brightness::Brightness;
use asus_numpad::config::{default_numlock, Config, CustomCommand};
use asus_numpad::geometry::BBox;
use asus_numpad::keys::Key;
use asus_numpad::layout::{NumpadLayout, SupportedLayout};
use asus_numpad::machine::{Action, CurKey, FingerState, Numpad, TouchpadEvent};
use asus_numpad::util::TimeVal;

fn tv(tv_sec: i64, tv_usec: i64) -> TimeVal {
    TimeVal { tv_sec, tv_usec }
}

fn machine_with_stop(stop: Option<CustomCommand>) -> Numpad {
    let layout = NumpadLayout::m433ia(BBox::new(0, 1023, 0, 767));
    let config = Config {
        layout: SupportedLayout::M433IA,
        disable_numlock_on_start: true,
        calc_start_command: CustomCommand::default(),
        calc_stop_command: stop,
    };
    Numpad::new(layout, config)
}

fn machine() -> Numpad {
    machine_with_stop(None)
}

fn count_numlock_presses(acts: &[Action]) -> usize {
    acts.iter().filter(|a| **a == Action::KeyPress(Key::NumLock)).count()
}

#[test]
fn test_numpad_key_press_and_release() {
    let mut m = machine();
    // numlock comes on through the system's indicator
    assert_eq!(m.handle_numlock_pressed(1), vec![Action::SetBrightness(Brightness::Full)]);
    // finger lands inside grid cell row 2, column 1
    assert_eq!(m.handle_touchpad_event(TouchpadEvent::PositionX(300)), vec![]);
    assert_eq!(m.handle_touchpad_event(TouchpadEvent::PositionY(500)), vec![]);
    let down = m.handle_touchpad_event(TouchpadEvent::Finger {
        value: 1,
        time: tv(1, 0),
    });
    assert_eq!(down, vec![Action::Grab, Action::KeyDown(Key::Kp2)]);
    // a stationary finger produces no further key events
    assert_eq!(
        m.handle_touchpad_event(TouchpadEvent::Timestamp { time: tv(1, 100_000) }),
        vec![],
    );
    let up = m.handle_touchpad_event(TouchpadEvent::Finger {
        value: 0,
        time: tv(1, 200_000),
    });
    assert_eq!(up, vec![Action::KeyUp(Key::Kp2)]);
    assert_eq!(m.state.finger_state, FingerState::Lifted);
    assert_eq!(m.state.cur_key, CurKey::NoKey);
}

#[test]
fn test_composite_key_uses_multikey_events() {
    let mut m = machine();
    m.handle_numlock_pressed(1);
    // the cell of the top-row 5 key: row 2, column 4
    m.handle_touchpad_event(TouchpadEvent::PositionX(900));
    m.handle_touchpad_event(TouchpadEvent::PositionY(500));
    let down = m.handle_touchpad_event(TouchpadEvent::Finger {
        value: 1,
        time: tv(1, 0),
    });
    assert_eq!(
        down,
        vec![Action::Grab, Action::MultiKeyDown(Key::LeftShift, Key::Digit5)],
    );
    let up = m.handle_touchpad_event(TouchpadEvent::Finger {
        value: 0,
        time: tv(1, 100_000),
    });
    assert_eq!(up, vec![Action::MultiKeyUp(Key::LeftShift, Key::Digit5)]);
}

#[test]
fn test_numlock_hold_toggles_once_per_hold() {
    let mut m = machine();
    // finger rests in the numlock zone
    m.handle_touchpad_event(TouchpadEvent::PositionX(1000));
    m.handle_touchpad_event(TouchpadEvent::PositionY(30));
    assert_eq!(
        m.handle_touchpad_event(TouchpadEvent::Finger { value: 1, time: tv(10, 0) }),
        vec![],
    );
    assert_eq!(m.state.cur_key, CurKey::Numlock);
    // a tick before the hold threshold toggles nothing
    assert_eq!(
        m.handle_touchpad_event(TouchpadEvent::Timestamp { time: tv(10, 100_000) }),
        vec![],
    );
    assert!(!m.state.numlock);
    // the tick past 250 ms toggles numlock on, with exactly one key-press
    let acts = m.handle_touchpad_event(TouchpadEvent::Timestamp { time: tv(10, 300_000) });
    assert_eq!(
        acts,
        vec![Action::SetBrightness(Brightness::Full), Action::KeyPress(Key::NumLock)],
    );
    assert!(m.state.numlock);
    // further ticks of the same un-lifted hold toggle nothing more
    assert_eq!(
        m.handle_touchpad_event(TouchpadEvent::Timestamp { time: tv(11, 0) }),
        vec![],
    );
    assert_eq!(
        m.handle_touchpad_event(TouchpadEvent::Timestamp { time: tv(12, 0) }),
        vec![],
    );
    assert!(m.state.numlock);
}

#[test]
fn test_numlock_toggle_twice_round_trip() {
    let mut m = machine();
    let mut presses: usize = 0;
    for start in [20_i64, 30_i64] {
        m.handle_touchpad_event(TouchpadEvent::PositionX(1000));
        m.handle_touchpad_event(TouchpadEvent::PositionY(30));
        m.handle_touchpad_event(TouchpadEvent::Finger {
            value: 1,
            time: tv(start, 0),
        });
        let acts = m.handle_touchpad_event(TouchpadEvent::Timestamp {
            time: tv(start, 300_000),
        });
        assert_eq!(count_numlock_presses(&acts), 1);
        presses += count_numlock_presses(&acts);
        m.handle_touchpad_event(TouchpadEvent::Finger {
            value: 0,
            time: tv(start, 400_000),
        });
    }
    // two toggles: back to the starting value, one key-press each
    assert!(!m.state.numlock);
    assert_eq!(presses, 2);
    // the second toggle turned numlock off: backlight dark and an ungrab
    let mut m2 = machine();
    m2.handle_touchpad_event(TouchpadEvent::PositionX(1000));
    m2.handle_touchpad_event(TouchpadEvent::PositionY(30));
    m2.handle_touchpad_event(TouchpadEvent::Finger { value: 1, time: tv(1, 0) });
    m2.handle_touchpad_event(TouchpadEvent::Timestamp { time: tv(1, 300_000) });
    m2.handle_touchpad_event(TouchpadEvent::Finger { value: 0, time: tv(1, 400_000) });
    m2.handle_touchpad_event(TouchpadEvent::Finger { value: 1, time: tv(2, 0) });
    let acts = m2.handle_touchpad_event(TouchpadEvent::Timestamp { time: tv(2, 300_000) });
    assert_eq!(
        acts,
        vec![
            Action::SetBrightness(Brightness::Zero),
            Action::Ungrab,
            Action::KeyPress(Key::NumLock),
        ],
    );
}

#[test]
fn test_led_resync_presses_no_numlock_key() {
    let mut m = machine();
    let on = m.handle_numlock_pressed(1);
    assert_eq!(count_numlock_presses(&on), 0);
    assert!(m.state.numlock);
    let off = m.handle_numlock_pressed(0);
    assert_eq!(count_numlock_presses(&off), 0);
    assert_eq!(off, vec![Action::Ungrab, Action::SetBrightness(Brightness::Zero)]);
    assert!(!m.state.numlock);
}

#[test]
fn test_drag_jitter_releases_key_without_finger_up() {
    let mut m = machine();
    m.handle_numlock_pressed(1);
    m.handle_touchpad_event(TouchpadEvent::PositionX(300));
    m.handle_touchpad_event(TouchpadEvent::PositionY(500));
    m.handle_touchpad_event(TouchpadEvent::Finger { value: 1, time: tv(5, 0) });
    assert_eq!(m.state.cur_key, CurKey::Numpad(Key::Kp2));
    // dragging 300 units exceeds the jitter threshold of 10000 squared
    let acts = m.handle_touchpad_event(TouchpadEvent::PositionX(600));
    assert_eq!(acts, vec![Action::Ungrab, Action::KeyUp(Key::Kp2)]);
    assert_eq!(m.state.finger_state, FingerState::Lifted);
    assert!(m.state.finger_dragged_too_much);
}

#[test]
fn test_real_lift_after_synthesized_lift_is_suppressed() {
    let mut m = machine();
    m.handle_numlock_pressed(1);
    m.handle_touchpad_event(TouchpadEvent::PositionX(300));
    m.handle_touchpad_event(TouchpadEvent::PositionY(500));
    m.handle_touchpad_event(TouchpadEvent::Finger { value: 1, time: tv(5, 0) });
    m.handle_touchpad_event(TouchpadEvent::PositionX(600));
    // the real finger-up after the synthesized lift does nothing
    assert_eq!(
        m.handle_touchpad_event(TouchpadEvent::Finger { value: 0, time: tv(5, 500_000) }),
        vec![],
    );
    // a new tap within the re-arm window is still suppressed
    assert_eq!(
        m.handle_touchpad_event(TouchpadEvent::Finger { value: 1, time: tv(5, 600_000) }),
        vec![],
    );
    assert_eq!(m.state.finger_state, FingerState::Lifted);
    // after the re-arm window a new tap starts again, at the cell the
    // finger was dragged to
    let acts = m.handle_touchpad_event(TouchpadEvent::Finger { value: 1, time: tv(5, 800_000) });
    assert_eq!(acts, vec![Action::Grab, Action::KeyDown(Key::Kp3)]);
}

#[test]
fn test_calc_drag_launches_and_closes() {
    // no stop command configured: closing runs the start action again
    let mut m = machine();
    for (start, expected) in [(40_i64, Action::RunCalcStart), (50_i64, Action::RunCalcStart)] {
        m.handle_touchpad_event(TouchpadEvent::PositionX(10));
        m.handle_touchpad_event(TouchpadEvent::PositionY(30));
        m.handle_touchpad_event(TouchpadEvent::Finger {
            value: 1,
            time: tv(start, 0),
        });
        assert_eq!(m.state.cur_key, CurKey::Calc);
        m.handle_touchpad_event(TouchpadEvent::PositionX(400));
        let acts = m.handle_touchpad_event(TouchpadEvent::Finger {
            value: 0,
            time: tv(start, 200_000),
        });
        assert_eq!(acts, vec![expected]);
    }
    assert!(!m.state.calc_open);
}

#[test]
fn test_calc_drag_uses_stop_command_when_configured() {
    let stop = CustomCommand::Command {
        cmd: String::from("killall"),
        args: vec![String::from("calculator")],
    };
    let mut m = machine_with_stop(Some(stop));
    for (start, expected) in [(40_i64, Action::RunCalcStart), (50_i64, Action::RunCalcStop)] {
        m.handle_touchpad_event(TouchpadEvent::PositionX(10));
        m.handle_touchpad_event(TouchpadEvent::PositionY(30));
        m.handle_touchpad_event(TouchpadEvent::Finger {
            value: 1,
            time: tv(start, 0),
        });
        m.handle_touchpad_event(TouchpadEvent::PositionX(400));
        let acts = m.handle_touchpad_event(TouchpadEvent::Finger {
            value: 0,
            time: tv(start, 200_000),
        });
        assert_eq!(acts, vec![expected]);
    }
}

#[test]
fn test_short_calc_drag_does_nothing() {
    let mut m = machine();
    m.handle_touchpad_event(TouchpadEvent::PositionX(10));
    m.handle_touchpad_event(TouchpadEvent::PositionY(30));
    m.handle_touchpad_event(TouchpadEvent::Finger { value: 1, time: tv(40, 0) });
    // 200 units squared is 40000, under the calculator drag threshold
    m.handle_touchpad_event(TouchpadEvent::PositionX(210));
    let acts = m.handle_touchpad_event(TouchpadEvent::Finger {
        value: 0,
        time: tv(40, 200_000),
    });
    assert_eq!(acts, vec![]);
    assert!(!m.state.calc_open);
}

#[test]
fn test_calc_hold_cycles_brightness_once() {
    let mut m = machine();
    m.handle_numlock_pressed(1);
    m.handle_touchpad_event(TouchpadEvent::PositionX(10));
    m.handle_touchpad_event(TouchpadEvent::PositionY(30));
    m.handle_touchpad_event(TouchpadEvent::Finger { value: 1, time: tv(60, 0) });
    assert_eq!(m.state.cur_key, CurKey::Calc);
    // holding on the calculator zone past 250 ms cycles the backlight once
    let acts = m.handle_touchpad_event(TouchpadEvent::Timestamp { time: tv(60, 300_000) });
    assert_eq!(acts, vec![Action::SetBrightness(Brightness::Low)]);
    assert_eq!(m.state.brightness, Brightness::Low);
    assert_eq!(m.state.cur_key, CurKey::NoKey);
    // the same hold does not cycle again
    assert_eq!(
        m.handle_touchpad_event(TouchpadEvent::Timestamp { time: tv(61, 0) }),
        vec![],
    );
    assert_eq!(m.state.brightness, Brightness::Low);
}

#[test]
fn test_initialize_numlock_disables_on_start() {
    let mut m = machine();
    // the system indicator is on, and the configuration wants it off
    let acts = m.initialize_numlock(Some(1));
    assert_eq!(acts, vec![Action::KeyPress(Key::NumLock)]);
    assert!(!m.state.numlock);
}

#[test]
fn test_initialize_numlock_adopts_system_state() {
    let mut m = machine_with_stop(None);
    m.config.disable_numlock_on_start = false;
    let acts = m.initialize_numlock(Some(1));
    assert_eq!(acts, vec![Action::SetBrightness(Brightness::Full)]);
    assert!(m.state.numlock);
}

#[test]
fn test_initialize_numlock_dark_or_unreadable() {
    let mut m = machine();
    assert_eq!(m.initialize_numlock(Some(0)), vec![]);
    assert!(!m.state.numlock);
    assert_eq!(m.initialize_numlock(None), vec![]);
    assert!(!m.state.numlock);
}

#[test]
fn test_custom_command_default_presses_calc_key() {
    assert_eq!(CustomCommand::default(), CustomCommand::Keys(vec![Key::Calc]));
    assert!(default_numlock());
}
