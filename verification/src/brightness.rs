//! Backlight brightness levels of the touchpad numpad, and the fixed-format
//! register command that sets one.

use vstd::prelude::*;

verus! {

/// One of the four backlight levels the touchpad controller accepts.
#[derive(Clone, Copy, Debug, PartialEq, Eq, Structural)]
pub enum Brightness {
    Zero,
    Low,
    Half,
    Full,
}

/// The level that follows `b` in the cycling order. Cycling from `Zero`
/// jumps to the default level; `Zero` itself is never the result of a
/// cycle, it is only reached by an explicit numlock-off.
pub open spec fn spec_next(b: Brightness) -> Brightness {
    match b {
        Brightness::Zero => spec_default_brightness(),
        Brightness::Low => Brightness::Half,
        Brightness::Half => Brightness::Full,
        Brightness::Full => Brightness::Low,
    }
}

/// The configured default level, used when cycling up from `Zero`.
pub open spec fn spec_default_brightness() -> Brightness {
    Brightness::Full
}

/// The byte the controller's brightness register takes for each level.
pub open spec fn spec_level_byte(b: Brightness) -> u8 {
    match b {
        Brightness::Zero => 0,
        Brightness::Low => 31,
        Brightness::Half => 24,
        Brightness::Full => 1,
    }
}

/// The complete 13-byte register-write message that sets the backlight to
/// level `b`; only the twelfth byte varies with the level.
pub open spec fn spec_brightness_command(b: Brightness) -> Seq<u8> {
    seq![
        0x05, 0x00, 0x3d, 0x03, 0x06, 0x00, 0x07, 0x00, 0x0d, 0x14, 0x03,
        spec_level_byte(b), 0xad,
    ]
}

impl Default for Brightness {
    fn default() -> (r: Self)
        ensures
            r == spec_default_brightness(),
    {
        Brightness::Full
    }
}

impl Brightness {
    fn next(&self) -> (r: Self)
        ensures
            r == spec_next(*self),
    {
        match self {
            Brightness::Zero => Brightness::Full,
            Brightness::Low => Brightness::Half,
            Brightness::Half => Brightness::Full,
            Brightness::Full => Brightness::Low,
        }
    }

    /// Advance to the next level in the cycling order and return it.
    pub fn cycle(&mut self) -> (r: Self)
        ensures
            *final(self) == spec_next(*old(self)),
            r == *final(self),
    {
        *self = self.next();
        *self
    }

    /// The byte that stands for this level in the register command.
    pub fn level_byte(&self) -> (r: u8)
        ensures
            r == spec_level_byte(*self),
    {
        match self {
            Brightness::Zero => 0,
            Brightness::Low => 31,
            Brightness::Half => 24,
            Brightness::Full => 1,
        }
    }
}

/// The register-level message that sets the backlight to level `b`. The
/// caller writes these bytes to the touchpad controller unchanged.
pub fn brightness_command(b: Brightness) -> (r: Vec<u8>)
    ensures
        r@ == spec_brightness_command(b),
{
    let r: Vec<u8> = vec![
        0x05, 0x00, 0x3d, 0x03, 0x06, 0x00, 0x07, 0x00, 0x0d, 0x14, 0x03,
        b.level_byte(), 0xad,
    ];
    proof {
        assert(r@ =~= spec_brightness_command(b));
    }
    r
}

/// The brightness cycle order: from `Zero` one cycle lands on the default
/// level, after which the cycle runs Low, Half, Full, Low, and so on;
/// no cycle ever lands back on `Zero`.
pub proof fn lemma_brightness_cycle_order()
    ensures
        spec_next(Brightness::Zero) == spec_default_brightness(),
        spec_next(spec_default_brightness()) == Brightness::Low,
        spec_next(Brightness::Low) == Brightness::Half,
        spec_next(Brightness::Half) == Brightness::Full,
        spec_next(Brightness::Full) == Brightness::Low,
        forall|b: Brightness| spec_next(b) != Brightness::Zero,
{
}

} // verus!
