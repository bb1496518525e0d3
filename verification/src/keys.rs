//! The emulated keys the driver can press.
//!
//! Each variant stands for one key of the virtual keyboard; the process
//! boundary translates them to the kernel's key codes.

use vstd::prelude::*;

verus! {

/// An emulated key identity.
#[derive(Clone, Copy, Debug, PartialEq, Eq, Structural)]
pub enum Key {
    Kp0,
    Kp1,
    Kp2,
    Kp3,
    Kp4,
    Kp5,
    Kp6,
    Kp7,
    Kp8,
    Kp9,
    KpSlash,
    KpAsterisk,
    KpMinus,
    KpPlus,
    KpDot,
    KpEnter,
    KpEqual,
    Backspace,
    /// The top-row `5` key; shifted it yields `%`, which is why it needs
    /// composite emission together with a shift key.
    Digit5,
    Equal,
    Backslash,
    Calc,
    LeftShift,
    NumLock,
}

} // verus!
