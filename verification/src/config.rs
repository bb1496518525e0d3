//! The configuration the driver runs with: which hardware layout, whether
//! numlock is forced off at startup, and what the calculator gesture runs.

use vstd::prelude::*;

use crate::keys::Key;
use crate::layout::SupportedLayout;

verus! {

/// What the calculator gesture does: either press a list of emulated keys
/// together, or run an external command with arguments.
#[derive(Debug, PartialEq, Eq)]
pub enum CustomCommand {
    /// Press these keys.
    Keys(Vec<Key>),
    /// Run this command with the given arguments.
    Command { cmd: String, args: Vec<String> },
}

impl Default for CustomCommand {
    /// The default action is pressing the single dedicated calculator key.
    fn default() -> (r: Self)
        ensures
            r matches CustomCommand::Keys(keys) && keys@ == seq![Key::Calc],
    {
        let keys: Vec<Key> = vec![Key::Calc];
        proof {
            assert(keys@ =~= seq![Key::Calc]);
        }
        Self::Keys(keys)
    }
}

/// Whether numlock is forced off at startup when the system reports it on;
/// on by default.
pub fn default_numlock() -> (r: bool)
    ensures
        r,
{
    true
}

/// The driver's configuration, fixed at startup.
#[derive(Debug, PartialEq, Eq)]
pub struct Config {
    /// The hardware model whose layout to use.
    pub layout: SupportedLayout,
    /// Force numlock off at startup even if the system reports it on.
    pub disable_numlock_on_start: bool,
    /// What a calculator-launch gesture runs.
    pub calc_start_command: CustomCommand,
    /// What a calculator-close gesture runs; when absent, the start command
    /// is run again.
    pub calc_stop_command: Option<CustomCommand>,
}

impl Config {
    /// The configured hardware layout.
    pub fn layout(&self) -> (r: &SupportedLayout)
        ensures
            r == &self.layout,
    {
        &self.layout
    }

    /// Whether numlock is forced off at startup.
    pub fn disable_numlock_on_start(&self) -> (r: bool)
        ensures
            r == self.disable_numlock_on_start,
    {
        self.disable_numlock_on_start
    }

    /// The configured calculator-launch action.
    pub fn calc_start_command(&self) -> (r: &CustomCommand)
        ensures
            r == &self.calc_start_command,
    {
        &self.calc_start_command
    }

    /// The configured calculator-close action, if any.
    pub fn calc_stop_command(&self) -> (r: Option<&CustomCommand>)
        ensures
            r is Some <==> self.calc_stop_command is Some,
            r is Some ==> r->0 == self.calc_stop_command->0,
    {
        self.calc_stop_command.as_ref()
    }
}

} // verus!
