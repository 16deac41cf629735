//! Commands written to the chip and the sink that carries them out.
use vstd::prelude::*;
use crate::register::RegisterIndex;

verus! {

/// A command contains a value to be written to a specific register of the YM2149.
#[derive(Debug, Clone, Copy, PartialEq, Eq, Structural)]
pub struct Command {
    pub register: u8,
    pub value: u8,
}

impl Command {
    /// Creates a new [`Command`] for the address of `register`.
    pub fn new<R: RegisterIndex>(register: R, value: u8) -> (r: Self)
        ensures
            r == (Command { register: register.spec_address(), value }),
    {
        Self { register: register.address(), value }
    }

    /// Returns self as an array containing two bytes, `[0]` for register, and `[1]` for value.
    pub fn as_array(&self) -> (r: [u8; 2])
        ensures
            r@ == seq![self.register, self.value],
    {
        [self.register, self.value]
    }
}

/// This trait lets you define how [`Command`]s should be dealt with.
///
/// An output keeps, for its contract, the sequence of commands it has been
/// handed: `sent`. Carrying out a command appends it there.
pub trait CommandOutput {
    /// The commands this output has been handed, oldest first.
    spec fn sent(&self) -> Seq<Command>;

    /// Carries out `command`.
    fn execute(&mut self, command: Command)
        ensures
            final(self).sent() == old(self).sent().push(command),
    ;
}

/// A [`CommandOutput`] that keeps every command it is handed, in order.
#[derive(Debug, Clone, PartialEq, Eq, Default)]
pub struct CommandLog {
    pub commands: Vec<Command>,
}

impl CommandOutput for CommandLog {
    open spec fn sent(&self) -> Seq<Command> {
        self.commands@
    }

    fn execute(&mut self, command: Command) {
        self.commands.push(command);
    }
}

} // verus!
