//! Whether the terminal interface keeps running.

use crate::cmd::commands::{Command, Key};
use crate::error::Error;
use vstd::prelude::*;

verus! {

/// The state of the terminal interface.
#[derive(Debug, PartialEq, Eq, Clone, Copy, Structural)]
pub struct State {
    pub running: bool,
}

impl Default for State {
    fn default() -> (state: Self)
        ensures
            !state.running,
    {
        State { running: false }
    }
}

impl State {
    /// The state after `command`: `Exit` stops the interface, every other
    /// command leaves it as it is.
    pub open spec fn after(self, command: Command) -> State {
        if command == Command::Exit {
            State { running: false }
        } else {
            self
        }
    }

    /// A running interface.
    pub fn new() -> (state: Result<Self, Error>)
        ensures
            state == Ok::<State, Error>(State { running: true }),
    {
        Ok(State { running: true })
    }

    /// The command bound to a key while the interface is in this state.  For
    /// now every key adds a task.
    pub fn find_command(&self, _key_event: Key) -> (command: Result<Command, Error>)
        ensures
            command == Ok::<Command, Error>(Command::Add),
    {
        Ok(Command::Add)
    }

    /// Carries out `command`.
    pub fn run_command(&mut self, command: Command) -> (result: Result<(), Error>)
        ensures
            result is Ok,
            *final(self) == old(self).after(command),
    {
        match command {
            Command::Exit => {
                self.running = false;
            },
            _ => {},
        }
        Ok(())
    }
}

} // verus!
