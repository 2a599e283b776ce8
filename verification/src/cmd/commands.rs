//! What a key press asks the terminal interface to do.

use vstd::prelude::*;

verus! {

/// Possible scroll areas.
#[derive(Debug, PartialEq, Eq, Clone, Copy, Structural)]
pub enum ScrollType {
    /// Main application tabs.
    Tab,
    /// Inner tables.
    Table,
    /// Main list.
    List,
    /// Block.
    Block,
}

/// A command of the terminal interface.
#[derive(Debug, PartialEq, Eq, Clone, Copy, Structural)]
pub enum Command {
    Next(ScrollType, u8),
    Nothing,
    Add,
    Delete,
    Update,
    Exit,
}

/// What the interface reads of a key event: the right arrow, a character, or
/// any other key.
#[derive(Debug, PartialEq, Eq, Clone, Copy, Structural)]
pub enum Key {
    Right,
    Char(char),
    Other,
}

impl Command {
    /// The command that a key stands for: the right arrow and `l` move to the
    /// next table, `q` leaves, every other key does nothing.
    pub open spec fn of_key(key: Key) -> Command {
        match key {
            Key::Right => Command::Next(ScrollType::Table, 1),
            Key::Char(c) => if c == 'l' {
                Command::Next(ScrollType::Table, 1)
            } else if c == 'q' {
                Command::Exit
            } else {
                Command::Nothing
            },
            Key::Other => Command::Nothing,
        }
    }
}

impl From<Key> for Command {
    fn from(key_event: Key) -> (command: Self)
        ensures
            command == Command::of_key(key_event),
    {
        match key_event {
            Key::Right => Command::Next(ScrollType::Table, 1),
            Key::Char(c) => {
                if c == 'l' {
                    Command::Next(ScrollType::Table, 1)
                } else if c == 'q' {
                    Command::Exit
                } else {
                    Command::Nothing
                }
            },
            Key::Other => Command::Nothing,
        }
    }
}

impl vstd::std_specs::convert::FromSpecImpl<Key> for Command {
    open spec fn obeys_from_spec() -> bool {
        true
    }

    open spec fn from_spec(key_event: Key) -> Command {
        Command::of_key(key_event)
    }
}

} // verus!
