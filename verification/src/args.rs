//! The command line after parsing: which operation the user asked for.

use vstd::prelude::*;
use vstd::string::*;

verus! {

/// What to do with the session.
#[derive(Debug, PartialEq, Eq, Clone, Copy, Structural)]
pub enum AuthOption {
    /// Log in.
    Login,
    /// Log out.
    Logout,
    /// Refresh the access token.
    Refresh,
}

/// What to list.
#[derive(Debug, PartialEq, Eq, Clone, Copy, Structural)]
pub enum ListOption {
    /// The task lists.
    Lists,
    /// The tasks of every list.
    Tasks,
}

/// One subcommand.
#[derive(Debug)]
pub enum Command {
    /// Manage the session.
    Auth { auth: AuthOption },
    /// List things.
    List { list: ListOption },
    /// Add a task with this title.
    Add { value: String },
}

/// What a `Command` holds.
pub enum CommandView {
    Auth { auth: AuthOption },
    List { list: ListOption },
    Add { value: Seq<char> },
}

/// The parsed command line.
#[derive(Debug)]
pub struct Args {
    pub command: Option<Command>,
}

/// What an `Args` holds.
pub struct ArgsView {
    pub command: Option<CommandView>,
}

impl View for Command {
    type V = CommandView;

    open spec fn view(&self) -> CommandView {
        match *self {
            Command::Auth { auth } => CommandView::Auth { auth },
            Command::List { list } => CommandView::List { list },
            Command::Add { value } => CommandView::Add { value: value@ },
        }
    }
}

impl DeepView for Command {
    type V = CommandView;

    open spec fn deep_view(&self) -> CommandView {
        self@
    }
}

impl View for Args {
    type V = ArgsView;

    open spec fn view(&self) -> ArgsView {
        ArgsView { command: self.command.deep_view() }
    }
}

impl Clone for Command {
    fn clone(&self) -> (copy: Self)
        ensures
            copy@ == self@,
    {
        match self {
            Command::Auth { auth } => Command::Auth { auth: *auth },
            Command::List { list } => Command::List { list: *list },
            Command::Add { value } => Command::Add { value: value.clone() },
        }
    }
}

impl Clone for Args {
    fn clone(&self) -> (copy: Self)
        ensures
            copy@ == self@,
    {
        let command = match &self.command {
            Some(command) => Some(command.clone()),
            None => None,
        };
        Args { command }
    }
}

impl Default for Args {
    fn default() -> (args: Self)
        ensures
            args@.command is None,
    {
        Args { command: None }
    }
}

} // verus!
