//! The tabs of the terminal interface.

use vstd::prelude::*;

verus! {

/// A tab of the main view.
#[derive(Debug, PartialEq, Eq, Clone, Copy, Structural)]
pub enum Tab {
    Todo,
    Calendar,
    Reminders,
}

impl Tab {
    /// The tab at a position: 0, 1 and 2 name the three tabs in their order,
    /// every other position the first.
    pub open spec fn at(v: usize) -> Tab {
        if v == 1 {
            Tab::Calendar
        } else if v == 2 {
            Tab::Reminders
        } else {
            Tab::Todo
        }
    }

    /// The position of the tab.
    pub open spec fn index_spec(self) -> usize {
        match self {
            Tab::Todo => 0,
            Tab::Calendar => 1,
            Tab::Reminders => 2,
        }
    }

    /// The position of the tab.
    pub fn index(&self) -> (v: usize)
        ensures
            v == self.index_spec(),
            Tab::at(v) == *self,
    {
        match self {
            Tab::Todo => 0,
            Tab::Calendar => 1,
            Tab::Reminders => 2,
        }
    }
}

impl Default for Tab {
    fn default() -> (tab: Self)
        ensures
            tab == Tab::Todo,
    {
        Tab::Todo
    }
}

impl From<usize> for Tab {
    fn from(v: usize) -> (tab: Self)
        ensures
            tab == Tab::at(v),
    {
        match v {
            0 => Tab::Todo,
            1 => Tab::Calendar,
            2 => Tab::Reminders,
            _ => Tab::default(),
        }
    }
}

impl vstd::std_specs::convert::FromSpecImpl<usize> for Tab {
    open spec fn obeys_from_spec() -> bool {
        true
    }

    open spec fn from_spec(v: usize) -> Tab {
        Tab::at(v)
    }
}

} // verus!
