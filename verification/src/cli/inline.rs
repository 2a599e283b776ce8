//! Output that goes straight to the terminal, without a full-screen view.

use crate::error::Error;
use vstd::prelude::*;

verus! {

/// A one-shot inline view.
#[derive(Debug)]
pub struct Inline {}

impl Inline {
    /// A new inline view.
    pub fn new() -> (view: Self)
        ensures
            view == (Inline {  }),
    {
        Inline {  }
    }

    /// Shows what `f` draws: `f` is called exactly once.
    pub fn show<G>(self, f: G) -> (result: Result<(), Error>) where G: FnOnce()
        requires
            f.requires(()),
        ensures
            result is Ok,
            f.ensures((), ()),
    {
        let _app_result = self.run(f);
        Ok(())
    }

    /// Runs the view until `f` has drawn.
    pub fn run<G>(self, f: G) -> (result: Result<(), Error>) where G: FnOnce()
        requires
            f.requires(()),
        ensures
            result is Ok,
            f.ensures((), ()),
    {
        self.draw(f);
        Ok(())
    }

    /// Draws once.
    pub fn draw<G>(&self, f: G) where G: FnOnce()
        requires
            f.requires(()),
        ensures
            f.ensures((), ()),
    {
        f();
    }
}

} // verus!
