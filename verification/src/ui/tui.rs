use vstd::prelude::*;
use crate::utils::error::FerrumError;

verus! {

/// The terminal front end. It holds no state yet.
pub struct Tui {}

impl Tui {
    pub fn new() -> (tui: Self) {
        Tui {  }
    }

    /// Starts the front end, which always succeeds: there is nothing to set up.
    pub fn start(&self) -> (started: Result<(), FerrumError>)
        ensures
            started is Ok,
    {
        Ok(())
    }
}

} // verus!
