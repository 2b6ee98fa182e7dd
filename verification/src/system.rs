//! The interface a simulation system implements to be driven over the
//! store's state.

use vstd::prelude::*;

verus! {

/// One unit of simulation logic. The owner of the store decides when to
/// run a system and what input to hand it.
pub trait System {
    type Input;

    /// Run the system once over the given input.
    fn run(&mut self, input: Self::Input);
}

} // verus!
