//! Why the bridge comes to an end.

use vstd::prelude::*;

verus! {

/// The reason for which the agents are asked to stop.
#[derive(Debug, PartialEq, Eq, Clone, Copy)]
pub enum Interrupted {
    /// An operator asked for it.
    UserInt,
    /// The operating system sent a signal.
    OsSigInt,
    /// Something went wrong that the bridge cannot recover from.
    SystemError,
}

} // verus!
