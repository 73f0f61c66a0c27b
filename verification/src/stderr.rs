//! Standard error destination marker.
use vstd::prelude::*;

verus! {

/// Marker type for the process standard error stream.
#[derive(Clone, Copy, Debug, Default, PartialEq, Eq, Hash, Structural)]
pub struct StderrDestination;

impl StderrDestination {
    /// Creates a stderr destination marker.
    pub fn new() -> (d: Self)
        ensures
            d == StderrDestination,
    {
        StderrDestination
    }
}

} // verus!
