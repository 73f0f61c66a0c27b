//! Standard input source marker.
use vstd::prelude::*;

verus! {

/// Marker type for the process standard input stream.
#[derive(Clone, Copy, Debug, Default, PartialEq, Eq, Hash, Structural)]
pub struct StdinSource;

impl StdinSource {
    /// Creates a stdin source marker.
    pub fn new() -> (s: Self)
        ensures
            s == StdinSource,
    {
        StdinSource
    }
}

} // verus!
