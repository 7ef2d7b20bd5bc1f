//! Ranges of byte positions within a file.

use vstd::prelude::*;

verus! {

/// The byte positions from `start` up to, but not including, `end`.
#[derive(Debug, Clone, Copy, PartialEq, Eq, Structural)]
pub struct FileRange {
    pub start: u64,
    pub end: u64,
}

impl FileRange {
    /// The range from `start` up to `end`.
    pub fn new(start: u64, end: u64) -> (range: Self)
        ensures
            range == (FileRange { start, end }),
    {
        FileRange { start, end }
    }
}

} // verus!
