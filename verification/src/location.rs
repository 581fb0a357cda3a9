use vstd::prelude::*;

verus! {

/// A cell of the grid, by its column `x` and its row `y`.
///
/// Both coordinates are unsigned: no cell lies west of column 0 or south of
/// row 0.
#[derive(Debug, PartialEq, Eq, Structural, Hash, Clone, Copy)]
pub struct Location {
    pub x: u64,
    pub y: u64,
}

impl Location {
    /// The cell in column `x`, row `y`.
    pub fn new(x: u64, y: u64) -> (l: Location)
        ensures
            l == (Location { x, y }),
    {
        Location { x, y }
    }
}

} // verus!
