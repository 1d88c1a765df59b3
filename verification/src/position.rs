use vstd::prelude::*;

verus! {

/// A pair of document-relative coordinates: `x` is the column, `y` the
/// row. Both the cursor and the scroll offset are positions in document
/// space, never in screen space.
#[derive(Clone, Copy, Debug, PartialEq, Eq, Structural)]
pub struct Position {
    pub x: usize,
    pub y: usize,
}

impl Default for Position {
    /// The origin: top-left corner of the document.
    fn default() -> (p: Position)
        ensures
            p.x == 0,
            p.y == 0,
    {
        Position { x: 0, y: 0 }
    }
}

} // verus!
