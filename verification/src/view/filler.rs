use vstd::prelude::*;
use crate::geom::Rectangle;
use crate::view::Id;

verus! {

/// A solid rectangle of one color.
#[derive(Debug, Clone, Copy, PartialEq, Eq, Structural)]
pub struct Filler {
    pub id: Id,
    pub rect: Rectangle,
    pub color: u8,
}

impl Filler {
    pub fn new(rect: Rectangle, color: u8) -> (r: Filler)
        ensures
            r == (Filler { id: 0u64, rect, color }),
    {
        Filler { id: 0, rect, color }
    }
}

} // verus!
