use vstd::prelude::*;
use crate::geom::Rectangle;
use crate::view::Id;

verus! {

/// The pager bar at the foot of an index view.
#[derive(Debug, Clone, Copy, PartialEq, Eq, Structural)]
pub struct BottomBar {
    pub id: Id,
    pub rect: Rectangle,
    pub current_page: usize,
    pub pages_count: usize,
}

impl BottomBar {
    pub fn new(rect: Rectangle, current_page: usize, pages_count: usize) -> (r: BottomBar)
        ensures
            r == (BottomBar { id: 0u64, rect, current_page, pages_count }),
    {
        BottomBar { id: 0, rect, current_page, pages_count }
    }
}

} // verus!
