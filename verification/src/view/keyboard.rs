use vstd::prelude::*;
use crate::geom::Rectangle;
use crate::view::Id;

verus! {

/// A named keyboard layout. The keys themselves live with the rendering
/// shell; the core only tracks which layout is active.
#[derive(Debug, Clone, PartialEq)]
pub struct Layout {
    pub name: String,
}

impl Default for Layout {
    fn default() -> (r: Layout)
        ensures
            r.name@ == ""@,
    {
        Layout { name: "".to_owned() }
    }
}

/// The on-screen keyboard.
#[derive(Debug, Clone, PartialEq)]
pub struct Keyboard {
    pub id: Id,
    pub rect: Rectangle,
    pub shifted: bool,
    pub layout_name: String,
}

impl Keyboard {
    pub fn new(rect: &mut Rectangle, shifted: bool, layout_name: String) -> (r: Keyboard)
        ensures
            *final(rect) == *old(rect),
            r.id == 0,
            r.rect == *old(rect),
            r.shifted == shifted,
            r.layout_name == layout_name,
    {
        Keyboard { id: 0, rect: *rect, shifted, layout_name }
    }
}

} // verus!
