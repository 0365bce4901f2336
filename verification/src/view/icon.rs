use vstd::prelude::*;
use crate::geom::Rectangle;
use crate::view::{Id, Event};
use crate::color::TEXT_NORMAL_BG;

verus! {

/// A tappable pictogram that raises an event.
#[derive(Debug, Clone, PartialEq)]
pub struct Icon {
    pub id: Id,
    pub rect: Rectangle,
    pub name: String,
    pub background: u8,
    pub active: bool,
    pub event: Event,
}

impl Icon {
    pub fn new(name: &str, rect: Rectangle, event: Event) -> (r: Icon)
        ensures
            r.id == 0,
            r.rect == rect,
            r.name@ == name@,
            r.background == TEXT_NORMAL_BG,
            !r.active,
            r.event == event,
    {
        Icon {
            id: 0,
            rect,
            name: name.to_owned(),
            background: TEXT_NORMAL_BG,
            active: false,
            event,
        }
    }

    /// Builder step overriding the background color.
    pub fn background(self, background: u8) -> (r: Icon)
        ensures
            r == (Icon { background, ..self }),
    {
        Icon { background, ..self }
    }
}

/// A pictogram that reacts to nothing.
#[derive(Debug, Clone, PartialEq)]
pub struct DisabledIcon {
    pub id: Id,
    pub rect: Rectangle,
    pub name: String,
}

impl DisabledIcon {
    pub fn new(name: &str, rect: Rectangle) -> (r: DisabledIcon)
        ensures
            r.id == 0,
            r.rect == rect,
            r.name@ == name@,
    {
        DisabledIcon { id: 0, rect, name: name.to_owned() }
    }
}

} // verus!
