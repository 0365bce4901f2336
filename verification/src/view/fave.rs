use vstd::prelude::*;
use crate::geom::{Rectangle, Point, rect_roomy};
use crate::view::{Id, Event, Align, Widget, MINI_BAR_HEIGHT, THICKNESS_MEDIUM, SMALL_PADDING};
use crate::view::textlabel::TextLabel;
use crate::view::filler::Filler;
use crate::font::label_style;
use crate::unit::{scale_by_dpi, DISPLAY_DPI};
use crate::color::BLACK;

verus! {

/// A favorite search shown on the home screen: a label above a border
/// line.
#[derive(Debug)]
pub struct Fave {
    pub id: Id,
    pub rect: Rectangle,
    pub children: Vec<Widget>,
    pub content_height: i32,
    pub border_thickness: i32,
    pub children_lookup: Vec<(String, usize)>,
}

impl Fave {
    pub open spec fn wf(&self) -> bool {
        &&& crate::geom::rect_bounded(self.rect, 16200000)
        &&& self.content_height == 56
        &&& self.border_thickness == 1
    }

    /// An empty row across the parent, `offset` below its top edge.
    pub fn new_empty(parent_rect: Rectangle, offset: i32) -> (r: Fave)
        requires
            rect_roomy(parent_rect),
            0 <= offset <= 100000,
        ensures
            r.wf(),
            r.id == 0,
            r.rect == (Rectangle {
                min: Point { x: parent_rect.min.x, y: (parent_rect.min.y + offset) as i32 },
                max: Point {
                    x: parent_rect.max.x,
                    y: (parent_rect.min.y + offset + 57) as i32,
                },
            }),
            r.children@.len() == 0,
            r.children_lookup@.len() == 0,
    {
        let content_height = scale_by_dpi(MINI_BAR_HEIGHT, DISPLAY_DPI);
        let border_thickness = scale_by_dpi(THICKNESS_MEDIUM, DISPLAY_DPI);
        Fave {
            id: 0,
            rect: Rectangle {
                min: Point { x: parent_rect.min.x, y: parent_rect.min.y + offset },
                max: Point {
                    x: parent_rect.max.x,
                    y: parent_rect.min.y + offset + content_height + border_thickness,
                },
            },
            children: Vec::new(),
            content_height,
            border_thickness,
            children_lookup: Vec::new(),
        }
    }

    /// The full row: its label, then its border.
    pub fn new(parent_rect: Rectangle, offset: i32, title: String, root_event: Event) -> (r: Fave)
        requires
            rect_roomy(parent_rect),
            0 <= offset <= 100000,
        ensures
            r.wf(),
            r.rect == Fave::new_empty_rect(parent_rect, offset as int),
            r.children@.len() == 2,
            r.children@[0] is TextLabel,
            r.children@[1] is Filler,
            r.children_lookup@.len() == 2,
            r.children_lookup@[0].0@ == "label"@ && r.children_lookup@[0].1 == 0,
            r.children_lookup@[1].0@ == "border"@ && r.children_lookup@[1].1 == 1,
    {
        let mut fave = Fave::new_empty(parent_rect, offset);
        fave.create_label(title, root_event);
        fave.create_border();
        fave
    }

    /// The rectangle `new_empty` spans for these arguments.
    pub open spec fn new_empty_rect(parent_rect: Rectangle, offset: int) -> Rectangle {
        Rectangle {
            min: Point { x: parent_rect.min.x, y: (parent_rect.min.y + offset) as i32 },
            max: Point { x: parent_rect.max.x, y: (parent_rect.min.y + offset + 57) as i32 },
        }
    }

    /// The label filling the content band, left-aligned with a small
    /// padding.
    pub fn create_label(&mut self, title: String, event: Event)
        requires
            old(self).wf(),
        ensures
            final(self).wf(),
            ({
                let label_rect = Rectangle {
                    min: old(self).rect.min,
                    max: Point {
                        x: old(self).rect.max.x,
                        y: (old(self).rect.min.y + 56) as i32,
                    },
                };
                &&& final(self).children@.len() == old(self).children@.len() + 1
                &&& final(self).children@.last() is TextLabel
                &&& final(self).children@.last()->TextLabel_0.rect == label_rect
                &&& final(self).children@.last()->TextLabel_0.text == title
                &&& final(self).children@.last()->TextLabel_0.event == event
                &&& final(self).children@.drop_last() == old(self).children@
                &&& final(self).children_lookup@.drop_last() == old(self).children_lookup@
                &&& final(self).children_lookup@.len() == old(self).children_lookup@.len() + 1
                &&& final(self).children_lookup@.last().0@ == "label"@
                &&& final(self).children_lookup@.last().1 == old(self).children@.len()
                &&& *final(self) == (Fave {
                    children: final(self).children,
                    children_lookup: final(self).children_lookup,
                    ..*old(self)
                })
            }),
    {
        let label_padding = scale_by_dpi(SMALL_PADDING, DISPLAY_DPI);
        let label_rect = Rectangle {
            min: self.rect.min,
            max: Point { x: self.rect.max.x, y: self.rect.min.y + self.content_height },
        };
        let chapter = TextLabel::new(
            label_rect,
            title,
            Align::Left(label_padding),
            label_style(),
            event,
        );
        self.children_lookup.push(("label".to_owned(), self.children.len()));
        self.children.push(Widget::TextLabel(chapter));
    }

    /// The border line along the row's bottom edge.
    pub fn create_border(&mut self)
        requires
            old(self).wf(),
        ensures
            final(self).wf(),
            ({
                let border_rect = Rectangle {
                    min: Point {
                        x: old(self).rect.min.x,
                        y: (old(self).rect.max.y - 1) as i32,
                    },
                    max: old(self).rect.max,
                };
                &&& final(self).children@.len() == old(self).children@.len() + 1
                &&& final(self).children@.last() is Filler
                &&& final(self).children@.last()->Filler_0.rect == border_rect
                &&& final(self).children@.last()->Filler_0.color == BLACK
                &&& final(self).children@.drop_last() == old(self).children@
                &&& final(self).children_lookup@.drop_last() == old(self).children_lookup@
                &&& final(self).children_lookup@.len() == old(self).children_lookup@.len() + 1
                &&& final(self).children_lookup@.last().0@ == "border"@
                &&& final(self).children_lookup@.last().1 == old(self).children@.len()
                &&& *final(self) == (Fave {
                    children: final(self).children,
                    children_lookup: final(self).children_lookup,
                    ..*old(self)
                })
            }),
    {
        let seperator_rect = Rectangle {
            min: Point { x: self.rect.min.x, y: self.rect.max.y - self.border_thickness },
            max: self.rect.max,
        };
        let seperator = Filler::new(seperator_rect, BLACK);
        self.children_lookup.push(("border".to_owned(), self.children.len()));
        self.children.push(Widget::Filler(seperator));
    }
}

} // verus!
