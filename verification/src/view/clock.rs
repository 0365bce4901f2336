use vstd::prelude::*;
use crate::geom::Rectangle;
use crate::view::{Id, RenderQueue, RenderData, UpdateMode};
use crate::font::{Fonts, Font, font_from_style, normal_style, spec_advance};
use crate::unit::DISPLAY_DPI;

verus! {

/// The wall clock widget. It shows the current time in its format; the
/// embedding shell redraws it on every clock tick.
#[derive(Debug, Clone, PartialEq)]
pub struct Clock {
    pub id: Id,
    pub rect: Rectangle,
    pub format: String,
}

impl Clock {
    /// Sizes itself at the right edge of the given rectangle, wide enough
    /// for a five-glyph time such as `00:00`, and narrows the rectangle
    /// accordingly.
    pub fn new(rect: &mut Rectangle, format: String, fonts: &Fonts) -> (r: Clock)
        requires
            crate::geom::rect_ok(*old(rect)),
        ensures
            ({
                let f = Font { style: crate::font::Style {
                    family: crate::font::Family::Serif,
                    variant: crate::font::Variant::Regular,
                    size: 110i32,
                }, dpi: DISPLAY_DPI };
                let w = 5 * spec_advance(f);
                &&& final(rect).max == old(rect).max
                &&& final(rect).min.y == old(rect).min.y
                &&& final(rect).min.x == old(rect).max.x - w
                &&& r.id == 0
                &&& r.rect == *final(rect)
                &&& r.format == format
            }),
    {
        let style = normal_style();
        let font = font_from_style(fonts, &style, DISPLAY_DPI);
        proof {
            reveal_strlit("00:00");
        }
        let plan = font.plan("00:00", None);
        proof {
            assert(plan.count == 5);
            assert(plan.width == 5 * crate::font::spec_advance(font));
            assert(0 <= plan.width <= 5000);
        }
        rect.min.x = rect.max.x - plan.width;
        Clock { id: 0, rect: *rect, format }
    }

    /// Queues a redraw of the clock face.
    pub fn update(&self, rq: &mut RenderQueue)
        ensures
            final(rq).entries@ == old(rq).entries@.push(
                RenderData { id: self.id, rect: self.rect, mode: UpdateMode::Gui },
            ),
    {
        rq.add(RenderData::new(self.id, self.rect, UpdateMode::Gui));
    }
}

} // verus!
