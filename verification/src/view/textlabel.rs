use vstd::prelude::*;
use crate::geom::{Rectangle, rect_ok};
use crate::view::{Id, Event, Align, RenderQueue, RenderData, UpdateMode};
use crate::font::{Fonts, Font, Style, RenderPlan, font_from_style, font_ok, spec_em, spec_plan};
use crate::color::TEXT_NORMAL_BG;
use crate::unit::DISPLAY_DPI;

verus! {

/// A tappable line of text with an optional hold event.
#[derive(Debug, Clone, PartialEq)]
pub struct TextLabel {
    pub id: Id,
    pub rect: Rectangle,
    pub background: u8,
    pub text: String,
    pub align: Align,
    pub font: Style,
    pub event: Event,
    pub hold_event: Option<Event>,
    pub active: bool,
}

impl TextLabel {
    pub fn new(rect: Rectangle, text: String, align: Align, font: Style, event: Event) -> (r:
        TextLabel)
        ensures
            r.id == 0,
            r.rect == rect,
            r.background == TEXT_NORMAL_BG,
            r.text == text,
            r.align == align,
            r.font == font,
            r.event == event,
            r.hold_event is None,
            !r.active,
    {
        TextLabel {
            id: 0,
            rect,
            background: TEXT_NORMAL_BG,
            text,
            align,
            font,
            event,
            hold_event: None,
            active: false,
        }
    }

    /// Builder step attaching the hold event.
    pub fn hold_event(self, event: Option<Event>) -> (r: TextLabel)
        ensures
            r == (TextLabel { hold_event: event, ..self }),
    {
        TextLabel { hold_event: event, ..self }
    }

    /// Builder step overriding the background color.
    pub fn background(self, background: u8) -> (r: TextLabel)
        ensures
            r == (TextLabel { background, ..self }),
    {
        TextLabel { background, ..self }
    }

    /// Replaces the text, queuing a redraw when it changed.
    pub fn update(&mut self, text: &str, rq: &mut RenderQueue)
        ensures
            final(self).text@ == text@,
            *final(self) == (TextLabel { text: final(self).text, ..*old(self) }),
            old(self).text@ == text@ ==> *final(rq) == *old(rq),
            old(self).text@ != text@ ==> final(rq).entries@ == old(rq).entries@.push(
                RenderData { id: old(self).id, rect: old(self).rect, mode: UpdateMode::Gui },
            ),
    {
        let new_text = text.to_owned();
        if !crate::helpers::str_eq(self.text.as_str(), text) {
            self.text = new_text;
            rq.add(RenderData::new(self.id, self.rect, UpdateMode::Gui));
        } else {
            self.text = new_text;
        }
    }

    /// Shapes this label's text in its style, limited to the label's width
    /// less one em of padding.
    pub fn get_plan(&self, fonts: &Fonts) -> (r: RenderPlan)
        requires
            rect_ok(self.rect),
            font_ok(Font { style: self.font, dpi: DISPLAY_DPI }),
            self.text@.len() <= 1000000,
        ensures
            ({
                let f = Font { style: self.font, dpi: DISPLAY_DPI };
                r == spec_plan(
                    f,
                    self.text@.len() as int,
                    Some(self.rect.spec_width() - spec_em(f)),
                )
            }),
    {
        let font = font_from_style(fonts, &self.font, DISPLAY_DPI);
        let padding = font.em();
        let max_width = self.rect.width() - padding;
        font.plan(self.text.as_str(), Some(max_width))
    }
}

} // verus!
