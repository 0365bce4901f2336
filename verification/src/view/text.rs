use vstd::prelude::*;
use crate::geom::{Rectangle, rect_ok};
use crate::view::{Id, Align, RenderQueue, RenderData, UpdateMode};
use crate::font::{Fonts, Font, Style, RenderPlan, font_from_style, font_ok, spec_em, spec_plan};
use crate::color::{TEXT_NORMAL_BG, TEXT_NORMAL_FG};
use crate::unit::DISPLAY_DPI;

verus! {

/// A passive line of text.
#[derive(Debug, Clone, PartialEq)]
pub struct Text {
    pub id: Id,
    pub rect: Rectangle,
    pub color: u8,
    pub background: u8,
    pub text: String,
    pub align: Align,
    pub font: Style,
}

impl Text {
    pub fn new(rect: Rectangle, text: String, align: Align, font: Style) -> (r: Text)
        ensures
            r.id == 0,
            r.rect == rect,
            r.color == TEXT_NORMAL_FG,
            r.background == TEXT_NORMAL_BG,
            r.text == text,
            r.align == align,
            r.font == font,
    {
        Text { id: 0, rect, color: TEXT_NORMAL_FG, background: TEXT_NORMAL_BG, text, align, font }
    }

    /// Overrides the foreground or the background color, where given.
    pub fn set_colors(&mut self, color: Option<u8>, background: Option<u8>)
        ensures
            final(self).color == match color {
                Some(c) => c,
                None => old(self).color,
            },
            final(self).background == match background {
                Some(b) => b,
                None => old(self).background,
            },
            *final(self) == (Text {
                color: final(self).color,
                background: final(self).background,
                ..*old(self)
            }),
    {
        match color {
            Some(text_color) => {
                self.color = text_color;
            },
            None => {},
        }
        match background {
            Some(bg_color) => {
                self.background = bg_color;
            },
            None => {},
        }
    }

    /// Replaces the text, queuing a redraw when it changed.
    pub fn update(&mut self, text: &str, rq: &mut RenderQueue)
        ensures
            final(self).text@ == text@,
            *final(self) == (Text { text: final(self).text, ..*old(self) }),
            old(self).text@ == text@ ==> *final(rq) == *old(rq),
            old(self).text@ != text@ ==> final(rq).entries@ == old(rq).entries@.push(
                RenderData { id: old(self).id, rect: old(self).rect, mode: UpdateMode::Gui },
            ),
    {
        let new_text = text.to_owned();
        if !crate::helpers::str_eq(self.text.as_str(), text) {
            self.text = new_text;
            rq.add(RenderData::new(self.id, self.rect, UpdateMode::Gui));
        } else {
            self.text = new_text;
        }
    }

    /// Shapes this text in its style, limited to the widget's width less
    /// one em of padding.
    pub fn get_plan(&self, fonts: &Fonts) -> (r: RenderPlan)
        requires
            rect_ok(self.rect),
            font_ok(Font { style: self.font, dpi: DISPLAY_DPI }),
            self.text@.len() <= 1000000,
        ensures
            ({
                let f = Font { style: self.font, dpi: DISPLAY_DPI };
                r == spec_plan(
                    f,
                    self.text@.len() as int,
                    Some(self.rect.spec_width() - spec_em(f)),
                )
            }),
    {
        let font = font_from_style(fonts, &self.font, DISPLAY_DPI);
        let padding = font.em();
        let max_width = self.rect.width() - padding;
        font.plan(self.text.as_str(), Some(max_width))
    }
}

} // verus!
