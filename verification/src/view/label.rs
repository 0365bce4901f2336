use vstd::prelude::*;
use crate::geom::Rectangle;
use crate::view::{Id, Event, Align, RenderQueue, RenderData, UpdateMode};

verus! {

/// A line of text, optionally reacting to taps with an event.
#[derive(Debug, Clone, PartialEq)]
pub struct Label {
    pub id: Id,
    pub rect: Rectangle,
    pub text: String,
    pub align: Align,
    pub event: Option<Event>,
}

impl Label {
    pub fn new(rect: Rectangle, text: String, align: Align) -> (r: Label)
        ensures
            r.id == 0,
            r.rect == rect,
            r.text == text,
            r.align == align,
            r.event is None,
    {
        Label { id: 0, rect, text, align, event: None }
    }

    /// Builder step attaching the tap event.
    pub fn event(self, event: Option<Event>) -> (r: Label)
        ensures
            r == (Label { event, ..self }),
    {
        Label { event, ..self }
    }

    /// Replaces the text, queuing a redraw when it changed.
    pub fn update(&mut self, text: &str, rq: &mut RenderQueue)
        ensures
            final(self).text@ == text@,
            *final(self) == (Label { text: final(self).text, ..*old(self) }),
            old(self).text@ == text@ ==> *final(rq) == *old(rq),
            old(self).text@ != text@ ==> final(rq).entries@ == old(rq).entries@.push(
                RenderData { id: old(self).id, rect: old(self).rect, mode: UpdateMode::Gui },
            ),
    {
        let new_text = text.to_owned();
        if !crate::helpers::str_eq(self.text.as_str(), text) {
            self.text = new_text;
            rq.add(RenderData::new(self.id, self.rect, UpdateMode::Gui));
        } else {
            self.text = new_text;
        }
    }
}

} // verus!
