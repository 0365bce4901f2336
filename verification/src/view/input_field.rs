use vstd::prelude::*;
use crate::geom::Rectangle;
use crate::view::{Id, ViewId};

verus! {

/// A single-line text input.
#[derive(Debug, Clone, PartialEq)]
pub struct InputField {
    pub id: Id,
    pub rect: Rectangle,
    pub input_id: ViewId,
    pub text: String,
    pub placeholder: String,
    pub border: bool,
}

impl InputField {
    pub fn new(rect: Rectangle, input_id: ViewId) -> (r: InputField)
        ensures
            r.id == 0,
            r.rect == rect,
            r.input_id == input_id,
            r.text@ == ""@,
            r.placeholder@ == ""@,
            r.border,
    {
        InputField {
            id: 0,
            rect,
            input_id,
            text: "".to_owned(),
            placeholder: "".to_owned(),
            border: true,
        }
    }

    /// Builder step: whether a border is drawn.
    pub fn border(self, border: bool) -> (r: InputField)
        ensures
            r == (InputField { border, ..self }),
    {
        InputField { border, ..self }
    }

    /// Builder step: the text shown while the field is empty.
    pub fn placeholder(self, placeholder: &str) -> (r: InputField)
        ensures
            r.placeholder@ == placeholder@,
            r == (InputField { placeholder: r.placeholder, ..self }),
    {
        InputField { placeholder: placeholder.to_owned(), ..self }
    }

    /// Replaces the entered text.
    pub fn set_text(&mut self, text: &str)
        ensures
            final(self).text@ == text@,
            *final(self) == (InputField { text: final(self).text, ..*old(self) }),
    {
        self.text = text.to_owned();
    }
}

} // verus!
