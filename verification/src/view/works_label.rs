use vstd::prelude::*;
use crate::geom::Rectangle;
use crate::view::{Id, RenderQueue, RenderData, UpdateMode};
use crate::helpers::{usize_to_string, spec_dec_digits};

verus! {

/// The caption telling which slice of the found works is on screen.
#[derive(Debug, Clone, Copy, PartialEq, Eq, Structural)]
pub struct WorksLabel {
    pub id: Id,
    pub rect: Rectangle,
    pub current_page: usize,
    pub works_count: usize,
    pub maxlines: usize,
}

/// The caption's text at a verbosity tier: the visible range, then ever
/// shorter forms of the total as space runs out.
pub open spec fn spec_works_text(w: WorksLabel, size: u8) -> Seq<char> {
    if w.works_count == 0 {
        "No works"@
    } else {
        let start = w.maxlines * w.current_page;
        let end: int = if start + w.maxlines > w.works_count {
            w.works_count as int
        } else {
            start + w.maxlines
        };
        let range = spec_dec_digits(start as int) + " - "@ + spec_dec_digits(end);
        if size == 0 {
            range + " of "@ + spec_dec_digits(w.works_count as int) + " works"@
        } else if size == 1 {
            range + " of "@ + spec_dec_digits(w.works_count as int)
        } else {
            range
        }
    }
}

impl WorksLabel {
    pub fn new(rect: Rectangle, current_page: usize, works_count: usize, maxlines: usize) -> (r:
        WorksLabel)
        ensures
            r == (WorksLabel { id: 0u64, rect, current_page, works_count, maxlines }),
    {
        WorksLabel { id: 0, rect, current_page, works_count, maxlines }
    }

    /// Takes the new page position over, queuing a redraw when anything
    /// changed.
    pub fn update(
        &mut self,
        current_page: usize,
        works_count: usize,
        maxlines: usize,
        rq: &mut RenderQueue,
    )
        ensures
            *final(self) == (WorksLabel { current_page, works_count, maxlines, ..*old(self) }),
            (old(self).current_page == current_page && old(self).works_count == works_count && old(
                self,
            ).maxlines == maxlines) ==> *final(rq) == *old(rq),
            !(old(self).current_page == current_page && old(self).works_count == works_count && old(
                self,
            ).maxlines == maxlines) ==> final(rq).entries@ == old(rq).entries@.push(
                RenderData { id: old(self).id, rect: old(self).rect, mode: UpdateMode::Gui },
            ),
    {
        let mut render = false;
        if self.current_page != current_page {
            self.current_page = current_page;
            render = true;
        }
        if self.works_count != works_count {
            self.works_count = works_count;
            render = true;
        }
        if self.maxlines != maxlines {
            self.maxlines = maxlines;
            render = true;
        }
        if render {
            rq.add(RenderData::new(self.id, self.rect, UpdateMode::Gui));
        }
    }

    /// The caption's text at a verbosity tier.
    pub fn text(&self, size: u8) -> (r: String)
        requires
            self.maxlines <= 10000,
            self.current_page <= 100000,
        ensures
            r@ == spec_works_text(*self, size),
    {
        if self.works_count == 0 {
            return "No works".to_owned();
        }
        proof {
            crate::classify::lemma_mul_bound(
                self.maxlines as int,
                self.current_page as int,
                10000,
                100000,
            );
        }
        let start = self.maxlines * self.current_page;
        let end = if start + self.maxlines > self.works_count {
            self.works_count
        } else {
            start + self.maxlines
        };
        let mut out = usize_to_string(start);
        out.push_str(" - ");
        out.push_str(usize_to_string(end).as_str());
        if size == 0 {
            out.push_str(" of ");
            out.push_str(usize_to_string(self.works_count).as_str());
            out.push_str(" works");
        } else if size == 1 {
            out.push_str(" of ");
            out.push_str(usize_to_string(self.works_count).as_str());
        }
        out
    }
}

} // verus!
