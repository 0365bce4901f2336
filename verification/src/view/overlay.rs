use vstd::prelude::*;
use crate::geom::{Rectangle, Point, CycleDir};
use crate::view::{
    Id, Event, ViewId, Widget, Align, RenderQueue, RenderData, UpdateMode, SMALL_BAR_HEIGHT,
    MINI_BAR_HEIGHT, THICKNESS_MEDIUM, SMALL_PADDING, BORDER_RADIUS_MEDIUM, Location,
};
use crate::view::icon::{Icon, DisabledIcon};
use crate::view::filler::Filler;
use crate::view::textlabel::TextLabel;
use crate::view::tag::Tag;
use crate::unit::{scale_by_dpi, DISPLAY_DPI};
use crate::color::BLACK;
use crate::font::label_style;
use crate::helpers::ceil;

verus! {

/// One chapter of a work: its title and where it starts.
#[derive(Debug, Clone, PartialEq)]
pub struct Chapter {
    pub title: String,
    pub location: String,
}

/// A child of the overlay dialog itself: one of its buttons.
#[derive(Debug, Clone, PartialEq)]
pub enum PagerWidget {
    Icon(Icon),
    DisabledIcon(DisabledIcon),
}

impl PagerWidget {
    pub open spec fn spec_rect(&self) -> Rectangle {
        match *self {
            PagerWidget::Icon(ref w) => w.rect,
            PagerWidget::DisabledIcon(ref w) => w.rect,
        }
    }

    pub fn rect(&self) -> (r: Rectangle)
        ensures
            r == self.spec_rect(),
    {
        match *self {
            PagerWidget::Icon(ref w) => w.rect,
            PagerWidget::DisabledIcon(ref w) => w.rect,
        }
    }
}

/// A dialog floating over the view: a close button, pager arrows, and a
/// message area between them.
#[derive(Debug, Clone, PartialEq)]
pub struct Overlay {
    pub id: Id,
    pub rect: Rectangle,
    pub children: Vec<PagerWidget>,
    pub msg_area: Rectangle,
    pub view_id: ViewId,
    pub will_close: bool,
    pub current_page: usize,
    pub pages_count: usize,
    pub is_next_disabled: bool,
    pub is_prev_disabled: bool,
}

impl Overlay {
    pub open spec fn wf(&self) -> bool {
        &&& self.children@.len() == 3
        &&& -16000000 <= self.rect.min.x <= 16000000
        &&& -16000000 <= self.rect.min.y <= 16000000
        &&& -16000000 <= self.rect.max.x <= 16000000
        &&& -16000000 <= self.rect.max.y <= 16000000
    }

    /// A dialog centered on a display of the given size, inset from the
    /// bars, with its close button top right and the two pager arrows
    /// bottom center (both disabled until `set_max` learns of pages).
    pub fn new(view_id: ViewId, width: i32, height: i32) -> (r: Overlay)
        requires
            0 <= width <= 100000,
            214 <= height <= 100000,
        ensures
            r.wf(),
            r.view_id == view_id,
            !r.will_close,
            r.current_page == 0,
            r.pages_count == 0,
            r.is_next_disabled,
            r.is_prev_disabled,
            r.rect == (Rectangle {
                min: Point { x: 6, y: 70 },
                max: Point { x: (6 + width - 12) as i32, y: (70 + height - 207) as i32 },
            }),
            r.msg_area == (Rectangle {
                min: Point { x: 9, y: 137 },
                max: Point { x: (6 + width - 12 - 6 + 3) as i32, y: (70 + height - 207 - 134 + 67) as i32 },
            }),
            r.children@[0] is Icon,
            r.children@[0]->Icon_0.name@ == "close"@,
            r.children@[1] is DisabledIcon,
            r.children@[2] is DisabledIcon,
    {
        let small_height = scale_by_dpi(SMALL_BAR_HEIGHT, DISPLAY_DPI);
        let padding = scale_by_dpi(BORDER_RADIUS_MEDIUM, DISPLAY_DPI);
        let mut children: Vec<PagerWidget> = Vec::new();

        let overlay_width = width - 4 * padding;
        let overlay_height = height - 3 * small_height - 2 * padding;
        let max_message_width = overlay_width - 2 * padding;
        let max_message_height = overlay_height - 2 * small_height;

        let dx = (width - overlay_width) / 2;
        let dy = small_height + padding;
        let rect = Rectangle {
            min: Point { x: dx, y: dy },
            max: Point { x: dx + overlay_width, y: dy + overlay_height },
        };

        let rect_close = Rectangle {
            min: Point { x: rect.max.x - small_height - padding, y: rect.min.y + padding },
            max: Point { x: rect.max.x - padding, y: rect.min.y + padding + small_height },
        };
        let button_close = Icon::new("close", rect_close, Event::Validate);
        children.push(PagerWidget::Icon(button_close));

        let mid = width / 2;
        let rect_prev = Rectangle {
            min: Point { x: mid - small_height, y: rect.max.y - padding - small_height },
            max: Point { x: mid, y: rect.max.y - padding },
        };
        let rect_next = Rectangle {
            min: Point { x: mid, y: rect.max.y - padding - small_height },
            max: Point { x: mid + small_height, y: rect.max.y - padding },
        };
        let prev_btn = DisabledIcon::new("angle-up-grey", rect_prev);
        children.push(PagerWidget::DisabledIcon(prev_btn));
        let next_btn = DisabledIcon::new("angle-down-grey", rect_next);
        children.push(PagerWidget::DisabledIcon(next_btn));

        let msg_rect = Rectangle {
            min: Point { x: dx + padding, y: dy + small_height },
            max: Point {
                x: dx + max_message_width + padding,
                y: dy + max_message_height + small_height,
            },
        };

        Overlay {
            id: 0,
            rect,
            children,
            msg_area: msg_rect,
            view_id,
            will_close: false,
            current_page: 0,
            pages_count: 0,
            is_next_disabled: true,
            is_prev_disabled: true,
        }
    }

    /// Rebuilds the pager arrows after a page or count change: an arrow is
    /// live exactly while there is a page on its side.
    pub fn update_buttons(&mut self, rq: &mut RenderQueue)
        requires
            old(self).wf(),
        ensures
            final(self).wf(),
            final(self).is_prev_disabled == (final(self).pages_count < 2 || final(self).current_page == 0),
            final(self).is_next_disabled == (final(self).pages_count < 2 || final(self).current_page == final(self).pages_count - 1),
            final(self).pages_count == old(self).pages_count,
            final(self).current_page == old(self).current_page,
            final(self).rect == old(self).rect,
            final(self).msg_area == old(self).msg_area,
            final(self).children@.len() == 3,
    {
        let is_prev_disabled = self.pages_count < 2 || self.current_page == 0;
        if self.is_prev_disabled != is_prev_disabled {
            let rect_prev = self.children[1].rect();
            if is_prev_disabled {
                let prev = DisabledIcon::new("angle-up-grey", rect_prev);
                self.children[1] = PagerWidget::DisabledIcon(prev);
            } else {
                let prev = Icon::new(
                    "angle-up",
                    rect_prev,
                    Event::Page(CycleDir::Previous),
                );
                self.children[1] = PagerWidget::Icon(prev);
            }
            self.is_prev_disabled = is_prev_disabled;
            rq.add(RenderData::new(self.id, rect_prev, UpdateMode::Gui));
        }
        let is_next_disabled = self.pages_count < 2 || self.current_page == self.pages_count - 1;
        if self.is_next_disabled != is_next_disabled {
            let rect_next = self.children[2].rect();
            if is_next_disabled {
                let next = DisabledIcon::new("angle-down-grey", rect_next);
                self.children[2] = PagerWidget::DisabledIcon(next);
            } else {
                let next = Icon::new("angle-down", rect_next, Event::Page(CycleDir::Next));
                self.children[2] = PagerWidget::Icon(next);
            }
            self.is_next_disabled = is_next_disabled;
            rq.add(RenderData::new(self.id, rect_next, UpdateMode::Gui));
        }
    }

    /// Learns the page count and rebuilds the pager arrows accordingly.
    pub fn set_max(&mut self, max: usize)
        requires
            old(self).wf(),
        ensures
            final(self).wf(),
            final(self).pages_count == max,
            final(self).current_page == old(self).current_page,
            final(self).is_prev_disabled == (max < 2 || final(self).current_page == 0),
            final(self).is_next_disabled == (max < 2 || final(self).current_page == max - 1),
            final(self).rect == old(self).rect,
            final(self).msg_area == old(self).msg_area,
            final(self).children@.len() == 3,
    {
        self.pages_count = max;
        let is_prev_disabled = self.pages_count < 2 || self.current_page == 0;
        if self.is_prev_disabled != is_prev_disabled {
            let rect_prev = self.children[1].rect();
            if is_prev_disabled {
                let prev = DisabledIcon::new("angle-up-grey", rect_prev);
                self.children[1] = PagerWidget::DisabledIcon(prev);
            } else {
                let prev = Icon::new(
                    "angle-up",
                    rect_prev,
                    Event::Page(CycleDir::Previous),
                );
                self.children[1] = PagerWidget::Icon(prev);
            }
            self.is_prev_disabled = is_prev_disabled;
        }
        let is_next_disabled = self.pages_count < 2 || self.current_page == self.pages_count - 1;
        if self.is_next_disabled != is_next_disabled {
            let rect_next = self.children[2].rect();
            if is_next_disabled {
                let next = DisabledIcon::new("angle-down-grey", rect_next);
                self.children[2] = PagerWidget::DisabledIcon(next);
            } else {
                let next = Icon::new("angle-down", rect_next, Event::Page(CycleDir::Next));
                self.children[2] = PagerWidget::Icon(next);
            }
            self.is_next_disabled = is_next_disabled;
        }
    }

    /// The area a client dialog may fill with content.
    pub fn msg_rect(&self) -> (r: Rectangle)
        ensures
            r == self.msg_area,
    {
        self.msg_area
    }
}

/// How many chapter rows fit in a message area.
pub fn row_calc(rect: Rectangle) -> (r: usize)
    requires
        crate::geom::rect_ok(rect),
        rect.spec_height() + 1 >= 0,
    ensures
        r == (rect.spec_height() + 1) / 56,
{
    let small_height = scale_by_dpi(MINI_BAR_HEIGHT, DISPLAY_DPI);
    let thickness = scale_by_dpi(THICKNESS_MEDIUM, DISPLAY_DPI);
    let rows = (rect.height() + thickness) / small_height;
    rows as usize
}

/// The chapter list dialog: an overlay whose message area lists one page
/// of chapters, a separator line above each row and below the last.
#[derive(Debug)]
pub struct Chapters {
    pub id: Id,
    pub overlay: Overlay,
    pub children: Vec<Widget>,
    pub view_id: ViewId,
    pub entries: Vec<Chapter>,
    pub rows: usize,
    pub current_page: usize,
    pub max_pages: usize,
}

impl Chapters {
    pub open spec fn wf(&self) -> bool {
        &&& self.overlay.wf()
        &&& 1 <= self.rows <= 10000
        &&& self.current_page <= 10000
        &&& crate::geom::rect_ok(self.overlay.msg_area)
        &&& self.overlay.msg_area.spec_height() <= 100000
        &&& self.entries@.len() <= 100000
    }

    /// The dialog for a chapter list on a display of the given size.
    pub fn new(entries: Vec<Chapter>, width: i32, height: i32) -> (r: Chapters)
        requires
            300 <= width <= 100000,
            400 <= height <= 100000,
            entries@.len() <= 100000,
        ensures
            r.wf(),
            r.entries == entries,
            r.current_page == 0,
            r.max_pages >= 1,
            r.children@.len() == 1,
            r.children@[0] is Overlay,
    {
        let mut overlay = Overlay::new(ViewId::ChapterList, width, height);
        let rows = row_calc(overlay.msg_rect());
        let max_pages = if entries.len() > 0 {
            let mp = ceil(entries.len(), rows);
            proof {
                assert(mp >= 1) by (nonlinear_arith)
                    requires
                        entries@.len() <= mp * rows,
                        entries@.len() >= 1,
                        0 <= mp,
                ;
            }
            mp
        } else {
            1
        };
        overlay.set_max(max_pages);
        let mut children: Vec<Widget> = Vec::new();
        children.push(Widget::Overlay(overlay.clone()));
        Chapters {
            id: 0,
            overlay,
            children,
            view_id: ViewId::ChapterList,
            entries,
            rows,
            current_page: 0,
            max_pages,
        }
    }

    /// Rebuilds the rows for the current page: above each chapter a
    /// separator line, then its label, and one closing separator.
    pub fn update_chapters(&mut self)
        requires
            old(self).wf(),
            old(self).children@.len() >= 1,
        ensures
            final(self).wf(),
            ({
                let start = final(self).current_page * final(self).rows;
                let len = final(self).entries@.len();
                let end: int = if start + final(self).rows < len {
                    start + final(self).rows
                } else {
                    len as int
                };
                let shown: int = if end >= start + 1 {
                    end - start
                } else {
                    0
                };
                &&& final(self).children@.len() == (if len == 0 {
                    1int
                } else {
                    2 + 2 * shown
                })
                &&& final(self).children@[0] == old(self).children@[0]
                &&& forall|k: int|
                    0 <= k < shown ==> (#[trigger] final(self).children@[2 + 2 * k]) is TextLabel
                        && final(self).children@[2 + 2 * k]->TextLabel_0.text == final(self).entries@[start + k].title
                &&& forall|k: int|
                    0 <= k < shown ==> (#[trigger] final(self).children@[1 + 2 * k]) is Filler
            }),
            final(self).entries == old(self).entries,
            final(self).rows == old(self).rows,
            final(self).current_page == old(self).current_page,
            final(self).overlay == old(self).overlay,
            final(self).children@.len() >= 1,
    {
        let rect = self.overlay.msg_rect();
        let thickness = scale_by_dpi(THICKNESS_MEDIUM, DISPLAY_DPI);
        let padding = scale_by_dpi(SMALL_PADDING, DISPLAY_DPI);
        let row_height = rect.height() / self.rows as i32;
        let x_min = rect.min.x;
        let x_max = rect.max.x;
        let mut start_y = rect.min.y;

        self.children.truncate(1);

        if self.entries.len() > 0 {
            proof {
                assert(self.current_page <= 10000 && 1 <= self.rows <= 10000);
                assert(0 <= self.current_page * self.rows <= 100000000) by (nonlinear_arith)
                    requires
                        0 <= self.current_page <= 10000,
                        0 <= self.rows <= 10000,
                ;
            }
            let start = self.current_page * self.rows;
            let mut end = start + self.rows;
            end = if end < self.entries.len() {
                end
            } else {
                self.entries.len()
            };
            let ghost shown: int = if end as int >= start + 1 {
                end - start
            } else {
                0int
            };
            let mut n = start;
            proof {
                assert(0 <= row_height <= 100000) by (nonlinear_arith)
                    requires
                        row_height == rect.spec_height() / (self.rows as int),
                        0 <= rect.spec_height() <= 100000,
                        1 <= self.rows,
                ;
            }
            while n < end
                invariant
                    start <= n,
                    n <= end || n == start,
                    end <= self.entries@.len(),
                    end <= start + self.rows,
                    self.wf(),
                    rect == self.overlay.msg_area,
                    row_height == rect.spec_height() / (self.rows as int),
                    0 <= row_height <= 100000,
                    start_y == rect.min.y + (n - start) * row_height,
                    0 <= (n - start) * row_height <= 100000,
                    -16777216 <= rect.min.x <= 16777216,
                    -16777216 <= rect.max.x <= 16777216,
                    -16777216 <= rect.min.y <= 16777216,
                    0 <= thickness <= 10,
                    0 <= padding <= 100,
                    n - start <= self.rows,
                    self.rows <= 10000,
                    self.children@.len() == 1 + 2 * (n - start),
                    self.children@.len() >= 1,
                    self.children@[0] == old(self).children@[0],
                    forall|k: int|
                        0 <= k < n - start ==> (#[trigger] self.children@[2 + 2 * k]) is TextLabel
                            && self.children@[2 + 2 * k]->TextLabel_0.text == self.entries@[
                            start + k
                        ].title,
                    forall|k: int|
                        0 <= k < n - start ==> (#[trigger] self.children@[1 + 2 * k]) is Filler,
                    *self == (Chapters { children: self.children, ..*old(self) }),
                decreases end - n,
            {
                proof {
                    assert((n - start + 1) * row_height <= self.rows * row_height)
                        by (nonlinear_arith)
                        requires
                            n - start + 1 <= self.rows,
                            0 <= row_height,
                    ;
                    assert(self.rows * row_height <= rect.spec_height()) by (nonlinear_arith)
                        requires
                            row_height == rect.spec_height() / (self.rows as int),
                            1 <= self.rows,
                            0 <= rect.spec_height(),
                    ;
                    assert((n - start + 1) * row_height == (n - start) * row_height + row_height)
                        by (nonlinear_arith);
                    assert(0 <= (n - start + 1) * row_height) by (nonlinear_arith)
                        requires
                            0 <= n - start + 1,
                            0 <= row_height,
                    ;
                }
                let sep_rect = Rectangle {
                    min: Point { x: x_min, y: start_y },
                    max: Point { x: x_max, y: start_y + thickness },
                };
                let sep = Filler::new(sep_rect, BLACK);
                self.children.push(Widget::Filler(sep));
                let label_rect = Rectangle {
                    min: Point { x: x_min, y: start_y + thickness },
                    max: Point { x: x_max, y: start_y + row_height },
                };
                let loc = Location::Uri(self.entries[n].location.clone());
                let chapter = TextLabel::new(
                    label_rect,
                    self.entries[n].title.clone(),
                    Align::Left(padding),
                    label_style(),
                    Event::GoToLocation(loc),
                );
                self.children.push(Widget::TextLabel(chapter));
                start_y = start_y + row_height;
                n = n + 1;
            }
            let sep_rect = Rectangle {
                min: Point { x: x_min, y: start_y },
                max: Point { x: x_max, y: start_y + thickness },
            };
            let sep = Filler::new(sep_rect, BLACK);
            self.children.push(Widget::Filler(sep));
        }
    }
}

/// One laid-out page of the about dialog.
#[derive(Debug, Clone, PartialEq)]
pub struct PageInfo {
    pub start: usize,
    pub end: usize,
    pub elements: Vec<Tag>,
}

impl PageInfo {
    pub fn new(start: usize, end: usize, elements: Vec<Tag>) -> (r: PageInfo)
        ensures
            r == (PageInfo { start, end, elements }),
    {
        PageInfo { start, end, elements }
    }
}

/// The about dialog: an overlay whose message area pages through the
/// work's laid-out tags.
#[derive(Debug)]
pub struct About {
    pub id: Id,
    pub overlay: Overlay,
    pub children: Vec<Widget>,
    pub view_id: ViewId,
    pub pages: Vec<Vec<Tag>>,
    pub current_page: usize,
    pub max_pages: usize,
}

impl About {
    /// Assembles the dialog from its overlay and already-laid-out pages.
    pub fn from_pages(overlay: Overlay, pages: Vec<Vec<Tag>>) -> (r: About)
        requires
            pages@.len() >= 1,
        ensures
            r.overlay == overlay,
            r.pages == pages,
            r.current_page == 0,
            r.max_pages == pages@.len(),
            r.children@.len() == 1,
            r.children@[0] is Overlay,
    {
        let max_pages = pages.len();
        let mut children: Vec<Widget> = Vec::new();
        children.push(Widget::Overlay(overlay.clone()));
        About {
            id: 0,
            overlay,
            children,
            view_id: ViewId::AboutOverlay,
            pages,
            current_page: 0,
            max_pages,
        }
    }

    /// Replaces the shown tags with copies of the current page's, keeping
    /// the overlay as the first child.
    pub fn update_page(&mut self)
        requires
            old(self).current_page < old(self).pages@.len(),
            old(self).children@.len() >= 1,
        ensures
            final(self).children@.len() == 1 + old(self).pages@[old(self).current_page as int]@.len(),
            final(self).children@[0] == old(self).children@[0],
            forall|k: int|
                0 <= k < old(self).pages@[old(self).current_page as int]@.len() ==> (
                #[trigger] final(self).children@[1 + k]) is Tag,
            *final(self) == (About { children: final(self).children, ..*old(self) }),
    {
        self.children.truncate(1);
        let page = self.pages[self.current_page].clone();
        let mut i: usize = 0;
        while i < page.len()
            invariant
                i <= page@.len(),
                page@.len() == old(self).pages@[old(self).current_page as int]@.len(),
                self.children@.len() == 1 + i,
                self.children@[0] == old(self).children@[0],
                forall|k: int| 0 <= k < i ==> (#[trigger] self.children@[1 + k]) is Tag,
                *self == (About { children: self.children, ..*old(self) }),
            decreases page@.len() - i,
        {
            self.children.push(Widget::Tag(page[i].clone()));
            i = i + 1;
        }
    }
}

/// The actions dialog shown over a work index.
#[derive(Debug)]
pub struct WorksOverlay {
    pub id: Id,
    pub children: Vec<Widget>,
    pub view_id: ViewId,
    pub overlay: Overlay,
}

impl WorksOverlay {
    pub fn new(width: i32, height: i32) -> (r: WorksOverlay)
        requires
            0 <= width <= 100000,
            214 <= height <= 100000,
        ensures
            r.view_id is Overlay,
            r.children@.len() == 1,
            r.children@[0] is Overlay,
            r.overlay.wf(),
    {
        let overlay = Overlay::new(ViewId::Overlay, width, height);
        let mut children: Vec<Widget> = Vec::new();
        children.push(Widget::Overlay(overlay.clone()));
        WorksOverlay { id: 0, children, view_id: ViewId::Overlay, overlay }
    }
}

} // verus!
