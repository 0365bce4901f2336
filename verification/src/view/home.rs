use vstd::prelude::*;
use crate::geom::{Rectangle, Point, rect_roomy};
use crate::view::{
    Id, Event, ViewId, Widget, WidgetKind, RenderQueue, RenderData, UpdateMode, locate, rlocate,
    SMALL_BAR_HEIGHT, BIG_BAR_HEIGHT, THICKNESS_MEDIUM,
};
use crate::view::filler::Filler;
use crate::view::top_bar::TopBar;
use crate::view::bottom_bar::BottomBar;
use crate::view::keyboard::Keyboard;
use crate::view::search_bar::SearchBar;
use crate::view::fave::Fave;
use crate::view::battery::Battery;
use crate::font::Fonts;
use crate::unit::{scale_by_dpi, DISPLAY_DPI};
use crate::color::{BLACK, WHITE};
use crate::geom::halves;

verus! {

/// The home view: background, top bar, the favorite searches, and a
/// bottom bar; opening the search adds a search bar and a keyboard.
#[derive(Debug)]
pub struct Home {
    pub id: Id,
    pub rect: Rectangle,
    pub children: Vec<Widget>,
    pub view_id: ViewId,
    pub shelf_index: usize,
    pub focus: Option<ViewId>,
    pub query: Option<String>,
}

impl Home {
    pub open spec fn wf(&self) -> bool {
        &&& rect_roomy(self.rect)
        &&& self.rect.spec_height() >= 500
    }

    pub fn new_empty(rect: Rectangle) -> (r: Home)
        requires
            rect_roomy(rect),
            rect.spec_height() >= 500,
        ensures
            r.wf(),
            r.id == 0,
            r.rect == rect,
            r.children@.len() == 0,
            r.view_id is Home,
            r.shelf_index == 0,
            r.focus is None,
            r.query is None,
    {
        Home {
            id: 0,
            rect,
            children: Vec::new(),
            view_id: ViewId::Home,
            shelf_index: 0,
            focus: None,
            query: None,
        }
    }

    /// The full home view for a logged-in or anonymous reader with the
    /// given favorite searches (each a title and a location).
    pub fn new<B: Battery>(
        rect: Rectangle,
        rq: &mut RenderQueue,
        format: String,
        fonts: &Fonts,
        battery: &B,
        frontlight: bool,
        logged_in: bool,
        faves: &Vec<(String, String)>,
    ) -> (r: Home)
        requires
            rect_roomy(rect),
            rect.spec_height() >= 500,
            faves@.len() <= 1000,
        ensures
            r.wf(),
            r.children@.len() >= 4,
            r.children@[0] is Filler,
            r.children@[1] is TopBar,
            logged_in ==> r.children@[2] is Fave,
            r.children@.last() is BottomBar,
            r.children@[r.children@.len() - 2] is Filler,
    {
        let mut home = Home::new_empty(rect);
        home.create_background();
        proof {
            assert(home.children@.len() == 1);
            assert(home.children@[0] is Filler);
        }
        home.create_top_bar(format, fonts, battery, frontlight);
        proof {
            assert(home.children@.len() == 2);
            assert(home.children@[0] is Filler);
            assert(home.children@[1] is TopBar);
        }
        let mut top_pos: i32 = 68;
        if logged_in {
            home.create_marked_for_later(top_pos);
            let last_rect = home.children[home.children.len() - 1].rect();
            top_pos = last_rect.max.y - home.rect.min.y;
        }
        let bottom_bar_top = home.rect.max.y - home.rect.min.y - 68;
        let mut fav_index: usize = 0;
        while fav_index < faves.len()
            invariant
                home.wf(),
                home.rect == rect,
                fav_index <= faves@.len(),
                faves@.len() <= 1000,
                home.children@.len() >= 2,
                home.children@.len() <= 3 + fav_index + (if logged_in { 1int } else { 0int }),
                0 <= top_pos <= 15000000,
                home.children@[0] is Filler,
                home.children@[1] is TopBar,
                logged_in ==> home.children@.len() >= 3 && home.children@[2] is Fave,
            decreases faves@.len() - fav_index,
        {
            if top_pos > 100000 {
                break;
            }
            home.create_fav_search(
                faves[fav_index].0.clone(),
                faves[fav_index].1.clone(),
                top_pos,
            );
            let last_rect = home.children[home.children.len() - 1].rect();
            top_pos = last_rect.max.y - home.rect.min.y;
            let row_height = last_rect.max.y - last_rect.min.y;
            fav_index = fav_index + 1;
            if top_pos + row_height > bottom_bar_top {
                break;
            }
        }
        let shelf = home.children.len() - 1;
        home.set_shelf_index(shelf);
        home.create_bottom_bar();
        rq.add(RenderData::new(home.id, rect, UpdateMode::Full));
        home
    }

    /// The white background filling the whole view.
    pub fn create_background(&mut self)
        requires
            old(self).wf(),
        ensures
            final(self).wf(),
            final(self).children@ == old(self).children@.push(
                Widget::Filler(Filler { id: 0u64, rect: old(self).rect, color: WHITE }),
            ),
            *final(self) == (Home { children: final(self).children, ..*old(self) }),
    {
        let bg = Filler::new(self.rect, WHITE);
        self.children.push(Widget::Filler(bg));
    }

    /// The top bar across the view's top edge.
    pub fn create_top_bar<B: Battery>(
        &mut self,
        format: String,
        fonts: &Fonts,
        battery: &B,
        frontlight: bool,
    )
        requires
            old(self).wf(),
        ensures
            final(self).wf(),
            final(self).children@.len() == old(self).children@.len() + 1,
            final(self).children@.last() is TopBar,
            final(self).children@.last()->TopBar_0.rect == (Rectangle {
                min: old(self).rect.min,
                max: Point { x: old(self).rect.max.x, y: (old(self).rect.min.y + 68) as i32 },
            }),
            final(self).children@.drop_last() == old(self).children@,
            forall|k: int|
                0 <= k < old(self).children@.len() ==> final(self).children@[k] == (#[trigger] old(
                    self,
                ).children@[k]),
            *final(self) == (Home { children: final(self).children, ..*old(self) }),
    {
        let top_bar = TopBar::new(
            self.rect,
            Event::Toggle(ViewId::SearchBar),
            "Favorite Tags".to_owned(),
            format,
            fonts,
            battery,
            frontlight,
        );
        self.children.push(Widget::TopBar(top_bar));
    }

    /// The separator and pager bar along the view's bottom edge.
    pub fn create_bottom_bar(&mut self)
        requires
            old(self).wf(),
        ensures
            final(self).wf(),
            final(self).children@.len() == old(self).children@.len() + 2,
            final(self).children@[final(self).children@.len() - 2] is Filler,
            final(self).children@.last() is BottomBar,
            final(self).children@.last()->BottomBar_0.rect == (Rectangle {
                min: Point {
                    x: old(self).rect.min.x,
                    y: (old(self).rect.max.y - 67 + 1) as i32,
                },
                max: old(self).rect.max,
            }),
            forall|k: int|
                0 <= k < old(self).children@.len() ==> final(self).children@[k] == (#[trigger] old(
                    self,
                ).children@[k]),
            *final(self) == (Home { children: final(self).children, ..*old(self) }),
    {
        let thickness = scale_by_dpi(THICKNESS_MEDIUM, DISPLAY_DPI);
        let small_height = scale_by_dpi(SMALL_BAR_HEIGHT, DISPLAY_DPI);
        let (small_thickness, big_thickness) = halves(thickness);
        let separator = Filler::new(
            Rectangle {
                min: Point {
                    x: self.rect.min.x,
                    y: self.rect.max.y - small_height - small_thickness,
                },
                max: Point {
                    x: self.rect.max.x,
                    y: self.rect.max.y - small_height + big_thickness,
                },
            },
            BLACK,
        );
        self.children.push(Widget::Filler(separator));
        let bottom_bar = BottomBar::new(
            Rectangle {
                min: Point {
                    x: self.rect.min.x,
                    y: self.rect.max.y - small_height + big_thickness,
                },
                max: self.rect.max,
            },
            0,
            1,
        );
        self.children.push(Widget::BottomBar(bottom_bar));
    }

    /// The link to the marked-for-later view, `top_pos` below the view's
    /// top edge.
    pub fn create_marked_for_later(&mut self, top_pos: i32)
        requires
            old(self).wf(),
            0 <= top_pos <= 100000,
        ensures
            final(self).wf(),
            final(self).children@.len() == old(self).children@.len() + 1,
            final(self).children@.last() is Fave,
            final(self).children@.last()->Fave_0.rect == Fave::new_empty_rect(
                old(self).rect,
                top_pos as int,
            ),
            final(self).children@.drop_last() == old(self).children@,
            forall|k: int|
                0 <= k < old(self).children@.len() ==> final(self).children@[k] == (#[trigger] old(
                    self,
                ).children@[k]),
            *final(self) == (Home { children: final(self).children, ..*old(self) }),
    {
        let marked_for_later = Fave::new(
            self.rect,
            top_pos,
            "Marked For Later".to_owned(),
            Event::LoadHistory(crate::view::works::HistoryView::MarkedForLater),
        );
        self.children.push(Widget::Fave(marked_for_later));
    }

    /// One favorite search row, `top_pos` below the view's top edge.
    pub fn create_fav_search(&mut self, title: String, location: String, top_pos: i32)
        requires
            old(self).wf(),
            0 <= top_pos <= 100000,
        ensures
            final(self).wf(),
            final(self).children@.len() == old(self).children@.len() + 1,
            final(self).children@.last() is Fave,
            final(self).children@.last()->Fave_0.rect == Fave::new_empty_rect(
                old(self).rect,
                top_pos as int,
            ),
            final(self).children@.drop_last() == old(self).children@,
            forall|k: int|
                0 <= k < old(self).children@.len() ==> final(self).children@[k] == (#[trigger] old(
                    self,
                ).children@[k]),
            *final(self) == (Home { children: final(self).children, ..*old(self) }),
    {
        let fave = Fave::new(self.rect, top_pos, title, Event::LoadIndex(location));
        self.children.push(Widget::Fave(fave));
    }

    pub fn set_shelf_index(&mut self, index: usize)
        ensures
            *final(self) == (Home { shelf_index: index, ..*old(self) }),
    {
        self.shelf_index = index;
    }

    /// Opens the search: a keyboard above the bottom bar, and the search
    /// bar above the shelf.
    pub fn open_search_bar(&mut self, keyboard_name: String, rq: &mut RenderQueue)
        requires
            old(self).wf(),
            old(self).shelf_index + 1 <= old(self).children@.len(),
        ensures
            final(self).wf(),
            *final(self) == (Home { children: final(self).children, ..*old(self) }),
            final(self).children@.len() == old(self).children@.len() + 2,
    {
        let small_height = scale_by_dpi(SMALL_BAR_HEIGHT, DISPLAY_DPI);
        let big_height = scale_by_dpi(BIG_BAR_HEIGHT, DISPLAY_DPI);
        let thickness = scale_by_dpi(THICKNESS_MEDIUM, DISPLAY_DPI);
        let (_small_thickness, big_thickness) = halves(thickness);

        let index = match rlocate(&self.children, WidgetKind::BottomBar) {
            Some(i) => i,
            None => self.children.len(),
        };
        let raw_min_y = if index < self.children.len() {
            self.children[index].rect().min.y
        } else {
            self.rect.max.y
        };
        // A child pushed by this view lies on the layout plane; anything
        // else is clamped to it before the keyboard is sized from it.
        let bottom_bar_min_y = if raw_min_y > 16000000 {
            16000000
        } else if raw_min_y < -16000000 {
            -16000000
        } else {
            raw_min_y
        };

        let kb_top = bottom_bar_min_y - (small_height + 3 * big_height) + big_thickness;
        let mut kb_rect = Rectangle {
            min: Point { x: self.rect.min.x, y: kb_top },
            max: Point { x: self.rect.max.x, y: bottom_bar_min_y },
        };
        let keyboard = Keyboard::new(&mut kb_rect, false, keyboard_name);
        let insert_at = if index > 0 && index - 1 <= self.children.len() {
            index - 1
        } else {
            0
        };
        self.children.insert(insert_at, Widget::Keyboard(keyboard));

        let keyboard_pos = kb_rect;
        let search_space = Rectangle {
            min: self.rect.min,
            max: Point { x: self.rect.max.x, y: keyboard_pos.min.y },
        };
        if search_space.max.y - search_space.min.y >= 68 && search_space.min.x <= search_space.max.x
            && search_space.min.y <= search_space.max.y {
            let search_bar = SearchBar::new(
                search_space,
                ViewId::SiteTextSearchInput,
                "Search Ao3",
            );
            let at = if self.shelf_index + 1 <= self.children.len() {
                self.shelf_index + 1
            } else {
                self.children.len()
            };
            self.children.insert(at, Widget::SearchBar(search_bar));
        } else {
            // No room above the keyboard: a collapsed bar stands in, so
            // that closing the search removes the same pair of children.
            let search_bar = SearchBar {
                id: 0,
                rect: Rectangle { min: self.rect.min, max: self.rect.min },
                children: Vec::new(),
            };
            let at = if self.shelf_index + 1 <= self.children.len() {
                self.shelf_index + 1
            } else {
                self.children.len()
            };
            self.children.insert(at, Widget::SearchBar(search_bar));
        }
        rq.add(RenderData::new(self.id, self.rect, UpdateMode::Gui));
    }

    /// Closes the search: removes the search bar and the keyboard and
    /// forgets the query.
    pub fn close_search_bar(&mut self, rq: &mut RenderQueue)
        requires
            old(self).wf(),
        ensures
            final(self).wf(),
            *final(self) == (Home {
                children: final(self).children,
                query: None,
                ..*old(self)
            }),
            forall|k: int|
                0 <= k < final(self).children@.len() ==> !((#[trigger] final(self).children@[
                    k
                ]) is SearchBar) && !(final(self).children@[k] is Keyboard),
            old(self).children@.len() >= final(self).children@.len(),
    {
        loop
            invariant
                self.wf(),
                *self == (Home { children: self.children, query: self.query, ..*old(self) }),
                self.children@.len() <= old(self).children@.len(),
            ensures
                forall|k: int|
                    0 <= k < self.children@.len() ==> !((#[trigger] self.children@[
                        k
                    ]) is SearchBar),
                *self == (Home { children: self.children, query: self.query, ..*old(self) }),
                self.children@.len() <= old(self).children@.len(),
            decreases self.children@.len(),
        {
            match rlocate(&self.children, WidgetKind::SearchBar) {
                Some(i) => {
                    let _ = self.children.remove(i);
                },
                None => {
                    break;
                },
            }
        }
        loop
            invariant
                self.wf(),
                *self == (Home { children: self.children, query: self.query, ..*old(self) }),
                self.children@.len() <= old(self).children@.len(),
                forall|k: int|
                    0 <= k < self.children@.len() ==> !((#[trigger] self.children@[
                        k
                    ]) is SearchBar),
            ensures
                forall|k: int|
                    0 <= k < self.children@.len() ==> !((#[trigger] self.children@[
                        k
                    ]) is SearchBar) && !(self.children@[k] is Keyboard),
                *self == (Home { children: self.children, query: self.query, ..*old(self) }),
                self.children@.len() <= old(self).children@.len(),
            decreases self.children@.len(),
        {
            match rlocate(&self.children, WidgetKind::Keyboard) {
                Some(i) => {
                    let ghost before = self.children@;
                    let _ = self.children.remove(i);
                    proof {
                        assert(forall|k: int|
                            0 <= k < self.children@.len() ==> (#[trigger] self.children@[k])
                                == if k < i as int {
                                before[k]
                            } else {
                                before[k + 1]
                            });
                    }
                },
                None => {
                    break;
                },
            }
        }
        self.query = None;
        rq.add(RenderData::new(self.id, self.rect, UpdateMode::Gui));
    }

    /// Handles the search-related events: toggling, closing, submitting
    /// (which raises a search load), the submit shortcut, and focus
    /// changes. Events the search does not care about are left to the
    /// caller, with `false`.
    pub fn handle_search_events(
        &mut self,
        evt: &Event,
        keyboard_name: String,
        rq: &mut RenderQueue,
        hub: &mut Vec<Event>,
    ) -> (handled: bool)
        requires
            old(self).wf(),
            old(self).shelf_index + 1 <= old(self).children@.len(),
        ensures
            final(self).wf(),
            match *evt {
                Event::Toggle(ViewId::SearchBar) => handled,
                Event::ToggleNear(ViewId::SearchMenu, _) => handled && final(hub)@ == old(hub)@.push(Event::SubmitInput(ViewId::SiteTextSearchInput)),
                Event::Close(ViewId::SearchBar) => handled,
                Event::Submit(ViewId::SiteTextSearchInput, ref text) => handled && final(hub)@ == old(hub)@.push(Event::LoadSearch(*text)),
                Event::Focus(v) => handled && final(self).focus == v,
                _ => !handled && *final(self) == *old(self) && *final(hub) == *old(hub),
            },
    {
        match evt {
            Event::Toggle(ViewId::SearchBar) => {
                let has_search = match locate(&self.children, WidgetKind::SearchBar) {
                    Some(_) => true,
                    None => false,
                };
                if has_search {
                    self.close_search_bar(rq);
                } else {
                    self.open_search_bar(keyboard_name, rq);
                    hub.push(Event::Focus(Some(ViewId::SiteTextSearchInput)));
                }
                true
            },
            Event::ToggleNear(ViewId::SearchMenu, _) => {
                hub.push(Event::SubmitInput(ViewId::SiteTextSearchInput));
                true
            },
            Event::Close(ViewId::SearchBar) => {
                self.close_search_bar(rq);
                true
            },
            Event::Submit(ViewId::SiteTextSearchInput, text) => {
                self.close_search_bar(rq);
                hub.push(Event::LoadSearch(text.clone()));
                true
            },
            Event::Focus(v) => {
                if self.focus != *v {
                    self.focus = *v;
                }
                true
            },
            _ => false,
        }
    }
}

} // verus!
