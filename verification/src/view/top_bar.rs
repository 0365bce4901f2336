use vstd::prelude::*;
use crate::geom::{Rectangle, Point, rect_ok, rect_roomy};
use crate::view::{
    Id, Event, ViewId, Align, Widget, WidgetKind, RenderQueue, RenderData, UpdateMode,
    SMALL_BAR_HEIGHT, THICKNESS_MEDIUM,
};
use crate::view::icon::Icon;
use crate::view::clock::Clock;
use crate::view::battery::{Battery, BatteryStatus, BatteryWidget};
use crate::view::label::Label;
use crate::view::filler::Filler;
use crate::font::Fonts;
use crate::unit::{scale_by_dpi, DISPLAY_DPI};
use crate::color::BLACK;
use crate::helpers::str_eq;

verus! {

/// The bar along a view's top edge: a root action icon, the clock, the
/// battery gauge, the frontlight toggle, the menu, the title, and a border
/// line, each found again by name.
#[derive(Debug)]
pub struct TopBar {
    pub id: Id,
    pub rect: Rectangle,
    pub children: Vec<Widget>,
    pub content_height: i32,
    pub border_thickness: i32,
    pub children_lookup: Vec<(String, usize)>,
}

/// The widths of the children, summed as the signed extent of their
/// rectangles.
pub open spec fn sum_widths(s: Seq<Widget>) -> int
    decreases s.len(),
{
    if s.len() == 0 {
        0
    } else {
        sum_widths(s.drop_last()) + (s.last().spec_rect().max.x - s.last().spec_rect().min.x)
    }
}

/// The index registered under a name: the first matching entry wins.
pub open spec fn spec_lookup(lookup: Seq<(String, usize)>, name: Seq<char>) -> Option<usize>
    decreases lookup.len(),
{
    if lookup.len() == 0 {
        None
    } else if lookup[0].0@ == name {
        Some(lookup[0].1)
    } else {
        spec_lookup(lookup.skip(1), name)
    }
}

impl TopBar {
    /// The arithmetic room the bar's layout relies on: its own rectangle
    /// bounded, the two derived thicknesses fixed by the density, few
    /// children, each with a bounded rectangle.
    pub open spec fn wf(&self) -> bool {
        &&& crate::geom::rect_bounded(self.rect, 16200000)
        &&& self.content_height == 67
        &&& self.border_thickness == 1
        &&& self.children@.len() <= 12
    }

    /// An empty bar across the top of the parent rectangle, as high as the
    /// content and the border ask.
    pub fn new_empty(parent_rect: Rectangle) -> (r: TopBar)
        requires
            rect_roomy(parent_rect),
        ensures
            r.wf(),
            r.id == 0,
            r.rect == (Rectangle {
                min: parent_rect.min,
                max: Point { x: parent_rect.max.x, y: (parent_rect.min.y + 68) as i32 },
            }),
            r.children@.len() == 0,
            r.children_lookup@.len() == 0,
    {
        let content_height = scale_by_dpi(SMALL_BAR_HEIGHT, DISPLAY_DPI);
        let border_thickness = scale_by_dpi(THICKNESS_MEDIUM, DISPLAY_DPI);
        TopBar {
            id: 0,
            rect: Rectangle {
                min: parent_rect.min,
                max: Point {
                    x: parent_rect.max.x,
                    y: parent_rect.min.y + content_height + border_thickness,
                },
            },
            children: Vec::new(),
            content_height,
            border_thickness,
            children_lookup: Vec::new(),
        }
    }

    /// The full bar: root icon, clock, battery, frontlight, menu, title
    /// and border, in that order.
    pub fn new<B: Battery>(
        parent_rect: Rectangle,
        root_event: Event,
        title: String,
        format: String,
        fonts: &Fonts,
        battery: &B,
        frontlight: bool,
    ) -> (r: TopBar)
        requires
            rect_roomy(parent_rect),
        ensures
            r.wf(),
            r.rect == (Rectangle {
                min: parent_rect.min,
                max: Point { x: parent_rect.max.x, y: (parent_rect.min.y + 68) as i32 },
            }),
            r.children@.len() == 7,
            r.children_lookup@.len() == 7,
            r.children@[0] is Icon,
            r.children@[1] is Clock,
            r.children@[2] is Battery,
            r.children@[3] is Icon,
            r.children@[4] is Icon,
            r.children@[5] is Label,
            r.children@[6] is Filler,
            r.children_lookup@[0].0@ == "menu_action"@ && r.children_lookup@[0].1 == 0,
            r.children_lookup@[1].0@ == "clock"@ && r.children_lookup@[1].1 == 1,
            r.children_lookup@[2].0@ == "battery"@ && r.children_lookup@[2].1 == 2,
            r.children_lookup@[3].0@ == "frontlight"@ && r.children_lookup@[3].1 == 3,
            r.children_lookup@[4].0@ == "menu"@ && r.children_lookup@[4].1 == 4,
            r.children_lookup@[5].0@ == "title"@ && r.children_lookup@[5].1 == 5,
            r.children_lookup@[6].0@ == "border"@ && r.children_lookup@[6].1 == 6,
            r.children@[0]->Icon_0.name@ == (if root_event is Back {
                "back"@
            } else {
                "search"@
            }),
            r.children@[3]->Icon_0.name@ == (if frontlight {
                "frontlight"@
            } else {
                "frontlight-disabled"@
            }),
            r.children@[4]->Icon_0.name@ == "menu"@,
    {
        let mut top_bar = TopBar::new_empty(parent_rect);
        top_bar.create_icon(root_event);
        top_bar.create_clock(format, fonts);
        top_bar.create_battery(battery);
        top_bar.create_frontlight(frontlight);
        top_bar.create_menu();
        top_bar.create_title(title);
        top_bar.create_border();
        top_bar
    }

    /// The root action icon at the left edge: `back` for a back event and
    /// `search` for anything else.
    pub fn create_icon(&mut self, root_event: Event)
        requires
            old(self).wf(),
            old(self).children@.len() < 12,
        ensures
            final(self).wf(),
            ({
                let name: Seq<char> = if root_event is Back {
                    "back"@
                } else {
                    "search"@
                };
                let icon_rect = Rectangle {
                    min: old(self).rect.min,
                    max: Point {
                        x: (old(self).rect.min.x + 67) as i32,
                        y: (old(self).rect.min.y + 67) as i32,
                    },
                };
                &&& final(self).children@.len() == old(self).children@.len() + 1
                &&& final(self).children@.last() is Icon
                &&& final(self).children@.last()->Icon_0.name@ == name
                &&& final(self).children@.last()->Icon_0.rect == icon_rect
                &&& final(self).children@.last()->Icon_0.event == root_event
                &&& final(self).children@.drop_last() == old(self).children@
                &&& final(self).children_lookup@ == old(self).children_lookup@.push(
                    (final(self).children_lookup@.last().0, old(self).children@.len() as usize),
                )
                &&& final(self).children_lookup@.last().0@ == "menu_action"@
                &&& *final(self) == (TopBar {
                    children: final(self).children,
                    children_lookup: final(self).children_lookup,
                    ..*old(self)
                })
            }),
    {
        let is_back = match root_event {
            Event::Back => true,
            _ => false,
        };
        let icon_name: &str = if is_back {
            "back"
        } else {
            "search"
        };
        let icon_rect = Rectangle {
            min: self.rect.min,
            max: Point { x: self.rect.min.x + self.content_height, y: self.rect.min.y + self.content_height },
        };
        let root_icon = Icon::new(icon_name, icon_rect, root_event);
        self.children_lookup.push(("menu_action".to_owned(), self.children.len()));
        self.children.push(Widget::Icon(root_icon));
    }

    /// The clock, right-aligned in the fourth content square from the right
    /// edge, shrunk to the width of the time it shows.
    pub fn create_clock(&mut self, format: String, fonts: &Fonts)
        requires
            old(self).wf(),
            old(self).children@.len() < 12,
        ensures
            final(self).wf(),
            ({
                let clock_rect = Rectangle {
                    min: Point {
                        x: (old(self).rect.max.x - 268 + 7) as i32,
                        y: old(self).rect.min.y,
                    },
                    max: Point {
                        x: (old(self).rect.max.x - 201) as i32,
                        y: (old(self).rect.min.y + 67) as i32,
                    },
                };
                &&& final(self).children@.len() == old(self).children@.len() + 1
                &&& final(self).children@.last() is Clock
                &&& final(self).children@.last()->Clock_0.rect == clock_rect
                &&& final(self).children@.last()->Clock_0.format == format
                &&& final(self).children@.drop_last() == old(self).children@
                &&& final(self).children_lookup@.drop_last() == old(self).children_lookup@
                &&& final(self).children_lookup@.len() == old(self).children_lookup@.len() + 1
                &&& final(self).children_lookup@.last().0@ == "clock"@
                &&& final(self).children_lookup@.last().1 == old(self).children@.len()
                &&& *final(self) == (TopBar {
                    children: final(self).children,
                    children_lookup: final(self).children_lookup,
                    ..*old(self)
                })
            }),
    {
        let mut clock_rect = Rectangle {
            min: Point {
                x: self.rect.max.x - self.content_height * 4,
                y: self.rect.min.y,
            },
            max: Point {
                x: self.rect.max.x - self.content_height * 3,
                y: self.rect.min.y + self.content_height,
            },
        };
        let clock_label = Clock::new(&mut clock_rect, format, fonts);
        self.children_lookup.push(("clock".to_owned(), self.children.len()));
        self.children.push(Widget::Clock(clock_label));
    }

    /// The battery gauge, in the third content square from the right edge,
    /// seeded with the current reading (zero and discharging where the
    /// driver gives none).
    pub fn create_battery<B: Battery>(&mut self, battery: &B)
        requires
            old(self).wf(),
            old(self).children@.len() < 12,
        ensures
            final(self).wf(),
            ({
                let battery_rect = Rectangle {
                    min: Point {
                        x: (old(self).rect.max.x - 201) as i32,
                        y: old(self).rect.min.y,
                    },
                    max: Point {
                        x: (old(self).rect.max.x - 134) as i32,
                        y: (old(self).rect.min.y + 67) as i32,
                    },
                };
                &&& final(self).children@.len() == old(self).children@.len() + 1
                &&& final(self).children@.last() is Battery
                &&& final(self).children@.last()->Battery_0.rect == battery_rect
                &&& final(self).children@.drop_last() == old(self).children@
                &&& final(self).children_lookup@.drop_last() == old(self).children_lookup@
                &&& final(self).children_lookup@.len() == old(self).children_lookup@.len() + 1
                &&& final(self).children_lookup@.last().0@ == "battery"@
                &&& final(self).children_lookup@.last().1 == old(self).children@.len()
                &&& *final(self) == (TopBar {
                    children: final(self).children,
                    children_lookup: final(self).children_lookup,
                    ..*old(self)
                })
            }),
    {
        let capacity = match battery.capacity() {
            Some(v) => v,
            None => 0,
        };
        let status = match battery.status() {
            Some(s) => s,
            None => BatteryStatus::Discharging,
        };
        let battery_rect = Rectangle {
            min: Point {
                x: self.rect.max.x - self.content_height * 3,
                y: self.rect.min.y,
            },
            max: Point {
                x: self.rect.max.x - self.content_height * 2,
                y: self.rect.min.y + self.content_height,
            },
        };
        let battery_widget = BatteryWidget::new(battery_rect, capacity, status);
        self.children_lookup.push(("battery".to_owned(), self.children.len()));
        self.children.push(Widget::Battery(battery_widget));
    }

    /// The frontlight toggle, in the second content square from the right
    /// edge, disabled-looking where the device has no light.
    pub fn create_frontlight(&mut self, has_frontlight: bool)
        requires
            old(self).wf(),
            old(self).children@.len() < 12,
        ensures
            final(self).wf(),
            ({
                let name: Seq<char> = if has_frontlight {
                    "frontlight"@
                } else {
                    "frontlight-disabled"@
                };
                let frontlight_rect = Rectangle {
                    min: Point {
                        x: (old(self).rect.max.x - 134) as i32,
                        y: old(self).rect.min.y,
                    },
                    max: Point {
                        x: (old(self).rect.max.x - 67) as i32,
                        y: (old(self).rect.min.y + 67) as i32,
                    },
                };
                &&& final(self).children@.len() == old(self).children@.len() + 1
                &&& final(self).children@.last() is Icon
                &&& final(self).children@.last()->Icon_0.name@ == name
                &&& final(self).children@.last()->Icon_0.rect == frontlight_rect
                &&& final(self).children@.drop_last() == old(self).children@
                &&& final(self).children_lookup@.drop_last() == old(self).children_lookup@
                &&& final(self).children_lookup@.len() == old(self).children_lookup@.len() + 1
                &&& final(self).children_lookup@.last().0@ == "frontlight"@
                &&& final(self).children_lookup@.last().1 == old(self).children@.len()
                &&& *final(self) == (TopBar {
                    children: final(self).children,
                    children_lookup: final(self).children_lookup,
                    ..*old(self)
                })
            }),
    {
        let name: &str = if has_frontlight {
            "frontlight"
        } else {
            "frontlight-disabled"
        };
        let frontlight_rect = Rectangle {
            min: Point {
                x: self.rect.max.x - self.content_height * 2,
                y: self.rect.min.y,
            },
            max: Point {
                x: self.rect.max.x - self.content_height,
                y: self.rect.min.y + self.content_height,
            },
        };
        let frontlight_icon = Icon::new(name, frontlight_rect, Event::Show(ViewId::Frontlight));
        self.children_lookup.push(("frontlight".to_owned(), self.children.len()));
        self.children.push(Widget::Icon(frontlight_icon));
    }

    /// The menu icon, in the rightmost content square.
    pub fn create_menu(&mut self)
        requires
            old(self).wf(),
            old(self).children@.len() < 12,
        ensures
            final(self).wf(),
            ({
                let menu_rect = Rectangle {
                    min: Point {
                        x: (old(self).rect.max.x - 67) as i32,
                        y: old(self).rect.min.y,
                    },
                    max: Point {
                        x: old(self).rect.max.x,
                        y: (old(self).rect.min.y + 67) as i32,
                    },
                };
                &&& final(self).children@.len() == old(self).children@.len() + 1
                &&& final(self).children@.last() is Icon
                &&& final(self).children@.last()->Icon_0.name@ == "menu"@
                &&& final(self).children@.last()->Icon_0.rect == menu_rect
                &&& final(self).children@.last()->Icon_0.event == Event::ToggleNear(
                    ViewId::MainMenu,
                    menu_rect,
                )
                &&& final(self).children@.drop_last() == old(self).children@
                &&& final(self).children_lookup@.drop_last() == old(self).children_lookup@
                &&& final(self).children_lookup@.len() == old(self).children_lookup@.len() + 1
                &&& final(self).children_lookup@.last().0@ == "menu"@
                &&& final(self).children_lookup@.last().1 == old(self).children@.len()
                &&& *final(self) == (TopBar {
                    children: final(self).children,
                    children_lookup: final(self).children_lookup,
                    ..*old(self)
                })
            }),
    {
        let menu_rect = Rectangle {
            min: Point {
                x: self.rect.max.x - self.content_height,
                y: self.rect.min.y,
            },
            max: Point { x: self.rect.max.x, y: self.rect.min.y + self.content_height },
        };
        let menu_icon = Icon::new("menu", menu_rect, Event::ToggleNear(ViewId::MainMenu, menu_rect));
        self.children_lookup.push(("menu".to_owned(), self.children.len()));
        self.children.push(Widget::Icon(menu_icon));
    }

    /// The title, centered in whatever width the other children left over.
    pub fn create_title(&mut self, title: String)
        requires
            old(self).wf(),
            old(self).children@.len() < 12,
            forall|i: int|
                0 <= i < old(self).children@.len() ==> rect_ok(
                    (#[trigger] old(self).children@[i]).spec_rect(),
                ),
        ensures
            final(self).wf(),
            ({
                let title_rect = Rectangle {
                    min: Point {
                        x: (old(self).rect.min.x + 67) as i32,
                        y: old(self).rect.min.y,
                    },
                    max: Point {
                        x: (old(self).rect.max.x - sum_widths(old(self).children@)) as i32,
                        y: (old(self).rect.min.y + 67) as i32,
                    },
                };
                &&& final(self).children@.len() == old(self).children@.len() + 1
                &&& final(self).children@.last() is Label
                &&& final(self).children@.last()->Label_0.rect == title_rect
                &&& final(self).children@.last()->Label_0.text == title
                &&& final(self).children@.last()->Label_0.align is Center
                &&& final(self).children@.last()->Label_0.event == Some(
                    Event::ToggleNear(ViewId::TitleMenu, title_rect),
                )
                &&& final(self).children@.drop_last() == old(self).children@
                &&& final(self).children_lookup@.drop_last() == old(self).children_lookup@
                &&& final(self).children_lookup@.len() == old(self).children_lookup@.len() + 1
                &&& final(self).children_lookup@.last().0@ == "title"@
                &&& final(self).children_lookup@.last().1 == old(self).children@.len()
                &&& *final(self) == (TopBar {
                    children: final(self).children,
                    children_lookup: final(self).children_lookup,
                    ..*old(self)
                })
            }),
    {
        let mut used_width: i32 = 0;
        let mut i: usize = 0;
        while i < self.children.len()
            invariant
                self.wf(),
                i <= self.children@.len(),
                forall|k: int|
                    0 <= k < self.children@.len() ==> rect_ok(
                        (#[trigger] self.children@[k]).spec_rect(),
                    ),
                used_width == sum_widths(self.children@.take(i as int)),
                -33554432 * i <= used_width <= 33554432 * i,
                -402653184 <= used_width <= 402653184,
            decreases self.children@.len() - i,
        {
            let child_rect = self.children[i].rect();
            proof {
                assert(rect_ok(self.children@[i as int].spec_rect()));
                assert(-33554432 * (i + 1) == -33554432 * i - 33554432 && 33554432 * (i + 1)
                    == 33554432 * i + 33554432) by (nonlinear_arith);
                assert(0 <= 33554432 * (i + 1) <= 402653184) by (nonlinear_arith)
                    requires
                        0 <= i + 1 <= 12,
                ;
            }
            used_width = used_width + (child_rect.max.x - child_rect.min.x);
            i = i + 1;
            proof {
                let t = self.children@.take(i as int);
                assert(t.drop_last() =~= self.children@.take(i as int - 1));
                assert(t.last() == self.children@[i as int - 1]);
            }
        }
        proof {
            assert(self.children@.take(self.children@.len() as int) =~= self.children@);
        }
        let title_rect = Rectangle {
            min: Point { x: self.rect.min.x + self.content_height, y: self.rect.min.y },
            max: Point { x: self.rect.max.x - used_width, y: self.rect.min.y + self.content_height },
        };
        let title_label = Label::new(title_rect, title, Align::Center).event(
            Some(Event::ToggleNear(ViewId::TitleMenu, title_rect)),
        );
        self.children_lookup.push(("title".to_owned(), self.children.len()));
        self.children.push(Widget::Label(title_label));
    }

    /// The border line along the bar's bottom edge.
    pub fn create_border(&mut self)
        requires
            old(self).wf(),
            old(self).children@.len() < 12,
        ensures
            final(self).wf(),
            ({
                let border_rect = Rectangle {
                    min: Point {
                        x: old(self).rect.min.x,
                        y: (old(self).rect.max.y - 1) as i32,
                    },
                    max: old(self).rect.max,
                };
                &&& final(self).children@.len() == old(self).children@.len() + 1
                &&& final(self).children@.last() is Filler
                &&& final(self).children@.last()->Filler_0.rect == border_rect
                &&& final(self).children@.last()->Filler_0.color == BLACK
                &&& final(self).children@.drop_last() == old(self).children@
                &&& final(self).children_lookup@.drop_last() == old(self).children_lookup@
                &&& final(self).children_lookup@.len() == old(self).children_lookup@.len() + 1
                &&& final(self).children_lookup@.last().0@ == "border"@
                &&& final(self).children_lookup@.last().1 == old(self).children@.len()
                &&& *final(self) == (TopBar {
                    children: final(self).children,
                    children_lookup: final(self).children_lookup,
                    ..*old(self)
                })
            }),
    {
        let border_rect = Rectangle {
            min: Point { x: self.rect.min.x, y: self.rect.max.y - self.border_thickness },
            max: self.rect.max,
        };
        let separator = Filler::new(border_rect, BLACK);
        self.children_lookup.push(("border".to_owned(), self.children.len()));
        self.children.push(Widget::Filler(separator));
    }

    /// The index a child was registered under: the first entry under the
    /// name.
    pub fn lookup(&self, name: &str) -> (r: Option<usize>)
        ensures
            r == spec_lookup(self.children_lookup@, name@),
    {
        let mut i: usize = 0;
        proof {
            assert(self.children_lookup@.skip(0) =~= self.children_lookup@);
        }
        while i < self.children_lookup.len()
            invariant
                i <= self.children_lookup@.len(),
                spec_lookup(self.children_lookup@, name@) == spec_lookup(
                    self.children_lookup@.skip(i as int),
                    name@,
                ),
            decreases self.children_lookup@.len() - i,
        {
            proof {
                assert(self.children_lookup@.skip(i as int)[0] == self.children_lookup@[i as int]);
                assert(self.children_lookup@.skip(i as int).skip(1) =~= self.children_lookup@.skip(
                    i as int + 1,
                ));
            }
            if str_eq(self.children_lookup[i].0.as_str(), name) {
                return Some(self.children_lookup[i].1);
            }
            i = i + 1;
        }
        None
    }

    /// Renames the root icon, queuing a redraw when the name changed.
    pub fn update_root_icon(&mut self, name: &str, rq: &mut RenderQueue)
        requires
            old(self).wf(),
        ensures
            final(self).wf(),
            ({
                let idx = spec_lookup(old(self).children_lookup@, "menu_action"@);
                if idx is Some && idx->0 < old(self).children@.len() && old(self).children@[
                    idx->0 as int
                ] is Icon {
                    let i = idx->0 as int;
                    let icon = old(self).children@[i]->Icon_0;
                    if icon.name@ == name@ {
                        *final(self) == *old(self) && *final(rq) == *old(rq)
                    } else {
                        &&& final(self).children@.len() == old(self).children@.len()
                        &&& final(self).children@[i] is Icon
                        &&& final(self).children@[i]->Icon_0.name@ == name@
                        &&& final(self).children@[i]->Icon_0 == (Icon {
                            name: final(self).children@[i]->Icon_0.name,
                            ..icon
                        })
                        &&& final(self).children@ == old(self).children@.update(
                            i,
                            final(self).children@[i],
                        )
                        &&& *final(self) == (TopBar {
                            children: final(self).children,
                            ..*old(self)
                        })
                        &&& final(rq).entries@ == old(rq).entries@.push(
                            RenderData { id: icon.id, rect: icon.rect, mode: UpdateMode::Gui },
                        )
                    }
                } else {
                    *final(self) == *old(self) && *final(rq) == *old(rq)
                }
            }),
    {
        match self.lookup("menu_action") {
            Some(index) => {
                if index < self.children.len() {
                    let is_icon = self.children[index].kind() == WidgetKind::Icon;
                    if is_icon {
                        let same = match &self.children[index] {
                            Widget::Icon(icon) => str_eq(icon.name.as_str(), name),
                            _ => true,
                        };
                        if !same {
                            let (icon_id, icon_rect) = match &self.children[index] {
                                Widget::Icon(icon) => (icon.id, icon.rect),
                                _ => (0, self.rect),
                            };
                            match &mut self.children[index] {
                                Widget::Icon(icon) => {
                                    icon.name = name.to_owned();
                                },
                                _ => {},
                            }
                            rq.add(RenderData::new(icon_id, icon_rect, UpdateMode::Gui));
                        }
                    }
                }
            },
            None => {},
        }
    }

    /// Forwards a new title to the title label, queuing a redraw when it
    /// changed.
    pub fn update_title_label(&mut self, title: &str, rq: &mut RenderQueue)
        requires
            old(self).wf(),
        ensures
            final(self).wf(),
            ({
                let idx = spec_lookup(old(self).children_lookup@, "title"@);
                if idx is Some && idx->0 < old(self).children@.len() && old(self).children@[
                    idx->0 as int
                ] is Label {
                    let i = idx->0 as int;
                    let lab = old(self).children@[i]->Label_0;
                    &&& final(self).children@.len() == old(self).children@.len()
                    &&& final(self).children@[i] is Label
                    &&& final(self).children@[i]->Label_0.text@ == title@
                    &&& final(self).children@[i]->Label_0 == (Label {
                        text: final(self).children@[i]->Label_0.text,
                        ..lab
                    })
                    &&& final(self).children@ == old(self).children@.update(
                        i,
                        final(self).children@[i],
                    )
                    &&& *final(self) == (TopBar { children: final(self).children, ..*old(self) })
                    &&& if lab.text@ == title@ {
                        *final(rq) == *old(rq)
                    } else {
                        final(rq).entries@ == old(rq).entries@.push(
                            RenderData { id: lab.id, rect: lab.rect, mode: UpdateMode::Gui },
                        )
                    }
                } else {
                    *final(self) == *old(self) && *final(rq) == *old(rq)
                }
            }),
    {
        match self.lookup("title") {
            Some(index) => {
                if index < self.children.len() {
                    let is_label = match &self.children[index] {
                        Widget::Label(..) => true,
                        _ => false,
                    };
                    if is_label {
                        match &mut self.children[index] {
                            Widget::Label(label) => {
                                label.update(title, rq);
                            },
                            _ => {},
                        }
                        proof {
                            assert(final(self).children@ =~= old(self).children@.update(
                                index as int,
                                final(self).children@[index as int],
                            ));
                        }
                    }
                }
            },
            None => {},
        }
    }

    /// Renames the frontlight icon after the light was toggled and queues
    /// its redraw.
    pub fn context_free_update_frontlight_icon(&mut self, rq: &mut RenderQueue, frontlight: bool)
        requires
            old(self).wf(),
        ensures
            final(self).wf(),
            ({
                let idx = spec_lookup(old(self).children_lookup@, "frontlight"@);
                let new_name: Seq<char> = if frontlight {
                    "frontlight"@
                } else {
                    "frontlight-disabled"@
                };
                if idx is Some && idx->0 < old(self).children@.len() && old(self).children@[
                    idx->0 as int
                ] is Icon {
                    let i = idx->0 as int;
                    let icon = old(self).children@[i]->Icon_0;
                    &&& final(self).children@.len() == old(self).children@.len()
                    &&& final(self).children@[i] is Icon
                    &&& final(self).children@[i]->Icon_0.name@ == new_name
                    &&& final(self).children@[i]->Icon_0 == (Icon {
                        name: final(self).children@[i]->Icon_0.name,
                        ..icon
                    })
                    &&& final(self).children@ == old(self).children@.update(
                        i,
                        final(self).children@[i],
                    )
                    &&& *final(self) == (TopBar { children: final(self).children, ..*old(self) })
                    &&& final(rq).entries@ == old(rq).entries@.push(
                        RenderData { id: icon.id, rect: icon.rect, mode: UpdateMode::Gui },
                    )
                } else {
                    *final(self) == *old(self) && *final(rq) == *old(rq)
                }
            }),
    {
        match self.lookup("frontlight") {
            Some(index) => {
                if index < self.children.len() {
                    let name: &str = if frontlight {
                        "frontlight"
                    } else {
                        "frontlight-disabled"
                    };
                    let (icon_id, icon_rect, is_icon) = match &self.children[index] {
                        Widget::Icon(icon) => (icon.id, icon.rect, true),
                        _ => (0, self.rect, false),
                    };
                    if is_icon {
                        match &mut self.children[index] {
                            Widget::Icon(icon) => {
                                icon.name = name.to_owned();
                            },
                            _ => {},
                        }
                        rq.add(RenderData::new(icon_id, icon_rect, UpdateMode::Gui));
                    }
                }
            },
            None => {},
        }
    }

    /// Queues a redraw of the clock.
    pub fn update_clock_label(&mut self, rq: &mut RenderQueue)
        requires
            old(self).wf(),
        ensures
            final(self).wf(),
            *final(self) == *old(self),
            ({
                let idx = spec_lookup(old(self).children_lookup@, "clock"@);
                if idx is Some && idx->0 < old(self).children@.len() && old(self).children@[
                    idx->0 as int
                ] is Clock {
                    let clock = old(self).children@[idx->0 as int]->Clock_0;
                    final(rq).entries@ == old(rq).entries@.push(
                        RenderData { id: clock.id, rect: clock.rect, mode: UpdateMode::Gui },
                    )
                } else {
                    *final(rq) == *old(rq)
                }
            }),
    {
        match self.lookup("clock") {
            Some(index) => {
                if index < self.children.len() {
                    match &self.children[index] {
                        Widget::Clock(clock) => {
                            clock.update(rq);
                        },
                        _ => {},
                    }
                }
            },
            None => {},
        }
    }
}

} // verus!
