use vstd::prelude::*;
use crate::geom::{Rectangle, CycleDir};
use crate::gesture::GestureEvent;
use crate::gesture::DeviceEvent;

pub mod battery;
pub mod bottom_bar;
pub mod fave;
pub mod filler;
pub mod home;
pub mod icon;
pub mod input_field;
pub mod keyboard;
pub mod label;
pub mod clock;
pub mod overlay;
pub mod search_bar;
pub mod tag;
pub mod text;
pub mod textlabel;
pub mod top_bar;
pub mod works;
pub mod works_label;

use self::battery::BatteryWidget;
use self::bottom_bar::BottomBar;
use self::fave::Fave;
use self::filler::Filler;
use self::icon::{Icon, DisabledIcon};
use self::input_field::InputField;
use self::keyboard::Keyboard;
use self::label::Label;
use self::clock::Clock;
use self::overlay::Overlay;
use self::search_bar::SearchBar;
use self::tag::Tag;
use self::text::Text;
use self::textlabel::TextLabel;
use self::top_bar::TopBar;
use self::works_label::WorksLabel;

verus! {

/// A widget identity. Identities are not modeled by this core; every
/// widget carries zero and an embedding shell may renumber them.
pub type Id = u64;

/// Bar heights and paddings, in pixels at the 300 dots-per-inch reference
/// density.
pub const SMALL_BAR_HEIGHT: i32 = 126;

pub const BIG_BAR_HEIGHT: i32 = 252;

pub const MINI_BAR_HEIGHT: i32 = 105;

pub const THICKNESS_LARGE: i32 = 4;

pub const THICKNESS_MEDIUM: i32 = 2;

pub const THICKNESS_THIN: i32 = 1;

pub const SMALL_PADDING: i32 = 20;

pub const BORDER_RADIUS_MEDIUM: i32 = 6;

#[derive(Debug, Clone, Copy, PartialEq, Eq, Structural, Hash)]
pub enum ViewId {
    Home,
    SearchBar,
    SiteTextSearchInput,
    SearchMenu,
    MainMenu,
    TitleMenu,
    BatteryMenu,
    ClockMenu,
    Frontlight,
    ChapterList,
    AboutOverlay,
    Overlay,
    KeyboardView,
}

/// A place inside a document.
#[derive(Debug, Clone, PartialEq, Eq)]
pub enum Location {
    Uri(String),
}

/// An application event, passed between widgets and the event hub.
#[derive(Debug, Clone, PartialEq)]
pub enum Event {
    Device(DeviceEvent),
    Gesture(GestureEvent),
    Back,
    Validate,
    Cancel,
    Reseed,
    ClockTick,
    BatteryTick,
    ToggleFrontlight,
    Show(ViewId),
    Toggle(ViewId),
    ToggleNear(ViewId, Rectangle),
    Close(ViewId),
    Submit(ViewId, String),
    SubmitInput(ViewId),
    Focus(Option<ViewId>),
    LoadSearch(String),
    LoadIndex(String),
    LoadHistory(crate::view::works::HistoryView),
    GoToLocation(Location),
    Page(CycleDir),
}

#[derive(Debug, Clone, Copy, PartialEq, Eq, Structural)]
pub enum Align {
    Left(i32),
    Center,
    Right(i32),
}

impl Align {
    /// The horizontal offset of a block of the given width inside a
    /// container.
    pub fn offset(&self, width: i32, container_width: i32) -> (r: i32)
        requires
            -16777216 <= width <= 16777216,
            -16777216 <= container_width <= 16777216,
            *self is Left ==> -16777216 <= self->Left_0 <= 16777216,
            *self is Right ==> -16777216 <= self->Right_0 <= 16777216,
        ensures
            r == match *self {
                Align::Left(pad) => pad as int,
                Align::Center => if container_width >= width {
                    (container_width - width) / 2
                } else {
                    -((width - container_width) / 2)
                },
                Align::Right(pad) => container_width - width - pad,
            },
    {
        match *self {
            Align::Left(pad) => pad,
            Align::Center => {
                if container_width >= width {
                    (container_width - width) / 2
                } else {
                    -((width - container_width) / 2)
                }
            },
            Align::Right(pad) => container_width - width - pad,
        }
    }
}

#[derive(Debug, Clone, Copy, PartialEq, Eq, Structural)]
pub enum UpdateMode {
    Full,
    Partial,
    Gui,
    Fast,
}

/// One pending redraw: the widget, the area and the refresh mode.
#[derive(Debug, Clone, Copy, PartialEq, Eq, Structural)]
pub struct RenderData {
    pub id: Id,
    pub rect: Rectangle,
    pub mode: UpdateMode,
}

impl RenderData {
    pub fn new(id: Id, rect: Rectangle, mode: UpdateMode) -> (r: RenderData)
        ensures
            r == (RenderData { id, rect, mode }),
    {
        RenderData { id, rect, mode }
    }
}

/// The ordered queue of redraws the renderer will perform.
#[derive(Debug, Clone, PartialEq)]
pub struct RenderQueue {
    pub entries: Vec<RenderData>,
}

impl RenderQueue {
    pub fn new() -> (q: RenderQueue)
        ensures
            q.entries@.len() == 0,
    {
        RenderQueue { entries: Vec::new() }
    }

    pub fn add(&mut self, data: RenderData)
        ensures
            final(self).entries@ == old(self).entries@.push(data),
    {
        self.entries.push(data);
    }

    pub fn len(&self) -> (r: usize)
        ensures
            r == self.entries@.len(),
    {
        self.entries.len()
    }
}

/// The kind of a widget, for locating children in a container.
#[derive(Debug, Clone, Copy, PartialEq, Eq, Structural)]
pub enum WidgetKind {
    Filler,
    Icon,
    DisabledIcon,
    Label,
    Clock,
    Battery,
    InputField,
    Keyboard,
    BottomBar,
    TopBar,
    Fave,
    SearchBar,
    TextLabel,
    Text,
    Tag,
    Overlay,
    WorksLabel,
}

/// A child widget of a container.
#[derive(Debug)]
pub enum Widget {
    Filler(Filler),
    Icon(Icon),
    DisabledIcon(DisabledIcon),
    Label(Label),
    Clock(Clock),
    Battery(BatteryWidget),
    InputField(InputField),
    Keyboard(Keyboard),
    BottomBar(BottomBar),
    TopBar(TopBar),
    Fave(Fave),
    SearchBar(SearchBar),
    TextLabel(TextLabel),
    Text(Text),
    Tag(Tag),
    Overlay(Overlay),
    WorksLabel(WorksLabel),
}

impl Widget {
    pub open spec fn spec_kind(&self) -> WidgetKind {
        match *self {
            Widget::Filler(..) => WidgetKind::Filler,
            Widget::Icon(..) => WidgetKind::Icon,
            Widget::DisabledIcon(..) => WidgetKind::DisabledIcon,
            Widget::Label(..) => WidgetKind::Label,
            Widget::Clock(..) => WidgetKind::Clock,
            Widget::Battery(..) => WidgetKind::Battery,
            Widget::InputField(..) => WidgetKind::InputField,
            Widget::Keyboard(..) => WidgetKind::Keyboard,
            Widget::BottomBar(..) => WidgetKind::BottomBar,
            Widget::TopBar(..) => WidgetKind::TopBar,
            Widget::Fave(..) => WidgetKind::Fave,
            Widget::SearchBar(..) => WidgetKind::SearchBar,
            Widget::TextLabel(..) => WidgetKind::TextLabel,
            Widget::Text(..) => WidgetKind::Text,
            Widget::Tag(..) => WidgetKind::Tag,
            Widget::Overlay(..) => WidgetKind::Overlay,
            Widget::WorksLabel(..) => WidgetKind::WorksLabel,
        }
    }

    pub fn kind(&self) -> (k: WidgetKind)
        ensures
            k == self.spec_kind(),
    {
        match *self {
            Widget::Filler(..) => WidgetKind::Filler,
            Widget::Icon(..) => WidgetKind::Icon,
            Widget::DisabledIcon(..) => WidgetKind::DisabledIcon,
            Widget::Label(..) => WidgetKind::Label,
            Widget::Clock(..) => WidgetKind::Clock,
            Widget::Battery(..) => WidgetKind::Battery,
            Widget::InputField(..) => WidgetKind::InputField,
            Widget::Keyboard(..) => WidgetKind::Keyboard,
            Widget::BottomBar(..) => WidgetKind::BottomBar,
            Widget::TopBar(..) => WidgetKind::TopBar,
            Widget::Fave(..) => WidgetKind::Fave,
            Widget::SearchBar(..) => WidgetKind::SearchBar,
            Widget::TextLabel(..) => WidgetKind::TextLabel,
            Widget::Text(..) => WidgetKind::Text,
            Widget::Tag(..) => WidgetKind::Tag,
            Widget::Overlay(..) => WidgetKind::Overlay,
            Widget::WorksLabel(..) => WidgetKind::WorksLabel,
        }
    }

    pub open spec fn spec_rect(&self) -> Rectangle {
        match *self {
            Widget::Filler(ref w) => w.rect,
            Widget::Icon(ref w) => w.rect,
            Widget::DisabledIcon(ref w) => w.rect,
            Widget::Label(ref w) => w.rect,
            Widget::Clock(ref w) => w.rect,
            Widget::Battery(ref w) => w.rect,
            Widget::InputField(ref w) => w.rect,
            Widget::Keyboard(ref w) => w.rect,
            Widget::BottomBar(ref w) => w.rect,
            Widget::TopBar(ref w) => w.rect,
            Widget::Fave(ref w) => w.rect,
            Widget::SearchBar(ref w) => w.rect,
            Widget::TextLabel(ref w) => w.rect,
            Widget::Text(ref w) => w.rect,
            Widget::Tag(ref w) => w.rect,
            Widget::Overlay(ref w) => w.rect,
            Widget::WorksLabel(ref w) => w.rect,
        }
    }

    pub fn rect(&self) -> (r: Rectangle)
        ensures
            r == self.spec_rect(),
    {
        match *self {
            Widget::Filler(ref w) => w.rect,
            Widget::Icon(ref w) => w.rect,
            Widget::DisabledIcon(ref w) => w.rect,
            Widget::Label(ref w) => w.rect,
            Widget::Clock(ref w) => w.rect,
            Widget::Battery(ref w) => w.rect,
            Widget::InputField(ref w) => w.rect,
            Widget::Keyboard(ref w) => w.rect,
            Widget::BottomBar(ref w) => w.rect,
            Widget::TopBar(ref w) => w.rect,
            Widget::Fave(ref w) => w.rect,
            Widget::SearchBar(ref w) => w.rect,
            Widget::TextLabel(ref w) => w.rect,
            Widget::Text(ref w) => w.rect,
            Widget::Tag(ref w) => w.rect,
            Widget::Overlay(ref w) => w.rect,
            Widget::WorksLabel(ref w) => w.rect,
        }
    }
}

/// The first child of the given kind.
pub fn locate(children: &Vec<Widget>, kind: WidgetKind) -> (r: Option<usize>)
    ensures
        match r {
            Some(i) => i < children@.len() && children@[i as int].spec_kind() == kind && forall|
                j: int,
            | 0 <= j < i ==> (#[trigger] children@[j]).spec_kind() != kind,
            None => forall|j: int|
                0 <= j < children@.len() ==> (#[trigger] children@[j]).spec_kind() != kind,
        },
{
    let mut i: usize = 0;
    while i < children.len()
        invariant
            i <= children@.len(),
            forall|j: int| 0 <= j < i ==> (#[trigger] children@[j]).spec_kind() != kind,
        decreases children@.len() - i,
    {
        if children[i].kind() == kind {
            return Some(i);
        }
        i = i + 1;
    }
    None
}

/// The last child of the given kind.
pub fn rlocate(children: &Vec<Widget>, kind: WidgetKind) -> (r: Option<usize>)
    ensures
        match r {
            Some(i) => i < children@.len() && children@[i as int].spec_kind() == kind && forall|
                j: int,
            | i < j < children@.len() ==> (#[trigger] children@[j]).spec_kind() != kind,
            None => forall|j: int|
                0 <= j < children@.len() ==> (#[trigger] children@[j]).spec_kind() != kind,
        },
{
    let mut i: usize = children.len();
    while i > 0
        invariant
            i <= children@.len(),
            forall|j: int| i <= j < children@.len() ==> (#[trigger] children@[j]).spec_kind() != kind,
        decreases i,
    {
        i = i - 1;
        if children[i].kind() == kind {
            return Some(i);
        }
    }
    None
}

} // verus!
