use vstd::prelude::*;

verus! {

#[derive(Debug, Clone, Copy, PartialEq, Eq, Structural)]
pub enum RotationLock {
    Landscape,
    Portrait,
    Current,
}

#[derive(Debug, Clone, Copy, PartialEq, Eq, Structural)]
pub enum ButtonScheme {
    Natural,
    Inverted,
}

#[derive(Debug, Clone, Copy, PartialEq, Eq, Structural, Hash)]
pub enum IntermKind {
    Suspend,
    PowerOff,
    Share,
}

impl IntermKind {
    /// The label shown while the device rests in this intermission.
    pub fn text(&self) -> (r: &'static str)
        ensures
            *self is Suspend ==> r@ == "Sleeping"@,
            *self is PowerOff ==> r@ == "Powered off"@,
            *self is Share ==> r@ == "Shared"@,
    {
        match self {
            IntermKind::Suspend => "Sleeping",
            IntermKind::PowerOff => "Powered off",
            IntermKind::Share => "Shared",
        }
    }
}

/// The image shown for each intermission kind, as a path or one of the
/// special `logo:`/`cover:` names.
#[derive(Debug, Clone, PartialEq, Eq)]
pub struct Intermissions {
    pub suspend: String,
    pub power_off: String,
    pub share: String,
}

impl Intermissions {
    pub fn get(&self, kind: IntermKind) -> (r: &String)
        ensures
            kind is Suspend ==> r == self.suspend,
            kind is PowerOff ==> r == self.power_off,
            kind is Share ==> r == self.share,
    {
        match kind {
            IntermKind::Suspend => &self.suspend,
            IntermKind::PowerOff => &self.power_off,
            IntermKind::Share => &self.share,
        }
    }
}

#[derive(Debug, Clone, Copy, PartialEq, Eq, Structural)]
pub enum LibraryMode {
    Database,
    Filesystem,
}

#[derive(Debug, Clone, Copy, PartialEq, Eq, Structural)]
pub enum SortMethod {
    Opened,
    Added,
    Size,
    Kind,
    Author,
    Title,
    Year,
    Length,
    Progress,
    FileName,
}

#[derive(Debug, Clone, Copy, PartialEq, Eq, Structural)]
pub enum FirstColumn {
    TitleAndAuthor,
    FileName,
}

#[derive(Debug, Clone, Copy, PartialEq, Eq, Structural)]
pub enum SecondColumn {
    Progress,
    Year,
}

#[derive(Debug, Clone, Copy, PartialEq, Eq, Structural)]
pub struct Columns {
    pub first: FirstColumn,
    pub second: SecondColumn,
}

/// A directory watched by a hook program, with optional display overrides.
#[derive(Debug, Clone, PartialEq, Eq)]
pub struct Hook {
    pub path: String,
    pub program: String,
    pub sort_method: Option<SortMethod>,
    pub first_column: Option<FirstColumn>,
    pub second_column: Option<SecondColumn>,
}

impl Default for Hook {
    fn default() -> (r: Hook)
        ensures
            r.path@ == ""@,
            r.program@ == ""@,
            r.sort_method is None,
            r.first_column is None,
            r.second_column is None,
    {
        Hook {
            path: "".to_owned(),
            program: "".to_owned(),
            sort_method: None,
            first_column: None,
            second_column: None,
        }
    }
}

#[derive(Debug, Clone, PartialEq, Eq)]
pub struct LibrarySettings {
    pub name: String,
    pub path: String,
    pub mode: LibraryMode,
    pub sort_method: SortMethod,
    pub first_column: FirstColumn,
    pub second_column: SecondColumn,
    pub thumbnail_previews: bool,
    pub hooks: Vec<Hook>,
}

impl Default for LibrarySettings {
    fn default() -> (r: LibrarySettings)
        ensures
            r.name@ == "Unnamed"@,
            r.path@ == "/"@,
            r.mode is Database,
            r.sort_method is Opened,
            r.first_column is TitleAndAuthor,
            r.second_column is Progress,
            r.thumbnail_previews,
            r.hooks@.len() == 0,
    {
        LibrarySettings {
            name: "Unnamed".to_owned(),
            path: "/".to_owned(),
            mode: LibraryMode::Database,
            sort_method: SortMethod::Opened,
            first_column: FirstColumn::TitleAndAuthor,
            second_column: SecondColumn::Progress,
            thumbnail_previews: true,
            hooks: Vec::new(),
        }
    }
}

#[derive(Debug, Clone, PartialEq, Eq, Structural)]
pub struct HomeSettings {
    pub address_bar: bool,
    pub navigation_bar: bool,
    pub max_levels: usize,
    pub max_trash_size: u64,
}

impl Default for HomeSettings {
    fn default() -> (r: HomeSettings)
        ensures
            !r.address_bar,
            r.navigation_bar,
            r.max_levels == 3,
            r.max_trash_size == 33554432u64,
    {
        HomeSettings {
            address_bar: false,
            navigation_bar: true,
            max_levels: 3,
            max_trash_size: 33554432,
        }
    }
}

#[derive(Debug, Clone, Copy, PartialEq, Eq, Structural)]
pub struct RefreshRatePair {
    pub regular: u8,
    pub inverted: u8,
}

/// The refresh rates, global and per document kind; the per-kind overrides
/// are keyed by the lower-case file extension.
#[derive(Debug, Clone, PartialEq, Eq)]
pub struct RefreshRateSettings {
    pub global: RefreshRatePair,
    pub by_kind: Vec<(String, RefreshRatePair)>,
}

impl Default for RefreshRateSettings {
    fn default() -> (r: RefreshRateSettings)
        ensures
            r.global == (RefreshRatePair { regular: 8u8, inverted: 2u8 }),
            r.by_kind@.len() == 0,
    {
        RefreshRateSettings {
            global: RefreshRatePair { regular: 8, inverted: 2 },
            by_kind: Vec::new(),
        }
    }
}

#[derive(Debug, Clone, Copy, PartialEq, Eq, Structural)]
pub enum FinishedAction {
    Notify,
    Close,
}

#[derive(Debug, Clone, Copy, PartialEq, Eq, Structural)]
pub enum SouthEastCornerAction {
    NextPage,
    GoToPage,
}

#[derive(Debug, Clone, Copy, PartialEq, Eq, Structural)]
pub enum BottomRightGestureAction {
    ToggleDithered,
    ToggleInverted,
}

#[derive(Debug, Clone, Copy, PartialEq, Eq, Structural)]
pub enum SouthStripAction {
    ToggleBars,
    NextPage,
}

#[derive(Debug, Clone, Copy, PartialEq, Eq, Structural)]
pub enum EastStripAction {
    PreviousPage,
    NextPage,
    Disabled,
}

#[derive(Debug, Clone, Copy, PartialEq, Eq, Structural)]
pub enum WestStripAction {
    PreviousPage,
    NextPage,
    Disabled,
}

} // verus!
