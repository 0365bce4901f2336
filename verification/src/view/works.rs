use vstd::prelude::*;
use crate::geom::Rectangle;
use crate::view::{Id, ViewId, Widget};

verus! {

/// Which slice of the reading history an index view shows.
#[derive(Debug, Clone, Copy, PartialEq, Eq, Structural)]
pub enum HistoryView {
    Full,
    MarkedForLater,
}

/// What kind of work index a view was opened for.
#[derive(Debug, Clone, PartialEq)]
pub enum IndexType {
    TagWorks,
    History(HistoryView),
    Search(String),
}

/// How much of a work's metadata its card shows.
#[derive(Debug, Clone, Copy, PartialEq, Eq, Structural)]
pub enum WorkView {
    Long,
    Short,
}

/// Whether a cached index page still matches the site.
#[derive(Debug, Clone, Copy, PartialEq, Eq, Structural)]
pub enum PageStatus {
    Clean,
    Dirty,
}

/// One fetched page of a work index: the scraped work cards, and whether
/// they are still current.
#[derive(Debug, Clone, PartialEq)]
pub struct IndexPage {
    pub works: Vec<String>,
    pub status: PageStatus,
}

impl IndexPage {
    pub fn new(works: Vec<String>, status: PageStatus) -> (r: IndexPage)
        ensures
            r == (IndexPage { works, status }),
    {
        IndexPage { works, status }
    }
}

/// The work index view's own state; its children are built by the
/// embedding shell from fetched pages.
#[derive(Debug)]
pub struct Works {
    pub id: Id,
    pub rect: Rectangle,
    pub children: Vec<Widget>,
    pub current_page: usize,
    pub pages_count: usize,
    pub works_count: Option<usize>,
    pub works_lines: usize,
    pub shelf_index: usize,
    pub focus: Option<ViewId>,
    pub query: Option<String>,
}

impl Works {
    pub fn new_empty(rect: Rectangle) -> (r: Works)
        ensures
            r.id == 0,
            r.rect == rect,
            r.children@.len() == 0,
            r.current_page == 0,
            r.pages_count == 0,
            r.works_count is None,
            r.works_lines == 0,
            r.shelf_index == 0,
            r.focus is None,
            r.query is None,
    {
        Works {
            id: 0,
            rect,
            children: Vec::new(),
            current_page: 0,
            pages_count: 0,
            works_count: None,
            works_lines: 0,
            shelf_index: 0,
            focus: None,
            query: None,
        }
    }
}

/// The bar above an index listing its title.
#[derive(Debug)]
pub struct ToolBar {
    pub id: Id,
    pub rect: Rectangle,
    pub children: Vec<Widget>,
    pub reflowable: bool,
    pub has_chapters: bool,
}

impl ToolBar {
    pub fn new_empty(rect: Rectangle, reflowable: bool, has_chapters: bool) -> (r: ToolBar)
        ensures
            r.id == 0,
            r.rect == rect,
            r.children@.len() == 0,
            r.reflowable == reflowable,
            r.has_chapters == has_chapters,
    {
        ToolBar { id: 0, rect, children: Vec::new(), reflowable, has_chapters }
    }
}

} // verus!
