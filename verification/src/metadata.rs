use vstd::prelude::*;
use crate::geom::{Rectangle, Point, rect_ok};
use crate::view::icon::DisabledIcon;
use crate::helpers::{
    str_chars, chars_eq_str, without_commas, spec_without_commas, parse_usize, spec_parse_usize,
    find_char, push_range,
};

verus! {

#[derive(Debug, Clone, Copy, PartialEq, Eq, Structural)]
pub enum Rating {
    NotRated,
    Explicit,
    Mature,
    Teen,
    General,
}

#[derive(Debug, Clone, Copy, PartialEq, Eq, Structural)]
pub enum Category {
    Slash,
    Femslash,
    Het,
    Gen,
    Multi,
    Other,
}

#[derive(Debug, Clone, Copy, PartialEq, Eq, Structural)]
pub enum Warning {
    Yes,
    No,
    ChoseNotTo,
    External,
}

/// The four required tags of a work.
#[derive(Debug, Clone, Copy, PartialEq, Eq, Structural)]
pub struct RequiredTags {
    pub rating: Rating,
    pub warnings: Warning,
    pub category: Category,
    pub complete: bool,
}

impl Default for RequiredTags {
    fn default() -> (r: RequiredTags)
        ensures
            r == (RequiredTags {
                rating: Rating::NotRated,
                warnings: Warning::ChoseNotTo,
                category: Category::Multi,
                complete: false,
            }),
    {
        RequiredTags {
            rating: Rating::NotRated,
            warnings: Warning::ChoseNotTo,
            category: Category::Multi,
            complete: false,
        }
    }
}

/// Reads a number written with thousands separators: the commas are
/// dropped and the rest must be a decimal number that fits the machine's
/// word, else the result is zero.
pub open spec fn spec_str_to_usize(s: Seq<char>) -> int {
    match spec_parse_usize(spec_without_commas(s)) {
        Some(v) => v,
        None => 0,
    }
}

pub fn str_to_usize(text: String) -> (r: usize)
    ensures
        r == spec_str_to_usize(text@),
{
    let chars = str_chars(text.as_str());
    let cleaned = without_commas(&chars);
    match parse_usize(&cleaned) {
        Some(v) => v,
        None => 0,
    }
}

/// Whether `pat` occurs at position `i` of `s`.
pub open spec fn match_at(s: Seq<char>, pat: Seq<char>, i: int) -> bool {
    0 <= i && i + pat.len() <= s.len() && s.subrange(i, i + pat.len()) == pat
}

/// The first position at or after `from` where `pat` occurs followed by at
/// least one character on the same line, or `-1`.
pub open spec fn capture_start(s: Seq<char>, pat: Seq<char>, from: int) -> int
    decreases s.len() - from,
{
    if from < 0 || from + pat.len() >= s.len() {
        -1
    } else if match_at(s, pat, from) && s[from + pat.len()] != '\n' {
        from
    } else {
        capture_start(s, pat, from + 1)
    }
}

proof fn lemma_capture_start_bounds(s: Seq<char>, pat: Seq<char>, from: int)
    requires
        0 <= from,
    ensures
        capture_start(s, pat, from) == -1 || (from <= capture_start(s, pat, from)
            && capture_start(s, pat, from) + pat.len() < s.len() && match_at(
            s,
            pat,
            capture_start(s, pat, from),
        ) && s[capture_start(s, pat, from) + pat.len()] != '\n'),
    decreases s.len() - from,
{
    if !(from < 0 || from + pat.len() >= s.len()) && !(match_at(s, pat, from) && s[from
        + pat.len()] != '\n') {
        lemma_capture_start_bounds(s, pat, from + 1);
    }
}

/// What the marker names: the characters after its first line-bound
/// occurrence, up to the end of that line.
pub open spec fn spec_capture(s: Seq<char>, pat: Seq<char>) -> Option<Seq<char>> {
    let i = capture_start(s, pat, 0);
    if i < 0 {
        None
    } else {
        let st = i + pat.len();
        let nl = find_char(s, '\n', st);
        let e: int = if nl < 0 {
            s.len() as int
        } else {
            nl
        };
        Some(s.subrange(st, e))
    }
}

fn matches_here(s: &Vec<char>, pat: &Vec<char>, i: usize) -> (r: bool)
    requires
        i + pat@.len() <= s@.len(),
    ensures
        r == (s@.subrange(i as int, i + pat@.len()) == pat@),
{
    let n = s.len();
    let mut k: usize = 0;
    while k < pat.len()
        invariant
            k <= pat@.len(),
            n == s@.len(),
            i + pat@.len() <= n,
            forall|j: int| 0 <= j < k ==> s@[i + j] == pat@[j],
        decreases pat@.len() - k,
    {
        if s[i + k] != pat[k] {
            proof {
                assert(s@.subrange(i as int, i + pat@.len())[k as int] == s@[i + k]);
            }
            return false;
        }
        k = k + 1;
    }
    proof {
        assert(s@.subrange(i as int, i + pat@.len()) =~= pat@);
    }
    true
}

/// Finds the marker's capture in the scraped text: the characters between
/// the first occurrence of `pat` that is followed by a character other
/// than a line break, and the end of that line.
fn capture_after(s: &Vec<char>, pat: &Vec<char>) -> (r: Option<Vec<char>>)
    ensures
        match r {
            Some(c) => spec_capture(s@, pat@) == Some(c@),
            None => spec_capture(s@, pat@) is None,
        },
{
    let mut i: usize = 0;
    let n = s.len();
    let pl = pat.len();
    proof {
        lemma_capture_start_bounds(s@, pat@, 0);
    }
    while i + pl < n
        invariant
            n == s@.len(),
            pl == pat@.len(),
            capture_start(s@, pat@, 0) == capture_start(s@, pat@, i as int),
            0 <= i,
            i == 0 || i + pat@.len() <= s@.len(),
        decreases s@.len() - i,
    {
        if matches_here(s, pat, i) {
            if s[i + pat.len()] != '\n' {
                proof {
                    lemma_capture_start_bounds(s@, pat@, i as int);
                    crate::helpers::lemma_find_char_bounds(s@, '\n', i + pat@.len());
                }
                let st = i + pat.len();
                let e = match crate::helpers::exec_find_char(s, '\n', st) {
                    Some(nl) => nl,
                    None => s.len(),
                };
                let mut cap: Vec<char> = Vec::new();
                push_range(&mut cap, s, st, e);
                proof {
                    assert(cap@ =~= s@.subrange(st as int, e as int));
                }
                return Some(cap);
            }
        }
        i = i + 1;
    }
    None
}

pub open spec fn spec_warning_of(s: Seq<char>) -> Warning {
    if s == "no"@ {
        Warning::No
    } else if s == "yes"@ {
        Warning::Yes
    } else if s == "choosenotto"@ {
        Warning::ChoseNotTo
    } else if s == "external"@ {
        Warning::External
    } else {
        Warning::ChoseNotTo
    }
}

pub open spec fn spec_category_of(s: Seq<char>) -> Category {
    if s == "multi"@ {
        Category::Multi
    } else if s == "other"@ {
        Category::Other
    } else if s == "femslash"@ {
        Category::Femslash
    } else if s == "gen"@ {
        Category::Gen
    } else if s == "het"@ {
        Category::Het
    } else {
        Category::Multi
    }
}

pub open spec fn spec_rating_of(s: Seq<char>) -> Rating {
    if s == "explicit"@ {
        Rating::Explicit
    } else if s == "mature"@ {
        Rating::Mature
    } else if s == "teen"@ {
        Rating::Teen
    } else if s == "general-audience"@ {
        Rating::General
    } else if s == "notrated"@ {
        Rating::NotRated
    } else {
        Rating::NotRated
    }
}

/// What the scraped required-tags markup denotes: each tag read from the
/// capture after its class marker, with the scheme's defaults where a
/// marker is missing or unrecognized.
pub open spec fn spec_required_tags(s: Seq<char>) -> RequiredTags {
    let warnings = match spec_capture(s, "warning-"@) {
        Some(c) => spec_warning_of(c),
        None => Warning::ChoseNotTo,
    };
    let category = match spec_capture(s, "category-"@) {
        Some(c) => spec_category_of(c),
        None => Category::Multi,
    };
    let complete = match spec_capture(s, "complete-"@) {
        Some(c) => c == "yes"@,
        None => false,
    };
    let rating = match spec_capture(s, "rating-"@) {
        Some(c) => spec_rating_of(c),
        None => Rating::NotRated,
    };
    RequiredTags { rating, warnings, category, complete }
}

impl RequiredTags {
    /// Reads the four required tags out of the scraped markup: for each of
    /// the four class markers, the text between the marker and the end of
    /// its line names the tag's value.
    pub fn new(data: String) -> (r: RequiredTags)
        ensures
            r == spec_required_tags(data@),
    {
        let chars = str_chars(data.as_str());

        let mut warnings = Warning::ChoseNotTo;
        let mut category = Category::Multi;
        let mut complete = false;
        let mut rating = Rating::NotRated;

        let warning_pat = str_chars("warning-");
        match capture_after(&chars, &warning_pat) {
            Some(c) => {
                warnings = if chars_eq_str(&c, "no") {
                    Warning::No
                } else if chars_eq_str(&c, "yes") {
                    Warning::Yes
                } else if chars_eq_str(&c, "choosenotto") {
                    Warning::ChoseNotTo
                } else if chars_eq_str(&c, "external") {
                    Warning::External
                } else {
                    Warning::ChoseNotTo
                };
            },
            None => {},
        }

        let category_pat = str_chars("category-");
        match capture_after(&chars, &category_pat) {
            Some(c) => {
                category = if chars_eq_str(&c, "multi") {
                    Category::Multi
                } else if chars_eq_str(&c, "other") {
                    Category::Other
                } else if chars_eq_str(&c, "femslash") {
                    Category::Femslash
                } else if chars_eq_str(&c, "gen") {
                    Category::Gen
                } else if chars_eq_str(&c, "het") {
                    Category::Het
                } else {
                    Category::Multi
                };
            },
            None => {},
        }

        let complete_pat = str_chars("complete-");
        match capture_after(&chars, &complete_pat) {
            Some(c) => {
                complete = chars_eq_str(&c, "yes");
            },
            None => {},
        }

        let rating_pat = str_chars("rating-");
        match capture_after(&chars, &rating_pat) {
            Some(c) => {
                rating = if chars_eq_str(&c, "explicit") {
                    Rating::Explicit
                } else if chars_eq_str(&c, "mature") {
                    Rating::Mature
                } else if chars_eq_str(&c, "teen") {
                    Rating::Teen
                } else if chars_eq_str(&c, "general-audience") {
                    Rating::General
                } else if chars_eq_str(&c, "notrated") {
                    Rating::NotRated
                } else {
                    Rating::NotRated
                };
            },
            None => {},
        }

        RequiredTags { rating, warnings, category, complete }
    }

    /// The four icons a work card shows for its required tags, one per
    /// quadrant of the given area. Note that the quadrant corners reuse
    /// the area's width and height as absolute coordinates, so the split
    /// is meaningful for an area anchored at the origin.
    pub fn as_icons(&self, rect: Rectangle) -> (r: Vec<DisabledIcon>)
        requires
            rect_ok(rect),
        ensures
            r@.len() == 4,
            ({
                let mid_x = rect.spec_width() / 2;
                let mid_y = rect.spec_height() / 2;
                let rating_rect = Rectangle {
                    min: rect.min,
                    max: Point { x: mid_x as i32, y: mid_y as i32 },
                };
                let cat_rect = Rectangle {
                    min: Point { x: mid_x as i32, y: rect.min.y },
                    max: Point { x: rect.max.x, y: mid_y as i32 },
                };
                let warn_rect = Rectangle {
                    min: Point { x: rect.min.x, y: mid_y as i32 },
                    max: Point { x: mid_x as i32, y: rect.max.y },
                };
                let complete_rect = Rectangle {
                    min: Point { x: mid_x as i32, y: mid_y as i32 },
                    max: rect.max,
                };
                &&& r@[0].rect == warn_rect
                &&& r@[1].rect == rating_rect
                &&& r@[2].rect == cat_rect
                &&& r@[3].rect == complete_rect
                &&& r@[0].name@ == (match self.warnings {
                    Warning::Yes => "warning"@,
                    Warning::No => "blank"@,
                    Warning::ChoseNotTo => "chosenotto"@,
                    Warning::External => "external"@,
                })
                &&& r@[1].name@ == (match self.rating {
                    Rating::Explicit => "explicit"@,
                    Rating::Mature => "mature"@,
                    Rating::Teen => "teen"@,
                    Rating::General => "general"@,
                    Rating::NotRated => "blank"@,
                })
                &&& r@[2].name@ == (match self.category {
                    Category::Slash => "slash"@,
                    Category::Femslash => "femslash"@,
                    Category::Het => "het"@,
                    Category::Multi => "multi"@,
                    Category::Other => "other"@,
                    Category::Gen => "gen"@,
                })
                &&& r@[3].name@ == (if self.complete {
                    "complete"@
                } else {
                    "wip"@
                })
            }),
    {
        let width = rect.width();
        let height = rect.height();
        let mid_x = width / 2;
        let mid_y = height / 2;

        let rating_rect = Rectangle {
            min: rect.min,
            max: Point { x: mid_x, y: mid_y },
        };
        let cat_rect = Rectangle {
            min: Point { x: mid_x, y: rect.min.y },
            max: Point { x: rect.max.x, y: mid_y },
        };
        let warn_rect = Rectangle {
            min: Point { x: rect.min.x, y: mid_y },
            max: Point { x: mid_x, y: rect.max.y },
        };
        let complete_rect = Rectangle {
            min: Point { x: mid_x, y: mid_y },
            max: rect.max,
        };

        let rating_icon = match self.rating {
            Rating::Explicit => DisabledIcon::new("explicit", rating_rect),
            Rating::Mature => DisabledIcon::new("mature", rating_rect),
            Rating::Teen => DisabledIcon::new("teen", rating_rect),
            Rating::General => DisabledIcon::new("general", rating_rect),
            Rating::NotRated => DisabledIcon::new("blank", rating_rect),
        };
        let category_icon = match self.category {
            Category::Slash => DisabledIcon::new("slash", cat_rect),
            Category::Femslash => DisabledIcon::new("femslash", cat_rect),
            Category::Het => DisabledIcon::new("het", cat_rect),
            Category::Multi => DisabledIcon::new("multi", cat_rect),
            Category::Other => DisabledIcon::new("other", cat_rect),
            Category::Gen => DisabledIcon::new("gen", cat_rect),
        };
        let complete_icon = if self.complete {
            DisabledIcon::new("complete", complete_rect)
        } else {
            DisabledIcon::new("wip", complete_rect)
        };
        let warning_icon = match self.warnings {
            Warning::Yes => DisabledIcon::new("warning", warn_rect),
            Warning::No => DisabledIcon::new("blank", warn_rect),
            Warning::ChoseNotTo => DisabledIcon::new("chosenotto", warn_rect),
            Warning::External => DisabledIcon::new("external", warn_rect),
        };

        let mut out: Vec<DisabledIcon> = Vec::new();
        out.push(warning_icon);
        out.push(rating_icon);
        out.push(category_icon);
        out.push(complete_icon);
        out
    }
}

} // verus!
