use vstd::prelude::*;
use crate::geom::{Rectangle, Point, rect_roomy};
use crate::view::Id;
use crate::font::{
    Fonts, Font, Style, RenderPlan, font_from_style, font_ok, plan_ok, spec_plan, spec_em,
    spec_advance,
};
use crate::unit::DISPLAY_DPI;
use crate::helpers::unicode_split;

verus! {

/// What a tag shows: its text, where it leads, and its style.
#[derive(Debug, Clone, PartialEq)]
pub struct TagInfo {
    pub text: String,
    pub location: Option<String>,
    pub style: Style,
}

impl TagInfo {
    pub fn new(text: String, location: Option<String>, style: Style) -> (r: TagInfo)
        ensures
            r == (TagInfo { text, location, style }),
    {
        TagInfo { text, location, style }
    }
}

/// One wrapped line of a tag: its text and the baseline point it is drawn
/// at.
#[derive(Debug, Clone, PartialEq)]
pub struct TagElement {
    pub text: String,
    pub pt: Point,
}

impl TagElement {
    pub fn new(text: String, pt: Point) -> (r: TagElement)
        ensures
            r == (TagElement { text, pt }),
    {
        TagElement { text, pt }
    }
}

/// A tappable tag, wrapped onto up to five lines; each line has its own
/// background rectangle.
#[derive(Debug, Clone, PartialEq)]
pub struct Tag {
    pub id: Id,
    pub active: bool,
    pub rect: Rectangle,
    pub rects: Vec<Rectangle>,
    pub elements: Vec<TagElement>,
    pub has_loc: bool,
    pub info: TagInfo,
}

impl Tag {
    pub open spec fn wf(&self) -> bool {
        &&& self.rects@.len() == self.elements@.len()
        &&& self.rects@.len() >= 1
    }

    /// Lays the tag's text out from `rect`, wrapping at the tag width onto
    /// continuation lines of `wrap_width` starting at `offset`, five lines
    /// at most, the last line cropped. For text that fits its first line,
    /// the layout is a single element at the line's baseline.
    pub fn new(rect: Rectangle, info: TagInfo, wrap_width: i32, offset: i32, fonts: &Fonts) -> (r:
        Tag)
        requires
            rect_roomy(rect),
            rect.spec_height() <= 10000,
            spec_em(Font { style: info.style, dpi: DISPLAY_DPI }) * 3 / 2 <= rect.spec_height(),
            0 <= wrap_width <= 100000,
            -100000 <= offset <= 100000,
            font_ok(Font { style: info.style, dpi: DISPLAY_DPI }),
            info.text@.len() <= 1000000,
        ensures
            r.wf(),
            r.id == 0,
            !r.active,
            r.info == info,
            r.has_loc == (info.location is Some),
            r.rects@.len() <= 5,
            ({
                let f = Font { style: info.style, dpi: DISPLAY_DPI };
                let plan = spec_plan(f, info.text@.len() as int, None);
                let height = rect.spec_height();
                let line_height = spec_em(f) * 3 / 2;
                let line_diff = (height - line_height) / 3;
                plan.width <= rect.spec_width() ==> {
                    &&& r.rect == rect
                    &&& r.rects@.len() == 1
                    &&& r.elements@[0].text == info.text
                    &&& r.elements@[0].pt == (Point {
                        x: (rect.min.x + line_diff * 2) as i32,
                        y: (rect.min.y + line_height + line_diff) as i32,
                    })
                    &&& r.rects@[0] == (Rectangle {
                        min: Point {
                            x: (rect.min.x + line_diff) as i32,
                            y: (rect.min.y + line_diff) as i32,
                        },
                        max: Point {
                            x: (rect.min.x + line_diff * 2 + plan.width + line_diff * 2) as i32,
                            y: (rect.min.y + height) as i32,
                        },
                    })
                }
            }),
    {
        let mut elements: Vec<TagElement> = Vec::new();
        let mut rects: Vec<Rectangle> = Vec::new();
        let mut our_rect = rect;

        let height = rect.max.y - rect.min.y;
        let mut width = rect.max.x - rect.min.x;
        let font = font_from_style(fonts, &info.style, DISPLAY_DPI);

        let mut plan = font.plan(info.text.as_str(), None);
        let mut lines: usize = 1;

        let line_height = font.line_height();
        let line_diff = (height - line_height) / 3;
        let mut start_x = rect.min.x + line_diff * 2;
        let mut start_y = rect.min.y;
        let has_loc = info.location.is_some();
        let mut text = info.text.clone();
        let ghost f = Font { style: info.style, dpi: DISPLAY_DPI };

        while lines < 5
            invariant
                1 <= lines <= 5,
                rects@.len() == elements@.len(),
                rects@.len() == lines - 1,
                plan_ok(plan),
                plan.advance == spec_advance(f),
                font == f,
                font_ok(f),
                text@.len() == plan.count,
                -16100000 <= start_x <= 16100000,
                rect_roomy(rect),
                height == rect.spec_height(),
                0 <= height <= 10000,
                0 <= wrap_width <= 100000,
                -100000 <= offset <= 100000,
                start_y == rect.min.y + (lines - 1) * height,
                rect.min.y <= start_y <= rect.min.y + 5 * 10000,
                0 <= line_diff <= 3400,
                0 <= line_height <= 2600,
                line_height <= height,
                0 <= width <= 33000000,
                (spec_plan(f, info.text@.len() as int, None).width <= rect.spec_width()) ==> (
                lines == 1 && plan == spec_plan(f, info.text@.len() as int, None) && text == info.text
                    && width == rect.spec_width() && start_x == rect.min.x + line_diff * 2
                    && start_y == rect.min.y && our_rect == rect && rects@.len() == 0),
            decreases 5 - lines,
        {
            if plan.width > width {
                let (index, usable_width) = font.cut_point(&plan, width);
                let temp_plan = plan.split_off(index, usable_width);
                proof {
                    crate::classify::lemma_mul_bound(
                        plan.advance as int,
                        plan.count as int,
                        1000,
                        1000000,
                    );
                }
                let split = unicode_split(text.as_str(), index);
                let head = split.0;
                let rest = split.1;
                let pt = Point { x: start_x, y: start_y + line_height + line_diff };
                elements.push(TagElement { text: head, pt });
                if lines == 1 {
                    rects.push(
                        Rectangle {
                            min: Point { x: start_x - line_diff * 2, y: start_y + line_diff },
                            max: Point {
                                x: start_x + plan.width + line_diff,
                                y: start_y + height,
                            },
                        },
                    );
                } else {
                    rects.push(
                        Rectangle {
                            min: Point { x: start_x - line_diff, y: start_y + line_diff },
                            max: Point {
                                x: start_x + plan.width + line_diff,
                                y: start_y + height,
                            },
                        },
                    );
                }
                plan = temp_plan;
                text = rest;
                if lines == 1 {
                    width = wrap_width;
                    start_x = offset + line_diff;
                }
                proof {
                    assert(lines * height == (lines - 1) * height + height) by (nonlinear_arith);
                    assert(0 <= lines * height <= 50000) by (nonlinear_arith)
                        requires
                            1 <= lines <= 4,
                            0 <= height <= 10000,
                    ;
                    assert(0 <= (lines - 1) * height) by (nonlinear_arith)
                        requires
                            1 <= lines,
                            0 <= height,
                    ;
                }
                lines = lines + 1;
                start_y = start_y + height;
            } else {
                break;
            }
        }
        proof {
            crate::classify::lemma_mul_bound(plan.advance as int, plan.count as int, 1000, 1000000);
        }
        if plan.width > width {
            font.crop_right(&mut plan, width);
        }
        proof {
            assert(0 <= plan.width <= 1000000000);
        }
        let pt = Point { x: start_x, y: start_y + line_height + line_diff };
        elements.push(TagElement { text, pt });
        if lines > 1 {
            proof {
                crate::classify::lemma_mul_bound(lines as int, height as int, 5, 10000);
            }
            our_rect = Rectangle {
                min: Point { x: offset, y: rect.min.y },
                max: Point { x: offset + wrap_width, y: rect.min.y + (lines as i32) * height },
            };
            rects.push(
                Rectangle {
                    min: Point { x: start_x - line_diff * 2, y: start_y + line_diff },
                    max: Point {
                        x: start_x + plan.width + line_diff * 2,
                        y: start_y + height,
                    },
                },
            );
        } else {
            rects.push(
                Rectangle {
                    min: Point { x: start_x - line_diff, y: start_y + line_diff },
                    max: Point {
                        x: start_x + plan.width + line_diff * 2,
                        y: start_y + height,
                    },
                },
            );
        }
        Tag { id: 0, active: false, rect: our_rect, rects, elements, has_loc, info }
    }

    /// The bottom-right corner of the last line's rectangle.
    pub fn end_point(&self) -> (r: Point)
        requires
            self.wf(),
        ensures
            r == self.rects@.last().max,
    {
        let rect = self.rects[self.rects.len() - 1];
        Point { x: rect.max.x, y: rect.max.y }
    }

    /// How many lines the tag wrapped onto.
    pub fn lines(&self) -> (r: usize)
        ensures
            r == self.rects@.len(),
    {
        self.rects.len()
    }

    /// Moves one line up by `offset` pixels.
    pub fn vertical_shift(&mut self, index: usize, offset: i32)
        requires
            index < old(self).rects@.len(),
            index < old(self).elements@.len(),
            -1000000 <= offset <= 1000000,
            -16000000 <= old(self).rects@[index as int].min.y <= 16000000,
            -16000000 <= old(self).rects@[index as int].max.y <= 16000000,
            -16000000 <= old(self).elements@[index as int].pt.y <= 16000000,
        ensures
            final(self).rects@ == old(self).rects@.update(
                index as int,
                Rectangle {
                    min: Point {
                        x: old(self).rects@[index as int].min.x,
                        y: (old(self).rects@[index as int].min.y - offset) as i32,
                    },
                    max: Point {
                        x: old(self).rects@[index as int].max.x,
                        y: (old(self).rects@[index as int].max.y - offset) as i32,
                    },
                },
            ),
            final(self).elements@.len() == old(self).elements@.len(),
            final(self).elements@[index as int].pt.y == old(self).elements@[index as int].pt.y
                - offset,
            final(self).elements@[index as int].pt.x == old(self).elements@[index as int].pt.x,
            final(self).elements@[index as int].text == old(self).elements@[index as int].text,
            forall|k: int|
                0 <= k < old(self).elements@.len() && k != index ==> final(self).elements@[k] == old(
                    self,
                ).elements@[k],
            *final(self) == (Tag {
                rects: final(self).rects,
                elements: final(self).elements,
                ..*old(self)
            }),
    {
        self.elements[index].pt.y = self.elements[index].pt.y - offset;
        self.rects[index].max.y = self.rects[index].max.y - offset;
        self.rects[index].min.y = self.rects[index].min.y - offset;
        proof {
            assert(final(self).rects@ =~= old(self).rects@.update(
                index as int,
                Rectangle {
                    min: Point {
                        x: old(self).rects@[index as int].min.x,
                        y: (old(self).rects@[index as int].min.y - offset) as i32,
                    },
                    max: Point {
                        x: old(self).rects@[index as int].max.x,
                        y: (old(self).rects@[index as int].max.y - offset) as i32,
                    },
                },
            ));
        }
    }

    /// Moves every line up by `offset` pixels.
    pub fn shift_vertical(&mut self, offset: i32)
        requires
            -1000000 <= offset <= 1000000,
            forall|k: int|
                0 <= k < old(self).rects@.len() ==> -15000000 <= (#[trigger] old(self).rects@[
                    k
                ]).min.y <= 15000000 && -15000000 <= old(self).rects@[k].max.y <= 15000000,
            forall|k: int|
                0 <= k < old(self).elements@.len() ==> -15000000 <= (#[trigger] old(
                    self,
                ).elements@[k]).pt.y <= 15000000,
        ensures
            final(self).rects@.len() == old(self).rects@.len(),
            final(self).elements@.len() == old(self).elements@.len(),
            forall|k: int|
                0 <= k < old(self).rects@.len() ==> (#[trigger] final(self).rects@[k]) == (
                Rectangle {
                    min: Point {
                        x: old(self).rects@[k].min.x,
                        y: (old(self).rects@[k].min.y - offset) as i32,
                    },
                    max: Point {
                        x: old(self).rects@[k].max.x,
                        y: (old(self).rects@[k].max.y - offset) as i32,
                    },
                }),
            forall|k: int|
                0 <= k < old(self).elements@.len() ==> (#[trigger] final(self).elements@[k]).pt.y
                    == old(self).elements@[k].pt.y - offset && final(self).elements@[k].text == old(
                    self,
                ).elements@[k].text && final(self).elements@[k].pt.x == old(self).elements@[
                    k
                ].pt.x,
            *final(self) == (Tag {
                rects: final(self).rects,
                elements: final(self).elements,
                ..*old(self)
            }),
    {
        let mut i: usize = 0;
        while i < self.rects.len()
            invariant
                i <= self.rects@.len(),
                self.rects@.len() == old(self).rects@.len(),
                forall|k: int|
                    i <= k < old(self).rects@.len() ==> (#[trigger] self.rects@[k]) == old(
                        self,
                    ).rects@[k],
                forall|k: int|
                    0 <= k < i ==> (#[trigger] self.rects@[k]) == (Rectangle {
                        min: Point {
                            x: old(self).rects@[k].min.x,
                            y: (old(self).rects@[k].min.y - offset) as i32,
                        },
                        max: Point {
                            x: old(self).rects@[k].max.x,
                            y: (old(self).rects@[k].max.y - offset) as i32,
                        },
                    }),
                -1000000 <= offset <= 1000000,
                forall|k: int|
                    0 <= k < old(self).rects@.len() ==> -15000000 <= (#[trigger] old(
                        self,
                    ).rects@[k]).min.y <= 15000000 && -15000000 <= old(self).rects@[k].max.y
                        <= 15000000,
                *self == (Tag { rects: self.rects, ..*old(self) }),
            decreases self.rects@.len() - i,
        {
            self.rects[i].min.y = self.rects[i].min.y - offset;
            self.rects[i].max.y = self.rects[i].max.y - offset;
            i = i + 1;
        }
        let mut j: usize = 0;
        while j < self.elements.len()
            invariant
                j <= self.elements@.len(),
                self.rects@.len() == old(self).rects@.len(),
                forall|k: int|
                    0 <= k < old(self).rects@.len() ==> (#[trigger] self.rects@[k]) == (Rectangle {
                        min: Point {
                            x: old(self).rects@[k].min.x,
                            y: (old(self).rects@[k].min.y - offset) as i32,
                        },
                        max: Point {
                            x: old(self).rects@[k].max.x,
                            y: (old(self).rects@[k].max.y - offset) as i32,
                        },
                    }),
                self.elements@.len() == old(self).elements@.len(),
                forall|k: int|
                    j <= k < old(self).elements@.len() ==> (#[trigger] self.elements@[k]) == old(
                        self,
                    ).elements@[k],
                forall|k: int|
                    0 <= k < j ==> (#[trigger] self.elements@[k]).pt.y == old(self).elements@[
                        k
                    ].pt.y - offset && self.elements@[k].text == old(self).elements@[k].text
                        && self.elements@[k].pt.x == old(self).elements@[k].pt.x,
                -1000000 <= offset <= 1000000,
                forall|k: int|
                    0 <= k < old(self).elements@.len() ==> -15000000 <= (#[trigger] old(
                        self,
                    ).elements@[k]).pt.y <= 15000000,
                *self == (Tag { rects: self.rects, elements: self.elements, ..*old(self) }),
            decreases self.elements@.len() - j,
        {
            self.elements[j].pt.y = self.elements[j].pt.y - offset;
            j = j + 1;
        }
    }

    /// Splits the lines past `height` off into a tag of their own, shifted
    /// up by `offset`.
    pub fn split(&mut self, height: i32, offset: i32) -> (r: Tag)
        requires
            old(self).wf(),
            -1000000 <= offset <= 1000000,
            forall|k: int|
                0 <= k < old(self).rects@.len() ==> -15000000 <= (#[trigger] old(self).rects@[
                    k
                ]).min.y <= 15000000 && -15000000 <= old(self).rects@[k].max.y <= 15000000,
            forall|k: int|
                0 <= k < old(self).elements@.len() ==> -15000000 <= (#[trigger] old(
                    self,
                ).elements@[k]).pt.y <= 15000000,
        ensures
            final(self).rects@.len() + r.rects@.len() == old(self).rects@.len(),
            final(self).elements@.len() + r.elements@.len() == old(self).elements@.len(),
            final(self).rects@.len() == final(self).elements@.len(),
            r.rects@.len() == r.elements@.len(),
            r.info.text == old(self).info.text,
            r.info.location == old(self).info.location,
            r.info.style == old(self).info.style,
    {
        let mut line: usize = 0;
        while line < self.rects.len()
            invariant
                line <= self.rects@.len(),
            decreases self.rects@.len() - line,
        {
            if self.rects[line].max.y > height {
                break;
            }
            line = line + 1;
        }
        let rects = self.rects.split_off(line);
        let elements = self.elements.split_off(line);
        let info_copy = TagInfo {
            text: self.info.text.clone(),
            location: match &self.info.location {
                Some(l) => Some(l.clone()),
                None => None,
            },
            style: self.info.style,
        };
        let ghost rlen = rects@.len();
        let ghost elen = elements@.len();
        let mut new_tag = Tag {
            info: info_copy,
            id: 0,
            active: self.active,
            rect: self.rect,
            rects,
            elements,
            has_loc: self.has_loc,
        };
        let mut i: usize = 0;
        while i < new_tag.elements.len()
            invariant
                i <= new_tag.elements@.len(),
                new_tag.elements@.len() == elen,
                new_tag.rects@.len() == rlen,
                elen == rlen,
                -1000000 <= offset <= 1000000,
                forall|k: int|
                    i <= k < new_tag.rects@.len() ==> -16000000 <= (#[trigger] new_tag.rects@[
                        k
                    ]).min.y <= 16000000 && -16000000 <= new_tag.rects@[k].max.y <= 16000000,
                forall|k: int|
                    i <= k < new_tag.elements@.len() ==> -16000000 <= (#[trigger] new_tag.elements@[
                        k
                    ]).pt.y <= 16000000,
                new_tag.info.text == old(self).info.text,
                new_tag.info.location == old(self).info.location,
                new_tag.info.style == old(self).info.style,
            decreases new_tag.elements@.len() - i,
        {
            new_tag.vertical_shift(i, offset);
            i = i + 1;
        }
        new_tag
    }

    /// Whether the point falls on one of the tag's lines (only a tag with
    /// a location reacts).
    pub fn in_rects(&self, pt: Point) -> (r: bool)
        ensures
            r == (self.has_loc && exists|k: int|
                0 <= k < self.rects@.len() && (#[trigger] self.rects@[k]).spec_includes(pt)),
    {
        if !self.has_loc {
            return false;
        }
        let mut i: usize = 0;
        while i < self.rects.len()
            invariant
                self.has_loc,
                i <= self.rects@.len(),
                forall|k: int| 0 <= k < i ==> !(#[trigger] self.rects@[k]).spec_includes(pt),
            decreases self.rects@.len() - i,
        {
            if self.rects[i].includes(pt) {
                proof {
                    assert(self.rects@[i as int].spec_includes(pt));
                }
                return true;
            }
            i = i + 1;
        }
        false
    }

    /// Shapes a text in this tag's style without a width limit.
    pub fn get_plan(&self, text: &str, fonts: &Fonts) -> (r: RenderPlan)
        requires
            font_ok(Font { style: self.info.style, dpi: DISPLAY_DPI }),
            text@.len() <= 1000000,
        ensures
            r == spec_plan(
                Font { style: self.info.style, dpi: DISPLAY_DPI },
                text@.len() as int,
                None,
            ),
    {
        let font = font_from_style(fonts, &self.info.style, DISPLAY_DPI);
        font.plan(text, None)
    }
}

} // verus!
