use vstd::prelude::*;

verus! {

#[derive(Debug, Clone, Copy, PartialEq, Eq, Structural)]
pub enum Family {
    Serif,
    SansSerif,
    Monospace,
}

#[derive(Debug, Clone, Copy, PartialEq, Eq, Structural)]
pub enum Variant {
    Regular,
    Italic,
    Bold,
}

/// A text style: family, variant and size in tenths of a point.
#[derive(Debug, Clone, Copy, PartialEq, Eq, Structural)]
pub struct Style {
    pub family: Family,
    pub variant: Variant,
    pub size: i32,
}

pub fn normal_style() -> (s: Style)
    ensures
        s == (Style { family: Family::Serif, variant: Variant::Regular, size: 110i32 }),
{
    Style { family: Family::Serif, variant: Variant::Regular, size: 110 }
}

pub fn label_style() -> (s: Style)
    ensures
        s == (Style { family: Family::SansSerif, variant: Variant::Regular, size: 110i32 }),
{
    Style { family: Family::SansSerif, variant: Variant::Regular, size: 110 }
}

pub fn bold_style() -> (s: Style)
    ensures
        s == (Style { family: Family::SansSerif, variant: Variant::Bold, size: 110i32 }),
{
    Style { family: Family::SansSerif, variant: Variant::Bold, size: 110 }
}

pub fn bold_title() -> (s: Style)
    ensures
        s == (Style { family: Family::SansSerif, variant: Variant::Bold, size: 124i32 }),
{
    Style { family: Family::SansSerif, variant: Variant::Bold, size: 124 }
}

pub fn about_style() -> (s: Style)
    ensures
        s == (Style { family: Family::SansSerif, variant: Variant::Italic, size: 102i32 }),
{
    Style { family: Family::SansSerif, variant: Variant::Italic, size: 102 }
}

/// The font provider. Text metrics are a deterministic model: every glyph
/// advances by half an em, so that layout is an exact function of the
/// character count, the style and the density.
#[derive(Debug, Clone, Copy, PartialEq, Eq, Structural)]
pub struct Fonts {
    pub loaded: bool,
}

impl Fonts {
    pub fn new() -> (f: Fonts)
        ensures
            f.loaded,
    {
        Fonts { loaded: true }
    }
}

/// A sized font instance.
#[derive(Debug, Clone, Copy, PartialEq, Eq, Structural)]
pub struct Font {
    pub style: Style,
    pub dpi: i32,
}

/// A font instance is valid when its size and density are in the ranges
/// the layout arithmetic supports.
pub open spec fn font_ok(f: Font) -> bool {
    &&& 10 <= f.style.size <= 1000
    &&& 10 <= f.dpi <= 1200
}

/// The em length of a font: its point size (tenths) times the density over
/// 720.
pub open spec fn spec_em(f: Font) -> int {
    f.style.size * f.dpi / 720
}

/// Every glyph of the model font advances by half an em, at least one
/// pixel.
pub open spec fn spec_advance(f: Font) -> int {
    let a = spec_em(f) / 2;
    if a < 1 {
        1
    } else {
        a
    }
}

pub open spec fn advance_ok(f: Font) -> bool {
    1 <= spec_advance(f) <= 1000
}

pub fn font_from_style(fonts: &Fonts, style: &Style, dpi: i32) -> (f: Font)
    ensures
        f == (Font { style: *style, dpi }),
{
    let _ = fonts;
    Font { style: *style, dpi }
}

/// A shaped line of text in the model font: a number of glyphs of one
/// uniform advance, and the total width they cover.
#[derive(Debug, Clone, Copy, PartialEq, Eq, Structural)]
pub struct RenderPlan {
    pub width: i32,
    pub advance: i32,
    pub count: usize,
}

pub open spec fn plan_ok(p: RenderPlan) -> bool {
    &&& 1 <= p.advance <= 1000
    &&& p.count <= 1000000
    &&& p.width == p.advance * p.count
}

impl RenderPlan {
    /// Shortens this plan to its first `index` glyphs and hands the rest
    /// back as a plan of its own.
    pub fn split_off(&mut self, index: usize, usable_width: i32) -> (rest: RenderPlan)
        requires
            plan_ok(*old(self)),
            index <= old(self).count,
            usable_width == old(self).advance * index,
        ensures
            plan_ok(*final(self)),
            plan_ok(rest),
            final(self).advance == old(self).advance,
            rest.advance == old(self).advance,
            final(self).count == index,
            rest.count == old(self).count - index,
            final(self).width == usable_width,
            final(self).width + rest.width == old(self).width,
    {
        proof {
            let ghost a = old(self).advance as int;
            let ghost c = old(self).count as int;
            let ghost k = index as int;
            assert(a * (c - k) == a * c - a * k) by (nonlinear_arith);
            assert(0 <= a * k <= a * c) by (nonlinear_arith)
                requires
                    0 <= k <= c,
                    1 <= a,
            ;
        }
        let rest = RenderPlan {
            width: self.width - usable_width,
            advance: self.advance,
            count: self.count - index,
        };
        self.count = index;
        self.width = usable_width;
        rest
    }
}

/// The line a text of `len` characters shapes to under a width limit.
pub open spec fn spec_plan(f: Font, len: int, max_width: Option<int>) -> RenderPlan {
    let a = spec_advance(f);
    let count: int = match max_width {
        None => len,
        Some(m) => if a * len <= m {
            len
        } else if m >= 0 {
            m / a
        } else {
            0
        },
    };
    RenderPlan { width: (a * count) as i32, advance: a as i32, count: count as usize }
}

impl Font {
    pub fn em(&self) -> (r: i32)
        requires
            font_ok(*self),
        ensures
            r == spec_em(*self),
            0 <= r <= 1667,
    {
        proof {
            crate::classify::lemma_mul_bound(self.style.size as int, self.dpi as int, 1000, 1200);
            assert(0 <= self.style.size * self.dpi / 720 <= 1667) by (nonlinear_arith)
                requires
                    10 <= self.style.size <= 1000,
                    10 <= self.dpi <= 1200,
            ;
        }
        self.style.size * self.dpi / 720
    }

    fn advance(&self) -> (r: i32)
        requires
            font_ok(*self),
        ensures
            r == spec_advance(*self),
            1 <= r <= 1000,
    {
        let a = self.em() / 2;
        if a < 1 {
            1
        } else {
            a
        }
    }

    /// The distance between two baselines: one and a half em.
    pub fn line_height(&self) -> (r: i32)
        requires
            font_ok(*self),
        ensures
            r == spec_em(*self) * 3 / 2,
            0 <= r <= 2501,
    {
        self.em() * 3 / 2
    }

    /// The height of the lower-case letters: half an em.
    pub fn x_height(&self) -> (r: i32)
        requires
            font_ok(*self),
        ensures
            r == spec_em(*self) / 2,
            0 <= r <= 834,
    {
        self.em() / 2
    }

    /// Shapes a text: one glyph per character, each half an em wide; with a
    /// width limit the line keeps only the glyphs that fit.
    #[verifier::rlimit(50)]
    pub fn plan(&self, text: &str, max_width: Option<i32>) -> (p: RenderPlan)
        requires
            font_ok(*self),
            text@.len() <= 1000000,
        ensures
            plan_ok(p),
            max_width is Some ==> p == spec_plan(
                *self,
                text@.len() as int,
                Some(max_width->0 as int),
            ),
            max_width is None ==> p == spec_plan(*self, text@.len() as int, None),
    {
        let a = self.advance();
        let n = crate::helpers::str_chars(text).len();
        proof {
            crate::classify::lemma_mul_bound(a as int, n as int, 1000, 1000000);
            assert(0 <= a * n) by (nonlinear_arith)
                requires
                    0 <= a,
                    0 <= n,
            ;
        }
        let full: i64 = a as i64 * n as i64;
        match max_width {
            Some(m) => {
                if full <= m as i64 {
                    let p = RenderPlan { width: (full) as i32, advance: a, count: n };
                    proof {
                        assert(p.width == a * n);
                        assert(plan_ok(p));
                    }
                    p
                } else if m >= 0 {
                    let c = m / a;
                    proof {
                        assert(0 <= m / a <= m) by (nonlinear_arith)
                            requires
                                0 <= m,
                                1 <= a,
                        ;
                        assert(a * (m / a) <= m) by (nonlinear_arith)
                            requires
                                0 <= m,
                                1 <= a,
                        ;
                        assert((m as i64) < full);
                        assert(m / a <= n) by (nonlinear_arith)
                            requires
                                0 <= m,
                                1 <= a,
                                a * n > m,
                                0 <= n,
                        ;
                        assert(0 <= c * a <= m && c * a == a * c) by (nonlinear_arith)
                            requires
                                c == m / a,
                                0 <= m,
                                1 <= a,
                        ;
                    }
                    let p = RenderPlan { width: c * a, advance: a, count: c as usize };
                    proof {
                        assert(p.width == a * c);
                        assert(plan_ok(p));
                    }
                    p
                } else {
                    let p = RenderPlan { width: 0, advance: a, count: 0 };
                    proof {
                        assert(a * 0 == 0) by (nonlinear_arith);
                        assert(plan_ok(p));
                    }
                    p
                }
            },
            None => {
                let p = RenderPlan { width: full as i32, advance: a, count: n };
                proof {
                    assert(p.width == a * n);
                    assert(plan_ok(p));
                }
                p
            },
        }
    }

    /// Where to cut a shaped line so that it fits a width: the glyph index
    /// and the width the kept glyphs cover.
    pub fn cut_point(&self, plan: &RenderPlan, width: i32) -> (r: (usize, i32))
        requires
            font_ok(*self),
            plan_ok(*plan),
        ensures
            plan_ok(*plan),
            r.0 == if width >= 0 && width / plan.advance < plan.count {
                width / plan.advance
            } else if width >= 0 {
                plan.count as int
            } else {
                0
            },
            r.1 == plan.advance * r.0,
            r.0 <= plan.count,
    {
        let _ = self;
        if width < 0 {
            proof {
                assert(plan.advance * 0 == 0) by (nonlinear_arith);
            }
            return (0, 0);
        }
        let c = width / plan.advance;
        proof {
            assert(0 <= width / plan.advance) by (nonlinear_arith)
                requires
                    0 <= width,
                    1 <= plan.advance,
            ;
            crate::classify::lemma_mul_bound(plan.advance as int, plan.count as int, 1000, 1000000);
        }
        if (c as usize) < plan.count {
            proof {
                assert(plan.advance * (width / plan.advance) <= width) by (nonlinear_arith)
                    requires
                        0 <= width,
                        1 <= plan.advance,
                ;
                assert(0 <= plan.advance * c <= plan.advance * plan.count) by (nonlinear_arith)
                    requires
                        0 <= c <= plan.count,
                        1 <= plan.advance,
                ;
            }
            (c as usize, plan.advance * c)
        } else {
            (plan.count, plan.width)
        }
    }

    /// Truncates a shaped line to fit a width.
    pub fn crop_right(&self, plan: &mut RenderPlan, width: i32) -> (r: ())
        requires
            font_ok(*self),
            plan_ok(*old(plan)),
        ensures
            plan_ok(*final(plan)),
            final(plan).advance == old(plan).advance,
            final(plan).count <= old(plan).count,
            final(plan).width <= old(plan).width,
            old(plan).width <= width ==> *final(plan) == *old(plan),
    {
        let (idx, usable) = self.cut_point(plan, width);
        if plan.width > width {
            proof {
                let ghost a = plan.advance as int;
                let ghost c = plan.count as int;
                let ghost k = idx as int;
                assert(0 <= a * k <= a * c) by (nonlinear_arith)
                    requires
                        0 <= k <= c,
                        1 <= a,
                ;
            }
            plan.count = idx;
            plan.width = usable;
        }
    }
}

} // verus!
