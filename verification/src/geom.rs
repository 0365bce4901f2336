use vstd::prelude::*;

verus! {

use vstd::math::abs;

/// Bound on the coordinates of touch samples: large enough for any display,
/// small enough that the classifier's sextic products fit in `i128`.
pub const TOUCH_COORD_MAX: i32 = 131072;

/// Bound on the coordinates of layout rectangles.
pub const LAYOUT_COORD_MAX: i32 = 16777216;

#[derive(Debug, Clone, Copy, PartialEq, Eq, Structural, Hash)]
pub struct Point {
    pub x: i32,
    pub y: i32,
}

/// A touch sample whose coordinates the classifier's exact integer
/// arithmetic can handle.
pub open spec fn pt_ok(p: Point) -> bool {
    -TOUCH_COORD_MAX <= p.x <= TOUCH_COORD_MAX && -TOUCH_COORD_MAX <= p.y <= TOUCH_COORD_MAX
}

/// A coordinate of the layout plane.
pub open spec fn coord_ok(c: int) -> bool {
    -LAYOUT_COORD_MAX <= c <= LAYOUT_COORD_MAX
}

impl Point {
    pub fn new(x: i32, y: i32) -> (p: Point)
        ensures
            p == (Point { x, y }),
    {
        Point { x, y }
    }
}

/// Convenience constructor mirroring the `pt![x, y]` shorthand.
pub fn pt(x: i32, y: i32) -> (p: Point)
    ensures
        p == (Point { x, y }),
{
    Point { x, y }
}

#[derive(Debug, Clone, Copy, PartialEq, Eq, Structural, Hash)]
pub struct Rectangle {
    pub min: Point,
    pub max: Point,
}

/// A well-formed rectangle of the layout plane: corners ordered and bounded.
pub open spec fn rect_ok(r: Rectangle) -> bool {
    &&& coord_ok(r.min.x as int)
    &&& coord_ok(r.min.y as int)
    &&& coord_ok(r.max.x as int)
    &&& coord_ok(r.max.y as int)
    &&& r.min.x <= r.max.x
    &&& r.min.y <= r.max.y
}

/// A rectangle that leaves room for the bars and paddings the layout code
/// adds around it without leaving the layout plane.
pub open spec fn rect_roomy(r: Rectangle) -> bool {
    &&& -16000000 <= r.min.x <= 16000000
    &&& -16000000 <= r.min.y <= 16000000
    &&& -16000000 <= r.max.x <= 16000000
    &&& -16000000 <= r.max.y <= 16000000
    &&& r.min.x <= r.max.x
    &&& r.min.y <= r.max.y
}

/// A rectangle whose coordinates stay within `b` of the origin, corners
/// ordered.
pub open spec fn rect_bounded(r: Rectangle, b: int) -> bool {
    &&& -b <= r.min.x <= b
    &&& -b <= r.min.y <= b
    &&& -b <= r.max.x <= b
    &&& -b <= r.max.y <= b
    &&& r.min.x <= r.max.x
    &&& r.min.y <= r.max.y
}

/// Convenience constructor mirroring the `rect![x0, y0, x1, y1]` shorthand.
pub fn rect(x0: i32, y0: i32, x1: i32, y1: i32) -> (r: Rectangle)
    ensures
        r == (Rectangle { min: Point { x: x0, y: y0 }, max: Point { x: x1, y: y1 } }),
{
    Rectangle { min: Point { x: x0, y: y0 }, max: Point { x: x1, y: y1 } }
}

impl Rectangle {
    pub open spec fn spec_width(self) -> int {
        self.max.x - self.min.x
    }

    pub open spec fn spec_height(self) -> int {
        self.max.y - self.min.y
    }

    pub fn width(&self) -> (w: i32)
        requires
            rect_ok(*self),
        ensures
            w == self.spec_width(),
    {
        self.max.x - self.min.x
    }

    pub fn height(&self) -> (h: i32)
        requires
            rect_ok(*self),
        ensures
            h == self.spec_height(),
    {
        self.max.y - self.min.y
    }

    pub open spec fn spec_includes(self, p: Point) -> bool {
        self.min.x <= p.x < self.max.x && self.min.y <= p.y < self.max.y
    }

    /// Half-open membership test, as the layout code uses it.
    pub fn includes(&self, p: Point) -> (b: bool)
        ensures
            b == self.spec_includes(p),
    {
        self.min.x <= p.x && p.x < self.max.x && self.min.y <= p.y && p.y < self.max.y
    }
}

/// Splits a thickness in two parts that sum back to it, the larger second.
pub fn halves(t: i32) -> (r: (i32, i32))
    requires
        0 <= t,
    ensures
        r.0 == t / 2,
        r.1 == t - t / 2,
        r.0 + r.1 == t,
{
    let small = t / 2;
    (small, t - small)
}

#[derive(Debug, Clone, Copy, PartialEq, Eq, Structural, Hash)]
pub enum Dir {
    North,
    East,
    South,
    West,
}

#[derive(Debug, Clone, Copy, PartialEq, Eq, Structural, Hash)]
pub enum DiagDir {
    NorthEast,
    SouthEast,
    SouthWest,
    NorthWest,
}

#[derive(Debug, Clone, Copy, PartialEq, Eq, Structural, Hash)]
pub enum Axis {
    Horizontal,
    Vertical,
}

#[derive(Debug, Clone, Copy, PartialEq, Eq, Structural, Hash)]
pub enum CycleDir {
    Next,
    Previous,
}

impl Dir {
    pub open spec fn spec_opposite(self) -> Dir {
        match self {
            Dir::North => Dir::South,
            Dir::East => Dir::West,
            Dir::South => Dir::North,
            Dir::West => Dir::East,
        }
    }

    pub fn opposite(self) -> (d: Dir)
        ensures
            d == self.spec_opposite(),
    {
        match self {
            Dir::North => Dir::South,
            Dir::East => Dir::West,
            Dir::South => Dir::North,
            Dir::West => Dir::East,
        }
    }

    pub open spec fn spec_axis(self) -> Axis {
        match self {
            Dir::North | Dir::South => Axis::Vertical,
            Dir::East | Dir::West => Axis::Horizontal,
        }
    }

    pub fn axis(self) -> (a: Axis)
        ensures
            a == self.spec_axis(),
    {
        match self {
            Dir::North | Dir::South => Axis::Vertical,
            Dir::East | Dir::West => Axis::Horizontal,
        }
    }
}

/// Squared euclidean distance between two touch samples.
pub open spec fn spec_dist2(a: Point, b: Point) -> int {
    (b.x - a.x) * (b.x - a.x) + (b.y - a.y) * (b.y - a.y)
}

pub proof fn lemma_dist2_nonneg(a: Point, b: Point)
    ensures
        spec_dist2(a, b) >= 0,
        a == b <==> spec_dist2(a, b) == 0,
{
    let dx = b.x - a.x;
    let dy = b.y - a.y;
    assert(dx * dx >= 0 && dy * dy >= 0) by (nonlinear_arith);
    assert(dx != 0 ==> dx * dx > 0) by (nonlinear_arith);
    assert(dy != 0 ==> dy * dy > 0) by (nonlinear_arith);
}

pub fn dist2(a: Point, b: Point) -> (d: i64)
    requires
        pt_ok(a),
        pt_ok(b),
    ensures
        d == spec_dist2(a, b),
        0 <= d <= 0x2000000000,
{
    let dx = b.x as i64 - a.x as i64;
    let dy = b.y as i64 - a.y as i64;
    proof {
        assert(dx * dx <= 0x1000000000 && dy * dy <= 0x1000000000) by (nonlinear_arith)
            requires
                -0x40000 <= dx <= 0x40000,
                -0x40000 <= dy <= 0x40000,
        ;
        assert(dx * dx >= 0 && dy * dy >= 0) by (nonlinear_arith);
    }
    dx * dx + dy * dy
}

/// Quantizes a displacement to one of the four cardinal directions; the
/// dominant axis wins, the vertical axis on ties, and the positive `y`
/// direction points south (screen coordinates).
pub open spec fn spec_dir_of(dx: int, dy: int) -> Dir {
    if abs(dx) > abs(dy) {
        if dx > 0 {
            Dir::East
        } else {
            Dir::West
        }
    } else {
        if dy >= 0 {
            Dir::South
        } else {
            Dir::North
        }
    }
}

pub fn dir_of(dx: i64, dy: i64) -> (d: Dir)
    requires
        i64::MIN < dx,
        i64::MIN < dy,
    ensures
        d == spec_dir_of(dx as int, dy as int),
{
    let ax = if dx < 0 { -dx } else { dx };
    let ay = if dy < 0 { -dy } else { dy };
    if ax > ay {
        if dx > 0 {
            Dir::East
        } else {
            Dir::West
        }
    } else {
        if dy >= 0 {
            Dir::South
        } else {
            Dir::North
        }
    }
}

/// Quantizes a displacement to a quadrant; ties go east and south.
pub open spec fn spec_diag_dir_of(dx: int, dy: int) -> DiagDir {
    if dx >= 0 {
        if dy >= 0 {
            DiagDir::SouthEast
        } else {
            DiagDir::NorthEast
        }
    } else {
        if dy >= 0 {
            DiagDir::SouthWest
        } else {
            DiagDir::NorthWest
        }
    }
}

pub fn diag_dir_of(dx: i64, dy: i64) -> (d: DiagDir)
    ensures
        d == spec_diag_dir_of(dx as int, dy as int),
{
    if dx >= 0 {
        if dy >= 0 {
            DiagDir::SouthEast
        } else {
            DiagDir::NorthEast
        }
    } else {
        if dy >= 0 {
            DiagDir::SouthWest
        } else {
            DiagDir::NorthWest
        }
    }
}

} // verus!
