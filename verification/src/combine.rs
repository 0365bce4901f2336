use vstd::prelude::*;
use crate::geom::{Point, Dir, pt_ok, spec_dist2, dist2};
use crate::gesture::GestureEvent;
use crate::classify::lemma_mul_bound;

verus! {

/// `r` is the integer square root of `n`.
pub open spec fn is_isqrt(n: int, r: int) -> bool {
    0 <= r && r * r <= n && n < (r + 1) * (r + 1)
}

/// The integer square root: the unique `r >= 0` with `r^2 <= n < (r+1)^2`.
pub open spec fn spec_isqrt(n: int) -> int {
    choose|r: int| is_isqrt(n, r)
}

pub proof fn lemma_isqrt_unique(n: int, r: int)
    requires
        is_isqrt(n, r),
    ensures
        spec_isqrt(n) == r,
{
    assert(exists|x: int| is_isqrt(n, x)) by {
        assert(is_isqrt(n, r));
    }
    let r2 = spec_isqrt(n);
    assert(is_isqrt(n, r2));
    assert(r == r2) by (nonlinear_arith)
        requires
            is_isqrt(n, r),
            is_isqrt(n, r2),
    ;
}

/// Rounded-down square root, by bisection.
pub fn isqrt(n: i64) -> (r: i64)
    requires
        0 <= n <= 0x2000000000,
    ensures
        r == spec_isqrt(n as int),
        is_isqrt(n as int, r as int),
        0 <= r <= 0x80000,
{
    let mut lo: i64 = 0;
    let mut hi: i64 = 0x80000;
    proof {
        assert(0x80001 * 0x80001 > 0x2000000000) by (nonlinear_arith);
    }
    while lo < hi
        invariant
            0 <= lo <= hi <= 0x80000,
            lo * lo <= n,
            n < (hi + 1) * (hi + 1),
        decreases hi - lo,
    {
        let mid = (lo + hi + 1) / 2;
        proof {
            lemma_mul_bound(mid as int, mid as int, 0x80000, 0x80000);
        }
        if mid * mid <= n {
            lo = mid;
        } else {
            hi = mid - 1;
        }
    }
    proof {
        lemma_isqrt_unique(n as int, lo as int);
    }
    lo
}

/// `round(2 * atan2(y, x) / pi)`, with ties away from zero, written out over
/// the exact sign and magnitude comparisons that delimit the five buckets.
pub open spec fn qround(y: int, x: int) -> int {
    if y == 0 {
        if x >= 0 {
            0
        } else {
            2
        }
    } else if y > 0 {
        if x > y {
            0
        } else if x > -y {
            1
        } else {
            2
        }
    } else {
        if x > -y {
            0
        } else if y < x {
            -1
        } else {
            -2
        }
    }
}

/// Which part of `(-pi, pi]` the angle of `(x, y)` lies in:
/// 0 for `(-pi, 0)`, 1 for `0`, 2 for `(0, pi)`, 3 for `pi`.
pub open spec fn theta_class(y: int, x: int) -> int {
    if y < 0 {
        0
    } else if y > 0 {
        2
    } else if x >= 0 {
        1
    } else {
        3
    }
}

/// Compares the angles of two non-zero vectors in `(-pi, pi]`:
/// negative when the first is smaller, zero when equal.
pub open spec fn theta_cmp(uy: int, ux: int, vy: int, vx: int) -> int {
    let cu = theta_class(uy, ux);
    let cv = theta_class(vy, vx);
    if cu < cv {
        -1
    } else if cu > cv {
        1
    } else if cu == 0 || cu == 2 {
        let cr = ux * vy - uy * vx;
        if cr > 0 {
            -1
        } else if cr < 0 {
            1
        } else {
            0
        }
    } else {
        0
    }
}

/// The rotation gesture's quarter-turn count: `round(d / 90)` for the angle
/// difference `d` (in degrees) between the rays `c -> e` and `c -> s`, each
/// angle taken in `(-180, 180]`, so `d` lies in `(-360, 360)`. The principal
/// part is quantized by `qround` on the cross and dot products of the two
/// rays, and the wrap-around correction adds a full turn when the difference
/// of the two angles leaves `(-180, 180]`.
pub open spec fn spec_quarter_turns(c: Point, s: Point, e: Point) -> int {
    let ux = e.x - c.x;
    let uy = e.y - c.y;
    let vx = s.x - c.x;
    let vy = s.y - c.y;
    if vx == 0 && vy == 0 {
        qround(uy, ux)
    } else if ux == 0 && uy == 0 {
        -qround(vy, vx)
    } else {
        let cr = vx * uy - vy * ux;
        let dt = vx * ux + vy * uy;
        let cmp = theta_cmp(uy, ux, vy, vx);
        let k: int = if cmp > 0 {
            if cr < 0 {
                1
            } else {
                0
            }
        } else if cmp < 0 {
            if cr > 0 || (cr == 0 && dt < 0) {
                -1
            } else {
                0
            }
        } else {
            0
        };
        qround(cr, dt) + 4 * k
    }
}

fn exec_qround(y: i64, x: i64) -> (r: i64)
    requires
        -0x4000000000 <= y <= 0x4000000000,
        -0x4000000000 <= x <= 0x4000000000,
    ensures
        r == qround(y as int, x as int),
{
    if y == 0 {
        if x >= 0 {
            0
        } else {
            2
        }
    } else if y > 0 {
        if x > y {
            0
        } else if x > -y {
            1
        } else {
            2
        }
    } else {
        if x > -y {
            0
        } else if y < x {
            -1
        } else {
            -2
        }
    }
}

fn exec_theta_class(y: i64, x: i64) -> (r: i64)
    ensures
        r == theta_class(y as int, x as int),
{
    if y < 0 {
        0
    } else if y > 0 {
        2
    } else if x >= 0 {
        1
    } else {
        3
    }
}

/// The quarter turns of a rotation around `c` that starts at `s` and
/// ends at `e`.
pub fn quarter_turns(c: Point, s: Point, e: Point) -> (r: i8)
    requires
        pt_ok(c),
        pt_ok(s),
        pt_ok(e),
    ensures
        r == spec_quarter_turns(c, s, e),
        -4 <= r <= 4,
{
    let ux = e.x as i64 - c.x as i64;
    let uy = e.y as i64 - c.y as i64;
    let vx = s.x as i64 - c.x as i64;
    let vy = s.y as i64 - c.y as i64;
    if vx == 0 && vy == 0 {
        exec_qround(uy, ux) as i8
    } else if ux == 0 && uy == 0 {
        let q = exec_qround(vy, vx);
        (-q) as i8
    } else {
        proof {
            lemma_mul_bound(vx as int, uy as int, 0x40000, 0x40000);
            lemma_mul_bound(vy as int, ux as int, 0x40000, 0x40000);
            lemma_mul_bound(vx as int, ux as int, 0x40000, 0x40000);
            lemma_mul_bound(vy as int, uy as int, 0x40000, 0x40000);
            lemma_mul_bound(ux as int, vy as int, 0x40000, 0x40000);
            lemma_mul_bound(uy as int, vx as int, 0x40000, 0x40000);
        }
        let cr = vx * uy - vy * ux;
        let dt = vx * ux + vy * uy;
        let cu = exec_theta_class(uy, ux);
        let cv = exec_theta_class(vy, vx);
        let cmp: i64 = if cu < cv {
            -1
        } else if cu > cv {
            1
        } else if cu == 0 || cu == 2 {
            let c2 = ux * vy - uy * vx;
            if c2 > 0 {
                -1
            } else if c2 < 0 {
                1
            } else {
                0
            }
        } else {
            0
        };
        let k: i64 = if cmp > 0 {
            if cr < 0 {
                1
            } else {
                0
            }
        } else if cmp < 0 {
            if cr > 0 || (cr == 0 && dt < 0) {
                -1
            } else {
                0
            }
        } else {
            0
        };
        let q = exec_qround(cr, dt);
        (q + 4 * k) as i8
    }
}

/// A classified stroke only carries endpoints taken from its samples, so
/// they are bounded whenever the samples are.
pub proof fn lemma_classify_pts_ok(sp: Seq<Point>, jitter: int)
    requires
        sp.len() >= 1,
        forall|i: int| 0 <= i < sp.len() ==> pt_ok(#[trigger] sp[i]),
    ensures
        gesture_pts_ok(crate::classify::spec_classify(sp, jitter)),
{
}

/// The endpoints that a provisional gesture carries are bounded samples.
pub open spec fn gesture_pts_ok(g: GestureEvent) -> bool {
    match g {
        GestureEvent::Tap(c) => pt_ok(c),
        GestureEvent::Swipe { start, end, .. } => pt_ok(start) && pt_ok(end),
        GestureEvent::Arrow { start, end, .. } => pt_ok(start) && pt_ok(end),
        GestureEvent::Corner { start, end, .. } => pt_ok(start) && pt_ok(end),
        _ => true,
    }
}

/// Merges two classified strokes that finished together into one compound
/// gesture, or nothing where no rule applies: two taps make a multi-tap; two
/// swipes along the same direction a multi-swipe; two swipes along opposite
/// directions a pinch where the fingers ended closer than they started (with
/// strength the rounded difference of the two distances) and a spread
/// otherwise; an eastward and a westward arrow whose eastward start lies left
/// of the westward start a cross at the centroid of the four endpoints; and a
/// tap paired with a swipe, arrow or corner a rotation around the tap.
pub open spec fn spec_combine(g1: GestureEvent, g2: GestureEvent) -> Option<GestureEvent> {
    match (g1, g2) {
        (GestureEvent::Tap(c1), GestureEvent::Tap(c2)) => Some(
            GestureEvent::MultiTap([c1, c2]),
        ),
        (
            GestureEvent::Swipe { dir: d1, start: s1, end: e1 },
            GestureEvent::Swipe { dir: d2, start: s2, end: e2 },
        ) => if d1 == d2 {
            Some(GestureEvent::MultiSwipe { dir: d1, starts: [s1, s2], ends: [e1, e2] })
        } else if d1 == d2.spec_opposite() {
            let ds = spec_isqrt(spec_dist2(s1, s2));
            let de = spec_isqrt(spec_dist2(e1, e2));
            if spec_dist2(s1, s2) > spec_dist2(e1, e2) {
                Some(
                    GestureEvent::Pinch {
                        axis: d1.spec_axis(),
                        strength: (ds - de) as u32,
                        starts: [s1, s2],
                        ends: [e1, e2],
                    },
                )
            } else {
                Some(
                    GestureEvent::Spread {
                        axis: d1.spec_axis(),
                        strength: (de - ds) as u32,
                        starts: [s1, s2],
                        ends: [e1, e2],
                    },
                )
            }
        } else {
            None
        },
        (
            GestureEvent::Arrow { dir: Dir::East, start: s1, end: e1 },
            GestureEvent::Arrow { dir: Dir::West, start: s2, end: e2 },
        ) => if s1.x < s2.x {
            Some(GestureEvent::Cross(spec_centroid4(s1, e1, s2, e2)))
        } else {
            None
        },
        (
            GestureEvent::Arrow { dir: Dir::West, start: s2, end: e2 },
            GestureEvent::Arrow { dir: Dir::East, start: s1, end: e1 },
        ) => if s1.x < s2.x {
            Some(GestureEvent::Cross(spec_centroid4(s1, e1, s2, e2)))
        } else {
            None
        },
        (GestureEvent::Tap(c), GestureEvent::Swipe { start: s, end: e, .. }) => Some(
            spec_rotate(c, s, e),
        ),
        (GestureEvent::Swipe { start: s, end: e, .. }, GestureEvent::Tap(c)) => Some(
            spec_rotate(c, s, e),
        ),
        (GestureEvent::Tap(c), GestureEvent::Arrow { start: s, end: e, .. }) => Some(
            spec_rotate(c, s, e),
        ),
        (GestureEvent::Arrow { start: s, end: e, .. }, GestureEvent::Tap(c)) => Some(
            spec_rotate(c, s, e),
        ),
        (GestureEvent::Tap(c), GestureEvent::Corner { start: s, end: e, .. }) => Some(
            spec_rotate(c, s, e),
        ),
        (GestureEvent::Corner { start: s, end: e, .. }, GestureEvent::Tap(c)) => Some(
            spec_rotate(c, s, e),
        ),
        _ => None,
    }
}

/// Division by four that truncates toward zero, as the machine's signed
/// division does.
pub open spec fn tdiv4(s: int) -> int {
    if s >= 0 {
        s / 4
    } else {
        -((-s) / 4)
    }
}

pub open spec fn spec_centroid4(a: Point, b: Point, c: Point, d: Point) -> Point {
    Point {
        x: tdiv4(a.x + b.x + c.x + d.x) as i32,
        y: tdiv4(a.y + b.y + c.y + d.y) as i32,
    }
}

pub open spec fn spec_rotate(c: Point, s: Point, e: Point) -> GestureEvent {
    GestureEvent::Rotate {
        center: c,
        quarter_turns: spec_quarter_turns(c, s, e) as i8,
        start: s,
        end: e,
    }
}

fn rotate_of(c: Point, s: Point, e: Point) -> (g: GestureEvent)
    requires
        pt_ok(c),
        pt_ok(s),
        pt_ok(e),
    ensures
        g == spec_rotate(c, s, e),
{
    GestureEvent::Rotate { center: c, quarter_turns: quarter_turns(c, s, e), start: s, end: e }
}

fn centroid4(a: Point, b: Point, c: Point, d: Point) -> (p: Point)
    requires
        pt_ok(a),
        pt_ok(b),
        pt_ok(c),
        pt_ok(d),
    ensures
        p == spec_centroid4(a, b, c, d),
{
    let sx = a.x as i64 + b.x as i64 + c.x as i64 + d.x as i64;
    let sy = a.y as i64 + b.y as i64 + c.y as i64 + d.y as i64;
    let qx = if sx >= 0 { sx / 4 } else { -((-sx) / 4) };
    let qy = if sy >= 0 { sy / 4 } else { -((-sy) / 4) };
    Point { x: qx as i32, y: qy as i32 }
}

/// Combines two classified strokes exactly as `spec_combine` states.
pub fn combine_gestures(g1: GestureEvent, g2: GestureEvent) -> (r: Option<GestureEvent>)
    requires
        gesture_pts_ok(g1),
        gesture_pts_ok(g2),
    ensures
        r == spec_combine(g1, g2),
{
    match (g1, g2) {
        (GestureEvent::Tap(c1), GestureEvent::Tap(c2)) => Some(
            GestureEvent::MultiTap([c1, c2]),
        ),
        (
            GestureEvent::Swipe { dir: d1, start: s1, end: e1 },
            GestureEvent::Swipe { dir: d2, start: s2, end: e2 },
        ) => {
            if d1 == d2 {
                Some(GestureEvent::MultiSwipe { dir: d1, starts: [s1, s2], ends: [e1, e2] })
            } else if d1 == d2.opposite() {
                let ds2 = dist2(s1, s2);
                let de2 = dist2(e1, e2);
                let ds = isqrt(ds2);
                let de = isqrt(de2);
                proof {
                    assert(ds2 > de2 ==> ds >= de) by (nonlinear_arith)
                        requires
                            is_isqrt(ds2 as int, ds as int),
                            is_isqrt(de2 as int, de as int),
                    ;
                    assert(de2 >= ds2 ==> de >= ds) by (nonlinear_arith)
                        requires
                            is_isqrt(ds2 as int, ds as int),
                            is_isqrt(de2 as int, de as int),
                    ;
                }
                if ds2 > de2 {
                    Some(
                        GestureEvent::Pinch {
                            axis: d1.axis(),
                            strength: (ds - de) as u32,
                            starts: [s1, s2],
                            ends: [e1, e2],
                        },
                    )
                } else {
                    Some(
                        GestureEvent::Spread {
                            axis: d1.axis(),
                            strength: (de - ds) as u32,
                            starts: [s1, s2],
                            ends: [e1, e2],
                        },
                    )
                }
            } else {
                None
            }
        },
        (
            GestureEvent::Arrow { dir: Dir::East, start: s1, end: e1 },
            GestureEvent::Arrow { dir: Dir::West, start: s2, end: e2 },
        ) => {
            if s1.x < s2.x {
                Some(GestureEvent::Cross(centroid4(s1, e1, s2, e2)))
            } else {
                None
            }
        },
        (
            GestureEvent::Arrow { dir: Dir::West, start: s2, end: e2 },
            GestureEvent::Arrow { dir: Dir::East, start: s1, end: e1 },
        ) => {
            if s1.x < s2.x {
                Some(GestureEvent::Cross(centroid4(s1, e1, s2, e2)))
            } else {
                None
            }
        },
        (GestureEvent::Tap(c), GestureEvent::Swipe { start: s, end: e, .. }) => Some(
            rotate_of(c, s, e),
        ),
        (GestureEvent::Swipe { start: s, end: e, .. }, GestureEvent::Tap(c)) => Some(
            rotate_of(c, s, e),
        ),
        (GestureEvent::Tap(c), GestureEvent::Arrow { start: s, end: e, .. }) => Some(
            rotate_of(c, s, e),
        ),
        (GestureEvent::Arrow { start: s, end: e, .. }, GestureEvent::Tap(c)) => Some(
            rotate_of(c, s, e),
        ),
        (GestureEvent::Tap(c), GestureEvent::Corner { start: s, end: e, .. }) => Some(
            rotate_of(c, s, e),
        ),
        (GestureEvent::Corner { start: s, end: e, .. }, GestureEvent::Tap(c)) => Some(
            rotate_of(c, s, e),
        ),
        _ => None,
    }
}

} // verus!
