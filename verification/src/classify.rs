use vstd::prelude::*;
use crate::geom::{
    Point, pt_ok, spec_dist2, dist2, spec_dir_of, dir_of, spec_diag_dir_of, diag_dir_of,
};
use crate::gesture::GestureEvent;

verus! {

use vstd::math::abs;

/// `|a * b| <= m * n` for `|a| <= m`, `|b| <= n`.
pub proof fn lemma_mul_bound(a: int, b: int, m: int, n: int)
    requires
        -m <= a <= m,
        -n <= b <= n,
        0 <= m,
        0 <= n,
    ensures
        -(m * n) <= a * b <= m * n,
{
    assert(-(m * n) <= a * b <= m * n) by (nonlinear_arith)
        requires
            -m <= a <= m,
            -n <= b <= n,
            0 <= m,
            0 <= n,
    ;
}

/// Cross product of the chord `a -> b` with `a -> p`: proportional to the
/// perpendicular deviation of `p` from the chord's carrying line.
pub open spec fn chord_cross(a: Point, b: Point, p: Point) -> int {
    (b.x - a.x) * (p.y - a.y) - (b.y - a.y) * (p.x - a.x)
}

/// Dot product of the chord `a -> b` with `a -> p`: the unclamped projection
/// of `p` onto the chord, scaled by the chord's length.
pub open spec fn chord_dot(a: Point, b: Point, p: Point) -> int {
    (b.x - a.x) * (p.x - a.x) + (b.y - a.y) * (p.y - a.y)
}

/// Walks the samples from index `i` on, keeping the index of the sample with
/// the largest perpendicular deviation seen so far; an equal deviation keeps
/// the earlier index.
pub open spec fn elbow_from(sp: Seq<Point>, i: int, best: int) -> int
    decreases sp.len() - i,
{
    if i < 0 || i >= sp.len() {
        best
    } else {
        let a = sp[0];
        let b = sp[sp.len() - 1];
        let next = if abs(chord_cross(a, b, sp[i])) > abs(chord_cross(a, b, sp[best])) {
            i
        } else {
            best
        };
        elbow_from(sp, i + 1, next)
    }
}

/// The elbow: the first sample at maximal perpendicular deviation from the
/// chord joining the path's endpoints.
pub open spec fn elbow_of(sp: Seq<Point>) -> int {
    elbow_from(sp, 1, 0)
}

pub proof fn lemma_elbow_from_in_range(sp: Seq<Point>, i: int, best: int)
    requires
        0 <= best < sp.len(),
    ensures
        0 <= elbow_from(sp, i, best) < sp.len(),
    decreases sp.len() - i,
{
    if 0 <= i < sp.len() {
        let a = sp[0];
        let b = sp[sp.len() - 1];
        let next = if abs(chord_cross(a, b, sp[i])) > abs(chord_cross(a, b, sp[best])) {
            i
        } else {
            best
        };
        lemma_elbow_from_in_range(sp, i + 1, next);
    }
}

pub proof fn lemma_elbow_in_range(sp: Seq<Point>)
    requires
        sp.len() >= 1,
    ensures
        0 <= elbow_of(sp) < sp.len(),
{
    lemma_elbow_from_in_range(sp, 1, 0);
}

/// The deviation at the elbow is maximal among all samples.
pub proof fn lemma_elbow_from_is_max(sp: Seq<Point>, i: int, best: int)
    requires
        0 <= best < sp.len(),
        1 <= i,
        forall|j: int|
            0 <= j < i && j < sp.len() ==> abs(
                chord_cross(sp[0], sp[sp.len() - 1], #[trigger] sp[j]),
            ) <= abs(chord_cross(sp[0], sp[sp.len() - 1], sp[best])),
    ensures
        forall|j: int|
            0 <= j < sp.len() ==> abs(chord_cross(sp[0], sp[sp.len() - 1], #[trigger] sp[j]))
                <= abs(chord_cross(sp[0], sp[sp.len() - 1], sp[elbow_from(sp, i, best)])),
    decreases sp.len() - i,
{
    if 0 <= i < sp.len() {
        let a = sp[0];
        let b = sp[sp.len() - 1];
        let next = if abs(chord_cross(a, b, sp[i])) > abs(chord_cross(a, b, sp[best])) {
            i
        } else {
            best
        };
        lemma_elbow_from_is_max(sp, i + 1, next);
    }
}

/// No sample deviates farther from the chord than the elbow sample.
pub proof fn lemma_elbow_is_max(sp: Seq<Point>)
    requires
        sp.len() >= 1,
    ensures
        forall|j: int|
            0 <= j < sp.len() ==> abs(chord_cross(sp[0], sp[sp.len() - 1], #[trigger] sp[j]))
                <= abs(chord_cross(sp[0], sp[sp.len() - 1], sp[elbow_of(sp)])),
{
    assert(chord_cross(sp[0], sp[sp.len() - 1], sp[0]) == 0) by (nonlinear_arith);
    lemma_elbow_from_is_max(sp, 1, 0);
}

fn cross_of(a: Point, b: Point, p: Point) -> (r: i64)
    requires
        pt_ok(a),
        pt_ok(b),
        pt_ok(p),
    ensures
        r == chord_cross(a, b, p),
        -0x4000000000 <= r <= 0x4000000000,
{
    let abx = b.x as i64 - a.x as i64;
    let aby = b.y as i64 - a.y as i64;
    let apx = p.x as i64 - a.x as i64;
    let apy = p.y as i64 - a.y as i64;
    proof {
        lemma_mul_bound(abx as int, apy as int, 0x40000, 0x40000);
        lemma_mul_bound(aby as int, apx as int, 0x40000, 0x40000);
    }
    abx * apy - aby * apx
}

fn dot_of(a: Point, b: Point, p: Point) -> (r: i64)
    requires
        pt_ok(a),
        pt_ok(b),
        pt_ok(p),
    ensures
        r == chord_dot(a, b, p),
        -0x4000000000 <= r <= 0x4000000000,
{
    let abx = b.x as i64 - a.x as i64;
    let aby = b.y as i64 - a.y as i64;
    let apx = p.x as i64 - a.x as i64;
    let apy = p.y as i64 - a.y as i64;
    proof {
        lemma_mul_bound(abx as int, apx as int, 0x40000, 0x40000);
        lemma_mul_bound(aby as int, apy as int, 0x40000, 0x40000);
    }
    abx * apx + aby * apy
}

/// Index of the sample with the greatest perpendicular deviation from the
/// chord joining the first and last samples; ties keep the earliest.
pub fn elbow(sp: &Vec<Point>) -> (r: usize)
    requires
        sp.len() >= 1,
        forall|i: int| 0 <= i < sp.len() ==> pt_ok(sp[i]),
    ensures
        r == elbow_of(sp@),
        r < sp.len(),
        forall|j: int|
            0 <= j < sp@.len() ==> abs(chord_cross(sp@[0], sp@[sp@.len() - 1], #[trigger] sp@[j]))
                <= abs(chord_cross(sp@[0], sp@[sp@.len() - 1], sp@[r as int])),
{
    let a = sp[0];
    let b = sp[sp.len() - 1];
    let mut best: usize = 0;
    let mut bestv: i64 = 0;
    let mut i: usize = 1;
    proof {
        lemma_elbow_in_range(sp@);
    }
    while i < sp.len()
        invariant
            sp.len() >= 1,
            forall|k: int| 0 <= k < sp.len() ==> pt_ok(sp[k]),
            a == sp[0],
            b == sp[sp.len() - 1],
            1 <= i <= sp.len(),
            best < i,
            bestv == abs(chord_cross(a, b, sp[best as int])),
            elbow_from(sp@, i as int, best as int) == elbow_of(sp@),
        decreases sp.len() - i,
    {
        let c = cross_of(a, b, sp[i]);
        let ac = if c < 0 { -c } else { c };
        proof {
            assert(ac == abs(chord_cross(a, b, sp[i as int])));
        }
        if ac > bestv {
            best = i;
            bestv = ac;
        }
        i = i + 1;
    }
    proof {
        lemma_elbow_in_range(sp@);
        lemma_elbow_is_max(sp@);
    }
    best
}

/// The shape of a non-tap stroke, decided by its deviation vector `dv` and
/// whether that deviation exceeds a fifth of the chord: a bowed path is an
/// arrow where one axis dominates the deviation and a corner otherwise, and a
/// near-straight path is a swipe along the chord's quantized direction.
pub open spec fn spec_shape(a: Point, b: Point, dvx: int, dvy: int, deviates: bool) -> GestureEvent {
    if deviates {
        if 2 * abs(dvx) < abs(dvy) || abs(dvx) > 2 * abs(dvy) {
            GestureEvent::Arrow { dir: spec_dir_of(dvx, dvy), start: a, end: b }
        } else {
            GestureEvent::Corner { dir: spec_diag_dir_of(dvx, dvy), start: a, end: b }
        }
    } else {
        GestureEvent::Swipe { dir: spec_dir_of(b.x - a.x, b.y - a.y), start: a, end: b }
    }
}

/// Classification of one finished single-contact path. Writing `a` and `b`
/// for the first and last samples: a chord shorter than the jitter tolerance
/// is a tap at `a`; otherwise the elbow sample is projected onto the segment
/// `a -> b` (clamped to its ends) and the deviation vector from the projection
/// decides the shape. All comparisons are exact: a deviation `ds > d / 5`
/// is compared as `25 * ds^2 > d^2 * d^2 * d^2` on the scaled vector, and the
/// aspect test `|dv.x / dv.y| < 1/2 or > 2` as `2|dv.x| < |dv.y)| or
/// |dv.x| > 2|dv.y|`.
pub open spec fn spec_classify(sp: Seq<Point>, jitter: int) -> GestureEvent {
    let a = sp[0];
    let b = sp[sp.len() - 1];
    let d2 = spec_dist2(a, b);
    if d2 < jitter * jitter {
        GestureEvent::Tap(a)
    } else {
        let p = sp[elbow_of(sp)];
        let dot = chord_dot(a, b, p);
        if dot <= 0 {
            spec_shape(a, b, p.x - a.x, p.y - a.y, 25 * spec_dist2(a, p) > d2)
        } else if dot >= d2 {
            spec_shape(a, b, p.x - b.x, p.y - b.y, 25 * spec_dist2(b, p) > d2)
        } else {
            let ux = (p.x - a.x) * d2 - dot * (b.x - a.x);
            let uy = (p.y - a.y) * d2 - dot * (b.y - a.y);
            spec_shape(a, b, ux, uy, 25 * (ux * ux + uy * uy) > d2 * d2 * d2)
        }
    }
}

fn shape_of(a: Point, b: Point, dvx: i64, dvy: i64, deviates: bool) -> (g: GestureEvent)
    requires
        pt_ok(a),
        pt_ok(b),
        -0x200000000000000 <= dvx <= 0x200000000000000,
        -0x200000000000000 <= dvy <= 0x200000000000000,
    ensures
        g == spec_shape(a, b, dvx as int, dvy as int, deviates),
{
    if deviates {
        let ax = if dvx < 0 { -dvx } else { dvx };
        let ay = if dvy < 0 { -dvy } else { dvy };
        if 2 * ax < ay || ax > 2 * ay {
            GestureEvent::Arrow { dir: dir_of(dvx, dvy), start: a, end: b }
        } else {
            GestureEvent::Corner { dir: diag_dir_of(dvx, dvy), start: a, end: b }
        }
    } else {
        let cx = b.x as i64 - a.x as i64;
        let cy = b.y as i64 - a.y as i64;
        GestureEvent::Swipe { dir: dir_of(cx, cy), start: a, end: b }
    }
}

/// Turns the ordered samples of one finished contact into a provisional
/// gesture, exactly as `spec_classify` states.
pub fn interpret_segment(sp: &Vec<Point>, jitter: i32) -> (g: GestureEvent)
    requires
        sp.len() >= 1,
        forall|i: int| 0 <= i < sp.len() ==> pt_ok(sp[i]),
        0 <= jitter <= crate::geom::TOUCH_COORD_MAX,
    ensures
        g == spec_classify(sp@, jitter as int),
{
    let a = sp[0];
    let b = sp[sp.len() - 1];
    let d2 = dist2(a, b);
    proof {
        lemma_mul_bound(jitter as int, jitter as int, 0x20000, 0x20000);
    }
    let j2 = jitter as i64 * jitter as i64;
    if d2 < j2 {
        GestureEvent::Tap(a)
    } else {
        let e = elbow(sp);
        let p = sp[e];
        let dot = dot_of(a, b, p);
        if dot <= 0 {
            let ds2 = dist2(a, p);
            shape_of(a, b, p.x as i64 - a.x as i64, p.y as i64 - a.y as i64, 25 * ds2 > d2)
        } else if dot >= d2 {
            let ds2 = dist2(b, p);
            shape_of(a, b, p.x as i64 - b.x as i64, p.y as i64 - b.y as i64, 25 * ds2 > d2)
        } else {
            let dpx = p.x as i64 - a.x as i64;
            let dpy = p.y as i64 - a.y as i64;
            let dbx = b.x as i64 - a.x as i64;
            let dby = b.y as i64 - a.y as i64;
            proof {
                lemma_mul_bound(dpx as int, d2 as int, 0x40000, 0x2000000000);
                lemma_mul_bound(dpy as int, d2 as int, 0x40000, 0x2000000000);
                lemma_mul_bound(dot as int, dbx as int, 0x4000000000, 0x40000);
                lemma_mul_bound(dot as int, dby as int, 0x4000000000, 0x40000);
            }
            let ux = dpx * d2 - dot * dbx;
            let uy = dpy * d2 - dot * dby;
            proof {
                lemma_mul_bound(ux as int, ux as int, 0x200000000000000, 0x200000000000000);
                lemma_mul_bound(uy as int, uy as int, 0x200000000000000, 0x200000000000000);
                lemma_mul_bound(d2 as int, d2 as int, 0x2000000000, 0x2000000000);
                lemma_mul_bound((d2 * d2) as int, d2 as int, 0x4000000000000000000, 0x2000000000);
            }
            let u2: i128 = (ux as i128) * (ux as i128) + (uy as i128) * (uy as i128);
            let d6: i128 = (d2 as i128) * (d2 as i128) * (d2 as i128);
            shape_of(a, b, ux, uy, 25 * u2 > d6)
        }
    }
}

} // verus!
