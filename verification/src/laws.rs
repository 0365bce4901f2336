use vstd::prelude::*;
use crate::geom::{Point, spec_dist2, spec_dir_of};
use crate::gesture::GestureEvent;
use crate::classify::{spec_classify, chord_dot, elbow_of};
use crate::combine::{spec_combine, spec_isqrt, is_isqrt, gesture_pts_ok};
use crate::parser::{
    ParserModel, spec_on_down, spec_on_up, spec_up_emit, spec_after_release, spec_hold_short,
    spec_hold_short_emit, spec_hold_long_emit, spec_hold_conditions, spec_on_press,
    spec_on_release, spec_button_hold_conditions,
};

verus! {

/// Any single-contact path whose chord, from first to last sample, stays
/// under the jitter tolerance classifies as a tap at its first sample.
pub proof fn law_short_path_is_tap(sp: Seq<Point>, jitter: int)
    requires
        sp.len() >= 1,
        spec_dist2(sp[0], sp[sp.len() - 1]) < jitter * jitter,
    ensures
        spec_classify(sp, jitter) == GestureEvent::Tap(sp[0]),
{
}

/// The elbow's deviation from the chord exceeds a fifth of the chord's
/// length. The deviation is measured to the elbow's nearest point on the
/// chord segment, so it takes one of three shapes: to the first sample, to
/// the last one, or, for an interior projection, perpendicular to the chord
/// (there scaled by the squared chord length).
pub open spec fn spec_stroke_deviates(sp: Seq<Point>) -> bool {
    let a = sp[0];
    let b = sp[sp.len() - 1];
    let d2 = spec_dist2(a, b);
    let p = sp[elbow_of(sp)];
    let dot = chord_dot(a, b, p);
    if dot <= 0 {
        25 * spec_dist2(a, p) > d2
    } else if dot >= d2 {
        25 * spec_dist2(b, p) > d2
    } else {
        let ux = (p.x - a.x) * d2 - dot * (b.x - a.x);
        let uy = (p.y - a.y) * d2 - dot * (b.y - a.y);
        25 * (ux * ux + uy * uy) > d2 * d2 * d2
    }
}

/// Any single-contact path whose chord reaches the jitter tolerance and
/// whose elbow deviates by at most a fifth of the chord classifies as a
/// swipe along the chord's quantized direction.
pub proof fn law_straight_path_is_swipe(sp: Seq<Point>, jitter: int)
    requires
        sp.len() >= 1,
        spec_dist2(sp[0], sp[sp.len() - 1]) >= jitter * jitter,
        !spec_stroke_deviates(sp),
    ensures
        spec_classify(sp, jitter) == (GestureEvent::Swipe {
            dir: spec_dir_of(
                sp[sp.len() - 1].x - sp[0].x,
                sp[sp.len() - 1].y - sp[0].y,
            ),
            start: sp[0],
            end: sp[sp.len() - 1],
        }),
{
}

/// Two contacts that overlap in time, each stationary within the jitter
/// tolerance, and released while both were down, produce no event at the
/// first release and exactly one multi-tap at the second: never two
/// separate taps.
pub proof fn law_two_stationary_contacts_multi_tap(
    m0: ParserModel,
    id1: i32,
    id2: i32,
    p1: Point,
    p2: Point,
    q1: Point,
    q2: Point,
    t1: u64,
    t2: u64,
)
    requires
        m0.contacts.dom() =~= Set::<i32>::empty(),
        m0.segments.len() == 0,
        id1 != id2,
        spec_dist2(p1, q1) < m0.jitter * m0.jitter,
        spec_dist2(p2, q2) < m0.jitter * m0.jitter,
    ensures
        ({
            let m2 = spec_on_down(spec_on_down(m0, id1, p1, t1), id2, p2, t2);
            spec_up_emit(m2, id1, q1) is None
        }),
        ({
            let m2 = spec_on_down(spec_on_down(m0, id1, p1, t1), id2, p2, t2);
            let m3 = spec_on_up(m2, id1, q1);
            spec_up_emit(m3, id2, q2) == Some(GestureEvent::MultiTap([p2, p1]))
        }),
{
    let m1 = spec_on_down(m0, id1, p1, t1);
    let m2 = spec_on_down(m1, id2, p2, t2);
    assert(m2.contacts.dom() =~= Set::<i32>::empty().insert(id1).insert(id2));
    let r1 = spec_after_release(m2, id1, q1);
    assert(r1.contacts.dom() =~= Set::<i32>::empty().insert(id2));
    assert(r1.contacts.dom().len() == 1) by {
        assert(Set::<i32>::empty().insert(id2).len() == 1);
    }
    assert(spec_up_emit(m2, id1, q1) is None);
    let m3 = spec_on_up(m2, id1, q1);
    assert(m3 == r1);
    let r2 = spec_after_release(m3, id2, q2);
    assert(r2.contacts.dom() =~= Set::<i32>::empty());
    assert(r2.segments.len() == 2);
    let sp1 = seq![p1].push(q1);
    let sp2 = seq![p2].push(q2);
    assert(r2.segments[0] == sp1 && r2.segments[1] == sp2);
    assert(spec_classify(sp1, m0.jitter) == GestureEvent::Tap(p1)) by {
        law_short_path_is_tap(sp1, m0.jitter);
    }
    assert(spec_classify(sp2, m0.jitter) == GestureEvent::Tap(p2)) by {
        law_short_path_is_tap(sp2, m0.jitter);
    }
    assert(spec_combine(GestureEvent::Tap(p2), GestureEvent::Tap(p1)) == Some(
        GestureEvent::MultiTap([p2, p1]),
    ));
}

pub proof fn lemma_isqrt_exists(n: int)
    requires
        0 <= n,
    ensures
        exists|r: int| #[trigger] is_isqrt(n, r),
    decreases n,
{
    if n == 0 {
        assert(is_isqrt(0, 0));
    } else {
        lemma_isqrt_exists(n - 1);
        let r = choose|r: int| #[trigger] is_isqrt(n - 1, r);
        if n < (r + 1) * (r + 1) {
            assert(is_isqrt(n, r));
        } else {
            assert(n == (r + 1) * (r + 1));
            assert((r + 1) * (r + 1) < (r + 2) * (r + 2)) by (nonlinear_arith)
                requires
                    0 <= r,
            ;
            assert(is_isqrt(n, r + 1));
        }
    }
}

/// Rounded-down square roots preserve order.
pub proof fn lemma_isqrt_monotone(a: int, b: int)
    requires
        0 <= b <= a,
    ensures
        0 <= spec_isqrt(b) <= spec_isqrt(a),
        is_isqrt(a, spec_isqrt(a)),
        is_isqrt(b, spec_isqrt(b)),
{
    lemma_isqrt_exists(a);
    lemma_isqrt_exists(b);
    let ra = spec_isqrt(a);
    let rb = spec_isqrt(b);
    assert(is_isqrt(a, ra));
    assert(is_isqrt(b, rb));
    assert(rb <= ra) by (nonlinear_arith)
        requires
            is_isqrt(a, ra),
            is_isqrt(b, rb),
            b <= a,
    ;
}

/// Two concurrent swipes along opposite directions whose fingers ended
/// closer together than they started combine into a pinch whose strength is
/// the rounded start distance minus the rounded end distance, never
/// negative.
pub proof fn law_opposite_swipes_pinch(g1: GestureEvent, g2: GestureEvent)
    requires
        gesture_pts_ok(g1),
        gesture_pts_ok(g2),
        g1 is Swipe,
        g2 is Swipe,
        g1->Swipe_dir == (g2->Swipe_dir).spec_opposite(),
        spec_dist2(g1->Swipe_start, g2->Swipe_start) > spec_dist2(g1->Swipe_end, g2->Swipe_end),
    ensures
        ({
            let ds = spec_isqrt(spec_dist2(g1->Swipe_start, g2->Swipe_start));
            let de = spec_isqrt(spec_dist2(g1->Swipe_end, g2->Swipe_end));
            &&& ds >= de >= 0
            &&& spec_combine(g1, g2) == Some(
                GestureEvent::Pinch {
                    axis: (g1->Swipe_dir).spec_axis(),
                    strength: (ds - de) as u32,
                    starts: [g1->Swipe_start, g2->Swipe_start],
                    ends: [g1->Swipe_end, g2->Swipe_end],
                },
            )
        }),
{
    let s1 = g1->Swipe_start;
    let s2 = g2->Swipe_start;
    let e1 = g1->Swipe_end;
    let e2 = g2->Swipe_end;
    crate::geom::lemma_dist2_nonneg(e1, e2);
    lemma_isqrt_monotone(spec_dist2(s1, s2), spec_dist2(e1, e2));
    assert(g1->Swipe_dir != g2->Swipe_dir);
}

/// A successful short hold check emits the short hold gesture and marks the
/// contact held; the registries are otherwise untouched, so no stroke can
/// later be produced for it.
pub proof fn law_hold_short_marks_held(m: ParserModel, id: i32, pos: Point, time: u64)
    requires
        spec_hold_conditions(m, id, pos, time),
    ensures
        spec_hold_short_emit(m, id, pos, time) == Some(GestureEvent::HoldFingerShort(pos, id)),
        spec_hold_short(m, id, pos, time).contacts[id].held,
        spec_hold_short(m, id, pos, time).segments == m.segments,
        spec_hold_short(m, id, pos, time).buttons == m.buttons,
{
}

/// After a successful short hold check, the contact's release is dropped
/// silently: the up transition emits nothing and leaves no pending stroke.
pub proof fn law_held_release_produces_no_stroke(m: ParserModel, id: i32, pos: Point, time: u64, up_pos: Point)
    requires
        spec_hold_conditions(m, id, pos, time),
        m.contacts.dom().finite(),
    ensures
        spec_up_emit(spec_hold_short(m, id, pos, time), id, up_pos) is None,
        spec_on_up(spec_hold_short(m, id, pos, time), id, up_pos).segments.len() == 0,
{
    let mh = spec_hold_short(m, id, pos, time);
    assert(mh.contacts.contains_key(id) && mh.contacts[id].held);
    let r = spec_after_release(mh, id, up_pos);
    assert(r.segments.len() == 0);
}

/// Lifting the finger before a tier's delay elapses suppresses that tier:
/// a hold check that runs after the contact's release finds it unregistered
/// and emits nothing.
pub proof fn law_release_suppresses_hold(m: ParserModel, id: i32, up_pos: Point, pos: Point, time: u64)
    ensures
        !spec_after_release(m, id, up_pos).contacts.contains_key(id),
        !spec_on_up(m, id, up_pos).contacts.contains_key(id),
        spec_hold_short_emit(spec_on_up(m, id, up_pos), id, pos, time) is None,
        spec_hold_long_emit(spec_on_up(m, id, up_pos), id, pos, time) is None,
{
}

/// The long hold check re-validates exactly the short check's conditions on
/// the state it sees: on one and the same state it fires exactly when the
/// short one would, so a long hold can only follow a short one.
pub proof fn law_long_iff_short(m: ParserModel, id: i32, pos: Point, time: u64)
    ensures
        spec_hold_long_emit(m, id, pos, time) is Some <==> spec_hold_short_emit(
            m,
            id,
            pos,
            time,
        ) is Some,
{
}

/// While any contact remains down, a release emits no gesture: the
/// combiner decides exactly once, at the release that empties the
/// registry.
pub proof fn law_no_emission_while_contacts_remain(m: ParserModel, id: i32, pos: Point)
    requires
        spec_after_release(m, id, pos).contacts.dom().len() != 0,
    ensures
        spec_up_emit(m, id, pos) is None,
        spec_on_up(m, id, pos) == spec_after_release(m, id, pos),
{
}

/// Three or more strokes pending when the last contact lifts are all
/// discarded: no combined gesture is emitted and the queue is cleared.
pub proof fn law_three_strokes_discarded(m: ParserModel, id: i32, pos: Point)
    requires
        m.contacts.dom().finite(),
        m.contacts.dom() =~= Set::<i32>::empty().insert(id),
        !m.contacts[id].held,
        m.segments.len() >= 2,
    ensures
        spec_up_emit(m, id, pos) is None,
        spec_on_up(m, id, pos).segments.len() == 0,
        spec_on_up(m, id, pos).contacts.dom() =~= Set::<i32>::empty(),
{
    let r = spec_after_release(m, id, pos);
    assert(r.contacts.dom() =~= Set::<i32>::empty());
    assert(r.segments.len() >= 3);
}

/// A button pressed and still down with the same press time when the short
/// delay elapses satisfies the hold conditions, so the short button hold
/// fires; releasing the button beforehand removes it from the registry and
/// suppresses every later tier.
pub proof fn law_button_hold(m: ParserModel, code: crate::gesture::ButtonCode, time: u64)
    ensures
        spec_button_hold_conditions(spec_on_press(m, code, time), code, time),
        !spec_button_hold_conditions(spec_on_release(m, code), code, time),
{
}

} // verus!
