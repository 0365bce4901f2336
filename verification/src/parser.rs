use vstd::prelude::*;
use crate::geom::{Point, pt_ok, spec_dist2, dist2, TOUCH_COORD_MAX};
use crate::gesture::{GestureEvent, ButtonCode, DeviceEvent, FingerStatus, ButtonStatus};
use crate::classify::{spec_classify, interpret_segment, lemma_mul_bound};
use crate::combine::{spec_combine, combine_gestures, lemma_classify_pts_ok};
use crate::assoc::{assoc_model, unique_keys, lemma_assoc_contains, lemma_assoc_at, lemma_assoc_len, lemma_assoc_push, lemma_assoc_update, lemma_assoc_remove};

verus! {

/// State of one live finger contact: the time of its down transition, whether
/// a short hold already fired for it, and every sampled position in order,
/// seeded with the down position.
pub struct TouchState {
    pub time: u64,
    pub held: bool,
    pub positions: Vec<Point>,
}

/// The mathematical image of a `TouchState`.
pub ghost struct TouchModel {
    pub time: u64,
    pub held: bool,
    pub positions: Seq<Point>,
}

impl View for TouchState {
    type V = TouchModel;

    open spec fn view(&self) -> TouchModel {
        TouchModel { time: self.time, held: self.held, positions: self.positions@ }
    }
}

/// A live contact always holds at least one bounded sample.
pub open spec fn tm_wf(t: TouchModel) -> bool {
    &&& 1 <= t.positions.len()
    &&& forall|i: int| 0 <= i < t.positions.len() ==> pt_ok(#[trigger] t.positions[i])
}

/// A finished stroke: at least one bounded sample.
pub open spec fn seg_wf(s: Seq<Point>) -> bool {
    &&& 1 <= s.len()
    &&& forall|i: int| 0 <= i < s.len() ==> pt_ok(#[trigger] s[i])
}

/// The mathematical state of the recognizer: the contact registry, the button
/// registry, the pending finished strokes of the current overlapping-contact
/// episode, and the immutable jitter tolerance in pixels.
#[verifier::ext_equal]
pub ghost struct ParserModel {
    pub contacts: Map<i32, TouchModel>,
    pub buttons: Map<ButtonCode, u64>,
    pub segments: Seq<Seq<Point>>,
    pub jitter: int,
}

pub open spec fn model_wf(m: ParserModel) -> bool {
    &&& forall|k: i32| #[trigger] m.contacts.contains_key(k) ==> tm_wf(m.contacts[k])
    &&& forall|i: int| 0 <= i < m.segments.len() ==> seg_wf(#[trigger] m.segments[i])
    &&& 0 <= m.jitter <= TOUCH_COORD_MAX as int
}

/// The gesture recognizer's shared state. The registries are association
/// vectors with unique keys, small enough for the handful of simultaneous
/// contacts and buttons a device produces.
pub struct GestureParser {
    contacts: Vec<(i32, TouchState)>,
    buttons: Vec<(ButtonCode, u64)>,
    segments: Vec<Vec<Point>>,
    jitter: i32,
}

impl View for GestureParser {
    type V = ParserModel;

    closed spec fn view(&self) -> ParserModel {
        ParserModel {
            contacts: assoc_model(self.contacts@),
            buttons: assoc_model(self.buttons@),
            segments: self.segments@.map_values(|v: Vec<Point>| v@),
            jitter: self.jitter as int,
        }
    }
}

/// A down transition registers a fresh contact seeded with its position;
/// a reused id is overwritten.
pub open spec fn spec_on_down(m: ParserModel, id: i32, pos: Point, time: u64) -> ParserModel {
    ParserModel {
        contacts: m.contacts.insert(
            id,
            TouchModel { time, held: false, positions: seq![pos] },
        ),
        ..m
    }
}

/// A motion sample is appended to its contact's path; a sample for an
/// unknown id is ignored.
pub open spec fn spec_on_motion(m: ParserModel, id: i32, pos: Point) -> ParserModel {
    if m.contacts.contains_key(id) {
        let ts = m.contacts[id];
        ParserModel {
            contacts: m.contacts.insert(
                id,
                TouchModel { positions: ts.positions.push(pos), ..ts },
            ),
            ..m
        }
    } else {
        m
    }
}

/// An up transition removes the contact; unless a hold already consumed it,
/// the path, closed with the up position, joins the pending strokes.
pub open spec fn spec_after_release(m: ParserModel, id: i32, pos: Point) -> ParserModel {
    if m.contacts.contains_key(id) {
        let ts = m.contacts[id];
        if !ts.held {
            ParserModel {
                contacts: m.contacts.remove(id),
                segments: m.segments.push(ts.positions.push(pos)),
                ..m
            }
        } else {
            ParserModel { contacts: m.contacts.remove(id), ..m }
        }
    } else {
        m
    }
}

/// What an up transition emits: once the registry empties with strokes
/// pending, a single stroke is classified directly, two are combined, and
/// three or more are discarded.
pub open spec fn spec_up_emit(m: ParserModel, id: i32, pos: Point) -> Option<GestureEvent> {
    let m1 = spec_after_release(m, id, pos);
    if m1.contacts.dom().len() == 0 && m1.segments.len() > 0 {
        if m1.segments.len() == 1 {
            Some(spec_classify(m1.segments[0], m.jitter))
        } else if m1.segments.len() == 2 {
            spec_combine(
                spec_classify(m1.segments[1], m.jitter),
                spec_classify(m1.segments[0], m.jitter),
            )
        } else {
            None
        }
    } else {
        None
    }
}

/// The state after an up transition: whenever the registry empties, the
/// pending strokes are consumed, an event or not.
pub open spec fn spec_on_up(m: ParserModel, id: i32, pos: Point) -> ParserModel {
    let m1 = spec_after_release(m, id, pos);
    if m1.contacts.dom().len() == 0 && m1.segments.len() > 0 {
        ParserModel { segments: Seq::empty(), ..m1 }
    } else {
        m1
    }
}

/// A hold re-validation succeeds only while the originating contact is the
/// sole one, no stroke is pending, the registered down time still equals the
/// captured one (the id was not reused), and the contact has not meaningfully
/// moved: the last sample lies within the jitter tolerance of the captured
/// down position, and the middle sample within the jitter tolerance of the
/// last.
pub open spec fn spec_hold_conditions(m: ParserModel, id: i32, pos: Point, time: u64) -> bool {
    &&& m.contacts.dom().len() <= 1
    &&& m.segments.len() == 0
    &&& m.contacts.contains_key(id)
    &&& m.contacts[id].time == time
    &&& spec_dist2(m.contacts[id].positions.last(), pos) < m.jitter * m.jitter
    &&& spec_dist2(
        m.contacts[id].positions[m.contacts[id].positions.len() as int / 2],
        m.contacts[id].positions.last(),
    ) < m.jitter * m.jitter
}

/// A successful short check marks the contact held, so that its later up
/// transition is dropped silently.
pub open spec fn spec_hold_short(m: ParserModel, id: i32, pos: Point, time: u64) -> ParserModel {
    if spec_hold_conditions(m, id, pos, time) {
        let ts = m.contacts[id];
        ParserModel { contacts: m.contacts.insert(id, TouchModel { held: true, ..ts }), ..m }
    } else {
        m
    }
}

pub open spec fn spec_hold_short_emit(m: ParserModel, id: i32, pos: Point, time: u64) -> Option<
    GestureEvent,
> {
    if spec_hold_conditions(m, id, pos, time) {
        Some(GestureEvent::HoldFingerShort(pos, id))
    } else {
        None
    }
}

pub open spec fn spec_hold_long_emit(m: ParserModel, id: i32, pos: Point, time: u64) -> Option<
    GestureEvent,
> {
    if spec_hold_conditions(m, id, pos, time) {
        Some(GestureEvent::HoldFingerLong(pos, id))
    } else {
        None
    }
}

pub open spec fn spec_on_press(m: ParserModel, code: ButtonCode, time: u64) -> ParserModel {
    ParserModel { buttons: m.buttons.insert(code, time), ..m }
}

pub open spec fn spec_on_release(m: ParserModel, code: ButtonCode) -> ParserModel {
    ParserModel { buttons: m.buttons.remove(code), ..m }
}

/// A button hold re-validation succeeds while the button is still pressed
/// with the same press time.
pub open spec fn spec_button_hold_conditions(m: ParserModel, code: ButtonCode, time: u64) -> bool {
    m.buttons.contains_key(code) && m.buttons[code] == time
}

impl GestureParser {
    pub closed spec fn wf(&self) -> bool {
        &&& unique_keys(self.contacts@)
        &&& unique_keys(self.buttons@)
        &&& model_wf(self@)
    }

    /// A fresh recognizer with no contact, no button and no pending stroke.
    pub fn new(jitter: i32) -> (p: GestureParser)
        requires
            0 <= jitter <= TOUCH_COORD_MAX,
        ensures
            p.wf(),
            p@ == (ParserModel {
                contacts: Map::<i32, TouchModel>::empty(),
                buttons: Map::<ButtonCode, u64>::empty(),
                segments: Seq::<Seq<Point>>::empty(),
                jitter: jitter as int,
            }),
    {
        let p = GestureParser {
            contacts: Vec::new(),
            buttons: Vec::new(),
            segments: Vec::new(),
            jitter,
        };
        proof {
            assert(p@.segments =~= Seq::<Seq<Point>>::empty());
            assert(p@ =~= ParserModel {
                contacts: Map::<i32, TouchModel>::empty(),
                buttons: Map::<ButtonCode, u64>::empty(),
                segments: Seq::<Seq<Point>>::empty(),
                jitter: jitter as int,
            });
        }
        p
    }

    fn find_contact(&self, id: i32) -> (r: Option<usize>)
        ensures
            match r {
                Some(i) => i < self.contacts@.len() && self.contacts@[i as int].0 == id,
                None => forall|j: int|
                    0 <= j < self.contacts@.len() ==> (#[trigger] self.contacts@[j]).0 != id,
            },
    {
        let mut i: usize = 0;
        while i < self.contacts.len()
            invariant
                i <= self.contacts@.len(),
                forall|j: int| 0 <= j < i ==> (#[trigger] self.contacts@[j]).0 != id,
            decreases self.contacts@.len() - i,
        {
            if self.contacts[i].0 == id {
                return Some(i);
            }
            i = i + 1;
        }
        None
    }

    fn find_button(&self, code: ButtonCode) -> (r: Option<usize>)
        ensures
            match r {
                Some(i) => i < self.buttons@.len() && self.buttons@[i as int].0 == code,
                None => forall|j: int|
                    0 <= j < self.buttons@.len() ==> (#[trigger] self.buttons@[j]).0 != code,
            },
    {
        let mut i: usize = 0;
        while i < self.buttons.len()
            invariant
                i <= self.buttons@.len(),
                forall|j: int| 0 <= j < i ==> (#[trigger] self.buttons@[j]).0 != code,
            decreases self.buttons@.len() - i,
        {
            if self.buttons[i].0 == code {
                return Some(i);
            }
            i = i + 1;
        }
        None
    }

    /// Registers a fresh contact on a down transition. The caller arranges
    /// the two delayed hold re-validations for it.
    pub fn on_finger_down(&mut self, id: i32, position: Point, time: u64)
        requires
            old(self).wf(),
            pt_ok(position),
        ensures
            final(self).wf(),
            final(self)@ == spec_on_down(old(self)@, id, position, time),
    {
        let mut positions: Vec<Point> = Vec::new();
        positions.push(position);
        let ts = TouchState { time, held: false, positions };
        let ghost tsm = TouchModel { time, held: false, positions: seq![position] };
        proof {
            assert(ts@.positions =~= tsm.positions);
        }
        match self.find_contact(id) {
            Some(i) => {
                let ghost s0 = self.contacts@;
                proof {
                    lemma_assoc_update(s0, i as int, ts);
                }
                self.contacts[i] = (id, ts);
                proof {
                    assert(self.contacts@ =~= s0.update(i as int, (id, ts)));
                    assert(unique_keys(self.contacts@));
                    assert(self@ =~= spec_on_down(old(self)@, id, position, time));
                }
            },
            None => {
                let ghost s0 = self.contacts@;
                proof {
                    lemma_assoc_push(s0, id, ts);
                }
                self.contacts.push((id, ts));
                proof {
                    assert(unique_keys(self.contacts@)) by {
                        assert(forall|j: int|
                            0 <= j < s0.len() ==> self.contacts@[j] == s0[j]);
                    }
                    assert(self@ =~= spec_on_down(old(self)@, id, position, time));
                }
            },
        }
    }

    /// Appends a motion sample to its contact's path; a sample for an
    /// unknown id is ignored rather than an error.
    pub fn on_finger_motion(&mut self, id: i32, position: Point)
        requires
            old(self).wf(),
            pt_ok(position),
        ensures
            final(self).wf(),
            final(self)@ == spec_on_motion(old(self)@, id, position),
    {
        match self.find_contact(id) {
            Some(i) => {
                let ghost s0 = self.contacts@;
                proof {
                    lemma_assoc_at(s0, i as int);
                    lemma_assoc_contains(s0, id);
                }
                self.contacts[i].1.positions.push(position);
                proof {
                    let ts2 = self.contacts@[i as int].1;
                    assert(self.contacts@ =~= s0.update(i as int, (id, ts2)));
                    lemma_assoc_update(s0, i as int, ts2);
                    assert(unique_keys(self.contacts@));
                    assert(ts2@ == (TouchModel {
                        positions: old(self)@.contacts[id].positions.push(position),
                        ..old(self)@.contacts[id]
                    }));
                    assert(self@ =~= spec_on_motion(old(self)@, id, position));
                }
            },
            None => {
                proof {
                    lemma_assoc_contains(self.contacts@, id);
                    assert(self@ =~= spec_on_motion(old(self)@, id, position));
                }
            },
        }
    }

    /// Removes the contact on an up transition, queues its finished stroke
    /// unless a hold consumed it, and, when this release empties the
    /// registry, classifies or combines the pending strokes.
    pub fn on_finger_up(&mut self, id: i32, position: Point, time: u64) -> (r: Option<
        GestureEvent,
    >)
        requires
            old(self).wf(),
            pt_ok(position),
        ensures
            final(self).wf(),
            final(self)@ == spec_on_up(old(self)@, id, position),
            r == spec_up_emit(old(self)@, id, position),
    {
        // The release time plays no part in classification.
        let _ = time;
        let ghost m0 = self@;
        match self.find_contact(id) {
            Some(i) => {
                let ghost s0 = self.contacts@;
                proof {
                    lemma_assoc_at(s0, i as int);
                    lemma_assoc_remove(s0, i as int);
                }
                let mut pair = self.contacts.remove(i);
                proof {
                    assert(unique_keys(self.contacts@)) by {
                        assert(forall|x: int, y: int|
                            0 <= x < y < self.contacts@.len() ==> (#[trigger] self.contacts@[x],
                            #[trigger] self.contacts@[y]) == if y < i as int {
                                (s0[x], s0[y])
                            } else if x < i as int {
                                (s0[x], s0[y + 1])
                            } else {
                                (s0[x + 1], s0[y + 1])
                            });
                    }
                }
                if !pair.1.held {
                    let ghost g0 = self.segments@;
                    pair.1.positions.push(position);
                    self.segments.push(pair.1.positions);
                    proof {
                        assert(self.segments@.map_values(|v: Vec<Point>| v@) =~= g0.map_values(
                            |v: Vec<Point>| v@,
                        ).push(m0.contacts[id].positions.push(position)));
                        assert(self@ =~= spec_after_release(m0, id, position));
                    }
                } else {
                    proof {
                        assert(self@ =~= spec_after_release(m0, id, position));
                    }
                }
            },
            None => {
                proof {
                    lemma_assoc_contains(self.contacts@, id);
                    assert(self@ =~= spec_after_release(m0, id, position));
                }
            },
        }
        proof {
            lemma_assoc_len(self.contacts@);
            assert(model_wf(self@)) by {
                let m1 = spec_after_release(m0, id, position);
                assert(self@ == m1);
            }
        }
        let ghost m1 = spec_after_release(m0, id, position);
        let mut result: Option<GestureEvent> = None;
        if self.contacts.is_empty() && self.segments.len() > 0 {
            if self.segments.len() == 1 {
                let seg = match self.segments.pop() {
                    Some(s) => s,
                    None => {
                        proof {
                            assert(false);
                        }
                        Vec::new()
                    },
                };
                proof {
                    assert(seg@ == m1.segments[0]);
                    assert(seg_wf(seg@));
                    assert(self.segments@.map_values(|v: Vec<Point>| v@) =~= Seq::<
                        Seq<Point>,
                    >::empty());
                }
                result = Some(interpret_segment(&seg, self.jitter));
            } else if self.segments.len() == 2 {
                let sega = match self.segments.pop() {
                    Some(s) => s,
                    None => {
                        proof {
                            assert(false);
                        }
                        Vec::new()
                    },
                };
                let segb = match self.segments.pop() {
                    Some(s) => s,
                    None => {
                        proof {
                            assert(false);
                        }
                        Vec::new()
                    },
                };
                proof {
                    assert(sega@ == m1.segments[1]);
                    assert(segb@ == m1.segments[0]);
                    assert(seg_wf(sega@) && seg_wf(segb@));
                    assert(self.segments@.map_values(|v: Vec<Point>| v@) =~= Seq::<
                        Seq<Point>,
                    >::empty());
                }
                let g1 = interpret_segment(&sega, self.jitter);
                let g2 = interpret_segment(&segb, self.jitter);
                proof {
                    lemma_classify_pts_ok(sega@, m0.jitter);
                    lemma_classify_pts_ok(segb@, m0.jitter);
                }
                result = combine_gestures(g1, g2);
            } else {
                self.segments.clear();
                proof {
                    assert(self.segments@.map_values(|v: Vec<Point>| v@) =~= Seq::<
                        Seq<Point>,
                    >::empty());
                }
            }
            proof {
                assert(self@ =~= spec_on_up(m0, id, position));
            }
        } else {
            proof {
                assert(self@ =~= spec_on_up(m0, id, position));
            }
        }
        result
    }

    /// The short hold re-validation, run by the caller once the short delay
    /// has elapsed since the down transition that captured `position` and
    /// `time`. On success the contact is marked held and the short hold
    /// gesture is returned.
    pub fn check_finger_hold_short(&mut self, id: i32, position: Point, time: u64) -> (r: Option<
        GestureEvent,
    >)
        requires
            old(self).wf(),
            pt_ok(position),
        ensures
            final(self).wf(),
            final(self)@ == spec_hold_short(old(self)@, id, position, time),
            r == spec_hold_short_emit(old(self)@, id, position, time),
    {
        proof {
            lemma_assoc_len(self.contacts@);
        }
        if self.contacts.len() > 1 || !self.segments.is_empty() {
            return None;
        }
        match self.find_contact(id) {
            Some(i) => {
                let ghost s0 = self.contacts@;
                proof {
                    lemma_assoc_at(s0, i as int);
                }
                if self.holds_still(i, position, time) {
                    self.contacts[i].1.held = true;
                    proof {
                        let ts2 = self.contacts@[i as int].1;
                        assert(self.contacts@ =~= s0.update(i as int, (id, ts2)));
                        lemma_assoc_update(s0, i as int, ts2);
                        assert(unique_keys(self.contacts@));
                        assert(ts2@ == (TouchModel { held: true, ..old(self)@.contacts[id] }));
                        assert(self@ =~= spec_hold_short(old(self)@, id, position, time));
                    }
                    Some(GestureEvent::HoldFingerShort(position, id))
                } else {
                    None
                }
            },
            None => {
                proof {
                    lemma_assoc_contains(self.contacts@, id);
                }
                None
            },
        }
    }

    /// Whether contact `i` matches the captured origin time and has stayed
    /// within the jitter tolerance of the captured position.
    fn holds_still(&self, i: usize, position: Point, time: u64) -> (r: bool)
        requires
            self.wf(),
            i < self.contacts@.len(),
            pt_ok(position),
        ensures
            r == (self.contacts@[i as int].1@.time == time && spec_dist2(
                self.contacts@[i as int].1@.positions.last(),
                position,
            ) < self@.jitter * self@.jitter && spec_dist2(
                self.contacts@[i as int].1@.positions[self.contacts@[
                    i as int
                ].1@.positions.len() as int / 2],
                self.contacts@[i as int].1@.positions.last(),
            ) < self@.jitter * self@.jitter),
    {
        proof {
            lemma_assoc_at(self.contacts@, i as int);
            assert(self@.contacts.contains_key(self.contacts@[i as int].0));
            assert(tm_wf(self.contacts@[i as int].1@));
        }
        let ts = &self.contacts[i].1;
        if ts.time != time {
            return false;
        }
        let n = ts.positions.len();
        let last = ts.positions[n - 1];
        let mid = ts.positions[n / 2];
        proof {
            lemma_mul_bound(self.jitter as int, self.jitter as int, 0x20000, 0x20000);
        }
        let j2 = self.jitter as i64 * self.jitter as i64;
        dist2(last, position) < j2 && dist2(mid, last) < j2
    }

    /// The long hold re-validation: the same conditions checked afresh, with
    /// no state change.
    pub fn check_finger_hold_long(&self, id: i32, position: Point, time: u64) -> (r: Option<
        GestureEvent,
    >)
        requires
            self.wf(),
            pt_ok(position),
        ensures
            r == spec_hold_long_emit(self@, id, position, time),
    {
        proof {
            lemma_assoc_len(self.contacts@);
        }
        if self.contacts.len() > 1 || !self.segments.is_empty() {
            return None;
        }
        match self.find_contact(id) {
            Some(i) => {
                proof {
                    lemma_assoc_at(self.contacts@, i as int);
                }
                if self.holds_still(i, position, time) {
                    Some(GestureEvent::HoldFingerLong(position, id))
                } else {
                    None
                }
            },
            None => {
                proof {
                    lemma_assoc_contains(self.contacts@, id);
                }
                None
            },
        }
    }

    /// Registers a button press. The caller arranges the two delayed hold
    /// re-validations for it.
    pub fn on_button_press(&mut self, code: ButtonCode, time: u64)
        requires
            old(self).wf(),
        ensures
            final(self).wf(),
            final(self)@ == spec_on_press(old(self)@, code, time),
    {
        match self.find_button(code) {
            Some(i) => {
                let ghost s0 = self.buttons@;
                proof {
                    lemma_assoc_update(s0, i as int, time);
                }
                self.buttons[i] = (code, time);
                proof {
                    assert(self.buttons@ =~= s0.update(i as int, (code, time)));
                    assert(unique_keys(self.buttons@));
                    assert(self@ =~= spec_on_press(old(self)@, code, time));
                }
            },
            None => {
                let ghost s0 = self.buttons@;
                proof {
                    lemma_assoc_push(s0, code, time);
                }
                self.buttons.push((code, time));
                proof {
                    assert(unique_keys(self.buttons@)) by {
                        assert(forall|j: int| 0 <= j < s0.len() ==> self.buttons@[j] == s0[j]);
                    }
                    assert(self@ =~= spec_on_press(old(self)@, code, time));
                }
            },
        }
    }

    /// Removes a button on its release.
    pub fn on_button_release(&mut self, code: ButtonCode)
        requires
            old(self).wf(),
        ensures
            final(self).wf(),
            final(self)@ == spec_on_release(old(self)@, code),
    {
        match self.find_button(code) {
            Some(i) => {
                let ghost s0 = self.buttons@;
                proof {
                    lemma_assoc_remove(s0, i as int);
                }
                let _ = self.buttons.remove(i);
                proof {
                    assert(unique_keys(self.buttons@)) by {
                        assert(forall|x: int, y: int|
                            0 <= x < y < self.buttons@.len() ==> (#[trigger] self.buttons@[x],
                            #[trigger] self.buttons@[y]) == if y < i as int {
                                (s0[x], s0[y])
                            } else if x < i as int {
                                (s0[x], s0[y + 1])
                            } else {
                                (s0[x + 1], s0[y + 1])
                            });
                    }
                    assert(self@ =~= spec_on_release(old(self)@, code));
                }
            },
            None => {
                proof {
                    lemma_assoc_contains(self.buttons@, code);
                    assert(old(self)@.buttons.remove(code) =~= old(self)@.buttons);
                    assert(self@ =~= spec_on_release(old(self)@, code));
                }
            },
        }
    }

    /// A button hold re-validation, shared by the short and the long tier:
    /// it succeeds while the button is still down with the same press time.
    pub fn check_button_hold(&self, code: ButtonCode, time: u64, long: bool) -> (r: Option<
        GestureEvent,
    >)
        requires
            self.wf(),
        ensures
            r == (if spec_button_hold_conditions(self@, code, time) {
                Some(
                    if long {
                        GestureEvent::HoldButtonLong(code)
                    } else {
                        GestureEvent::HoldButtonShort(code)
                    },
                )
            } else {
                None::<GestureEvent>
            }),
    {
        match self.find_button(code) {
            Some(i) => {
                proof {
                    lemma_assoc_at(self.buttons@, i as int);
                }
                if self.buttons[i].1 == time {
                    if long {
                        Some(GestureEvent::HoldButtonLong(code))
                    } else {
                        Some(GestureEvent::HoldButtonShort(code))
                    }
                } else {
                    None
                }
            },
            None => {
                proof {
                    lemma_assoc_contains(self.buttons@, code);
                }
                None
            },
        }
    }

    /// One dispatcher step: updates the registries for a raw event and
    /// returns the gesture it completes, if any. Down and pressed
    /// transitions additionally oblige the caller to schedule the two
    /// delayed hold re-validations.
    pub fn on_device_event(&mut self, evt: DeviceEvent) -> (r: Option<GestureEvent>)
        requires
            old(self).wf(),
            event_ok(evt),
        ensures
            final(self).wf(),
            final(self)@ == spec_step(old(self)@, evt),
            r == spec_step_emit(old(self)@, evt),
    {
        match evt {
            DeviceEvent::Finger { status: FingerStatus::Down, position, id, time } => {
                self.on_finger_down(id, position, time);
                None
            },
            DeviceEvent::Finger { status: FingerStatus::Motion, position, id, time: _ } => {
                self.on_finger_motion(id, position);
                None
            },
            DeviceEvent::Finger { status: FingerStatus::Up, position, id, time } => self
                .on_finger_up(id, position, time),
            DeviceEvent::Button { status: ButtonStatus::Pressed, code, time } => {
                self.on_button_press(code, time);
                None
            },
            DeviceEvent::Button { status: ButtonStatus::Released, code, time: _ } => {
                self.on_button_release(code);
                None
            },
        }
    }
}

/// The positions a raw event carries are bounded samples.
pub open spec fn event_ok(evt: DeviceEvent) -> bool {
    match evt {
        DeviceEvent::Finger { position, .. } => pt_ok(position),
        DeviceEvent::Button { .. } => true,
    }
}

/// The registry transition for one raw event.
pub open spec fn spec_step(m: ParserModel, evt: DeviceEvent) -> ParserModel {
    match evt {
        DeviceEvent::Finger { status: FingerStatus::Down, position, id, time } => spec_on_down(
            m,
            id,
            position,
            time,
        ),
        DeviceEvent::Finger { status: FingerStatus::Motion, position, id, .. } => spec_on_motion(
            m,
            id,
            position,
        ),
        DeviceEvent::Finger { status: FingerStatus::Up, position, id, .. } => spec_on_up(
            m,
            id,
            position,
        ),
        DeviceEvent::Button { status: ButtonStatus::Pressed, code, time } => spec_on_press(
            m,
            code,
            time,
        ),
        DeviceEvent::Button { status: ButtonStatus::Released, code, .. } => spec_on_release(
            m,
            code,
        ),
    }
}

/// The gesture one raw event completes: only an up transition can emit one.
pub open spec fn spec_step_emit(m: ParserModel, evt: DeviceEvent) -> Option<GestureEvent> {
    match evt {
        DeviceEvent::Finger { status: FingerStatus::Up, position, id, .. } => spec_up_emit(
            m,
            id,
            position,
        ),
        _ => None,
    }
}

} // verus!
