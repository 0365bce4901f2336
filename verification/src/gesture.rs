use vstd::prelude::*;
use crate::geom::{Point, Dir, DiagDir, Axis};

verus! {

/// Jitter tolerance in millimeters; converted to pixels once at start-up.
pub const JITTER_TOLERANCE_MM: u32 = 6;

/// Delay before the first (short) hold re-validation, in milliseconds.
pub const HOLD_DELAY_SHORT_MS: u64 = 666;

/// Delay before the second (long) hold re-validation, in milliseconds,
/// measured from the same origin event as the short one.
pub const HOLD_DELAY_LONG_MS: u64 = 1333;

/// A physical button of the device.
#[derive(Debug, Clone, Copy, PartialEq, Eq, Structural, Hash)]
pub enum ButtonCode {
    Power,
    Light,
    Backward,
    Forward,
    Home,
    Erase,
    Highlight,
}

/// Status of a finger contact transition.
#[derive(Debug, Clone, Copy, PartialEq, Eq, Structural, Hash)]
pub enum FingerStatus {
    Down,
    Motion,
    Up,
}

/// Status of a button transition.
#[derive(Debug, Clone, Copy, PartialEq, Eq, Structural, Hash)]
pub enum ButtonStatus {
    Pressed,
    Released,
}

/// A raw hardware input event. Times are monotonic clock readings in
/// milliseconds.
#[derive(Debug, Clone, Copy, PartialEq, Eq, Structural)]
pub enum DeviceEvent {
    Finger { status: FingerStatus, position: Point, id: i32, time: u64 },
    Button { status: ButtonStatus, code: ButtonCode, time: u64 },
}

/// A semantic gesture, the output of the recognizer.
#[derive(Debug, Clone, Copy, PartialEq, Eq)]
pub enum GestureEvent {
    Tap(Point),
    MultiTap([Point; 2]),
    Swipe { dir: Dir, start: Point, end: Point },
    MultiSwipe { dir: Dir, starts: [Point; 2], ends: [Point; 2] },
    Arrow { dir: Dir, start: Point, end: Point },
    Corner { dir: DiagDir, start: Point, end: Point },
    Pinch { axis: Axis, strength: u32, starts: [Point; 2], ends: [Point; 2] },
    Spread { axis: Axis, strength: u32, starts: [Point; 2], ends: [Point; 2] },
    Rotate { center: Point, quarter_turns: i8, start: Point, end: Point },
    Cross(Point),
    HoldFingerShort(Point, i32),
    HoldFingerLong(Point, i32),
    HoldButtonShort(ButtonCode),
    HoldButtonLong(ButtonCode),
}

} // verus!
