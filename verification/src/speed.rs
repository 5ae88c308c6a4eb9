//! The two system settings that the tool changes: pointer speed and wheel
//! lines per notch.

use vstd::prelude::*;

verus! {

/// Slowest pointer speed of the system.
pub const SPEED_MIN: u32 = 1;

/// Fastest pointer speed of the system.
pub const SPEED_MAX: u32 = 20;

/// Fewest wheel lines per notch.
pub const WHEEL_MIN: u32 = 1;

/// Most wheel lines per notch.
pub const WHEEL_MAX: u32 = 100;

/// Pointer speed of a fresh system.
pub const SPEED_DEFAULT: u32 = 10;

/// Wheel lines per notch of a fresh system.
pub const WHEEL_DEFAULT: u32 = 3;

/// `v` moved into the range from `lo` to `hi`.
pub open spec fn clamped(v: u32, lo: u32, hi: u32) -> u32 {
    if v < lo {
        lo
    } else if v > hi {
        hi
    } else {
        v
    }
}

/// A pointer speed moved into the range of the system.
pub open spec fn valid_speed(v: u32) -> u32 {
    clamped(v, SPEED_MIN, SPEED_MAX)
}

/// A number of wheel lines moved into the range of the system.
pub open spec fn valid_wheel(v: u32) -> u32 {
    clamped(v, WHEEL_MIN, WHEEL_MAX)
}

/// `v` moved into the range from `lo` to `hi`.
pub fn clamp(v: u32, lo: u32, hi: u32) -> (r: u32)
    ensures
        r == clamped(v, lo, hi),
{
    if v < lo {
        lo
    } else if v > hi {
        hi
    } else {
        v
    }
}

/// The pointer speed that setting `v` puts into the system.
pub fn clamp_speed(v: u32) -> (r: u32)
    ensures
        r == valid_speed(v),
{
    clamp(v, SPEED_MIN, SPEED_MAX)
}

/// The wheel lines that setting `v` puts into the system, and that reading a
/// raw `v` from the system (such as one screen per notch) counts as.
pub fn clamp_wheel(v: u32) -> (r: u32)
    ensures
        r == valid_wheel(v),
{
    clamp(v, WHEEL_MIN, WHEEL_MAX)
}

/// What the system has set at some moment.
#[derive(Debug, Clone, Copy, PartialEq, Eq, Structural)]
pub struct SystemSpeed {
    pub speed: u32,
    pub wheel: u32,
}

/// A change to make in the system.
#[derive(Debug, Clone, Copy, PartialEq, Eq, Structural)]
pub enum SpeedWrite {
    Pointer(u32),
    Wheel(u32),
}

impl SystemSpeed {
    /// The settings after one change; the system keeps to its ranges.
    pub open spec fn after(self, w: SpeedWrite) -> SystemSpeed {
        match w {
            SpeedWrite::Pointer(v) => SystemSpeed { speed: valid_speed(v), wheel: self.wheel },
            SpeedWrite::Wheel(v) => SystemSpeed { speed: self.speed, wheel: valid_wheel(v) },
        }
    }

    /// The settings after a list of changes, made in order.
    pub open spec fn after_all(self, ws: Seq<SpeedWrite>) -> SystemSpeed
        decreases ws.len(),
    {
        if ws.len() == 0 {
            self
        } else {
            self.after_all(ws.drop_last()).after(ws.last())
        }
    }

    /// Makes one change.
    pub fn write(&mut self, w: SpeedWrite)
        ensures
            *final(self) == old(self).after(w),
    {
        match w {
            SpeedWrite::Pointer(v) => {
                self.speed = clamp_speed(v);
            },
            SpeedWrite::Wheel(v) => {
                self.wheel = clamp_wheel(v);
            },
        }
    }

    /// Makes a list of changes in order.
    pub fn write_all(&mut self, ws: &Vec<SpeedWrite>)
        ensures
            *final(self) == old(self).after_all(ws@),
    {
        let ghost start = *self;
        for i in 0..ws.len()
            invariant
                *self == start.after_all(ws@.take(i as int)),
        {
            self.write(ws[i]);
            assert(ws@.take(i + 1).drop_last() =~= ws@.take(i as int));
        }
        assert(ws@.take(ws@.len() as int) =~= ws@);
    }
}

/// Moving a value into a range changes it no more than it must: a value in the
/// range stays, one below goes to the low end, one above to the high end.
pub proof fn law_clamping_is_nearest(v: u32, lo: u32, hi: u32)
    requires
        lo <= hi,
    ensures
        lo <= clamped(v, lo, hi) <= hi,
        lo <= v <= hi ==> clamped(v, lo, hi) == v,
        v <= lo ==> clamped(v, lo, hi) == lo,
        v >= hi ==> clamped(v, lo, hi) == hi,
        1 <= valid_speed(v) <= 20,
        1 <= valid_wheel(v) <= 100,
        valid_speed(SPEED_DEFAULT) == 10,
        valid_wheel(WHEEL_DEFAULT) == 3,
{
}

/// Of two values the larger one does not become the smaller by clamping.
pub proof fn law_clamping_keeps_the_order(a: u32, b: u32)
    requires
        a <= b,
    ensures
        valid_speed(a) <= valid_speed(b),
        valid_wheel(a) <= valid_wheel(b),
        b - a >= valid_speed(b) - valid_speed(a),
        b - a >= valid_wheel(b) - valid_wheel(a),
{
}

} // verus!
