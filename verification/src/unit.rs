//! The inverse mapping: from a clicked position back to a clock unit.
//!
//! A full turn is split into millionths ("microturns"). The one step that
//! needs transcendental arithmetic — the arctangent of the click's slope —
//! happens outside the core in floating point and is handed in as a
//! microturn count; everything around it (the relative coordinates, the
//! quadrant correction, the remapping to the clock's zero-at-top clockwise
//! convention, and the rounding to thousandths of a unit) is exact integer
//! arithmetic, verified here.

use vstd::prelude::*;

verus! {

/// Millionths of a turn in one full turn.
pub const MICROTURNS_PER_TURN: u32 = 1_000_000;

/// A quarter turn in microturns: the arctangent of a slope lies within a
/// quarter turn of zero on either side.
pub const QUARTER_TURN_MICRO: u32 = 250_000;

/// The position relative to the center, with the vertical axis flipped so
/// that "up" is positive (screen y grows downward): the first component is
/// `position.x - center.x`, the second is `-(position.y - center.y)`.
pub fn relative_position(cx: i32, cy: i32, px: i32, py: i32) -> (r: (i64, i64))
    ensures
        r.0 == px - cx,
        r.1 == -(py - cy),
{
    ((px as i64) - (cx as i64), -((py as i64) - (cy as i64)))
}

/// Quadrant correction: the arctangent alone cannot tell which half-plane
/// the click is in, so for a click in the left half-plane (negative relative
/// x) half a turn is added.
pub open spec fn corrected_microturns(raw: int, dx_negative: bool) -> int {
    raw + if dx_negative {
        500_000int
    } else {
        0int
    }
}

/// Remap a mathematical angle (counterclockwise from the positive x axis) to
/// the clock convention (clockwise from 12 o'clock) and wrap it into one
/// turn: `(1.25 turns - angle) mod 1 turn`.
pub open spec fn clock_microturns(raw: int, dx_negative: bool) -> int {
    (1_250_000 - corrected_microturns(raw, dx_negative)) % (MICROTURNS_PER_TURN as int)
}

/// The clock unit of the click, in thousandths of a unit: the wrapped angle
/// as a fraction of a turn, times `total` units on the dial, rounded to the
/// nearest thousandth (halves rounding up).
pub open spec fn unit_milli_of(raw: int, dx_negative: bool, total: int) -> int {
    (total * clock_microturns(raw, dx_negative) + 500) / 1000
}

/// The clock unit (hour, minute or second) under a click, in thousandths of
/// a unit; zero is at top dead center and the value grows clockwise.
///
/// `raw_microturns` is the arctangent of the click's slope `dy / dx` in
/// microturns, which lies within a quarter turn of zero; `dx_negative` says
/// whether the click is in the left half-plane. A straight-up click (`dx ==
/// 0`, positive `dy`) has slope plus infinity and arctangent a quarter turn,
/// so every click but the exact center has a defined raw angle.
pub fn unit_from_angle(raw_microturns: i64, dx_negative: bool, total: u8) -> (r: u32)
    requires
        -(QUARTER_TURN_MICRO as int) <= raw_microturns <= QUARTER_TURN_MICRO as int,
        total > 0,
    ensures
        r == unit_milli_of(raw_microturns as int, dx_negative, total as int),
        r <= 1000 * total,
{
    let corrected: i64 = raw_microturns + if dx_negative {
        500_000
    } else {
        0
    };
    let shifted: i64 = 1_250_000 - corrected;
    assert(500_000 <= shifted <= 1_500_000);
    let wrapped: i64 = shifted % 1_000_000;
    assert(0 <= wrapped < 1_000_000);
    proof {
        assert(0 <= (total as int) * (wrapped as int) <= 1_000_000 * (total as int)
            - total) by (nonlinear_arith)
            requires
                0 < (total as int) <= 255,
                0 <= (wrapped as int) < 1_000_000,
        ;
    }
    let scaled: i64 = (total as i64) * wrapped;
    let milli: i64 = (scaled + 500) / 1000;
    milli as u32
}

/// Determinism: the unit is a function of the raw angle, the half-plane and
/// the dial size alone, so two results meeting the contract of
/// `unit_from_angle` are bit-identical.
pub proof fn lemma_unit_deterministic(r1: u32, r2: u32, raw: int, dx_negative: bool, total: int)
    requires
        r1 == unit_milli_of(raw, dx_negative, total),
        r2 == unit_milli_of(raw, dx_negative, total),
    ensures
        r1 == r2,
{
}

} // verus!
