//! The frame plan for one render pass: every size and rotation the renderer
//! needs to draw the face, the three hands and the center button. Drawing
//! itself (paths, strokes, fills) belongs to the GUI framework outside the
//! core; this module fixes the geometry it must use.

use vstd::prelude::*;
use crate::region::{CENTER_BUTTON_RADIUS_MILLI, CLOCK_FACE_RADIUS_MILLI};
use crate::rotation::Rotation;
use crate::rotation::hand_rotation;
use crate::time::ClockTime;

verus! {

/// Hand lengths, in thousandths of the fitted radius: the hour hand is the
/// shortest, the second hand the longest.
pub const HOUR_HAND_RADIUS_MILLI: u32 = 700;

pub const MINUTE_HAND_RADIUS_MILLI: u32 = 900;

pub const SECOND_HAND_RADIUS_MILLI: u32 = 950;

/// Stroke widths, as divisors of the fitted radius: the hour hand is the
/// thickest, the second hand the thinnest.
pub const HOUR_HAND_WIDTH_DIVISOR: u32 = 15;

pub const MINUTE_HAND_WIDTH_DIVISOR: u32 = 30;

pub const SECOND_HAND_WIDTH_DIVISOR: u32 = 200;

/// One hand of the drawn clock: its rotation from 12 o'clock, its length and
/// its stroke width in screen units.
#[derive(Clone, Copy, Debug, PartialEq, Eq, Structural)]
pub struct HandPlan {
    pub rotation: Rotation,
    pub length: u32,
    pub width: u32,
}

/// Everything the renderer needs for one frame, with the origin translated
/// to the widget's center: the face circle, the three hands, and the center
/// button drawn last, on top.
#[derive(Clone, Copy, Debug, PartialEq, Eq, Structural)]
pub struct RenderPlan {
    pub face_radius: u32,
    pub hour: HandPlan,
    pub minute: HandPlan,
    pub second: HandPlan,
    pub button_radius: u32,
}

/// A length scaled as a fraction of the fitted radius, in exact integer
/// arithmetic: `fit_radius * milli / 1000`.
pub open spec fn scaled_length(fit_radius: int, milli: int) -> int {
    fit_radius * milli / 1000
}

/// The whole frame as a function of the time and the fitted radius alone:
/// what `render_plan` returns, field by field.
pub open spec fn spec_render_plan(time: ClockTime, fit_radius: int) -> RenderPlan {
    RenderPlan {
        face_radius: fit_radius as u32,
        hour: HandPlan {
            rotation: Rotation { num: (time.hour % 12) as u8, den: 12u8 },
            length: scaled_length(fit_radius, HOUR_HAND_RADIUS_MILLI as int) as u32,
            width: (fit_radius / HOUR_HAND_WIDTH_DIVISOR as int) as u32,
        },
        minute: HandPlan {
            rotation: Rotation { num: time.minute, den: 60u8 },
            length: scaled_length(fit_radius, MINUTE_HAND_RADIUS_MILLI as int) as u32,
            width: (fit_radius / MINUTE_HAND_WIDTH_DIVISOR as int) as u32,
        },
        second: HandPlan {
            rotation: Rotation { num: time.second, den: 60u8 },
            length: scaled_length(fit_radius, SECOND_HAND_RADIUS_MILLI as int) as u32,
            width: (fit_radius / SECOND_HAND_WIDTH_DIVISOR as int) as u32,
        },
        button_radius: scaled_length(fit_radius, CENTER_BUTTON_RADIUS_MILLI as int) as u32,
    }
}

/// The plan for drawing `time` in a widget whose fitted radius (half the
/// smaller side of its bounds) is `fit_radius` screen units. The hour hand
/// is reduced to the 12-hour dial — an hour of 0 to 23 becomes `hour % 12` —
/// and each hand's rotation is the exact fraction of a turn its count sweeps.
pub fn render_plan(time: &ClockTime, fit_radius: u32) -> (p: RenderPlan)
    requires
        time.wf(),
    ensures
        p == spec_render_plan(*time, fit_radius as int),
        p.face_radius == fit_radius,
        p.button_radius == scaled_length(fit_radius as int, CENTER_BUTTON_RADIUS_MILLI as int),
        p.hour.length == scaled_length(fit_radius as int, HOUR_HAND_RADIUS_MILLI as int),
        p.minute.length == scaled_length(fit_radius as int, MINUTE_HAND_RADIUS_MILLI as int),
        p.second.length == scaled_length(fit_radius as int, SECOND_HAND_RADIUS_MILLI as int),
        p.hour.width == fit_radius / HOUR_HAND_WIDTH_DIVISOR,
        p.minute.width == fit_radius / MINUTE_HAND_WIDTH_DIVISOR,
        p.second.width == fit_radius / SECOND_HAND_WIDTH_DIVISOR,
        p.hour.rotation == (Rotation { num: (time.hour % 12) as u8, den: 12u8 }),
        p.minute.rotation == (Rotation { num: time.minute, den: 60u8 }),
        p.second.rotation == (Rotation { num: time.second, den: 60u8 }),
        p.hour.rotation.wf() && p.minute.rotation.wf() && p.second.rotation.wf(),
{
    let hour12: u8 = time.hour % 12;
    let hour = hand_rotation(hour12, 12);
    let minute = hand_rotation(time.minute, 60);
    let second = hand_rotation(time.second, 60);
    RenderPlan {
        face_radius: scale(fit_radius, CLOCK_FACE_RADIUS_MILLI),
        hour: HandPlan {
            rotation: hour,
            length: scale(fit_radius, HOUR_HAND_RADIUS_MILLI),
            width: fit_radius / HOUR_HAND_WIDTH_DIVISOR,
        },
        minute: HandPlan {
            rotation: minute,
            length: scale(fit_radius, MINUTE_HAND_RADIUS_MILLI),
            width: fit_radius / MINUTE_HAND_WIDTH_DIVISOR,
        },
        second: HandPlan {
            rotation: second,
            length: scale(fit_radius, SECOND_HAND_RADIUS_MILLI),
            width: fit_radius / SECOND_HAND_WIDTH_DIVISOR,
        },
        button_radius: scale(fit_radius, CENTER_BUTTON_RADIUS_MILLI),
    }
}

/// `fit_radius * milli / 1000`, widened internally so that no input
/// overflows; for `milli <= 1000` the result never exceeds `fit_radius`.
fn scale(fit_radius: u32, milli: u32) -> (r: u32)
    requires
        milli <= 1000,
    ensures
        r == scaled_length(fit_radius as int, milli as int),
        r <= fit_radius,
{
    proof {
        assert((fit_radius as int) * (milli as int) / 1000 <= fit_radius as int)
            by (nonlinear_arith)
            requires
                0 <= (fit_radius as int),
                0 <= (milli as int) <= 1000,
        ;
        assert(0 <= (fit_radius as int) * (milli as int) <= (fit_radius as int) * 1000)
            by (nonlinear_arith)
            requires
                0 <= (fit_radius as int),
                0 <= (milli as int) <= 1000,
        ;
    }
    (((fit_radius as u64) * (milli as u64)) / 1000) as u32
}

/// Determinism: the frame is a function of the time and the fitted radius
/// alone, so two plans for identical inputs are bit-identical.
pub proof fn lemma_render_plan_deterministic(
    p1: RenderPlan,
    p2: RenderPlan,
    time: ClockTime,
    fit_radius: int,
)
    requires
        p1 == spec_render_plan(time, fit_radius),
        p2 == spec_render_plan(time, fit_radius),
    ensures
        p1 == p2,
{
}

} // verus!
