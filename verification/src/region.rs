//! Radial hit-testing: which band of the clock face a click falls in.

use vstd::prelude::*;

verus! {

/// Classification of a click by its distance from the widget's center.
#[derive(Clone, Copy, Debug, PartialEq, Eq, Structural)]
pub enum Region {
    /// Inside the center button.
    Center,
    /// On the clock face, outside the center button.
    Face,
    /// Beyond the rendered face.
    Outside,
}

/// Outer edge of the center button, in thousandths of the fitted radius.
pub const CENTER_BUTTON_RADIUS_MILLI: u32 = 70;

/// Outer edge of the rendered face, in thousandths of the fitted radius.
pub const CLOCK_FACE_RADIUS_MILLI: u32 = 1000;

/// A circular band between two radii, in thousandths of the fitted radius.
/// Membership is half-open: the inner edge is in, the outer edge is out.
#[derive(Clone, Copy, Debug, PartialEq, Eq, Structural)]
pub struct CircularRegion {
    pub inner_milli: u32,
    pub outer_milli: u32,
}

impl CircularRegion {
    /// A band is well-formed when it is non-empty.
    pub open spec fn wf(self) -> bool {
        self.inner_milli < self.outer_milli
    }

    pub open spec fn spec_contains(self, position_milli: int) -> bool {
        self.inner_milli <= position_milli < self.outer_milli
    }

    /// Half-open band membership: `inner <= position < outer`.
    pub fn contains(&self, position_milli: u32) -> (r: bool)
        ensures
            r == self.spec_contains(position_milli as int),
    {
        position_milli >= self.inner_milli && position_milli < self.outer_milli
    }
}

/// The center-button band: from the center out to the button's edge.
pub open spec fn spec_center_button_region() -> CircularRegion {
    CircularRegion { inner_milli: 0, outer_milli: CENTER_BUTTON_RADIUS_MILLI }
}

/// The face band: from the button's edge out to the rendered circle.
pub open spec fn spec_clock_face_region() -> CircularRegion {
    CircularRegion { inner_milli: CENTER_BUTTON_RADIUS_MILLI, outer_milli: CLOCK_FACE_RADIUS_MILLI }
}

pub fn center_button_region() -> (r: CircularRegion)
    ensures
        r == spec_center_button_region(),
        r.wf(),
{
    CircularRegion { inner_milli: 0, outer_milli: CENTER_BUTTON_RADIUS_MILLI }
}

pub fn clock_face_region() -> (r: CircularRegion)
    ensures
        r == spec_clock_face_region(),
        r.wf(),
{
    CircularRegion { inner_milli: CENTER_BUTTON_RADIUS_MILLI, outer_milli: CLOCK_FACE_RADIUS_MILLI }
}

/// The region of a normalized radial distance (thousandths of the fitted
/// radius): the bands are tried in priority order — center button, then
/// face, else outside — so exactly one of the three outcomes is produced.
pub open spec fn region_of(norm_milli: int) -> Region {
    if spec_center_button_region().spec_contains(norm_milli) {
        Region::Center
    } else if spec_clock_face_region().spec_contains(norm_milli) {
        Region::Face
    } else {
        Region::Outside
    }
}

/// Classify an already-normalized radial distance from the center, in
/// thousandths of the fitted radius (0 at the center, 1000 at the rendered
/// circle's edge, more outside it).
pub fn classify(norm_milli: u32) -> (r: Region)
    ensures
        r == region_of(norm_milli as int),
{
    let center = center_button_region();
    let face = clock_face_region();
    if center.contains(norm_milli) {
        Region::Center
    } else if face.contains(norm_milli) {
        Region::Face
    } else {
        Region::Outside
    }
}

/// Whether a click at offset `(dx, dy)` from the center lies strictly inside
/// the band edge `band_milli`, for a widget whose fitted diameter (the
/// smaller side of its bounds) is `fit_diameter`. The normalized distance is
/// `2 * sqrt(dx^2 + dy^2) / fit_diameter`, in units of the fitted radius;
/// `normalized < band_milli / 1000` is written here with both sides squared
/// and cross-multiplied, so that no square root or division is needed.
pub open spec fn within_band(dx: int, dy: int, fit_diameter: int, band_milli: int) -> bool {
    4_000_000 * (dx * dx + dy * dy) < (band_milli * band_milli) * (fit_diameter * fit_diameter)
}

/// The region of a click at offset `(dx, dy)` from the center: the same
/// priority order as `region_of`, with half-open bands — a distance exactly
/// on a band's outer edge falls in the next band out.
pub open spec fn point_region(dx: int, dy: int, fit_diameter: int) -> Region {
    if within_band(dx, dy, fit_diameter, CENTER_BUTTON_RADIUS_MILLI as int) {
        Region::Center
    } else if within_band(dx, dy, fit_diameter, CLOCK_FACE_RADIUS_MILLI as int) {
        Region::Face
    } else {
        Region::Outside
    }
}

/// Classify a click at `(px, py)` against a widget of `width` by `height`
/// screen units centered at `(cx, cy)`. Returns `None` for degenerate
/// (zero-sized) bounds, where no normalized distance exists and the event is
/// to be ignored; every non-degenerate click gets exactly one region.
pub fn classify_point(cx: i32, cy: i32, px: i32, py: i32, width: u32, height: u32) -> (r: Option<
    Region,
>)
    ensures
        r is Some <==> width > 0 && height > 0,
        width > 0 && height > 0 ==> r == Some(
            point_region(
                px - cx,
                py - cy,
                if width <= height {
                    width as int
                } else {
                    height as int
                },
            ),
        ),
{
    let fit: u32 = if width <= height {
        width
    } else {
        height
    };
    if fit == 0 {
        return None;
    }
    let dx: i128 = (px as i128) - (cx as i128);
    let dy: i128 = (py as i128) - (cy as i128);
    proof {
        assert(0 <= dx * dx <= 0x10000000000000000i128) by (nonlinear_arith)
            requires
                -0x100000000i128 <= dx <= 0x100000000i128,
        ;
        assert(0 <= dy * dy <= 0x10000000000000000i128) by (nonlinear_arith)
            requires
                -0x100000000i128 <= dy <= 0x100000000i128,
        ;
    }
    let d2: i128 = dx * dx + dy * dy;
    let m: i128 = fit as i128;
    proof {
        assert(0 <= m * m <= 0x10000000000000000i128) by (nonlinear_arith)
            requires
                0 <= m <= 0x100000000i128,
        ;
    }
    let lhs: i128 = 4_000_000 * d2;
    if lhs < 4_900 * (m * m) {
        Some(Region::Center)
    } else if lhs < 1_000_000 * (m * m) {
        Some(Region::Face)
    } else {
        Some(Region::Outside)
    }
}

/// The configuration invariant of the fixed bands: each is non-empty, they
/// are disjoint, and they sit in increasing radial order — the face begins
/// exactly where the center button ends — so the priority order of
/// `region_of` classifies every distance unambiguously.
pub proof fn lemma_bands_ordered()
    ensures
        spec_center_button_region().wf(),
        spec_clock_face_region().wf(),
        spec_center_button_region().outer_milli == spec_clock_face_region().inner_milli,
        forall|d: int|
            !(spec_center_button_region().spec_contains(d)
                && spec_clock_face_region().spec_contains(d)),
{
}

/// Determinism of hit-testing: the region is a function of the click, the
/// center and the bounds alone, so any two classifications of the same
/// inputs agree.
pub proof fn lemma_classify_deterministic(r1: Region, r2: Region, norm_milli: int)
    requires
        r1 == region_of(norm_milli),
        r2 == region_of(norm_milli),
    ensures
        r1 == r2,
{
}

} // verus!
