//! Rotations, hit-testing bands, the render plan and the update loop.

use clock_core::event::{
    pointer_shape, press, update, ClockMessage, ClockState, Effect, EventStatus, PointerShape,
};
use clock_core::region::{classify, classify_point, center_button_region, Region};
use clock_core::render::render_plan;
use clock_core::rotation::hand_rotation;
use clock_core::time::ClockTime;

#[test]
fn test_rotation_zero_points_up() {
    // A count of zero is the zero rotation, whatever the dial size.
    assert_eq!(hand_rotation(0, 12).num, 0);
    assert_eq!(hand_rotation(0, 60).num, 0);
    assert_eq!(hand_rotation(0, 7).num, 0);
}

#[test]
fn test_rotation_periodicity() {
    // A count that wraps past the dial reduces to the same rotation.
    assert_eq!(hand_rotation(13, 12), hand_rotation(1, 12));
    assert_eq!(hand_rotation(61, 60), hand_rotation(1, 60));
    assert_eq!(hand_rotation(24, 12), hand_rotation(0, 12));
}

#[test]
fn test_rotation_half_turn() {
    // Half the dial is half a turn: pi radians, the opposite side.
    let r = hand_rotation(6, 12);
    assert_eq!(2 * r.num, r.den);
    let r = hand_rotation(30, 60);
    assert_eq!(2 * r.num, r.den);
}

#[test]
fn test_rotation_fraction_in_radians() {
    // 30 of 60 minutes is half of 2 pi radians: the fraction converts to
    // the same angle the dial draws.
    let r = hand_rotation(30, 60);
    let radians = 2.0 * std::f32::consts::PI * (r.num as f32) / (r.den as f32);
    assert_eq!(radians, std::f32::consts::PI);
}

#[test]
fn test_region_classification() {
    // Normalized radius 0.03 is the center button, 0.5 the face, 1.2 outside.
    assert_eq!(classify(30), Region::Center);
    assert_eq!(classify(500), Region::Face);
    assert_eq!(classify(1200), Region::Outside);
}

#[test]
fn test_region_boundaries() {
    // Bands are half-open: the inner edge is in, the outer edge is out.
    assert_eq!(classify(0), Region::Center);
    assert_eq!(classify(69), Region::Center);
    assert_eq!(classify(70), Region::Face);
    assert_eq!(classify(999), Region::Face);
    assert_eq!(classify(1000), Region::Outside);
    let center = center_button_region();
    assert!(center.contains(0));
    assert!(!center.contains(70));
}

#[test]
fn test_classify_point_regions() {
    // A 2000-by-2000 widget centered at the origin has fitted radius 1000:
    // the button's edge is at distance 70, the face's at 1000.
    assert_eq!(classify_point(0, 0, 30, 0, 2000, 2000), Some(Region::Center));
    assert_eq!(classify_point(0, 0, 0, -500, 2000, 2000), Some(Region::Face));
    assert_eq!(classify_point(0, 0, 1200, 0, 2000, 2000), Some(Region::Outside));
}

#[test]
fn test_classify_point_boundaries() {
    assert_eq!(classify_point(0, 0, 69, 0, 2000, 2000), Some(Region::Center));
    assert_eq!(classify_point(0, 0, 70, 0, 2000, 2000), Some(Region::Face));
    assert_eq!(classify_point(0, 0, 999, 0, 2000, 2000), Some(Region::Face));
    assert_eq!(classify_point(0, 0, 1000, 0, 2000, 2000), Some(Region::Outside));
}

#[test]
fn test_classify_point_uses_smaller_side() {
    // The fitted radius comes from the smaller side of the bounds.
    assert_eq!(classify_point(0, 0, 600, 0, 1000, 3000), Some(Region::Outside));
    assert_eq!(classify_point(0, 0, 400, 0, 1000, 3000), Some(Region::Face));
}

#[test]
fn test_classify_point_degenerate_bounds() {
    // Zero-sized bounds give no classification at all.
    assert_eq!(classify_point(0, 0, 10, 10, 0, 500), None);
    assert_eq!(classify_point(0, 0, 10, 10, 500, 0), None);
}

#[test]
fn test_classify_idempotent() {
    // Pure function: identical inputs give identical classifications.
    assert_eq!(classify(500), classify(500));
    assert_eq!(
        classify_point(3, 4, 55, 89, 640, 480),
        classify_point(3, 4, 55, 89, 640, 480)
    );
}

#[test]
fn test_press_center() {
    let (status, message) = press(0, 0, 10, 0, 2000, 2000);
    assert_eq!(status, EventStatus::Captured);
    assert_eq!(message, Some(ClockMessage::CenterClick));
}

#[test]
fn test_press_face_carries_a_time() {
    let (status, message) = press(0, 0, 0, 500, 2000, 2000);
    assert_eq!(status, EventStatus::Captured);
    match message {
        Some(ClockMessage::FaceClick(t)) => {
            assert!(t.hour < 24 && t.minute < 60 && t.second < 60);
        }
        other => panic!("expected a face click, got {:?}", other),
    }
}

#[test]
fn test_press_outside_carries_a_time() {
    let (status, message) = press(0, 0, -1500, 0, 2000, 2000);
    assert_eq!(status, EventStatus::Captured);
    match message {
        Some(ClockMessage::OuterClick(t)) => {
            assert!(t.hour < 24 && t.minute < 60 && t.second < 60);
        }
        other => panic!("expected an outer click, got {:?}", other),
    }
}

#[test]
fn test_press_degenerate_bounds_ignored() {
    let (status, message) = press(0, 0, 10, 0, 0, 2000);
    assert_eq!(status, EventStatus::Ignored);
    assert_eq!(message, None);
}

#[test]
fn test_pointer_shape_per_region() {
    assert_eq!(pointer_shape(0, 0, 10, 0, 2000, 2000), PointerShape::Crosshair);
    assert_eq!(pointer_shape(0, 0, 500, 0, 2000, 2000), PointerShape::Grabbing);
    assert_eq!(pointer_shape(0, 0, 1500, 0, 2000, 2000), PointerShape::Idle);
    assert_eq!(pointer_shape(0, 0, 10, 0, 0, 0), PointerShape::Idle);
}

#[test]
fn test_render_plan_exact_sizes() {
    let t = ClockTime { hour: 9, minute: 30, second: 45 };
    let p = render_plan(&t, 300);
    assert_eq!(p.face_radius, 300);
    assert_eq!(p.button_radius, 21);
    assert_eq!(p.hour.length, 210);
    assert_eq!(p.minute.length, 270);
    assert_eq!(p.second.length, 285);
    assert_eq!(p.hour.width, 20);
    assert_eq!(p.minute.width, 10);
    assert_eq!(p.second.width, 1);
    assert_eq!(p.hour.rotation, hand_rotation(9, 12));
    assert_eq!(p.minute.rotation, hand_rotation(30, 60));
    assert_eq!(p.second.rotation, hand_rotation(45, 60));
}

#[test]
fn test_render_plan_reduces_24_hour_time() {
    // 15:00:00 draws the hour hand at 3 o'clock, not wrapped twice.
    let t = ClockTime { hour: 15, minute: 0, second: 0 };
    let p = render_plan(&t, 300);
    assert_eq!(p.hour.rotation, hand_rotation(3, 12));
    assert_eq!(p.hour.rotation.num, 3);
}

#[test]
fn test_render_plan_idempotent() {
    let t = ClockTime { hour: 1, minute: 2, second: 3 };
    assert_eq!(render_plan(&t, 123), render_plan(&t, 123));
}

#[test]
fn test_update_tick_invalidates_cache() {
    let t0 = ClockTime { hour: 1, minute: 2, second: 3 };
    let t1 = ClockTime { hour: 1, minute: 2, second: 4 };
    let mut state = ClockState::new(t0);
    state.mark_rendered();
    assert_eq!(state.cached, Some(t0));
    let effect = update(&mut state, ClockMessage::Tick(t1));
    assert_eq!(effect, Effect::Nothing);
    assert_eq!(state.now, t1);
    assert_eq!(state.cached, None);
}

#[test]
fn test_update_tick_same_time_keeps_cache() {
    let t0 = ClockTime { hour: 1, minute: 2, second: 3 };
    let mut state = ClockState::new(t0);
    state.mark_rendered();
    let effect = update(&mut state, ClockMessage::Tick(t0));
    assert_eq!(effect, Effect::Nothing);
    assert_eq!(state.now, t0);
    assert_eq!(state.cached, Some(t0));
}

#[test]
fn test_update_center_click_asks_for_shutdown() {
    let t0 = ClockTime { hour: 1, minute: 2, second: 3 };
    let mut state = ClockState::new(t0);
    let effect = update(&mut state, ClockMessage::CenterClick);
    assert_eq!(effect, Effect::Shutdown);
    assert_eq!(state.now, t0);
}

#[test]
fn test_update_face_and_outer_clicks_log() {
    let t0 = ClockTime { hour: 1, minute: 2, second: 3 };
    let t = ClockTime { hour: 4, minute: 5, second: 6 };
    let mut state = ClockState::new(t0);
    assert_eq!(update(&mut state, ClockMessage::FaceClick(t)), Effect::LogFace(t));
    assert_eq!(update(&mut state, ClockMessage::OuterClick(t)), Effect::LogOuter(t));
    assert_eq!(state.now, t0);
}
