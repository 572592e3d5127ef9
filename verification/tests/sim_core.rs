//! Unit-level checks of the simulation primitives: scaled arithmetic,
//! timers, contact classification and positional resolution.

use platformer_core::collision::{detect, resolve_pair, Contact};
use platformer_core::components::{RectCollisionShape, ScreenFade, Velocity};
use platformer_core::math::{mul_milli, Vec2};
use platformer_core::timer::{AnimationTimer, CountdownTimer};
use platformer_core::GameState;

#[test]
fn mul_milli_scales_exactly() {
    assert_eq!(mul_milli(1000, 1500), 1500);
    assert_eq!(mul_milli(1500, 800), 1200);
    assert_eq!(mul_milli(350, 1000), 350);
    assert_eq!(mul_milli(0, 730), 0);
}

#[test]
fn mul_milli_truncates_toward_zero() {
    assert_eq!(mul_milli(5, 730), 3); // 3.65 -> 3
    assert_eq!(mul_milli(-5, 730), -3); // -3.65 -> -3
    assert_eq!(mul_milli(1, 850), 0);
    assert_eq!(mul_milli(-1, 850), 0);
}

#[test]
fn animation_timer_keeps_remainder() {
    let mut t = AnimationTimer::new(1000);
    assert!(!t.tick(999));
    assert_eq!(t.elapsed_micros, 999);
    assert!(t.tick(2)); // crosses the period, 1 left over
    assert_eq!(t.elapsed_micros, 1);
}

#[test]
fn countdown_saturates_and_finishes() {
    let mut c = CountdownTimer::new(3_000_000);
    assert!(!c.tick(1_000_000));
    assert_eq!(c.remaining_secs(), 2);
    assert!(!c.tick(1_999_999));
    assert_eq!(c.remaining_secs(), 0);
    assert!(c.tick(10));
    assert_eq!(c.elapsed_micros, 3_000_000);
}

#[test]
fn touching_edges_do_not_collide() {
    // the movable square sits exactly flush to the right of the static one
    let c = detect(
        Vec2::new(2, 0),
        Vec2::new(1, 1),
        Vec2::new(0, 0),
        Vec2::new(1, 1),
    );
    assert!(c.is_none());
}

#[test]
fn separated_rectangles_do_not_collide() {
    let c = detect(
        Vec2::new(50, 50),
        Vec2::new(5, 5),
        Vec2::new(0, 0),
        Vec2::new(10, 10),
    );
    assert!(c.is_none());
}

#[test]
fn shallow_vertical_overlap_is_classified_top() {
    // the movable rectangle pokes into the static one from above, with
    // its horizontal span well inside the static span
    let c = detect(
        Vec2::new(0, 30),
        Vec2::new(4, 4),
        Vec2::new(0, 0),
        Vec2::new(50, 30),
    );
    assert_eq!(c, Some(Contact::Top));
}

#[test]
fn side_entry_is_classified_by_smaller_penetration() {
    // entering from the left: horizontal penetration 2, vertical span
    // pokes out on both sides so only the x axis has a one-sided contact
    let c = detect(
        Vec2::new(-10, 0),
        Vec2::new(2, 40),
        Vec2::new(0, 0),
        Vec2::new(10, 10),
    );
    assert_eq!(c, Some(Contact::Left));
    let c = detect(
        Vec2::new(10, 0),
        Vec2::new(2, 40),
        Vec2::new(0, 0),
        Vec2::new(10, 10),
    );
    assert_eq!(c, Some(Contact::Right));
    let c = detect(
        Vec2::new(0, -10),
        Vec2::new(40, 2),
        Vec2::new(0, 0),
        Vec2::new(10, 10),
    );
    assert_eq!(c, Some(Contact::Bottom));
}

#[test]
fn equal_penetration_favors_vertical() {
    // corner overlap with identical depth on both axes
    let c = detect(
        Vec2::new(3, 3),
        Vec2::new(2, 2),
        Vec2::new(0, 0),
        Vec2::new(4, 4),
    );
    assert_eq!(c, Some(Contact::Top));
}

#[test]
fn full_containment_is_inside() {
    let c = detect(
        Vec2::new(0, 0),
        Vec2::new(1, 1),
        Vec2::new(0, 0),
        Vec2::new(10, 10),
    );
    assert_eq!(c, Some(Contact::Inside));
}

#[test]
fn falling_body_rests_exactly_on_top() {
    // a 32 x 64 rectangle falling at -500 into a 192 x 48 platform
    // centered below it: the resolver must zero the vertical velocity
    // and land the bottom edge exactly on the platform's top edge
    let mut pos = Vec2::new(0, -20);
    let mut vel = Velocity(Vec2::new(0, -500));
    let movable_half = Vec2::new(16, 32);
    let platform_pos = Vec2::new(0, -60);
    let platform_half = Vec2::new(96, 24);
    resolve_pair(&mut pos, &mut vel, movable_half, platform_pos, platform_half);
    assert_eq!(vel.0.y, 0);
    assert_eq!(pos.y, -4); // platform top (-36) plus half height (32)
    assert_eq!(pos.y - movable_half.y, platform_pos.y + platform_half.y);
    // the horizontal axis is untouched
    assert_eq!(pos.x, 0);
    assert_eq!(vel.0.x, 0);
}

#[test]
fn resolution_from_the_side_zeroes_horizontal_velocity() {
    let mut pos = Vec2::new(-10, 0);
    let mut vel = Velocity(Vec2::new(300, -7));
    resolve_pair(
        &mut pos,
        &mut vel,
        Vec2::new(2, 40),
        Vec2::new(0, 0),
        Vec2::new(10, 10),
    );
    assert_eq!(vel.0.x, 0);
    assert_eq!(vel.0.y, -7);
    assert_eq!(pos.x, -12); // static left edge (-10) minus half width (2)
    assert_eq!(pos.y, 0);
}

#[test]
fn containment_resolves_like_a_hit_from_top() {
    let mut pos = Vec2::new(0, 0);
    let mut vel = Velocity(Vec2::new(5, -5));
    resolve_pair(
        &mut pos,
        &mut vel,
        Vec2::new(1, 1),
        Vec2::new(0, 0),
        Vec2::new(10, 10),
    );
    assert_eq!(vel.0.y, 0);
    assert_eq!(pos.y, 11);
    assert_eq!(vel.0.x, 5);
}

#[test]
fn no_overlap_resolves_nothing() {
    let mut pos = Vec2::new(100, 100);
    let mut vel = Velocity(Vec2::new(3, 4));
    resolve_pair(
        &mut pos,
        &mut vel,
        Vec2::new(1, 1),
        Vec2::new(0, 0),
        Vec2::new(10, 10),
    );
    assert_eq!(pos, Vec2::new(100, 100));
    assert_eq!(vel, Velocity(Vec2::new(3, 4)));
}

#[test]
fn shape_construction_keeps_fields() {
    let s = RectCollisionShape::new(Vec2::new(21, 48), true);
    assert_eq!(s.half_size.x, 21);
    assert_eq!(s.half_size.y, 48);
    assert!(s.collide);
}

#[test]
fn screen_fade_requests_next_state_once_elapsed() {
    let mut f = ScreenFade::new(800_000, GameState::Level);
    assert_eq!(f.tick(400_000), None);
    assert_eq!(f.progress_milli(), 500);
    assert_eq!(f.tick(400_000), Some(GameState::Level));
    assert_eq!(f.progress_milli(), 1000);
}
