use tank_battle::fixed::{HALF_PI, PI, SCALE, TWO_PI};
use tank_battle::geometry::{normalize, Rect, Vec2};
use tank_battle::input::{Key, KeySet};
use tank_battle::trig::{atan2, isqrt, reduce_angle, sin_cos};

#[test]
fn isqrt_exact_and_truncated() {
    assert_eq!(isqrt(0), 0);
    assert_eq!(isqrt(1), 1);
    assert_eq!(isqrt(48), 6);
    assert_eq!(isqrt(49), 7);
    assert_eq!(isqrt(50), 7);
    assert_eq!(isqrt(1_000_000_000_000), 1_000_000);
}

#[test]
fn sine_and_cosine_on_the_axes_are_exact() {
    assert_eq!(sin_cos(0), (0, SCALE));
    assert_eq!(sin_cos(HALF_PI), (SCALE, 0));
    assert_eq!(sin_cos(PI), (0, -SCALE));
    assert_eq!(sin_cos(PI + HALF_PI), (-SCALE, 0));
    assert_eq!(sin_cos(TWO_PI), (0, SCALE));
}

#[test]
fn sine_of_a_small_angle_is_close() {
    let (s, c) = sin_cos(300_000);
    assert!(((s as f64) / 1e6 - 0.29552).abs() < 1e-3);
    assert!(((c as f64) / 1e6 - 0.955336).abs() < 1e-3);
}

#[test]
fn angle_reduction_wraps_negative_angles() {
    assert_eq!(reduce_angle(0), 0);
    assert_eq!(reduce_angle(-300_000), TWO_PI - 300_000);
    assert_eq!(reduce_angle(TWO_PI + 5), 5);
}

#[test]
fn atan2_on_the_axes_is_exact() {
    assert_eq!(atan2(0, 1_000), 0);
    assert_eq!(atan2(0, -1_000), PI);
    assert_eq!(atan2(1_000, 0), HALF_PI);
    assert_eq!(atan2(-1_000, 0), -HALF_PI);
    assert_eq!(atan2(0, 0), 0);
}

#[test]
fn atan2_of_a_diagonal_is_close() {
    let a = atan2(1_000_000, 1_000_000);
    assert!(((a as f64) / 1e6 - 0.7853981).abs() < 1e-3);
}

#[test]
fn normalize_three_four_five() {
    let v = normalize(3_000_000, 4_000_000);
    assert_eq!(v, Vec2 { x: 600_000, y: 800_000 });
    let w = normalize(-3_000_000, 4_000_000);
    assert_eq!(w, Vec2 { x: -600_000, y: 800_000 });
}

#[test]
fn rect_contains_is_inclusive() {
    let r = Rect { x: 0, y: 0, w: 100, h: 50 };
    assert!(r.contains(Vec2 { x: 0, y: 0 }));
    assert!(r.contains(Vec2 { x: 100, y: 50 }));
    assert!(!r.contains(Vec2 { x: 101, y: 50 }));
    assert!(!r.contains(Vec2 { x: 100, y: 51 }));
    assert!(!r.contains(Vec2 { x: -1, y: 0 }));
}

#[test]
fn rect_overlap_counts_touching_edges() {
    let a = Rect { x: 0, y: 0, w: 10, h: 10 };
    let b = Rect { x: 10, y: 10, w: 5, h: 5 };
    let c = Rect { x: 11, y: 0, w: 5, h: 5 };
    assert!(a.overlaps(&b));
    assert!(!a.overlaps(&c));
}

#[test]
fn rotating_a_rect_by_zero_keeps_it() {
    let mut r = Rect { x: 400_000_000, y: 300_000_000, w: 10_000_000, h: 10_000_000 };
    let before = r;
    r.rotate(0);
    assert_eq!(r, before);
}

#[test]
fn rotating_a_square_by_a_quarter_turn_keeps_it() {
    let mut r = Rect { x: 0, y: 0, w: 10_000_000, h: 10_000_000 };
    let before = r;
    r.rotate(HALF_PI);
    assert_eq!(r, before);
}

#[test]
fn key_set_contains_only_pressed_keys() {
    let keys = KeySet::of(vec![Key::W, Key::Space]);
    assert!(keys.contains(Key::W));
    assert!(keys.contains(Key::Space));
    assert!(!keys.contains(Key::A));
    let empty = KeySet::new();
    assert!(!empty.contains(Key::W));
    let mut pressed = KeySet::new();
    pressed.press(Key::Z);
    assert!(pressed.contains(Key::Z));
}
