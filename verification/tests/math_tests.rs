use bad_nights_sleep::math::{
    aim_velocity, clamp_i64, clamp_len, dist2, div_scale, isqrt, steer_delta, Vec2I,
};

#[test]
fn isqrt_exact_values() {
    assert_eq!(isqrt(0), 0);
    assert_eq!(isqrt(1), 1);
    assert_eq!(isqrt(3), 1);
    assert_eq!(isqrt(4), 2);
    assert_eq!(isqrt(15), 3);
    assert_eq!(isqrt(16), 4);
    assert_eq!(isqrt(1_000_000), 1_000);
    assert_eq!(isqrt(u64::MAX), 4_294_967_295);
}

#[test]
fn isqrt_is_a_floor() {
    for n in [2u64, 5, 99, 100, 101, 123_456_789] {
        let r = isqrt(n);
        assert!(r * r <= n);
        assert!((r + 1) * (r + 1) > n);
    }
}

#[test]
fn div_scale_truncates_toward_zero() {
    assert_eq!(div_scale(7, 1, 2), 3);
    assert_eq!(div_scale(-7, 1, 2), -3);
    assert_eq!(div_scale(10, 3, 4), 7);
    assert_eq!(div_scale(-10, 3, 4), -7);
    assert_eq!(div_scale(0, 5, 9), 0);
}

#[test]
fn clamp_i64_cases() {
    assert_eq!(clamp_i64(5, 0, 10), 5);
    assert_eq!(clamp_i64(-5, 0, 10), 0);
    assert_eq!(clamp_i64(15, 0, 10), 10);
}

#[test]
fn dist2_exact() {
    let a = Vec2I { x: 3_000, y: 4_000 };
    let b = Vec2I { x: 0, y: 0 };
    assert_eq!(dist2(a, b), 25_000_000);
}

#[test]
fn aim_velocity_scales_direction() {
    let d = Vec2I { x: 3_000, y: 4_000 };
    let v = aim_velocity(d, 500);
    assert_eq!(v, Vec2I { x: 300, y: 400 });
}

#[test]
fn aim_velocity_zero_direction_rests() {
    let v = aim_velocity(Vec2I { x: 0, y: 0 }, 500);
    assert_eq!(v, Vec2I { x: 0, y: 0 });
}

#[test]
fn aim_velocity_negative_components() {
    let d = Vec2I { x: -3_000, y: 4_000 };
    let v = aim_velocity(d, 500);
    assert_eq!(v, Vec2I { x: -300, y: 400 });
}

#[test]
fn steer_delta_uses_gain_and_delta() {
    let d = Vec2I { x: 1_000, y: 0 };
    let s = steer_delta(d, 100);
    assert_eq!(s, Vec2I { x: 10_000, y: 0 });
}

#[test]
fn steer_delta_zero_direction_applies_no_force() {
    let s = steer_delta(Vec2I { x: 0, y: 0 }, 100);
    assert_eq!(s, Vec2I { x: 0, y: 0 });
}

#[test]
fn clamp_len_shrinks_only_when_too_fast() {
    let v = Vec2I { x: 300, y: 400 };
    assert_eq!(clamp_len(v, 500), v);
    assert_eq!(clamp_len(v, 1_000), v);
    let clamped = clamp_len(v, 100);
    assert_eq!(clamped, Vec2I { x: 60, y: 80 });
}
