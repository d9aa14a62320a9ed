use ray_tracer::base::color::Color;
use ray_tracer::base::fixed::{fx_add, fx_div, fx_mul, fx_neg, fx_pow, fx_sqrt, fx_sub, FX_ONE};
use ray_tracer::base::quat::Quat;
use ray_tracer::base::vec3::{get_point_on_ray, Vec3};
use ray_tracer::util::maths::{clamp, map_range, u8_add_clamped, within};

const S: i64 = FX_ONE;

#[test]
fn fx_mul_exact_products() {
    assert_eq!(fx_mul(2 * S, 3 * S), 6 * S);
    assert_eq!(fx_mul(S + S / 2, S + S / 2), 2 * S + S / 4);
    assert_eq!(fx_mul(-2 * S, 3 * S), -6 * S);
    assert_eq!(fx_mul(0, 12345), 0);
}

#[test]
fn fx_mul_saturates() {
    assert_eq!(fx_mul(i64::MAX, i64::MAX), i64::MAX);
    assert_eq!(fx_mul(i64::MAX, -i64::MAX), i64::MIN);
}

#[test]
fn fx_div_exact_quotients() {
    assert_eq!(fx_div(6 * S, 2 * S), 3 * S);
    assert_eq!(fx_div(-6 * S, 2 * S), -3 * S);
    assert_eq!(fx_div(S, 2 * S), S / 2);
}

#[test]
fn fx_div_by_zero_is_zero() {
    assert_eq!(fx_div(12345, 0), 0);
    assert_eq!(fx_div(0, 0), 0);
}

#[test]
fn fx_add_sub_neg_saturate() {
    assert_eq!(fx_add(i64::MAX, 1), i64::MAX);
    assert_eq!(fx_sub(i64::MIN, 1), i64::MIN);
    assert_eq!(fx_neg(i64::MIN), i64::MAX);
    assert_eq!(fx_add(2 * S, 3 * S), 5 * S);
    assert_eq!(fx_sub(2 * S, 3 * S), -S);
    assert_eq!(fx_neg(7 * S), -7 * S);
}

#[test]
fn fx_sqrt_perfect_squares() {
    assert_eq!(fx_sqrt(4 * S), 2 * S);
    assert_eq!(fx_sqrt(25 * S), 5 * S);
    assert_eq!(fx_sqrt(S), S);
    assert_eq!(fx_sqrt(0), 0);
    assert_eq!(fx_sqrt(-S), 0);
}

#[test]
fn fx_sqrt_of_two() {
    // floor(sqrt(2 * 65536 * 65536)) = 92681
    assert_eq!(fx_sqrt(2 * S), 92681);
}

#[test]
fn fx_pow_small_exponents() {
    assert_eq!(fx_pow(S / 2, 0), S);
    assert_eq!(fx_pow(S / 2, 1), S / 2);
    assert_eq!(fx_pow(S / 2, 2), S / 4);
    assert_eq!(fx_pow(2 * S, 3), 8 * S);
}

#[test]
fn map_range_midpoint() {
    assert_eq!(map_range(S / 2, 0, S, 0, 2 * S), S);
    // flipping the destination range flips the result
    assert_eq!(map_range(0, 0, S, S, -S), S);
    assert_eq!(map_range(S, 0, S, S, -S), -S);
}

#[test]
fn clamp_orders_bounds() {
    assert_eq!(clamp(5, 1, 3), 3);
    assert_eq!(clamp(0, 1, 3), 1);
    assert_eq!(clamp(2, 1, 3), 2);
}

#[test]
fn u8_add_clamped_caps_at_255() {
    assert_eq!(u8_add_clamped(200, 100), 255);
    assert_eq!(u8_add_clamped(10, 20), 30);
    assert_eq!(u8_add_clamped(255, 255), 255);
}

#[test]
fn within_is_inclusive() {
    assert!(within(5, 5, 10));
    assert!(within(10, 5, 10));
    assert!(!within(11, 5, 10));
    assert!(!within(4, 5, 10));
}

#[test]
fn vec3_dot_and_cross() {
    let a = Vec3::new(S, 2 * S, 3 * S);
    let b = Vec3::new(S, S, S);
    assert_eq!(a.dot(&b), 6 * S);
    let x = Vec3::new(S, 0, 0);
    let y = Vec3::new(0, S, 0);
    assert_eq!(x.get_cross(&y), Vec3::new(0, 0, S));
    assert_eq!(y.get_cross(&x), Vec3::new(0, 0, -S));
}

#[test]
fn vec3_length_three_four_five() {
    let v = Vec3::new(3 * S, 4 * S, 0);
    assert_eq!(v.length(), 5 * S);
}

#[test]
fn vec3_normalize_exact_and_zero() {
    let mut v = Vec3::new(0, 3 * S, 4 * S);
    v.normalize();
    // components divided by the length 5.0, truncating toward zero
    assert_eq!(v, Vec3::new(0, 39321, 52428));
    let mut z = Vec3::new(0, 0, 0);
    z.normalize();
    assert_eq!(z, Vec3::new(0, 0, 0));
}

#[test]
fn vec3_mutating_ops() {
    let mut v = Vec3::new(S, 2 * S, 3 * S);
    v.add(&Vec3::new(S, S, S));
    assert_eq!(v, Vec3::new(2 * S, 3 * S, 4 * S));
    v.sub(&Vec3::new(S, S, S));
    assert_eq!(v, Vec3::new(S, 2 * S, 3 * S));
    v.mul(&Vec3::new(2 * S, 2 * S, 2 * S));
    assert_eq!(v, Vec3::new(2 * S, 4 * S, 6 * S));
}

#[test]
fn vec3_scaled_and_negated() {
    let v = Vec3::new(S, -2 * S, 3 * S);
    assert_eq!(v.scaled(2 * S), Vec3::new(2 * S, -4 * S, 6 * S));
    assert_eq!(v.negated(), Vec3::new(-S, 2 * S, -3 * S));
    assert_eq!(v.divided_by(2 * S), Vec3::new(S / 2, -S, 3 * S / 2));
}

#[test]
fn point_on_ray_at_distance() {
    let r1 = Vec3::new(0, 0, 0);
    let r2 = Vec3::new(0, 0, 2 * S);
    assert_eq!(get_point_on_ray(&r1, &r2, 5 * S), Vec3::new(0, 0, 5 * S));
}

#[test]
fn rotation_about_axis_with_zero_angle() {
    // sin 0 = 0, cos 0 = 1: the rotation is the identity
    let v = Vec3::new(S, 2 * S, 3 * S);
    let axis = Vec3::new(0, 0, S);
    assert_eq!(v.get_rotated(0, S, &axis), v);
}

#[test]
fn rotation_quarter_turn_about_z() {
    // sin 90 = 1, cos 90 = 0: (1,0,0) goes to (0,1,0)
    let v = Vec3::new(S, 0, 0);
    let axis = Vec3::new(0, 0, S);
    assert_eq!(v.get_rotated(S, 0, &axis), Vec3::new(0, S, 0));
}

#[test]
fn quat_identity_rotation() {
    let q = Quat::new(S, 0, 0, 0);
    let v = Vec3::new(S, 2 * S, 3 * S);
    assert_eq!(q.rotate_vector(&v), v);
}

#[test]
fn quat_half_turn_about_y() {
    let q = Quat::new(0, 0, S, 0);
    let v = Vec3::new(0, 0, S);
    assert_eq!(q.rotate_vector(&v), Vec3::new(0, 0, -S));
}

#[test]
fn color_from_u8_to_u8_round_trip() {
    let c = Color::from_u8(40, 177, 249);
    assert_eq!(c.to_u8(), (40, 177, 249));
    assert_eq!(Color::from_u8(255, 0, 0), Color::new(S, 0, 0));
    assert_eq!(Color::new(S, 0, S).to_u8(), (255, 0, 255));
}

#[test]
fn color_add_clamps() {
    let a = Color::new(S / 2, S, -S);
    let b = Color::new(S, S, 0);
    assert_eq!(a.add(&b), Color::new(S, S, 0));
}

#[test]
fn color_mul_scales_and_clamps() {
    let c = Color::new(S / 2, S, S / 4);
    assert_eq!(c.mul(S), c);
    assert_eq!(c.mul(2 * S), Color::new(S, S, S / 2));
    assert_eq!(c.mul(0), Color::new(0, 0, 0));
}

#[test]
fn color_lerp_endpoints() {
    let a = Color::new(S, 0, S / 2);
    let b = Color::new(0, S, S / 4);
    assert_eq!(Color::lerp(a, b, 0), a);
    assert_eq!(Color::lerp(a, b, S), b);
    assert_eq!(Color::lerp(a, b, S / 2), Color::new(S / 2, S / 2, 3 * S / 8));
}

#[test]
fn color_setters() {
    let mut c = Color::new_black();
    c.set(1, 2, 3);
    assert_eq!(c, Color::new(1, 2, 3));
    let d = Color::new(4, 5, 6);
    c.set_using_color(&d);
    assert_eq!(c, d);
}
