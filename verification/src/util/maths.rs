use vstd::prelude::*;

use crate::base::fixed::{fx_add, fx_div, fx_div_spec, fx_mul, fx_mul_spec, fx_sub, sat64};

verus! {

/// Mirror of `map_range`: the ratio of `value` inside the source range,
/// rescaled into the destination range.
pub open spec fn map_range_spec(value: int, value_min: int, value_max: int, dest_min: int, dest_max: int) -> int {
    let ratio = fx_div_spec(sat64(value - value_min), sat64(value_max - value_min));
    sat64(dest_min + fx_mul_spec(sat64(dest_max - dest_min), ratio))
}

/// Linearly remap `value` from the range `[value_min, value_max]` onto
/// `[dest_min, dest_max]`.
pub fn map_range(value: i64, value_min: i64, value_max: i64, dest_min: i64, dest_max: i64) -> (r: i64)
    ensures
        r as int == map_range_spec(
            value as int,
            value_min as int,
            value_max as int,
            dest_min as int,
            dest_max as int,
        ),
{
    let ratio = fx_div(fx_sub(value, value_min), fx_sub(value_max, value_min));
    fx_add(dest_min, fx_mul(fx_sub(dest_max, dest_min), ratio))
}

/// `value` forced into `[min, max]`.
pub fn clamp(value: i64, min: i64, max: i64) -> (r: i64)
    ensures
        r == (if value < min {
            min
        } else if value > max {
            max
        } else {
            value
        }),
{
    if value < min {
        min
    } else if value > max {
        max
    } else {
        value
    }
}

/// The sum of two bytes, clamped to 255.
pub fn u8_add_clamped(a: u8, b: u8) -> (r: u8)
    ensures
        r as int == (if a + b > 255 {
            255int
        } else {
            a + b
        }),
{
    let sum: u16 = a as u16 + b as u16;
    if sum > 255 {
        255
    } else {
        sum as u8
    }
}

/// Is `value` within the given range (inclusive)?
pub fn within(value: i64, min: i64, max: i64) -> (r: bool)
    ensures
        r == (min <= value <= max),
{
    value >= min && value <= max
}

} // verus!
