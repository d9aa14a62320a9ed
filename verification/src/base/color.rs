use vstd::prelude::*;

use crate::base::fixed::{fx_mul, fx_mul_spec, fx_sub, sat64, tdiv, FX_HALF, FX_ONE};

verus! {

/// An RGB color. Channels are fixed-point scalars conceptually in
/// `[0, FX_ONE]` (0.0 to 1.0); arithmetic clamps its results into that range,
/// while plain constructors and setters store whatever they are given.
#[derive(Clone, Copy, PartialEq, Eq, Structural, Debug)]
pub struct Color {
    pub r: i64,
    pub g: i64,
    pub b: i64,
}

/// Clamp a channel into the valid range `[0, FX_ONE]`.
pub open spec fn clamp01_spec(x: int) -> int {
    if x < 0 {
        0
    } else if x > FX_ONE as int {
        FX_ONE as int
    } else {
        x
    }
}

/// A channel read from an 8-bit value: `v / 255` at fixed-point scale.
pub open spec fn channel_from_u8_spec(v: int) -> int {
    tdiv(v * (FX_ONE as int), 255)
}

/// A channel written to an 8-bit value: clamped, then `* 255` descaled,
/// rounding to nearest so that an 8-bit round trip gives the byte back.
pub open spec fn channel_to_u8_spec(x: int) -> int {
    tdiv(clamp01_spec(x) * 255 + (FX_HALF as int), FX_ONE as int)
}

/// A channel written to 8 bits stays a byte.
pub proof fn lemma_channel_to_u8_in_range(x: int)
    ensures
        0 <= channel_to_u8_spec(x) <= 255,
{
    let c = clamp01_spec(x);
    assert(0 <= c <= 65536);
    assert(0 <= c * 255 + 32768 <= 65536 * 255 + 32768);
    assert(channel_to_u8_spec(x) == (c * 255 + 32768) / 65536);
    vstd::arithmetic::div_mod::lemma_div_pos_is_pos(c * 255 + 32768, 65536);
    vstd::arithmetic::div_mod::lemma_div_is_ordered(c * 255 + 32768, 65536int * 255 + 32768, 65536);
}

/// Reading a byte in and writing it back out gives the byte again: the
/// rounding in `channel_to_u8_spec` undoes the truncation in
/// `channel_from_u8_spec`.
pub proof fn lemma_channel_round_trip(b: int)
    requires
        0 <= b <= 255,
    ensures
        channel_to_u8_spec(channel_from_u8_spec(b)) == b,
{
    let q = channel_from_u8_spec(b);
    assert(q == (b * 65536) / 255);
    vstd::arithmetic::div_mod::lemma_div_pos_is_pos(b * 65536, 255);
    vstd::arithmetic::div_mod::lemma_div_is_ordered(b * 65536, 255int * 65536, 255);
    assert(255 * 65536 / 255 == 65536) by (nonlinear_arith);
    assert(0 <= q <= 65536);
    assert(clamp01_spec(q) == q);
    vstd::arithmetic::div_mod::lemma_fundamental_div_mod(b * 65536, 255);
    vstd::arithmetic::div_mod::lemma_mod_bound(b * 65536, 255);
    let rem = (b * 65536) % 255;
    assert(q * 255 == b * 65536 - rem) by (nonlinear_arith)
        requires
            b * 65536 == 255 * q + rem;
    assert(channel_to_u8_spec(q) == (b * 65536 + (32768 - rem)) / 65536);
    assert((b * 65536 + (32768 - rem)) / 65536 == b) by {
        vstd::arithmetic::div_mod::lemma_div_multiples_vanish_fancy(b, 32768 - rem, 65536);
    }
}

/// Channelwise clamped sum.
pub open spec fn color_add_spec(a: Color, b: Color) -> Color {
    Color {
        r: clamp01_spec(sat64(a.r + b.r)) as i64,
        g: clamp01_spec(sat64(a.g + b.g)) as i64,
        b: clamp01_spec(sat64(a.b + b.b)) as i64,
    }
}

/// Every channel scaled by a fixed-point factor, then clamped.
pub open spec fn color_scale_spec(c: Color, k: int) -> Color {
    Color {
        r: clamp01_spec(fx_mul_spec(c.r as int, k)) as i64,
        g: clamp01_spec(fx_mul_spec(c.g as int, k)) as i64,
        b: clamp01_spec(fx_mul_spec(c.b as int, k)) as i64,
    }
}

/// Linear interpolation from `a` (at `t == 0`) to `b` (at `t == FX_ONE`),
/// channelwise, clamped.
pub open spec fn color_lerp_spec(a: Color, b: Color, t: int) -> Color {
    Color {
        r: clamp01_spec(
            sat64(fx_mul_spec(a.r as int, sat64(FX_ONE - t)) + fx_mul_spec(b.r as int, t)),
        ) as i64,
        g: clamp01_spec(
            sat64(fx_mul_spec(a.g as int, sat64(FX_ONE - t)) + fx_mul_spec(b.g as int, t)),
        ) as i64,
        b: clamp01_spec(
            sat64(fx_mul_spec(a.b as int, sat64(FX_ONE - t)) + fx_mul_spec(b.b as int, t)),
        ) as i64,
    }
}

/// Clamp a channel into `[0, FX_ONE]`.
pub fn clamp01(x: i64) -> (r: i64)
    ensures
        r as int == clamp01_spec(x as int),
{
    if x < 0 {
        0
    } else if x > FX_ONE {
        FX_ONE
    } else {
        x
    }
}

impl Color {
    pub fn new(r: i64, g: i64, b: i64) -> (c: Color)
        ensures
            c == (Color { r, g, b }),
    {
        Color { r, g, b }
    }

    pub fn new_black() -> (c: Color)
        ensures
            c == (Color { r: 0i64, g: 0i64, b: 0i64 }),
    {
        Color { r: 0, g: 0, b: 0 }
    }

    /// A color from three 8-bit channels.
    pub fn from_u8(r: u8, g: u8, b: u8) -> (c: Color)
        ensures
            c == (Color {
                r: channel_from_u8_spec(r as int) as i64,
                g: channel_from_u8_spec(g as int) as i64,
                b: channel_from_u8_spec(b as int) as i64,
            }),
    {
        Color {
            r: (r as i64) * FX_ONE / 255,
            g: (g as i64) * FX_ONE / 255,
            b: (b as i64) * FX_ONE / 255,
        }
    }

    pub fn set(&mut self, r: i64, g: i64, b: i64)
        ensures
            *final(self) == (Color { r, g, b }),
    {
        self.r = r;
        self.g = g;
        self.b = b;
    }

    pub fn set_using_color(&mut self, color: &Color)
        ensures
            *final(self) == *color,
    {
        self.r = color.r;
        self.g = color.g;
        self.b = color.b;
    }

    /// The three channels clamped and descaled to 8-bit values.
    pub fn to_u8(&self) -> (t: (u8, u8, u8))
        ensures
            t.0 as int == channel_to_u8_spec(self.r as int),
            t.1 as int == channel_to_u8_spec(self.g as int),
            t.2 as int == channel_to_u8_spec(self.b as int),
    {
        let r = (clamp01(self.r) * 255 + FX_HALF) / FX_ONE;
        let g = (clamp01(self.g) * 255 + FX_HALF) / FX_ONE;
        let b = (clamp01(self.b) * 255 + FX_HALF) / FX_ONE;
        (r as u8, g as u8, b as u8)
    }

    /// Channelwise clamped sum.
    pub fn add(&self, rhs: &Color) -> (c: Color)
        ensures
            c == color_add_spec(*self, *rhs),
    {
        Color {
            r: clamp01(crate::base::fixed::fx_add(self.r, rhs.r)),
            g: clamp01(crate::base::fixed::fx_add(self.g, rhs.g)),
            b: clamp01(crate::base::fixed::fx_add(self.b, rhs.b)),
        }
    }

    /// Every channel scaled by a fixed-point intensity, then clamped.
    pub fn mul(&self, rhs: i64) -> (c: Color)
        ensures
            c == color_scale_spec(*self, rhs as int),
    {
        Color {
            r: clamp01(fx_mul(self.r, rhs)),
            g: clamp01(fx_mul(self.g, rhs)),
            b: clamp01(fx_mul(self.b, rhs)),
        }
    }

    /// Linear interpolation from `a` to `b` by `t`.
    pub fn lerp(a: Color, b: Color, t: i64) -> (c: Color)
        ensures
            c == color_lerp_spec(a, b, t as int),
    {
        let u = fx_sub(FX_ONE, t);
        Color {
            r: clamp01(crate::base::fixed::fx_add(fx_mul(a.r, u), fx_mul(b.r, t))),
            g: clamp01(crate::base::fixed::fx_add(fx_mul(a.g, u), fx_mul(b.g, t))),
            b: clamp01(crate::base::fixed::fx_add(fx_mul(a.b, u), fx_mul(b.b, t))),
        }
    }
}

} // verus!
