//! RGB color values with saturating arithmetic.
//!
//! Channels are 8-bit; blending weights are 16.16 fixed-point scalars.
//! Every operation clamps each channel into `[0, 255]`, never wrapping.

use vstd::prelude::*;
use crate::fixed::{s_clamp, s_tdiv, FX_ONE};

verus! {

/// An RGB color with 8-bit channels.
#[derive(Clone, Copy, Debug, PartialEq, Eq, Structural)]
pub struct Color {
    pub r: u8,
    pub g: u8,
    pub b: u8,
}

/// One channel of a linear interpolation from `a` toward `b` by the
/// fixed-point weight `t`, clamped to the legal channel range.
pub open spec fn s_lerp_channel(a: int, b: int, t: int) -> int {
    s_clamp(a + s_tdiv((b - a) * t, FX_ONE as int), 0, 255)
}

/// One channel scaled by a fixed-point weight, clamped to `[0, 255]`.
pub open spec fn s_scale_channel(c: int, t: int) -> int {
    s_clamp(s_tdiv(c * t, FX_ONE as int), 0, 255)
}

/// One channel of an additive blend, saturating at 255.
pub open spec fn s_add_channel(a: int, b: int) -> int {
    if a + b > 255 {
        255
    } else {
        a + b
    }
}

/// Linear interpolation of a whole color.
pub open spec fn s_color_lerp(a: Color, b: Color, t: int) -> Color {
    Color {
        r: s_lerp_channel(a.r as int, b.r as int, t) as u8,
        g: s_lerp_channel(a.g as int, b.g as int, t) as u8,
        b: s_lerp_channel(a.b as int, b.b as int, t) as u8,
    }
}

/// A whole color scaled by a fixed-point weight.
pub open spec fn s_color_scale(c: Color, t: int) -> Color {
    Color {
        r: s_scale_channel(c.r as int, t) as u8,
        g: s_scale_channel(c.g as int, t) as u8,
        b: s_scale_channel(c.b as int, t) as u8,
    }
}

/// Additive blend of two colors, saturating per channel.
pub open spec fn s_color_add(a: Color, b: Color) -> Color {
    Color {
        r: s_add_channel(a.r as int, b.r as int) as u8,
        g: s_add_channel(a.g as int, b.g as int) as u8,
        b: s_add_channel(a.b as int, b.b as int) as u8,
    }
}

/// The packed 0x00RRGGBB representation of a color.
pub open spec fn s_color_hex(c: Color) -> int {
    c.r * 0x10000 + c.g * 0x100 + c.b
}

fn lerp_channel(a: u8, b: u8, t: i64) -> (r: u8)
    ensures
        r == s_lerp_channel(a as int, b as int, t as int),
{
    proof {
        assert(-0x1_0000_0000_0000_0000_0000 <= (b as int - a as int) * (t as int)
            <= 0x1_0000_0000_0000_0000_0000) by (nonlinear_arith)
            requires
                -255 <= b as int - a as int <= 255,
                -0x8000_0000_0000_0000 <= t as int <= 0x7fff_ffff_ffff_ffff,
        ;
    }
    let d: i128 = (b as i128 - a as i128) * (t as i128);
    let q = crate::fixed::tdiv_wide(d, FX_ONE as i128);
    let v: i128 = q + a as i128;
    if v < 0 {
        0
    } else if v > 255 {
        255
    } else {
        v as u8
    }
}

/// Scale a single channel value by a fixed-point weight, clamped to the
/// legal channel range.
pub fn scale_channel(c: u8, t: i64) -> (r: u8)
    ensures
        r == s_scale_channel(c as int, t as int),
{
    proof {
        assert(-0x1_0000_0000_0000_0000_0000 <= (c as int) * (t as int)
            <= 0x1_0000_0000_0000_0000_0000) by (nonlinear_arith)
            requires
                0 <= c as int <= 255,
                -0x8000_0000_0000_0000 <= t as int <= 0x7fff_ffff_ffff_ffff,
        ;
    }
    let d: i128 = (c as i128) * (t as i128);
    let q = crate::fixed::tdiv_wide(d, FX_ONE as i128);
    let v: i128 = q;
    if v < 0 {
        0
    } else if v > 255 {
        255
    } else {
        v as u8
    }
}

impl Color {
    /// Build a color from its three channels.
    pub fn new(r: u8, g: u8, b: u8) -> (c: Color)
        ensures
            c == (Color { r, g, b }),
    {
        Color { r, g, b }
    }

    /// Linear interpolation from `self` toward `other` by the fixed-point
    /// weight `t` (`0` keeps `self`, `FX_ONE` reaches `other`), each channel
    /// clamped to its legal range.
    pub fn lerp(&self, other: &Color, t: i64) -> (c: Color)
        ensures
            c == s_color_lerp(*self, *other, t as int),
    {
        Color {
            r: lerp_channel(self.r, other.r, t),
            g: lerp_channel(self.g, other.g, t),
            b: lerp_channel(self.b, other.b, t),
        }
    }

    /// Scale every channel by the fixed-point weight `t`, clamped to the
    /// legal channel range (negative weights clamp to zero).
    pub fn scale(&self, t: i64) -> (c: Color)
        ensures
            c == s_color_scale(*self, t as int),
    {
        Color {
            r: scale_channel(self.r, t),
            g: scale_channel(self.g, t),
            b: scale_channel(self.b, t),
        }
    }

    /// Additive blend, saturating each channel at 255.
    pub fn blend_add(&self, other: &Color) -> (c: Color)
        ensures
            c == s_color_add(*self, *other),
    {
        let r = if self.r as u16 + other.r as u16 > 255 {
            255
        } else {
            self.r + other.r
        };
        let g = if self.g as u16 + other.g as u16 > 255 {
            255
        } else {
            self.g + other.g
        };
        let b = if self.b as u16 + other.b as u16 > 255 {
            255
        } else {
            self.b + other.b
        };
        Color { r, g, b }
    }

    /// Pack the color as 0x00RRGGBB.
    pub fn to_hex(&self) -> (h: u32)
        ensures
            h == s_color_hex(*self),
    {
        (self.r as u32) * 0x10000 + (self.g as u32) * 0x100 + (self.b as u32)
    }
}

/// Color arithmetic never leaves the legal channel range: every channel
/// that interpolation, scaling or additive blending produces lies in
/// `[0, 255]`, for all inputs and weights.
pub proof fn lemma_color_channels_in_range(a: int, b: int, t: int)
    ensures
        0 <= s_lerp_channel(a, b, t) <= 255,
        0 <= s_scale_channel(a, t) <= 255,
        0 <= a ==> 0 <= b ==> 0 <= s_add_channel(a, b),
        a <= 255 ==> b <= 255 ==> s_add_channel(a, b) <= 255,
{
}

} // verus!
