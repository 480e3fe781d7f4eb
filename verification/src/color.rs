//! The color model and compositor: an RGB value with three 8-bit channels, a
//! packed 24-bit representation, linear interpolation, alpha-style blending
//! and clamped intensity scaling.
//!
//! Blend factors are milli values; every factor is clamped into [0, 1000]
//! before use, and the weighted channel sum is truncated toward zero, so the
//! arithmetic is bit-reproducible and every channel stays in [0, 255].

use vstd::prelude::*;
use crate::fixp::clamp_unit;
use crate::fixp::clamp_unit_exec;

verus! {

/// An RGB color; every channel is 8 bits wide, so each channel of every color
/// is in [0, 255] by construction.
#[derive(Clone, Copy, Debug, PartialEq, Eq, Structural)]
pub struct Color {
    pub r: u8,
    pub g: u8,
    pub b: u8,
}

/// One interpolated channel: the weighted sum of `a` and `b` under the milli
/// factor `t`, truncated. For `a`, `b` in [0, 255] and `t` in [0, 1000] the
/// result is in [0, 255].
pub open spec fn mix_channel(a: int, b: int, t: int) -> int {
    (a * (1000 - t) + b * t) / 1000
}

/// Channel-wise linear interpolation from `a` (factor 0) to `b` (factor 1000),
/// with the factor clamped into [0, 1000].
pub open spec fn spec_lerp(a: Color, b: Color, t: int) -> Color {
    let tc = clamp_unit(t);
    Color {
        r: mix_channel(a.r as int, b.r as int, tc) as u8,
        g: mix_channel(a.g as int, b.g as int, tc) as u8,
        b: mix_channel(a.b as int, b.b as int, tc) as u8,
    }
}

/// Channel-wise intensity scaling by a milli factor clamped into [0, 1000].
pub open spec fn spec_scale(c: Color, s: int) -> Color {
    let sc = clamp_unit(s);
    Color {
        r: ((c.r as int * sc) / 1000) as u8,
        g: ((c.g as int * sc) / 1000) as u8,
        b: ((c.b as int * sc) / 1000) as u8,
    }
}

impl Color {
    /// The packed 24-bit value `0xRRGGBB`.
    pub open spec fn spec_to_hex(self) -> int {
        self.r as int * 65536 + self.g as int * 256 + self.b as int
    }

    /// The color encoded by the low 24 bits of a packed value.
    pub open spec fn spec_from_hex(h: int) -> Color {
        Color { r: ((h / 65536) % 256) as u8, g: ((h / 256) % 256) as u8, b: (h % 256) as u8 }
    }

    pub fn new(r: u8, g: u8, b: u8) -> (c: Color)
        ensures
            c == (Color { r, g, b }),
    {
        Color { r, g, b }
    }

    /// Pack the three channels into one 24-bit integer.
    pub fn to_hex(&self) -> (h: u32)
        ensures
            h == self.spec_to_hex(),
            h <= 0xFFFFFF,
    {
        (self.r as u32) * 65536 + (self.g as u32) * 256 + (self.b as u32)
    }

    /// Unpack a 24-bit integer into its three channels; bits above the low 24
    /// are ignored.
    pub fn from_hex(h: u32) -> (c: Color)
        ensures
            c == Color::spec_from_hex(h as int),
    {
        Color { r: ((h / 65536) % 256) as u8, g: ((h / 256) % 256) as u8, b: (h % 256) as u8 }
    }

    /// Scale every channel by the milli intensity factor `s`, clamped into
    /// [0, 1000]; the result never leaves [0, 255] per channel.
    pub fn scale(&self, s: i64) -> (c: Color)
        ensures
            c == spec_scale(*self, s as int),
    {
        let sc: u64 = clamp_unit_exec(s) as u64;
        proof {
            assert((self.r as int) * (sc as int) <= 255000 && (self.g as int) * (sc as int)
                <= 255000 && (self.b as int) * (sc as int) <= 255000 && (self.r as int) * (
            sc as int) >= 0 && (self.g as int) * (sc as int) >= 0 && (self.b as int) * (sc as int)
                >= 0) by (nonlinear_arith)
                requires
                    self.r as int <= 255,
                    self.g as int <= 255,
                    self.b as int <= 255,
                    0 <= sc as int <= 1000,
            ;
        }
        let cr: u64 = (self.r as u64) * sc / 1000;
        let cg: u64 = (self.g as u64) * sc / 1000;
        let cb: u64 = (self.b as u64) * sc / 1000;
        Color { r: cr as u8, g: cg as u8, b: cb as u8 }
    }
}

/// One interpolated channel, executably: `a` toward `b` under the clamped
/// milli factor `t`.
fn mix_channel_exec(a: u8, b: u8, t: u64) -> (r: u64)
    requires
        t <= 1000,
    ensures
        r == mix_channel(a as int, b as int, t as int),
        r <= 255,
{
    proof {
        assert((a as int) * (1000 - t as int) + (b as int) * (t as int) <= 255000 && (a as int) * (
        1000 - t as int) >= 0 && (b as int) * (t as int) >= 0) by (nonlinear_arith)
            requires
                a as int <= 255,
                b as int <= 255,
                0 <= t as int <= 1000,
        ;
    }
    let num: u64 = (a as u64) * (1000 - t) + (b as u64) * t;
    num / 1000
}

/// Linear interpolation per channel: `t = 0` returns `a`, `t = 1000` returns
/// `b`, and the factor is clamped into [0, 1000] first.
pub fn lerp(a: &Color, b: &Color, t: i64) -> (c: Color)
    ensures
        c == spec_lerp(*a, *b, t as int),
{
    let tc: u64 = clamp_unit_exec(t) as u64;
    let cr: u64 = mix_channel_exec(a.r, b.r, tc);
    let cg: u64 = mix_channel_exec(a.g, b.g, tc);
    let cb: u64 = mix_channel_exec(a.b, b.b, tc);
    Color { r: cr as u8, g: cg as u8, b: cb as u8 }
}

/// The interpolated channel stays in [0, 255] whenever both endpoints do and
/// the factor is in [0, 1000].
pub proof fn lemma_mix_channel_range(a: int, b: int, t: int)
    requires
        0 <= a <= 255,
        0 <= b <= 255,
        0 <= t <= 1000,
    ensures
        0 <= mix_channel(a, b, t) <= 255,
{
    assert(0 <= a * (1000 - t) + b * t <= 255000) by (nonlinear_arith)
        requires
            0 <= a <= 255,
            0 <= b <= 255,
            0 <= t <= 1000,
    ;
}

/// Interpolating a color with itself returns it unchanged, for every factor.
pub proof fn lemma_lerp_same(a: Color, t: int)
    ensures
        spec_lerp(a, a, t) == a,
{
    let tc = clamp_unit(t);
    assert(a.r as int * (1000 - tc) + a.r as int * tc == a.r as int * 1000 && (a.r as int * 1000)
        / 1000 == a.r as int) by (nonlinear_arith);
    assert(a.g as int * (1000 - tc) + a.g as int * tc == a.g as int * 1000 && (a.g as int * 1000)
        / 1000 == a.g as int) by (nonlinear_arith);
    assert(a.b as int * (1000 - tc) + a.b as int * tc == a.b as int * 1000 && (a.b as int * 1000)
        / 1000 == a.b as int) by (nonlinear_arith);
}

/// A factor of zero returns the first color exactly, and the full factor
/// (1000) returns the second exactly.
pub proof fn lemma_lerp_endpoints(a: Color, b: Color)
    ensures
        spec_lerp(a, b, 0) == a,
        spec_lerp(a, b, 1000) == b,
{
    assert(a.r as int * (1000 - 0) + b.r as int * 0 == a.r as int * 1000 && (a.r as int * 1000)
        / 1000 == a.r as int && a.r as int * (1000 - 1000) + b.r as int * 1000 == b.r as int * 1000
        && (b.r as int * 1000) / 1000 == b.r as int) by (nonlinear_arith);
    assert(a.g as int * (1000 - 0) + b.g as int * 0 == a.g as int * 1000 && (a.g as int * 1000)
        / 1000 == a.g as int && a.g as int * (1000 - 1000) + b.g as int * 1000 == b.g as int * 1000
        && (b.g as int * 1000) / 1000 == b.g as int) by (nonlinear_arith);
    assert(a.b as int * (1000 - 0) + b.b as int * 0 == a.b as int * 1000 && (a.b as int * 1000)
        / 1000 == a.b as int && a.b as int * (1000 - 1000) + b.b as int * 1000 == b.b as int * 1000
        && (b.b as int * 1000) / 1000 == b.b as int) by (nonlinear_arith);
}

/// One channel of the blend is monotone in the factor when the overlay
/// channel is at least the base channel.
proof fn lemma_mix_channel_monotone(a: int, b: int, t1: int, t2: int)
    requires
        0 <= a <= 255,
        0 <= b <= 255,
        0 <= t1 <= t2 <= 1000,
        a <= b,
    ensures
        mix_channel(a, b, t1) <= mix_channel(a, b, t2),
{
    assert(a * (1000 - t1) + b * t1 <= a * (1000 - t2) + b * t2) by (nonlinear_arith)
        requires
            a <= b,
            t1 <= t2,
    ;
    vstd::arithmetic::div_mod::lemma_div_is_ordered(
        a * (1000 - t1) + b * t1,
        a * (1000 - t2) + b * t2,
        1000,
    );
}

/// Blending is monotone in its factor, per channel, wherever the overlay's
/// channel is at least the base's channel.
pub proof fn lemma_blend_monotone(base: Color, overlay: Color, f1: int, f2: int)
    requires
        f1 <= f2,
    ensures
        overlay.r >= base.r ==> spec_lerp(base, overlay, f1).r <= spec_lerp(base, overlay, f2).r,
        overlay.g >= base.g ==> spec_lerp(base, overlay, f1).g <= spec_lerp(base, overlay, f2).g,
        overlay.b >= base.b ==> spec_lerp(base, overlay, f1).b <= spec_lerp(base, overlay, f2).b,
{
    let t1 = clamp_unit(f1);
    let t2 = clamp_unit(f2);
    if overlay.r >= base.r {
        lemma_mix_channel_monotone(base.r as int, overlay.r as int, t1, t2);
        lemma_mix_channel_range(base.r as int, overlay.r as int, t1);
        lemma_mix_channel_range(base.r as int, overlay.r as int, t2);
    }
    if overlay.g >= base.g {
        lemma_mix_channel_monotone(base.g as int, overlay.g as int, t1, t2);
        lemma_mix_channel_range(base.g as int, overlay.g as int, t1);
        lemma_mix_channel_range(base.g as int, overlay.g as int, t2);
    }
    if overlay.b >= base.b {
        lemma_mix_channel_monotone(base.b as int, overlay.b as int, t1, t2);
        lemma_mix_channel_range(base.b as int, overlay.b as int, t1);
        lemma_mix_channel_range(base.b as int, overlay.b as int, t2);
    }
}

/// Interpolation reads its factor only through the clamp: two factors with
/// the same clamped value give the same color.
pub proof fn lemma_lerp_factor_clamp(a: Color, b: Color, t1: int, t2: int)
    requires
        clamp_unit(t1) == clamp_unit(t2),
    ensures
        spec_lerp(a, b, t1) == spec_lerp(a, b, t2),
{
}

/// Blend `overlay` on top of `base` with the given milli factor: the same
/// clamped, truncated weighted sum as `lerp`, named for overlay semantics.
/// Factor 0 leaves `base` unchanged.
pub fn blend(base: &Color, overlay: &Color, factor: i64) -> (c: Color)
    ensures
        c == spec_lerp(*base, *overlay, factor as int),
{
    lerp(base, overlay, factor)
}

} // verus!
