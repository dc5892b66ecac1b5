//! Colors of march outcomes: palette ramps, approximate ambient occlusion, rim
//! and point lighting, background on a miss.
use vstd::prelude::*;
use crate::fixed::{clamp_spec, ONE};
use crate::march::MarchOutcome;
use crate::params::{
    FractalParameters, Palette, COLOR_OFFSET_MAX, COLOR_OFFSET_MIN, COLOR_SCALE_MAX,
    COLOR_SCALE_MIN,
};

verus! {

/// Share of the point light that reaches faces turned away from it.
pub const AMBIENT: i64 = 200_000;

/// A color, each channel in millionths.
#[derive(Clone, Copy, Debug, PartialEq, Eq, Structural)]
pub struct Rgb {
    pub r: i64,
    pub g: i64,
    pub b: i64,
}

impl Rgb {
    /// Each channel lies in `[0, 1]`.
    pub open spec fn in_unit(&self) -> bool {
        0 <= self.r <= ONE && 0 <= self.g <= ONE && 0 <= self.b <= ONE
    }
}

/// The flat background color, scaled by the glow intensity on a miss.
pub open spec fn background_base() -> Rgb {
    Rgb { r: 50_000, g: 60_000, b: 120_000 }
}

/// The color at the start (and end) of a palette's ramp.
pub open spec fn ramp_low(p: Palette) -> Rgb {
    match p {
        Palette::Standard => Rgb { r: 100_000, g: 200_000, b: 500_000 },
        Palette::Fire => Rgb { r: 500_000, g: 0, b: 0 },
        Palette::Neon => Rgb { r: 500_000, g: 0, b: 800_000 },
        Palette::Ice => Rgb { r: 100_000, g: 300_000, b: 600_000 },
    }
}

/// The color at the middle of a palette's ramp.
pub open spec fn ramp_high(p: Palette) -> Rgb {
    match p {
        Palette::Standard => Rgb { r: 900_000, g: 800_000, b: 600_000 },
        Palette::Fire => Rgb { r: 1_000_000, g: 900_000, b: 200_000 },
        Palette::Neon => Rgb { r: 200_000, g: 1_000_000, b: 400_000 },
        Palette::Ice => Rgb { r: 850_000, g: 950_000, b: 1_000_000 },
    }
}

fn ramp_ends(p: Palette) -> (r: (Rgb, Rgb))
    ensures
        r.0 == ramp_low(p),
        r.1 == ramp_high(p),
{
    match p {
        Palette::Standard => (
            Rgb { r: 100_000, g: 200_000, b: 500_000 },
            Rgb { r: 900_000, g: 800_000, b: 600_000 },
        ),
        Palette::Fire => (
            Rgb { r: 500_000, g: 0, b: 0 },
            Rgb { r: 1_000_000, g: 900_000, b: 200_000 },
        ),
        Palette::Neon => (
            Rgb { r: 500_000, g: 0, b: 800_000 },
            Rgb { r: 200_000, g: 1_000_000, b: 400_000 },
        ),
        Palette::Ice => (
            Rgb { r: 100_000, g: 300_000, b: 600_000 },
            Rgb { r: 850_000, g: 950_000, b: 1_000_000 },
        ),
    }
}

/// `a` moved toward `b` by the fraction `s` (in millionths), rounded down.
pub open spec fn lerp_spec(a: int, b: int, s: int) -> int {
    (a * (ONE - s) + b * s) / (ONE as int)
}

fn lerp(a: i64, b: i64, s: i64) -> (r: i64)
    requires
        0 <= a <= ONE,
        0 <= b <= ONE,
        0 <= s <= ONE,
    ensures
        r == lerp_spec(a as int, b as int, s as int),
        0 <= r <= ONE,
{
    proof {
        assert(0 <= a * (ONE - s) <= ONE * (ONE - s)) by (nonlinear_arith)
            requires 0 <= a <= ONE, 0 <= s <= ONE;
        assert(0 <= b * s <= ONE * s) by (nonlinear_arith)
            requires 0 <= b <= ONE, 0 <= s <= ONE;
    }
    (a * (ONE - s) + b * s) / ONE
}

fn lerp_rgb(a: Rgb, b: Rgb, s: i64) -> (r: Rgb)
    requires
        a.in_unit(),
        b.in_unit(),
        0 <= s <= ONE,
    ensures
        r == (Rgb {
            r: lerp_spec(a.r as int, b.r as int, s as int) as i64,
            g: lerp_spec(a.g as int, b.g as int, s as int) as i64,
            b: lerp_spec(a.b as int, b.b as int, s as int) as i64,
        }),
        r.in_unit(),
{
    Rgb { r: lerp(a.r, b.r, s), g: lerp(a.g, b.g, s), b: lerp(a.b, b.b, s) }
}

/// Where a color index falls on the periodic ramp, in `[0, 1)`: the index
/// scaled by `scale`, shifted by `offset`, fractional part.
pub open spec fn ramp_position(color_index: int, scale: int, offset: int) -> int {
    (color_index * scale / (ONE as int) + offset) % (ONE as int)
}

/// The ramp color at position `t`: low at 0, rising linearly to high at one
/// half, falling back to low at 1.
pub open spec fn ramp_color(p: Palette, t: int) -> Rgb {
    let lo = ramp_low(p);
    let hi = ramp_high(p);
    let s = if t < ONE / 2 { 2 * t } else { 2 * (ONE - t) };
    Rgb {
        r: lerp_spec(lo.r as int, hi.r as int, s) as i64,
        g: lerp_spec(lo.g as int, hi.g as int, s) as i64,
        b: lerp_spec(lo.b as int, hi.b as int, s) as i64,
    }
}

pub open spec fn palette_color_spec(color_index: int, p: Palette, scale: int, offset: int) -> Rgb {
    ramp_color(p, ramp_position(color_index, scale, offset))
}

/// The palette color of `color_index` (millionths), as a function of the
/// index, palette, scale and offset alone.
pub fn palette_color(color_index: u64, palette: Palette, scale: i64, offset: i64) -> (r: Rgb)
    requires
        COLOR_SCALE_MIN <= scale <= COLOR_SCALE_MAX,
        COLOR_OFFSET_MIN <= offset <= COLOR_OFFSET_MAX,
    ensures
        r == palette_color_spec(color_index as int, palette, scale as int, offset as int),
        r.in_unit(),
{
    let ci = color_index as u128;
    proof {
        assert(ci * (scale as u128) <= 0xffff_ffff_ffff_ffff * 3_000_000) by (nonlinear_arith)
            requires 0 <= ci <= 0xffff_ffff_ffff_ffff, 0 <= scale <= 3_000_000;
    }
    let scaled: u128 = ci * (scale as u128) / (ONE as u128) + (offset as u128);
    let t: i64 = (scaled % (ONE as u128)) as i64;
    let (lo, hi) = ramp_ends(palette);
    let s: i64 = if t < ONE / 2 {
        2 * t
    } else {
        2 * (ONE - t)
    };
    lerp_rgb(lo, hi, s)
}

/// The iteration fraction `steps / step_count`, in millionths.
pub open spec fn color_index_spec(steps: int, step_count: int) -> int {
    steps * ONE / step_count
}

/// The light left after approximate occlusion: one less `strength` times the
/// share of the step budget spent reaching the surface, never below zero.
pub open spec fn ao_factor_spec(steps: int, step_count: int, strength: int) -> int {
    let occlusion = strength * steps / step_count;
    if occlusion > ONE {
        0
    } else {
        ONE - occlusion
    }
}

/// The edge highlight: `(1 - facing)` cubed, times `strength`, where
/// `facing` is the cosine between normal and view direction taken in `[0, 1]`.
pub open spec fn rim_spec(facing: int, strength: int) -> int {
    let e = ONE - clamp_spec(facing, 0, ONE as int);
    e * e / (ONE as int) * e / (ONE as int) * strength / (ONE as int)
}

/// Lambertian lighting over an ambient floor: `diffuse` is the cosine between
/// normal and light direction, taken in `[0, 1]`.
pub open spec fn light_spec(diffuse: int) -> int {
    AMBIENT + (ONE - AMBIENT) * clamp_spec(diffuse, 0, ONE as int) / (ONE as int)
}

/// A lit channel: the palette value darkened by occlusion, lit, plus the rim
/// highlight, clamped to `[0, 1]`.
pub open spec fn lit_channel(base: int, ao: int, lit: int, rim: int) -> int {
    clamp_spec(base * ao / (ONE as int) * lit / (ONE as int) + rim, 0, ONE as int)
}

/// A background channel: the base value scaled by the glow, clamped to `[0, 1]`.
pub open spec fn glow_channel(base: int, glow: int) -> int {
    clamp_spec(base * glow / (ONE as int), 0, ONE as int)
}

/// The final color of a pixel whose ray ended with `outcome`; `facing` and
/// `diffuse` are the cosines of the surface normal with the view and light
/// directions at the hit point (millionths).
pub open spec fn shade_spec(
    outcome: MarchOutcome,
    params: FractalParameters,
    facing: int,
    diffuse: int,
) -> Rgb {
    if !outcome.hit {
        let bg = background_base();
        Rgb {
            r: glow_channel(bg.r as int, params.background_glow as int) as i64,
            g: glow_channel(bg.g as int, params.background_glow as int) as i64,
            b: glow_channel(bg.b as int, params.background_glow as int) as i64,
        }
    } else {
        let index = color_index_spec(outcome.steps as int, params.ray_step_count as int);
        let base = palette_color_spec(
            index,
            params.palette,
            params.color_scale as int,
            params.color_offset as int,
        );
        let ao = ao_factor_spec(
            outcome.steps as int,
            params.ray_step_count as int,
            params.ao_strength as int,
        );
        let lit = light_spec(diffuse);
        let rim = rim_spec(facing, params.rim_strength as int);
        Rgb {
            r: lit_channel(base.r as int, ao, lit, rim) as i64,
            g: lit_channel(base.g as int, ao, lit, rim) as i64,
            b: lit_channel(base.b as int, ao, lit, rim) as i64,
        }
    }
}

fn clamp_unit(v: i128) -> (r: i64)
    ensures
        r == clamp_spec(v as int, 0, ONE as int),
{
    if v < 0 {
        0
    } else if v > ONE as i128 {
        ONE
    } else {
        v as i64
    }
}

fn lit_channel_of(base: i64, ao: i128, lit: i128, rim: i128) -> (r: i64)
    requires
        0 <= base <= ONE,
        0 <= ao <= ONE,
        0 <= lit <= ONE,
        0 <= rim <= i64::MAX,
    ensures
        r == lit_channel(base as int, ao as int, lit as int, rim as int),
{
    let b = base as i128;
    proof {
        assert(0 <= b * ao <= ONE * ONE) by (nonlinear_arith)
            requires 0 <= b <= ONE, 0 <= ao <= ONE;
    }
    let darkened: i128 = b * ao / (ONE as i128);
    proof {
        assert(darkened <= ONE) by (nonlinear_arith)
            requires darkened == b * ao / (ONE as int), 0 <= b * ao <= ONE * ONE;
        assert(0 <= darkened * lit <= ONE * ONE) by (nonlinear_arith)
            requires 0 <= darkened <= ONE, 0 <= lit <= ONE;
    }
    clamp_unit(darkened * lit / (ONE as i128) + rim)
}

fn glow_channel_of(base: i64, glow: i64) -> (r: i64)
    requires
        0 <= base <= ONE,
        0 <= glow,
    ensures
        r == glow_channel(base as int, glow as int),
{
    let b = base as i128;
    let g = glow as i128;
    proof {
        assert(0 <= b * g <= ONE * 0x7fff_ffff_ffff_ffff) by (nonlinear_arith)
            requires 0 <= b <= ONE, 0 <= g <= 0x7fff_ffff_ffff_ffff;
    }
    clamp_unit(b * g / (ONE as i128))
}

/// Shades one pixel: on a miss the background scaled by the glow intensity;
/// on a hit the palette color of the iteration fraction, darkened by
/// approximate occlusion, lit by the point light, plus the rim highlight.
/// Every channel ends in `[0, 1]`.
pub fn shade(outcome: &MarchOutcome, params: &FractalParameters, facing: i64, diffuse: i64) -> (r: Rgb)
    requires
        params.in_domain(),
        outcome.steps <= params.ray_step_count,
    ensures
        r == shade_spec(*outcome, *params, facing as int, diffuse as int),
        r.in_unit(),
{
    if !outcome.hit {
        let glow = params.background_glow;
        return Rgb {
            r: glow_channel_of(50_000, glow),
            g: glow_channel_of(60_000, glow),
            b: glow_channel_of(120_000, glow),
        };
    }
    let steps = outcome.steps as u64;
    let count = params.ray_step_count as u64;
    proof {
        assert(steps * 1_000_000 <= 300_000_000) by (nonlinear_arith)
            requires steps <= 300;
    }
    let index: u64 = steps * 1_000_000 / count;
    let base = palette_color(index, params.palette, params.color_scale, params.color_offset);
    let strength = params.ao_strength as i128;
    proof {
        assert(0 <= strength * (steps as i128) <= 0x7fff_ffff_ffff_ffff * 300) by (nonlinear_arith)
            requires 0 <= strength <= 0x7fff_ffff_ffff_ffff, 0 <= steps <= 300;
    }
    let occlusion: i128 = strength * (steps as i128) / (count as i128);
    let ao: i128 = if occlusion > ONE as i128 {
        0
    } else {
        ONE as i128 - occlusion
    };
    let d: i128 = if diffuse < 0 {
        0
    } else if diffuse > ONE {
        ONE as i128
    } else {
        diffuse as i128
    };
    proof {
        assert(0 <= (ONE - AMBIENT) * d <= (ONE - AMBIENT) * ONE) by (nonlinear_arith)
            requires 0 <= d <= ONE;
    }
    let lit: i128 = AMBIENT as i128 + (ONE - AMBIENT) as i128 * d / (ONE as i128);
    let f: i128 = if facing < 0 {
        0
    } else if facing > ONE {
        ONE as i128
    } else {
        facing as i128
    };
    let e: i128 = ONE as i128 - f;
    proof {
        assert(0 <= e * e <= ONE * ONE) by (nonlinear_arith)
            requires 0 <= e <= ONE;
    }
    let e2: i128 = e * e / (ONE as i128);
    proof {
        assert(e2 <= ONE) by (nonlinear_arith)
            requires e2 == e * e / (ONE as int), 0 <= e * e <= ONE * ONE;
        assert(0 <= e2 * e <= ONE * ONE) by (nonlinear_arith)
            requires 0 <= e2 <= ONE, 0 <= e <= ONE;
    }
    let e3: i128 = e2 * e / (ONE as i128);
    let rim_strength = params.rim_strength as i128;
    proof {
        assert(e3 <= ONE) by (nonlinear_arith)
            requires e3 == e2 * e / (ONE as int), 0 <= e2 * e <= ONE * ONE;
        assert(0 <= e3 * rim_strength <= ONE * 0x7fff_ffff_ffff_ffff) by (nonlinear_arith)
            requires 0 <= e3 <= ONE, 0 <= rim_strength <= 0x7fff_ffff_ffff_ffff;
        assert(e3 * rim_strength / (ONE as int) <= 0x7fff_ffff_ffff_ffff) by (nonlinear_arith)
            requires 0 <= e3 * rim_strength <= ONE * 0x7fff_ffff_ffff_ffff;
    }
    let rim: i128 = e3 * rim_strength / (ONE as i128);
    Rgb {
        r: lit_channel_of(base.r, ao, lit, rim),
        g: lit_channel_of(base.g, ao, lit, rim),
        b: lit_channel_of(base.b, ao, lit, rim),
    }
}

/// Palette lookup is a pure function: two lookups with the same index,
/// palette, scale and offset give the same color.
pub proof fn lemma_palette_lookup_is_pure(
    color_index: u64,
    palette: Palette,
    scale: i64,
    offset: i64,
    first: Rgb,
    second: Rgb,
)
    requires
        COLOR_SCALE_MIN <= scale <= COLOR_SCALE_MAX,
        COLOR_OFFSET_MIN <= offset <= COLOR_OFFSET_MAX,
        call_ensures(palette_color, (color_index, palette, scale, offset), first),
        call_ensures(palette_color, (color_index, palette, scale, offset), second),
    ensures
        first == second,
{
}

} // verus!
