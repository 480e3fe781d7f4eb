//! The archetype shaders and the fragment-shader dispatcher.
//!
//! Each archetype shader is a pure function from the fragment's object-space
//! position, its light intensity, and the noise samples its layers read, to
//! one output color. The coordinates at which the shared noise fields must be
//! sampled are themselves computed here (`fragment_noise_queries`); the
//! sampling adapter that owns the noise fields evaluates them and hands the
//! samples back, so every decision and every compositing step is verified
//! against the spec functions below.

use vstd::prelude::*;
use crate::color::Color;
use crate::color::spec_lerp;
use crate::color::spec_scale;
use crate::color::lerp;
use crate::color::blend;
use crate::color::lemma_lerp_factor_clamp;
use crate::fixp::clamp_unit;
use crate::fixp::clamp_unit_exec;
use crate::fixp::clamp_noise;
use crate::fixp::clamp_noise_exec;
use crate::fixp::tdiv;
use crate::fixp::tdiv_gen;
use crate::fixp::tdiv_exec;
use crate::fixp::sat64;
use crate::fixp::iabs;
use crate::fixp::iabs_small;
use crate::fixp::abs_u64;
use crate::fixp::half_up;
use crate::fixp::unit_mul;
use crate::fixp::smul;
use crate::fixp::sadd;
use crate::fixp::fxdiv_i128;
use crate::fixp::sqrt_floor;
use crate::fixp::isqrt_u128;
use crate::fixp::root5_floor;
use crate::fixp::pow45;
use crate::fixp::spec_sin;
use crate::fixp::sin_milli;
use crate::geom::Vec3;
use crate::vertex::Fragment;
use crate::vertex::Uniforms;

verus! {

/// The closed set of celestial-body archetypes; a ringed planet shades
/// exactly as a gas giant (its rings are separate geometry).
#[derive(Clone, Copy, Debug, PartialEq, Eq, Structural)]
pub enum ShaderType {
    Sun,
    RockyPlanet,
    GasGiant,
    Moon,
    RingedPlanet,
}

/// A 3D noise-field query point, in milli coordinates.
#[derive(Clone, Copy, Debug, PartialEq, Eq, Structural)]
pub struct NoiseQuery3 {
    pub x: i64,
    pub y: i64,
    pub z: i64,
}

/// A 2D noise-field query point, in milli coordinates.
#[derive(Clone, Copy, Debug, PartialEq, Eq, Structural)]
pub struct NoiseQuery2 {
    pub x: i64,
    pub y: i64,
}

/// Where the sun shader samples the base noise field.
#[derive(Clone, Copy, Debug, PartialEq, Eq, Structural)]
pub struct SunQueries {
    pub plasma: NoiseQuery3,
    pub spot: NoiseQuery3,
}

/// Where the rocky-planet shader samples the base field (continent, detail)
/// and the fractal cloud field (cloud).
#[derive(Clone, Copy, Debug, PartialEq, Eq, Structural)]
pub struct RockyQueries {
    pub continent: NoiseQuery3,
    pub detail: NoiseQuery3,
    pub cloud: NoiseQuery3,
}

/// Where the gas-giant shader samples the base noise field.
#[derive(Clone, Copy, Debug, PartialEq, Eq, Structural)]
pub struct GasQueries {
    pub band: NoiseQuery2,
    pub turbulence: NoiseQuery3,
    pub spot: NoiseQuery3,
    pub detail: NoiseQuery3,
}

/// Where the moon shader samples the base noise field.
#[derive(Clone, Copy, Debug, PartialEq, Eq, Structural)]
pub struct MoonQueries {
    pub terrain: NoiseQuery3,
    pub crater: NoiseQuery3,
    pub detail: NoiseQuery3,
}

/// The noise queries one fragment needs, by archetype.
#[derive(Clone, Copy, Debug, PartialEq, Eq, Structural)]
pub enum FragmentQueries {
    Sun(SunQueries),
    Rocky(RockyQueries),
    Gas(GasQueries),
    Moon(MoonQueries),
}

/// The sun shader's two samples, in milli units (nominally [-1000, 1000]).
#[derive(Clone, Copy, Debug, PartialEq, Eq, Structural)]
pub struct SunSamples {
    pub plasma: i64,
    pub spot: i64,
}

/// The rocky-planet shader's three samples.
#[derive(Clone, Copy, Debug, PartialEq, Eq, Structural)]
pub struct RockySamples {
    pub continent: i64,
    pub detail: i64,
    pub cloud: i64,
}

/// The gas-giant shader's four samples.
#[derive(Clone, Copy, Debug, PartialEq, Eq, Structural)]
pub struct GasSamples {
    pub band: i64,
    pub turbulence: i64,
    pub spot: i64,
    pub detail: i64,
}

/// The moon shader's three samples.
#[derive(Clone, Copy, Debug, PartialEq, Eq, Structural)]
pub struct MoonSamples {
    pub terrain: i64,
    pub crater: i64,
    pub detail: i64,
}

/// The noise samples for one fragment, in the shape the chosen archetype
/// expects.
#[derive(Clone, Copy, Debug, PartialEq, Eq, Structural)]
pub enum FragmentSamples {
    Sun(SunSamples),
    Rocky(RockySamples),
    Gas(GasSamples),
    Moon(MoonSamples),
}

/// The exhaustive routing of archetypes to sample shapes: a ringed planet
/// takes the gas-giant samples.
pub open spec fn samples_match(st: ShaderType, s: FragmentSamples) -> bool {
    match st {
        ShaderType::Sun => s is Sun,
        ShaderType::RockyPlanet => s is Rocky,
        ShaderType::GasGiant => s is Gas,
        ShaderType::Moon => s is Moon,
        ShaderType::RingedPlanet => s is Gas,
    }
}

/// The squared Euclidean norm of a position, exactly.
pub open spec fn spec_sq_norm(p: Vec3) -> int {
    p.x as int * (p.x as int) + p.y as int * (p.y as int) + p.z as int * (p.z as int)
}

/// The radial distance from the origin: the floor square root of the squared
/// norm, in milli units.
pub open spec fn spec_radial(p: Vec3) -> int {
    sqrt_floor(spec_sq_norm(p) as nat) as int
}

/// The planar distance from the gas giant's fixed storm center (300, 200).
pub open spec fn spec_spot_distance(p: Vec3) -> int {
    sqrt_floor(
        ((p.x as int - 300) * (p.x as int - 300) + (p.y as int - 200) * (p.y as int - 200)) as nat,
    ) as int
}

/// Executable radial distance.
fn radial_distance(p: Vec3) -> (d: u64)
    ensures
        d as int == spec_radial(p),
{
    proof {
        assert(0 <= (p.x as int) * (p.x as int)
            <= 100_000_000_000_000_000_000_000_000_000_000_000_000 && 0 <= (p.y as int) * (
        p.y as int) <= 100_000_000_000_000_000_000_000_000_000_000_000_000 && 0 <= (p.z as int) * (
        p.z as int) <= 100_000_000_000_000_000_000_000_000_000_000_000_000) by (nonlinear_arith)
            requires
                -10_000_000_000_000_000_000 <= p.x as int <= 10_000_000_000_000_000_000,
                -10_000_000_000_000_000_000 <= p.y as int <= 10_000_000_000_000_000_000,
                -10_000_000_000_000_000_000 <= p.z as int <= 10_000_000_000_000_000_000,
        ;
    }
    let xx: u128 = ((p.x as i128) * (p.x as i128)) as u128;
    let yy: u128 = ((p.y as i128) * (p.y as i128)) as u128;
    let zz: u128 = ((p.z as i128) * (p.z as i128)) as u128;
    let ss: u128 = xx + yy + zz;
    isqrt_u128(ss)
}

/// Executable storm-center distance.
fn spot_distance(p: Vec3) -> (d: u64)
    ensures
        d as int == spec_spot_distance(p),
{
    let dx: i128 = (p.x as i128) - 300;
    let dy: i128 = (p.y as i128) - 200;
    proof {
        assert(0 <= dx as int * (dx as int)
            <= 100_000_000_000_000_000_000_000_000_000_000_000_000 && 0 <= dy as int * (dy as int)
            <= 100_000_000_000_000_000_000_000_000_000_000_000_000) by (nonlinear_arith)
            requires
                -10_000_000_000_000_000_000 <= dx as int <= 10_000_000_000_000_000_000,
                -10_000_000_000_000_000_000 <= dy as int <= 10_000_000_000_000_000_000,
        ;
    }
    let xx: u128 = (dx * dx) as u128;
    let yy: u128 = (dy * dy) as u128;
    isqrt_u128(xx + yy)
}

/// The sun's color: a radial three-stop gradient (core toward mid within the
/// half radius, mid toward edge beyond it), an animated plasma overlay at up
/// to 30% strength, and, where the spot sample passes its 0.5 threshold, a
/// dark sunspot at up to 40% with a corona glow of strength `(1 - d)^3` at up
/// to 30%. No lighting factor: the sun is self-illuminating.
pub open spec fn spec_sun_color(p: Vec3, plasma: int, spot: int) -> Color {
    let d = spec_radial(p);
    let core = Color::spec_from_hex(0xFFFF00);
    let mid = Color::spec_from_hex(0xFF6600);
    let edge = Color::spec_from_hex(0xFF0000);
    let base = if d < 500 {
        spec_lerp(core, mid, 2 * d)
    } else {
        spec_lerp(mid, edge, 2 * (d - 500))
    };
    let pi = (clamp_noise(plasma) + 1000) / 2;
    let with_plasma = spec_lerp(base, Color::spec_from_hex(0xFFAA00), pi * 300 / 1000);
    let sc = clamp_noise(spot);
    if sc > 500 {
        let sf = (sc - 500) * 2;
        let with_spots = spec_lerp(with_plasma, Color::spec_from_hex(0x994400), sf * 400 / 1000);
        let glow = tdiv(tdiv((1000 - d) * (1000 - d) * (1000 - d), 1_000_000) * 300, 1000);
        spec_lerp(with_spots, Color::spec_from_hex(0xFFFFAA), glow)
    } else {
        with_plasma
    }
}

/// Executable sun shader.
pub fn sun_color(p: Vec3, samples: &SunSamples) -> (c: Color)
    ensures
        c == spec_sun_color(p, samples.plasma as int, samples.spot as int),
{
    let d = radial_distance(p);
    let core = Color::from_hex(0xFFFF00);
    let mid = Color::from_hex(0xFF6600);
    let edge = Color::from_hex(0xFF0000);
    let base = if d < 500 {
        lerp(&core, &mid, (2 * d) as i64)
    } else {
        let t: i64 = if d >= 1000 {
            1000
        } else {
            ((d - 500) * 2) as i64
        };
        proof {
            lemma_lerp_factor_clamp(mid, edge, 2 * (spec_radial(p) - 500), t as int);
        }
        lerp(&mid, &edge, t)
    };
    let pc = clamp_noise_exec(samples.plasma);
    let pi = half_up(pc);
    let with_plasma = blend(&base, &Color::from_hex(0xFFAA00), unit_mul(pi, 300));
    let sc = clamp_noise_exec(samples.spot);
    if sc > 500 {
        let sf = (sc - 500) * 2;
        let with_spots = blend(&with_plasma, &Color::from_hex(0x994400), unit_mul(sf, 400));
        let glow: i64 = if d >= 1000 {
            proof {
                let g = 1000 - spec_radial(p);
                assert(g * g * g <= 0) by (nonlinear_arith)
                    requires
                        g <= 0,
                ;
                lemma_lerp_factor_clamp(
                    with_spots,
                    Color::spec_from_hex(0xFFFFAA),
                    tdiv(tdiv(g * g * g, 1_000_000) * 300, 1000),
                    0,
                );
            }
            0
        } else {
            let g: u64 = 1000 - d;
            proof {
                assert(0 <= g as int * (g as int) <= 1_000_000 && 0 <= g as int * (g as int) * (
                g as int) <= 1_000_000_000) by (nonlinear_arith)
                    requires
                        0 < g as int <= 1000,
                ;
            }
            let cube: u64 = g * g * g;
            unit_mul((cube / 1_000_000) as i64, 300)
        };
        blend(&with_spots, &Color::from_hex(0xFFFFAA), glow)
    } else {
        with_plasma
    }
}

/// The rocky planet's color: the continent sample separates ocean (deepening
/// with its magnitude) from land (toward mountain past 0.5); on land the
/// detail sample blends desert or forest at up to 30%; past the polar
/// threshold `|y| > 0.7` snow blends in proportionally; a cloud sample past
/// 0.5 blends white at up to 60%; and the result is scaled by the light
/// intensity.
pub open spec fn spec_rocky_color(
    p: Vec3,
    continent: int,
    detail: int,
    cloud: int,
    intensity: int,
) -> Color {
    let c = clamp_noise(continent);
    let land = Color::spec_from_hex(0x3d8c40);
    let base0 = if c > 0 {
        if c > 500 {
            spec_lerp(land, Color::spec_from_hex(0x8b7355), (c - 500) * 2)
        } else {
            land
        }
    } else {
        spec_lerp(Color::spec_from_hex(0x1a4d7a), Color::spec_from_hex(0x0a2342), -c)
    };
    let dc = clamp_noise(detail);
    let base1 = if c > 0 {
        let dcol = if dc > 300 {
            Color::spec_from_hex(0xc2b280)
        } else {
            Color::spec_from_hex(0x228b22)
        };
        spec_lerp(base0, dcol, iabs(dc) * 300 / 1000)
    } else {
        base0
    };
    let ay = iabs(p.y as int);
    let base2 = if ay > 700 {
        spec_lerp(base1, Color::spec_from_hex(0xf0f0f0), tdiv((ay - 700) * 10, 3))
    } else {
        base1
    };
    let cc = clamp_noise(cloud);
    let base3 = if cc > 500 {
        spec_lerp(base2, Color::spec_from_hex(0xffffff), ((cc - 500) * 2) * 600 / 1000)
    } else {
        base2
    };
    spec_scale(base3, intensity)
}

/// Executable rocky-planet shader.
pub fn rocky_planet_color(p: Vec3, samples: &RockySamples, intensity: i64) -> (c: Color)
    ensures
        c == spec_rocky_color(
            p,
            samples.continent as int,
            samples.detail as int,
            samples.cloud as int,
            intensity as int,
        ),
{
    let cn = clamp_noise_exec(samples.continent);
    let land = Color::from_hex(0x3d8c40);
    let base0 = if cn > 0 {
        if cn > 500 {
            lerp(&land, &Color::from_hex(0x8b7355), (cn - 500) * 2)
        } else {
            land
        }
    } else {
        lerp(&Color::from_hex(0x1a4d7a), &Color::from_hex(0x0a2342), -cn)
    };
    let dc = clamp_noise_exec(samples.detail);
    let base1 = if cn > 0 {
        let dcol = if dc > 300 {
            Color::from_hex(0xc2b280)
        } else {
            Color::from_hex(0x228b22)
        };
        blend(&base0, &dcol, unit_mul(iabs_small(dc), 300))
    } else {
        base0
    };
    let ay: u64 = abs_u64(p.y);
    let base2 = if ay > 700 {
        let pf: i64 = if ay >= 1000 {
            proof {
                lemma_lerp_factor_clamp(
                    base1,
                    Color::spec_from_hex(0xf0f0f0),
                    tdiv((iabs(p.y as int) - 700) * 10, 3),
                    1000,
                );
            }
            1000
        } else {
            (((ay - 700) * 10) / 3) as i64
        };
        blend(&base1, &Color::from_hex(0xf0f0f0), pf)
    } else {
        base1
    };
    let cc = clamp_noise_exec(samples.cloud);
    let base3 = if cc > 500 {
        blend(&base2, &Color::from_hex(0xffffff), unit_mul((cc - 500) * 2, 600))
    } else {
        base2
    };
    base3.scale(intensity)
}

/// The gas giant's color: the 2D band sample is the banding phase, whose sine
/// maps to a band value quantized into four cyclic gradient segments; the
/// turbulence sample perturbs the phase before a second sine picks a
/// highlight or shadow tone past 0.6, blended by the turbulence magnitude at
/// up to 40%; within 0.3 of the fixed storm center (0.3, 0.2) a storm tone
/// blends at up to 70% by proximity and the slow spot sample, plus a fine
/// detail tone at up to 20%; the result is scaled by the light intensity.
pub open spec fn spec_gas_color(
    p: Vec3,
    band: int,
    turbulence: int,
    spot: int,
    detail: int,
    intensity: int,
) -> Color {
    let phase = clamp_noise(band);
    let bv = (spec_sin(phase) + 1000) / 2;
    let c1 = Color::spec_from_hex(0xd4a574);
    let c2 = Color::spec_from_hex(0xc17f4a);
    let c3 = Color::spec_from_hex(0x8b6239);
    let c4 = Color::spec_from_hex(0xe6c9a8);
    let base = if bv < 250 {
        spec_lerp(c1, c2, bv * 4)
    } else if bv < 500 {
        spec_lerp(c2, c3, (bv - 250) * 4)
    } else if bv < 750 {
        spec_lerp(c3, c4, (bv - 500) * 4)
    } else {
        spec_lerp(c4, c1, (bv - 750) * 4)
    };
    let tc = clamp_noise(turbulence);
    let tb = (spec_sin(phase + tdiv(tc * 300, 1000)) + 1000) / 2;
    let tcol = if tb > 600 {
        Color::spec_from_hex(0xa0785a)
    } else {
        Color::spec_from_hex(0xe8d4b8)
    };
    let with_turb = spec_lerp(base, tcol, iabs(tc) * 400 / 1000);
    let dsp = spec_spot_distance(p);
    if dsp < 300 {
        let proximity = 1000 - tdiv(dsp * 10, 3);
        let sv = (clamp_noise(spot) + 1000) / 2;
        let sf = proximity * sv / 1000;
        let with_spot = spec_lerp(with_turb, Color::spec_from_hex(0xc74440), sf * 700 / 1000);
        let with_detail = spec_lerp(
            with_spot,
            Color::spec_from_hex(0xf5e6d3),
            iabs(clamp_noise(detail)) * 200 / 1000,
        );
        spec_scale(with_detail, intensity)
    } else {
        spec_scale(with_turb, intensity)
    }
}

/// Executable gas-giant shader (also the ringed planet's).
pub fn gas_giant_color(p: Vec3, samples: &GasSamples, intensity: i64) -> (c: Color)
    ensures
        c == spec_gas_color(
            p,
            samples.band as int,
            samples.turbulence as int,
            samples.spot as int,
            samples.detail as int,
            intensity as int,
        ),
{
    let phase = clamp_noise_exec(samples.band);
    let bv = half_up(sin_milli(phase));
    let c1 = Color::from_hex(0xd4a574);
    let c2 = Color::from_hex(0xc17f4a);
    let c3 = Color::from_hex(0x8b6239);
    let c4 = Color::from_hex(0xe6c9a8);
    let base = if bv < 250 {
        lerp(&c1, &c2, bv * 4)
    } else if bv < 500 {
        lerp(&c2, &c3, (bv - 250) * 4)
    } else if bv < 750 {
        lerp(&c3, &c4, (bv - 500) * 4)
    } else {
        lerp(&c4, &c1, (bv - 750) * 4)
    };
    let tc = clamp_noise_exec(samples.turbulence);
    let toff = tdiv_exec(tc * 300, 1000);
    let tb = half_up(sin_milli(phase + toff));
    let tcol = if tb > 600 {
        Color::from_hex(0xa0785a)
    } else {
        Color::from_hex(0xe8d4b8)
    };
    let with_turb = blend(&base, &tcol, unit_mul(iabs_small(tc), 400));
    let dsp = spot_distance(p);
    if dsp < 300 {
        let proximity = 1000 - tdiv_exec((dsp as i64) * 10, 3);
        let sv = half_up(clamp_noise_exec(samples.spot));
        let sf = unit_mul(proximity, sv);
        let with_spot = blend(&with_turb, &Color::from_hex(0xc74440), unit_mul(sf, 700));
        let with_detail = blend(
            &with_spot,
            &Color::from_hex(0xf5e6d3),
            unit_mul(iabs_small(clamp_noise_exec(samples.detail)), 200),
        );
        with_detail.scale(intensity)
    } else {
        with_turb.scale(intensity)
    }
}

/// The moon's color: the terrain sample interpolates the base gray toward a
/// lighter or darker gray by its sign; a crater sample past 0.7 blends a
/// near-black tone at up to 80% of its depth; the detail sample blends fine
/// grain at up to 15% of its magnitude; and the light intensity applies with
/// exponent 0.8 (the fixed-point fifth root of the fourth power) for higher
/// contrast.
pub open spec fn spec_moon_color(terrain: int, crater: int, detail: int, intensity: int) -> Color {
    let t = clamp_noise(terrain);
    let base = Color::spec_from_hex(0x9b9b9b);
    let tcol = if t > 0 {
        spec_lerp(base, Color::spec_from_hex(0xc5c5c5), t)
    } else {
        spec_lerp(base, Color::spec_from_hex(0x6b6b6b), -t)
    };
    let c = clamp_noise(crater);
    let col1 = if c > 700 {
        spec_lerp(tcol, Color::spec_from_hex(0x4a4a4a), (tdiv((c - 700) * 10, 3)) * 800 / 1000)
    } else {
        tcol
    };
    let col2 = spec_lerp(
        col1,
        Color::spec_from_hex(0xb0b0b0),
        iabs(clamp_noise(detail)) * 150 / 1000,
    );
    let ci = clamp_unit(intensity);
    let li = root5_floor((ci * ci * ci * ci * 1000) as nat) as int;
    spec_scale(col2, li)
}

/// Executable moon shader.
pub fn moon_color(samples: &MoonSamples, intensity: i64) -> (c: Color)
    ensures
        c == spec_moon_color(
            samples.terrain as int,
            samples.crater as int,
            samples.detail as int,
            intensity as int,
        ),
{
    let t = clamp_noise_exec(samples.terrain);
    let base = Color::from_hex(0x9b9b9b);
    let tcol = if t > 0 {
        lerp(&base, &Color::from_hex(0xc5c5c5), t)
    } else {
        lerp(&base, &Color::from_hex(0x6b6b6b), -t)
    };
    let cr = clamp_noise_exec(samples.crater);
    let col1 = if cr > 700 {
        let depth = tdiv_exec((cr - 700) * 10, 3);
        blend(&tcol, &Color::from_hex(0x4a4a4a), unit_mul(depth, 800))
    } else {
        tcol
    };
    let col2 = blend(
        &col1,
        &Color::from_hex(0xb0b0b0),
        unit_mul(iabs_small(clamp_noise_exec(samples.detail)), 150),
    );
    let li = pow45(clamp_unit_exec(intensity));
    col2.scale(li)
}

/// What color one fragment takes, given the samples in the shape its
/// archetype expects.
pub open spec fn spec_fragment_shader(f: Fragment, s: FragmentSamples) -> Color {
    match s {
        FragmentSamples::Sun(x) => spec_sun_color(f.vertex_position, x.plasma as int, x.spot as int),
        FragmentSamples::Rocky(x) => spec_rocky_color(
            f.vertex_position,
            x.continent as int,
            x.detail as int,
            x.cloud as int,
            f.intensity as int,
        ),
        FragmentSamples::Gas(x) => spec_gas_color(
            f.vertex_position,
            x.band as int,
            x.turbulence as int,
            x.spot as int,
            x.detail as int,
            f.intensity as int,
        ),
        FragmentSamples::Moon(x) => spec_moon_color(
            x.terrain as int,
            x.crater as int,
            x.detail as int,
            f.intensity as int,
        ),
    }
}

/// The fragment-shader dispatcher: exhaustive over the archetype set, with
/// the ringed planet routed to the gas-giant algorithm. The samples must be
/// in the shape the archetype expects.
pub fn fragment_shader(
    fragment: &Fragment,
    shader_type: &ShaderType,
    samples: &FragmentSamples,
) -> (c: Color)
    requires
        samples_match(*shader_type, *samples),
    ensures
        c == spec_fragment_shader(*fragment, *samples),
{
    match samples {
        FragmentSamples::Sun(s) => sun_color(fragment.vertex_position, s),
        FragmentSamples::Rocky(s) => rocky_planet_color(
            fragment.vertex_position,
            s,
            fragment.intensity,
        ),
        FragmentSamples::Gas(s) => gas_giant_color(fragment.vertex_position, s, fragment.intensity),
        FragmentSamples::Moon(s) => moon_color(s, fragment.intensity),
    }
}

/// One noise coordinate scaled by a zoom factor, saturated.
pub open spec fn scale_coord(x: int, k: int) -> int {
    sat64(x * k)
}

/// One animation-time term: the time scaled by a milli speed factor,
/// truncated and saturated.
pub open spec fn time_term(t: int, k: int) -> int {
    sat64(tdiv_gen(t * k, 1000))
}

/// A saturated coordinate sum.
pub open spec fn coord_sum(a: int, b: int) -> int {
    sat64(a + b)
}

/// Executable time term.
fn time_scale(t: i64, k: i64) -> (r: i64)
    requires
        -1000 <= k <= 1000,
    ensures
        r as int == time_term(t as int, k as int),
{
    proof {
        assert(-10_000_000_000_000_000_000_000 <= (t as int) * (k as int)
            <= 10_000_000_000_000_000_000_000) by (nonlinear_arith)
            requires
                -1000 <= k as int <= 1000,
                -10_000_000_000_000_000_000 <= t as int <= 10_000_000_000_000_000_000,
        ;
    }
    fxdiv_i128((t as i128) * (k as i128), 1000)
}

/// Where the sun shader samples: the plasma layer at zoom 8, scrolled by the
/// time at speeds 0.3 and 0.15 on x and z, and the sunspot layer at zoom 3,
/// scrolled at 0.1 on y.
pub open spec fn spec_sun_queries(p: Vec3, t: int) -> SunQueries {
    SunQueries {
        plasma: NoiseQuery3 {
            x: coord_sum(scale_coord(p.x as int, 8), time_term(t, 300)) as i64,
            y: scale_coord(p.y as int, 8) as i64,
            z: coord_sum(scale_coord(p.z as int, 8), time_term(t, 150)) as i64,
        },
        spot: NoiseQuery3 {
            x: scale_coord(p.x as int, 3) as i64,
            y: coord_sum(scale_coord(p.y as int, 3), time_term(t, 100)) as i64,
            z: scale_coord(p.z as int, 3) as i64,
        },
    }
}

/// Where the rocky-planet shader samples: continents at zoom 4, terrain
/// detail at zoom 10 offset by 100 on x to decorrelate, and the animated
/// cloud layer (fractal field) at zoom 6, scrolled at 0.2 on x.
pub open spec fn spec_rocky_queries(p: Vec3, t: int) -> RockyQueries {
    RockyQueries {
        continent: NoiseQuery3 {
            x: scale_coord(p.x as int, 4) as i64,
            y: scale_coord(p.y as int, 4) as i64,
            z: scale_coord(p.z as int, 4) as i64,
        },
        detail: NoiseQuery3 {
            x: coord_sum(scale_coord(p.x as int, 10), 100_000) as i64,
            y: scale_coord(p.y as int, 10) as i64,
            z: scale_coord(p.z as int, 10) as i64,
        },
        cloud: NoiseQuery3 {
            x: coord_sum(scale_coord(p.x as int, 6), time_term(t, 200)) as i64,
            y: scale_coord(p.y as int, 6) as i64,
            z: scale_coord(p.z as int, 6) as i64,
        },
    }
}

/// Where the gas-giant shader samples: the 2D banding phase at `y` times the
/// band frequency 15 and the time at speed 0.1, turbulence at zoom 8 (half on
/// y), the storm at zoom 5 slowly scrolled, and fine detail at zoom 20
/// scrolled backward in time.
pub open spec fn spec_gas_queries(p: Vec3, t: int) -> GasQueries {
    GasQueries {
        band: NoiseQuery2 {
            x: scale_coord(p.y as int, 15) as i64,
            y: time_term(t, 100) as i64,
        },
        turbulence: NoiseQuery3 {
            x: coord_sum(scale_coord(p.x as int, 8), time_term(t, 300)) as i64,
            y: scale_coord(p.y as int, 4) as i64,
            z: scale_coord(p.z as int, 8) as i64,
        },
        spot: NoiseQuery3 {
            x: coord_sum(scale_coord(p.x as int, 5), time_term(t, 50)) as i64,
            y: scale_coord(p.y as int, 5) as i64,
            z: scale_coord(p.z as int, 5) as i64,
        },
        detail: NoiseQuery3 {
            x: coord_sum(scale_coord(p.x as int, 20), time_term(t, -200)) as i64,
            y: scale_coord(p.y as int, 20) as i64,
            z: scale_coord(p.z as int, 20) as i64,
        },
    }
}

/// Where the moon shader samples: terrain at zoom 8, craters at zoom 10
/// offset by 500 on x to decorrelate, and fine grain at zoom 25.
pub open spec fn spec_moon_queries(p: Vec3) -> MoonQueries {
    MoonQueries {
        terrain: NoiseQuery3 {
            x: scale_coord(p.x as int, 8) as i64,
            y: scale_coord(p.y as int, 8) as i64,
            z: scale_coord(p.z as int, 8) as i64,
        },
        crater: NoiseQuery3 {
            x: coord_sum(scale_coord(p.x as int, 10), 500_000) as i64,
            y: scale_coord(p.y as int, 10) as i64,
            z: scale_coord(p.z as int, 10) as i64,
        },
        detail: NoiseQuery3 {
            x: scale_coord(p.x as int, 25) as i64,
            y: scale_coord(p.y as int, 25) as i64,
            z: scale_coord(p.z as int, 25) as i64,
        },
    }
}

/// The noise queries one fragment needs under the given uniforms time, routed
/// by archetype (a ringed planet queries as a gas giant).
pub open spec fn spec_fragment_queries(p: Vec3, t: int, st: ShaderType) -> FragmentQueries {
    match st {
        ShaderType::Sun => FragmentQueries::Sun(spec_sun_queries(p, t)),
        ShaderType::RockyPlanet => FragmentQueries::Rocky(spec_rocky_queries(p, t)),
        ShaderType::GasGiant => FragmentQueries::Gas(spec_gas_queries(p, t)),
        ShaderType::Moon => FragmentQueries::Moon(spec_moon_queries(p)),
        ShaderType::RingedPlanet => FragmentQueries::Gas(spec_gas_queries(p, t)),
    }
}

/// Compute where the noise fields must be sampled for one fragment. The
/// sampling adapter evaluates these queries against the shared fields (the
/// cloud query against the fractal cloud field, everything else against the
/// base field) and hands the samples to `fragment_shader`.
pub fn fragment_noise_queries(
    fragment: &Fragment,
    uniforms: &Uniforms,
    shader_type: &ShaderType,
) -> (q: FragmentQueries)
    ensures
        q == spec_fragment_queries(fragment.vertex_position, uniforms.time as int, *shader_type),
{
    let p = fragment.vertex_position;
    let t = uniforms.time;
    match shader_type {
        ShaderType::Sun => FragmentQueries::Sun(
            SunQueries {
                plasma: NoiseQuery3 {
                    x: sadd(smul(p.x, 8), time_scale(t, 300)),
                    y: smul(p.y, 8),
                    z: sadd(smul(p.z, 8), time_scale(t, 150)),
                },
                spot: NoiseQuery3 {
                    x: smul(p.x, 3),
                    y: sadd(smul(p.y, 3), time_scale(t, 100)),
                    z: smul(p.z, 3),
                },
            },
        ),
        ShaderType::RockyPlanet => FragmentQueries::Rocky(
            RockyQueries {
                continent: NoiseQuery3 { x: smul(p.x, 4), y: smul(p.y, 4), z: smul(p.z, 4) },
                detail: NoiseQuery3 {
                    x: sadd(smul(p.x, 10), 100_000),
                    y: smul(p.y, 10),
                    z: smul(p.z, 10),
                },
                cloud: NoiseQuery3 {
                    x: sadd(smul(p.x, 6), time_scale(t, 200)),
                    y: smul(p.y, 6),
                    z: smul(p.z, 6),
                },
            },
        ),
        ShaderType::GasGiant => FragmentQueries::Gas(gas_queries(p, t)),
        ShaderType::Moon => FragmentQueries::Moon(
            MoonQueries {
                terrain: NoiseQuery3 { x: smul(p.x, 8), y: smul(p.y, 8), z: smul(p.z, 8) },
                crater: NoiseQuery3 {
                    x: sadd(smul(p.x, 10), 500_000),
                    y: smul(p.y, 10),
                    z: smul(p.z, 10),
                },
                detail: NoiseQuery3 { x: smul(p.x, 25), y: smul(p.y, 25), z: smul(p.z, 25) },
            },
        ),
        ShaderType::RingedPlanet => FragmentQueries::Gas(gas_queries(p, t)),
    }
}

/// The gas-giant queries, shared by the gas giant and the ringed planet.
fn gas_queries(p: Vec3, t: i64) -> (q: GasQueries)
    ensures
        q == spec_gas_queries(p, t as int),
{
    GasQueries {
        band: NoiseQuery2 { x: smul(p.y, 15), y: time_scale(t, 100) },
        turbulence: NoiseQuery3 {
            x: sadd(smul(p.x, 8), time_scale(t, 300)),
            y: smul(p.y, 4),
            z: smul(p.z, 8),
        },
        spot: NoiseQuery3 {
            x: sadd(smul(p.x, 5), time_scale(t, 50)),
            y: smul(p.y, 5),
            z: smul(p.z, 5),
        },
        detail: NoiseQuery3 {
            x: sadd(smul(p.x, 20), time_scale(t, -200)),
            y: smul(p.y, 20),
            z: smul(p.z, 20),
        },
    }
}

/// Every color any archetype shader produces has all channels within
/// [0, 255], for arbitrary positions, samples (including saturated ones) and
/// intensities: channels are eight bits wide by construction, and its packed
/// form fits in 24 bits.
pub proof fn lemma_shader_color_in_range(f: Fragment, s: FragmentSamples)
    ensures
        0 <= spec_fragment_shader(f, s).r <= 255,
        0 <= spec_fragment_shader(f, s).g <= 255,
        0 <= spec_fragment_shader(f, s).b <= 255,
        0 <= spec_fragment_shader(f, s).spec_to_hex() <= 0xFFFFFF,
{
}

/// Every archetype shader is deterministic: two evaluations on identical
/// position, samples and intensity give bit-identical colors.
pub proof fn lemma_fragment_shader_deterministic(
    f: Fragment,
    s: FragmentSamples,
    c1: Color,
    c2: Color,
)
    requires
        c1 == spec_fragment_shader(f, s),
        c2 == spec_fragment_shader(f, s),
    ensures
        c1 == c2,
{
}

} // verus!
