//! The noise-field configurations the pipeline prescribes.
//!
//! The fields themselves are evaluated by the sampling adapter that owns the
//! draw call (gradient-noise evaluation is floating point); what the library
//! fixes, as plain data, is how the two shared fields must be configured: a
//! single-octave coherent base field for most surface layers, and a
//! four-octave fractal-sum cloud field for the animated atmospheric layer.
//! Both are constructed once per draw call and reused for every vertex and
//! fragment under the same uniforms.

use vstd::prelude::*;

verus! {

/// The kind of noise a field evaluates: one coherent gradient octave, or a
/// fractal sum of octaves.
#[derive(Clone, Copy, Debug, PartialEq, Eq, Structural)]
pub enum NoiseKind {
    Coherent,
    FractalSum,
}

/// A noise-field configuration: the kind, the octave count, and the per-octave
/// frequency multiplier (lacunarity) and amplitude multiplier (gain), both in
/// milli units.
#[derive(Clone, Copy, Debug, PartialEq, Eq, Structural)]
pub struct NoiseConfig {
    pub kind: NoiseKind,
    pub octaves: u32,
    pub lacunarity: i64,
    pub gain: i64,
}

/// The base field: one coherent gradient octave.
pub open spec fn spec_base_noise_config() -> NoiseConfig {
    NoiseConfig { kind: NoiseKind::Coherent, octaves: 1, lacunarity: 2000, gain: 500 }
}

/// The cloud field: a four-octave fractal sum, lacunarity 2.0, gain 0.5.
pub open spec fn spec_cloud_noise_config() -> NoiseConfig {
    NoiseConfig { kind: NoiseKind::FractalSum, octaves: 4, lacunarity: 2000, gain: 500 }
}

/// The configuration of the base noise field.
pub fn base_noise_config() -> (c: NoiseConfig)
    ensures
        c == spec_base_noise_config(),
{
    NoiseConfig { kind: NoiseKind::Coherent, octaves: 1, lacunarity: 2000, gain: 500 }
}

/// The configuration of the fractal cloud noise field.
pub fn cloud_noise_config() -> (c: NoiseConfig)
    ensures
        c == spec_cloud_noise_config(),
{
    NoiseConfig { kind: NoiseKind::FractalSum, octaves: 4, lacunarity: 2000, gain: 500 }
}

} // verus!
