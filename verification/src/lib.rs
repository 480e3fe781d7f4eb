//! Procedural shading pipeline for a solar-system visualizer, in fixed-point
//! arithmetic: a vertex transform stage, a fragment-shader dispatcher, and
//! five archetype shading algorithms built on shared color-compositing and
//! noise-sampling primitives.
//!
//! All scalars are fixed-point integers in "milli" units: the value 1000
//! stands for 1.0. Noise samples, blend factors and light intensities live in
//! [-1000, 1000] or [0, 1000]; positions, times and matrix entries are milli
//! values as well.

pub mod fixp;

pub mod geom;

pub mod vertex;

pub mod color;

pub mod noise;

pub mod shaders;
