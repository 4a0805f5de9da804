//! An offline, sampling-based renderer: stratified sampling, an orthographic
//! camera, ray/triangle and ray/sphere intersection, local (Phong-style)
//! shading under point lights, and film reconstruction through a separable
//! Mitchell filter.
//!
//! Every scalar in this crate is a fixed-point number: an `i64` counting units
//! of `1 / fixed::SCALE`. All arithmetic on those scalars is specified exactly,
//! down to the rounding of each multiplication and division, so the whole
//! pipeline is deterministic and its results are pinned by the contracts.

pub mod camera;
pub mod color;
pub mod crop;
pub mod error;
pub mod film;
pub mod filter;
pub mod fixed;
pub mod integrator;
pub mod interaction;
pub mod light;
pub mod matrix;
pub mod mesh;
pub mod ray;
pub mod sampler;
pub mod scene;
pub mod shape;
pub mod vector;
