//! A verified model of a physically-based-rendering setup pipeline:
//! image-based-lighting precomputation plans, a fixed-capacity light
//! registry, shader uniform state, material assembly, and per-frame
//! parameter animation.
//!
//! The model works on plain integer data. Scalar parameters in `[0, 1]`
//! are carried in thousandths, so every rule the pipeline follows is
//! exact and checkable. An application layer executes the plans this
//! library produces against a real graphics runtime.

pub mod baker;
pub mod frame;
pub mod lights;
pub mod material;
pub mod resources;
pub mod runner;
pub mod scalar;
pub mod texture;
pub mod uniforms;

pub use scalar::UnitScalar;
