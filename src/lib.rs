//! Adaptive bloom post-processing: the resource layout, frame schedule and
//! parameter state of a four-pass GPU bloom pipeline (scene, brightness
//! extraction, separable blur, composite), with their contracts.
//!
//! The GPU itself is driven by the caller from these descriptions: it creates
//! each described object once, records each pass of a frame plan, and applies
//! each uniform write that a setter returns.

pub mod layout;
pub mod nnpipe;
pub mod resources;
pub mod uniforms;
