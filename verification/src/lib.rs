//! Core of a small real-time rendering harness.
//!
//! The library owns the logic of three subsystems: mesh geometry and its GPU
//! buffer lifecycle, shader stage and program bookkeeping (stage-kind
//! detection, uniform parsing, uniform-location caching), and the decisions a
//! render loop takes when it compiles and links shaders.  Everything that
//! talks to the GPU driver itself (the raw API calls) lives outside: the
//! library plans those calls and records their results, so that the planning
//! and the bookkeeping are verified for every outcome the driver can produce.

pub mod error;
pub mod mesh;
pub mod shaders;
