//! Geometric core of a real-time rendering engine.
//!
//! The core turns raw mesh data and camera state into the flat vertex lists
//! and transform records a renderer consumes.  Everything here is exact:
//! vector and matrix algebra over 64-bit coordinates, mesh ingestion over
//! exact decimal scalars, and the scene object model with its builders.
//! Floating-point evaluation (trigonometry, projection and view matrices)
//! belongs to the unverified rendering shell around this crate.

pub mod errors;
pub mod mesh;
pub mod scalar;
pub mod scene;
pub mod vecmath;
