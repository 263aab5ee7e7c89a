//! Verified core of a small real-time 3D rendering demo.
//!
//! The library holds the logic of the demo — the camera and its controller,
//! the instance grid, the vertex and instance buffer layouts, the surface
//! resize policy and the per-frame decision loop — with contracts proved by
//! Verus. Floating-point values are carried as IEEE-754 bit patterns; the
//! arithmetic on them is done by `glam` behind trusted wrappers. The GPU and
//! the window are driven by an unverified shell that asks this library for
//! every decision and performs the resulting actions.

pub mod fbits;
pub mod linalg;
pub mod camera;
pub mod mesh;
pub mod instance;
pub mod state;
pub mod loader;
