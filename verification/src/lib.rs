//! Orbit-camera logic for a small 3D viewer.
//!
//! The library keeps the state of a camera that orbits a fixed origin
//! (yaw, pitch, distance), folds pointer-drag and scroll-wheel input into
//! that state once per frame, tracks the cursor-capture mode that the
//! controller itself toggles, advances a constantly spinning mesh, and
//! builds the integer data of a triangle-fan polygon mesh (indices and
//! per-vertex colors).
//!
//! All quantities are exact fixed-point integers: angles in microradians,
//! distances in millionths of a world unit. Rendering, windowing and the
//! trigonometry that turns the orbit state into a world position are left
//! to the host program.

pub mod color;
pub mod controller;
pub mod mesh;
pub mod spin;
