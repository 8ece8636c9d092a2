//! A top-down tank battle core: tank movement, rotation and turret aiming
//! over fixed-point coordinates, a single-slot bullet lifecycle, playfield
//! containment and rectangle-overlap checks, and a pixel-exact screenshot
//! comparison harness.
//!
//! All geometry is carried in signed 64-bit fixed-point scalars with a
//! decimal scale of one million, so that every state transition is exact
//! integer arithmetic with a proved contract.

pub mod fixed;
pub mod trig;
pub mod geometry;
pub mod input;
pub mod objects;
pub mod bullet;
pub mod state;
pub mod screenshot;
pub mod laws;
