//! Core logic of a first-person interactive scene: a camera/character
//! controller with clamped pitch, an asynchronous mesh-to-collider
//! pipeline driven by polling, declarative scene composition from asset
//! paths, and a raycast-based interaction resolver.
//!
//! Angles and positions are fixed-point integers: angles in thousandths
//! of a degree, positions and distances in integer world units.

pub mod camera;
pub mod collider_generator;
pub mod gtlf_helper;
pub mod interaction;
pub mod math;
pub mod player;
pub mod world;
