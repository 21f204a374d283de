//! The three stages of a frame: scene to simulation, stepping, simulation
//! to scene.

pub mod physics_stepper;
pub mod sync_bodies_from_physics;
pub mod sync_bodies_to_physics;
