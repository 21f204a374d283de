//! Fixed-step driving of a physics simulation and the bookkeeping that keeps
//! scene entities and simulation bodies in step with each other.
//!
//! A frame has three stages. First the changes that the scene recorded are
//! turned into what the simulation has to remove, create and update
//! ([`systems::sync_bodies_to_physics`]). Then the time that the frame took
//! is turned into a number of simulation steps of a fixed size, which may
//! grow while the simulation cannot keep up
//! ([`systems::physics_stepper`], [`time_step`]). Last, the state of the
//! bodies that moved goes back to the scene, and the contacts between
//! colliders reach the scene as contacts between entities
//! ([`systems::sync_bodies_from_physics`]).
//!
//! All times are whole nanoseconds. Measured quantities such as poses,
//! velocities and masses do not pass through this library: it decides what
//! is to be done with them, by entity, and leaves the doing to its caller.

pub mod bodies;
pub mod scene;
pub mod systems;
pub mod time_step;
