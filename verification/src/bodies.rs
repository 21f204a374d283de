//! What the scene knows of the bodies that the simulation owns.

use nphysics3d::object::BodyStatus;
use nphysics3d::object::DefaultBodyHandle;
use vstd::prelude::*;

verus! {

/// The simulation's handle of a body or of a collider: a slot number and a
/// generation. Nothing in here looks inside one.
#[verifier::external_type_specification]
#[verifier::external_body]
pub struct ExHandle(DefaultBodyHandle);

/// The simulation's kinds of body: disabled, static, dynamic, kinematic.
/// A status is passed on as it is.
#[verifier::external_type_specification]
#[verifier::external_body]
pub struct ExBodyStatus(BodyStatus);

/// The link between an entity's rigid body component and its body in the
/// simulation.
#[derive(Clone, Copy, Debug, PartialEq, Eq)]
pub struct RigidPhysicsBody {
    /// The body in the simulation, once there is one. The simulation owns
    /// the body; this only refers to it.
    pub handle: Option<DefaultBodyHandle>,
    /// Whether the body is to be simulated as dynamic, static, kinematic or
    /// not at all.
    pub body_status: BodyStatus,
}

/// The link between an entity's multibody component and the simulation.
#[derive(Clone, Copy, Debug, PartialEq, Eq)]
pub struct PhysicsMultibody {
    /// The body in the simulation, once there is one.
    pub handle: Option<DefaultBodyHandle>,
}

/// A simulated body of either kind.
#[derive(Clone, Copy, Debug, PartialEq, Eq)]
pub enum DynamicBody {
    /// One rigid body.
    RigidBody(RigidPhysicsBody),
    /// Several bodies joined together. Synchronisation skips these.
    Multibody(PhysicsMultibody),
}

impl DynamicBody {
    /// The handle of the body in the simulation, if it has one.
    pub open spec fn spec_handle(&self) -> Option<DefaultBodyHandle> {
        match self {
            DynamicBody::RigidBody(rigid_body) => rigid_body.handle,
            DynamicBody::Multibody(multibody) => multibody.handle,
        }
    }

    /// The handle of the body in the simulation, if it has one.
    #[verifier::when_used_as_spec(spec_handle)]
    pub fn handle(&self) -> (handle: Option<DefaultBodyHandle>)
        ensures
            handle == self.spec_handle(),
    {
        match self {
            DynamicBody::RigidBody(rigid_body) => rigid_body.handle,
            DynamicBody::Multibody(multibody) => multibody.handle,
        }
    }
}

} // verus!
