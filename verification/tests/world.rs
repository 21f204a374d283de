use ecs_physics::bodies::DynamicBody;
use ecs_physics::bodies::RigidPhysicsBody;
use ecs_physics::systems::physics_stepper::PhysicsStepperSystem;
use ecs_physics::systems::sync_bodies_from_physics::BodyActivity;
use ecs_physics::systems::sync_bodies_from_physics::ReadBack;
use ecs_physics::systems::sync_bodies_from_physics::SimulatedBody;
use ecs_physics::systems::sync_bodies_from_physics::SyncBodiesFromPhysicsSystem;
use ecs_physics::systems::sync_bodies_to_physics::SceneBody;
use ecs_physics::systems::sync_bodies_to_physics::SyncAction;
use ecs_physics::systems::sync_bodies_to_physics::SyncBodiesToPhysicsSystem;
use ecs_physics::time_step::Ratio;
use ecs_physics::time_step::TimeStep;
use nalgebra::Isometry3;
use nalgebra::Matrix3;
use nalgebra::Point3;
use nalgebra::Vector3;
use nphysics3d::algebra::Force3;
use nphysics3d::algebra::ForceType;
use nphysics3d::algebra::Inertia3;
use nphysics3d::algebra::Velocity3;
use nphysics3d::object::Body;
use nphysics3d::object::BodyPart;
use nphysics3d::object::BodyStatus;
use nphysics3d::object::DefaultBodySet;
use nphysics3d::object::RigidBodyDesc;
use specs::storage::ComponentEvent;

/// An entity of a small scene: a transform and a rigid body component.
struct SceneEntity {
    id: u32,
    pose: Isometry3<f32>,
    mass: f32,
    angular_mass: Matrix3<f32>,
    center_of_mass: Point3<f32>,
    velocity: Velocity3<f32>,
    external_forces: Force3<f32>,
    link: RigidPhysicsBody,
}

impl SceneEntity {
    fn new(id: u32, pose: Isometry3<f32>) -> Self {
        SceneEntity {
            id,
            pose,
            mass: 1.0,
            angular_mass: Matrix3::identity(),
            center_of_mass: Point3::origin(),
            velocity: Velocity3::zero(),
            external_forces: Force3::zero(),
            link: RigidPhysicsBody {
                handle: None,
                body_status: BodyStatus::Dynamic,
            },
        }
    }

    fn row(&self, bodies: &DefaultBodySet<f32>) -> SceneBody {
        SceneBody {
            id: self.id,
            present: true,
            has_transform: true,
            pose_valid: true,
            body: DynamicBody::RigidBody(self.link),
            in_world: self
                .link
                .handle
                .map_or(false, |handle| bodies.rigid_body(handle).is_some()),
        }
    }

    fn simulated(&self, bodies: &DefaultBodySet<f32>) -> SimulatedBody {
        SimulatedBody {
            id: self.id,
            body: DynamicBody::RigidBody(self.link),
            found: self
                .link
                .handle
                .and_then(|handle| bodies.rigid_body(handle))
                .map(|body| BodyActivity {
                    active: body.is_active(),
                    is_static: body.is_static(),
                }),
            has_local_transform: false,
        }
    }
}

fn perform(actions: &[SyncAction], scene: &mut [SceneEntity], bodies: &mut DefaultBodySet<f32>) {
    for action in actions {
        match *action {
            SyncAction::RemoveBody { handle, .. } => {
                bodies.remove(handle);
            }
            SyncAction::CreateBody { id } => {
                let entity = scene.iter_mut().find(|e| e.id == id).unwrap();
                let body = RigidBodyDesc::new()
                    .position(entity.pose)
                    .local_inertia(Inertia3::new(entity.mass, entity.angular_mass))
                    .local_center_of_mass(entity.center_of_mass)
                    .build();
                entity.link.handle = Some(bodies.insert(body));
            }
            SyncAction::SetPosition { id } => {
                let entity = scene.iter().find(|e| e.id == id).unwrap();
                let body = bodies.rigid_body_mut(entity.link.handle.unwrap()).unwrap();
                body.set_position(entity.pose);
            }
            SyncAction::SetVelocity { id } => {
                let entity = scene.iter().find(|e| e.id == id).unwrap();
                let body = bodies.rigid_body_mut(entity.link.handle.unwrap()).unwrap();
                body.set_velocity(entity.velocity);
            }
            SyncAction::ApplyForce { id } => {
                let entity = scene.iter().find(|e| e.id == id).unwrap();
                let body = bodies.rigid_body_mut(entity.link.handle.unwrap()).unwrap();
                body.apply_force(0, &entity.external_forces, ForceType::Force, true);
            }
            SyncAction::ResetForce { id } => {
                let entity = scene.iter_mut().find(|e| e.id == id).unwrap();
                entity.external_forces = Force3::zero();
            }
            SyncAction::SetStatus { id, status } => {
                let entity = scene.iter().find(|e| e.id == id).unwrap();
                let body = bodies.rigid_body_mut(entity.link.handle.unwrap()).unwrap();
                body.set_status(status);
            }
            SyncAction::Report(_) => {}
        }
    }
}

fn read_back(updates: &[ReadBack], scene: &mut [SceneEntity], bodies: &DefaultBodySet<f32>) {
    for update in updates {
        if let ReadBack::CopyState { id, handle, .. } = *update {
            let entity = scene.iter_mut().find(|e| e.id == id).unwrap();
            let body = bodies.rigid_body(handle).unwrap();
            entity.pose = *body.position();
            entity.velocity = *body.velocity();
            let inertia = body.local_inertia();
            entity.mass = inertia.linear;
            entity.angular_mass = inertia.angular;
            entity.center_of_mass = body.center_of_mass();
        }
    }
}

#[test]
fn inserted_entity_reaches_the_simulation() {
    let mut bodies: DefaultBodySet<f32> = DefaultBodySet::new();
    let mut entity = SceneEntity::new(7, Isometry3::translation(1.0, 2.0, 3.0));
    entity.mass = 2.0;
    entity.angular_mass = Matrix3::identity();
    entity.velocity = Velocity3::linear(1.0, 0.0, 0.0);
    entity.external_forces = Force3::linear(Vector3::new(0.0, 5.0, 0.0));
    let mut scene = vec![entity];

    let rows = vec![scene[0].row(&bodies)];
    let actions = SyncBodiesToPhysicsSystem::plan(
        &vec![ComponentEvent::Inserted(7)],
        &vec![ComponentEvent::Inserted(7)],
        &rows,
    );
    perform(&actions, &mut scene, &mut bodies);

    let handle = scene[0].link.handle.expect("the component got its handle");
    let body = bodies.rigid_body(handle).expect("the simulation got its body");
    let inertia = body.local_inertia();
    assert_eq!(inertia.linear, 2.0);
    assert_eq!(inertia.angular, Matrix3::identity());
    assert_eq!(body.velocity().linear, Vector3::new(1.0, 0.0, 0.0));
    assert_eq!(body.velocity().angular, Vector3::zeros());
    assert_eq!(body.status(), BodyStatus::Dynamic);
    assert_eq!(scene[0].external_forces.linear, Vector3::zeros());
    assert_eq!(scene[0].external_forces.angular, Vector3::zeros());
    assert_eq!(bodies.iter().count(), 1);
}

#[test]
fn pose_survives_a_round_trip_without_steps() {
    let mut bodies: DefaultBodySet<f32> = DefaultBodySet::new();
    let pose = Isometry3::new(Vector3::new(0.5, -4.0, 9.25), Vector3::new(0.1, 0.2, 0.3));
    let mut scene = vec![SceneEntity::new(3, pose)];

    let rows = vec![scene[0].row(&bodies)];
    let actions =
        SyncBodiesToPhysicsSystem::plan(&vec![ComponentEvent::Inserted(3)], &Vec::new(), &rows);
    perform(&actions, &mut scene, &mut bodies);

    // A frame too short for a step.
    let mut stepper = PhysicsStepperSystem::new(TimeStep::Fixed(1_000_000), 10);
    let plan = stepper.run(1_000_000, Ratio::one(), 999_999, 0);
    assert_eq!(plan.steps, 0);

    scene[0].pose = Isometry3::identity();
    let simulated = vec![scene[0].simulated(&bodies)];
    let updates = SyncBodiesFromPhysicsSystem::plan(&simulated);
    assert_eq!(updates.len(), 1);
    read_back(&updates, &mut scene, &bodies);
    assert_eq!(scene[0].pose, pose);
}

#[test]
fn removing_a_body_twice_does_no_harm() {
    let mut bodies: DefaultBodySet<f32> = DefaultBodySet::new();
    let mut scene = vec![SceneEntity::new(1, Isometry3::identity())];
    let rows = vec![scene[0].row(&bodies)];
    let actions = SyncBodiesToPhysicsSystem::plan(&vec![ComponentEvent::Inserted(1)], &Vec::new(), &rows);
    perform(&actions, &mut scene, &mut bodies);
    assert_eq!(bodies.iter().count(), 1);

    let rows = vec![scene[0].row(&bodies)];
    let removal = vec![ComponentEvent::Removed(1)];
    let actions = SyncBodiesToPhysicsSystem::plan(&removal, &removal, &rows);
    assert_eq!(actions.len(), 2);
    perform(&actions, &mut scene, &mut bodies);
    assert_eq!(bodies.iter().count(), 0);

    // The handle is stale now; another removal is carried out all the same.
    let rows = vec![scene[0].row(&bodies)];
    assert!(!rows[0].in_world);
    let actions = SyncBodiesToPhysicsSystem::plan(&removal, &Vec::new(), &rows);
    assert_eq!(actions.len(), 1);
    perform(&actions, &mut scene, &mut bodies);
    assert_eq!(bodies.iter().count(), 0);
}

#[test]
fn reinserted_entity_replaces_its_body() {
    let mut bodies: DefaultBodySet<f32> = DefaultBodySet::new();
    let mut scene = vec![SceneEntity::new(1, Isometry3::identity())];
    let inserted = vec![ComponentEvent::Inserted(1)];
    let rows = vec![scene[0].row(&bodies)];
    perform(&SyncBodiesToPhysicsSystem::plan(&inserted, &Vec::new(), &rows), &mut scene, &mut bodies);
    let first = scene[0].link.handle.unwrap();

    let rows = vec![scene[0].row(&bodies)];
    assert!(rows[0].in_world);
    perform(&SyncBodiesToPhysicsSystem::plan(&inserted, &Vec::new(), &rows), &mut scene, &mut bodies);
    let second = scene[0].link.handle.unwrap();
    assert_ne!(first, second);
    assert!(bodies.rigid_body(first).is_none());
    assert!(bodies.rigid_body(second).is_some());
    assert_eq!(bodies.iter().count(), 1);
}

#[test]
fn modified_entity_moves_its_body_but_keeps_its_mass() {
    let mut bodies: DefaultBodySet<f32> = DefaultBodySet::new();
    let mut scene = vec![SceneEntity::new(1, Isometry3::identity())];
    let rows = vec![scene[0].row(&bodies)];
    perform(
        &SyncBodiesToPhysicsSystem::plan(&vec![ComponentEvent::Inserted(1)], &Vec::new(), &rows),
        &mut scene,
        &mut bodies,
    );

    scene[0].pose = Isometry3::translation(4.0, 5.0, 6.0);
    scene[0].velocity = Velocity3::linear(0.0, 0.0, 2.0);
    scene[0].mass = 50.0;
    scene[0].link.body_status = BodyStatus::Static;
    let rows = vec![scene[0].row(&bodies)];
    perform(
        &SyncBodiesToPhysicsSystem::plan(&vec![ComponentEvent::Modified(1)], &Vec::new(), &rows),
        &mut scene,
        &mut bodies,
    );
    let body = bodies.rigid_body(scene[0].link.handle.unwrap()).unwrap();
    assert_eq!(*body.position(), Isometry3::translation(4.0, 5.0, 6.0));
    assert_eq!(body.velocity().linear, Vector3::new(0.0, 0.0, 2.0));
    assert_eq!(body.status(), BodyStatus::Static);
    assert_eq!(body.local_inertia().linear, 1.0);

    // A static body is not read back.
    let simulated = vec![scene[0].simulated(&bodies)];
    assert!(SyncBodiesFromPhysicsSystem::plan(&simulated).is_empty());
}
