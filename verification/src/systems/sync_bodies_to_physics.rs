//! Scene to simulation: decides, from the changes that the scene recorded
//! since the last frame, which bodies the simulation has to remove, create
//! and update.
//!
//! The simulation itself is not touched here. The outcome is a list of
//! actions, in the order in which they are to be carried out, with the
//! reports of what was skipped among them.

use crate::bodies::DynamicBody;
use crate::scene::largest_slot;
use crate::scene::max_slot;
use crate::scene::read_changes;
use crate::scene::register_reader;
use crate::scene::slots_of;
use crate::scene::unread_changes;
use nphysics3d::object::BodyStatus;
use nphysics3d::object::DefaultBodyHandle;
use shrev::EventChannel;
use shrev::ReaderId;
use specs::storage::ComponentEvent;
use specs::BitSet;
use vstd::prelude::*;

verus! {

/// What the scene holds for one entity with a body component, or held for
/// it before the component was removed.
#[derive(Clone, Copy, Debug, PartialEq, Eq)]
pub struct SceneBody {
    /// The entity's slot.
    pub id: u32,
    /// Whether the entity has the body component now. If not, `body` is the
    /// component as it was last known, which is what a removal goes by.
    pub present: bool,
    /// Whether the entity has a transform.
    pub has_transform: bool,
    /// Whether that transform can be turned into a pose of the simulation.
    pub pose_valid: bool,
    /// The body component's link to the simulation.
    pub body: DynamicBody,
    /// Whether the component's handle stands for a rigid body that the
    /// simulation holds.
    pub in_world: bool,
}

/// Something that kept an entity from being synchronised. The entity is
/// skipped for this frame; the others are not affected.
#[derive(Clone, Copy, Debug, PartialEq, Eq, Structural)]
pub enum SyncError {
    /// A component was removed from an entity of which no body is known.
    MissingBody { id: u32 },
    /// A component was removed from an entity whose body has no handle.
    MissingHandle { id: u32 },
    /// The entity was modified, but the simulation holds no body for it.
    BodyNotInWorld { id: u32 },
    /// The entity's transform cannot be turned into a pose.
    InvalidPose { id: u32 },
    /// The entity has a multibody, which is not supported.
    MultibodyUnsupported { id: u32 },
}

/// One thing to do to the simulation, or to report.
#[derive(Clone, Copy, Debug, PartialEq, Eq)]
pub enum SyncAction {
    /// Remove the body with this handle from the simulation. Where the
    /// simulation holds no such body, nothing happens.
    RemoveBody { id: u32, handle: DefaultBodyHandle },
    /// Create a body from the entity's pose, mass, angular mass and center
    /// of mass, and keep its handle in the entity's body component.
    CreateBody { id: u32 },
    /// Move the entity's body to the entity's pose.
    SetPosition { id: u32 },
    /// Give the entity's body the velocity of the body component.
    SetVelocity { id: u32 },
    /// Apply the external force of the body component to the entity's body.
    ApplyForce { id: u32 },
    /// Set the external force of the body component to zero.
    ResetForce { id: u32 },
    /// Give the entity's body this status.
    SetStatus { id: u32, status: BodyStatus },
    /// Log that the entity was skipped, and why.
    Report(SyncError),
}

/// The slots for which `events` records an insertion.
pub open spec fn inserted_ids(events: Seq<ComponentEvent>) -> Set<u32> {
    Set::new(|id: u32| events.contains(ComponentEvent::Inserted(id)))
}

/// The slots for which `events` records a modification.
pub open spec fn modified_ids(events: Seq<ComponentEvent>) -> Set<u32> {
    Set::new(|id: u32| events.contains(ComponentEvent::Modified(id)))
}

/// The first of `bodies` that belongs to the entity in slot `id`.
pub open spec fn find_body(bodies: Seq<SceneBody>, id: u32) -> Option<SceneBody>
    decreases bodies.len(),
{
    if bodies.len() == 0 {
        None
    } else if bodies[0].id == id {
        Some(bodies[0])
    } else {
        find_body(bodies.subrange(1, bodies.len() as int), id)
    }
}

/// What one event asks to remove: the body of an entity that lost a
/// component, by the handle that the scene last knew for it. An entity of
/// which no body or no handle is known is reported. Other events remove
/// nothing.
pub open spec fn removal_action(event: ComponentEvent, bodies: Seq<SceneBody>) -> Seq<SyncAction> {
    match event {
        ComponentEvent::Removed(id) => match find_body(bodies, id) {
            Some(found) => match found.body.spec_handle() {
                Some(handle) => seq![SyncAction::RemoveBody { id, handle }],
                None => seq![SyncAction::Report(SyncError::MissingHandle { id })],
            },
            None => seq![SyncAction::Report(SyncError::MissingBody { id })],
        },
        _ => Seq::empty(),
    }
}

/// What all of `events` ask to remove, first event first.
pub open spec fn removal_actions(events: Seq<ComponentEvent>, bodies: Seq<SceneBody>) -> Seq<SyncAction>
    decreases events.len(),
{
    if events.len() == 0 {
        Seq::empty()
    } else {
        removal_actions(events.drop_last(), bodies) + removal_action(events.last(), bodies)
    }
}

/// What is to be done for an entity that was inserted: a body that its
/// handle still stands for goes first, then a new body is created, given
/// the velocity and the external force of the component, the force of the
/// component is set to zero, and the status is set.
pub open spec fn insert_actions(id: u32, body: DynamicBody, pose_valid: bool, in_world: bool) -> Seq<SyncAction> {
    match body {
        DynamicBody::RigidBody(rigid_body) => {
            if !pose_valid {
                seq![SyncAction::Report(SyncError::InvalidPose { id })]
            } else {
                let fresh = seq![
                    SyncAction::CreateBody { id },
                    SyncAction::SetVelocity { id },
                    SyncAction::ApplyForce { id },
                    SyncAction::ResetForce { id },
                    SyncAction::SetStatus { id, status: rigid_body.body_status },
                ];
                match rigid_body.handle {
                    Some(handle) if in_world => seq![SyncAction::RemoveBody { id, handle }] + fresh,
                    _ => fresh,
                }
            }
        },
        DynamicBody::Multibody(_) => seq![SyncAction::Report(SyncError::MultibodyUnsupported { id })],
    }
}

/// What is to be done for an entity that was modified: its body gets the
/// pose, the velocity, the external force and the status of the entity.
/// Mass and angular mass are not passed on.
pub open spec fn modify_actions(id: u32, body: DynamicBody, pose_valid: bool, in_world: bool) -> Seq<SyncAction> {
    match body {
        DynamicBody::RigidBody(rigid_body) => {
            if rigid_body.handle is None || !in_world {
                seq![SyncAction::Report(SyncError::BodyNotInWorld { id })]
            } else if !pose_valid {
                seq![SyncAction::Report(SyncError::InvalidPose { id })]
            } else {
                seq![
                    SyncAction::SetPosition { id },
                    SyncAction::SetVelocity { id },
                    SyncAction::ApplyForce { id },
                    SyncAction::SetStatus { id, status: rigid_body.body_status },
                ]
            }
        },
        DynamicBody::Multibody(_) => seq![SyncAction::Report(SyncError::MultibodyUnsupported { id })],
    }
}

/// What is to be done for one entity. Only an entity that has both a body
/// component and a transform takes part. One that was inserted is treated
/// as inserted even if it was modified as well.
pub open spec fn body_actions(row: SceneBody, inserted: Set<u32>, modified: Set<u32>) -> Seq<SyncAction> {
    if !row.present || !row.has_transform {
        Seq::empty()
    } else if inserted.contains(row.id) {
        insert_actions(row.id, row.body, row.pose_valid, row.in_world)
    } else if modified.contains(row.id) {
        modify_actions(row.id, row.body, row.pose_valid, row.in_world)
    } else {
        Seq::empty()
    }
}

/// What is to be done for all of `bodies`, first entity first.
pub open spec fn update_actions(bodies: Seq<SceneBody>, inserted: Set<u32>, modified: Set<u32>) -> Seq<SyncAction>
    decreases bodies.len(),
{
    if bodies.len() == 0 {
        Seq::empty()
    } else {
        update_actions(bodies.drop_last(), inserted, modified) + body_actions(bodies.last(), inserted, modified)
    }
}

/// All that a frame asks of the simulation: the removals that the
/// transforms' events ask for, those that the bodies' events ask for, then
/// what is to be done for each entity that either storage saw inserted or
/// modified.
pub open spec fn sync_actions(
    transform_events: Seq<ComponentEvent>,
    body_events: Seq<ComponentEvent>,
    bodies: Seq<SceneBody>,
) -> Seq<SyncAction> {
    removal_actions(transform_events, bodies) + removal_actions(body_events, bodies) + update_actions(
        bodies,
        inserted_ids(transform_events).union(inserted_ids(body_events)),
        modified_ids(transform_events).union(modified_ids(body_events)),
    )
}

/// A list with one more element holds what it held before, and that element.
proof fn lemma_contains_push<A>(s: Seq<A>, last: A, x: A)
    ensures
        s.push(last).contains(x) <==> (s.contains(x) || last == x),
{
    let longer = s.push(last);
    if longer.contains(x) {
        let i = choose|i: int| 0 <= i < longer.len() && longer[i] == x;
        if i < s.len() {
            assert(s[i] == x);
        }
    }
    if s.contains(x) {
        let i = choose|i: int| 0 <= i < s.len() && s[i] == x;
        assert(longer[i] == x);
    }
    if last == x {
        assert(longer[s.len() as int] == x);
    }
}

/// Finds the first of `bodies` that belongs to the entity in slot `id`.
pub fn lookup_body(bodies: &Vec<SceneBody>, id: u32) -> (found: Option<SceneBody>)
    ensures
        found == find_body(bodies@, id),
{
    let mut i: usize = 0;
    assert(bodies@.subrange(0, bodies@.len() as int) =~= bodies@);
    while i < bodies.len()
        invariant
            i <= bodies.len(),
            find_body(bodies@, id) == find_body(bodies@.subrange(i as int, bodies@.len() as int), id),
        decreases bodies.len() - i,
    {
        if bodies[i].id == id {
            return Some(bodies[i]);
        }
        assert(bodies@.subrange(i as int, bodies@.len() as int).subrange(1, bodies@.len() - i)
            =~= bodies@.subrange(i + 1, bodies@.len() as int));
        i += 1;
    }
    None
}

/// Whether the sets of slots can take what `event` is about: an insertion
/// or a modification has to be about a slot that is not beyond the largest.
pub open spec fn fits(event: ComponentEvent) -> bool {
    match event {
        ComponentEvent::Inserted(id) => id <= max_slot(),
        ComponentEvent::Modified(id) => id <= max_slot(),
        ComponentEvent::Removed(_) => true,
    }
}

/// Whether the sets of slots can take what each of `events` is about.
pub fn all_fit(events: &Vec<ComponentEvent>) -> (fit: bool)
    ensures
        fit == each_fits(events@),
{
    let largest = largest_slot();
    let mut i: usize = 0;
    while i < events.len()
        invariant
            i <= events.len(),
            largest == max_slot(),
            forall|k: int| 0 <= k < i ==> fits(#[trigger] events@[k]),
        decreases events.len() - i,
    {
        let fit = match events[i] {
            ComponentEvent::Inserted(id) => id <= largest,
            ComponentEvent::Modified(id) => id <= largest,
            ComponentEvent::Removed(_) => true,
        };
        if !fit {
            assert(!fits(events@[i as int]));
            return false;
        }
        i += 1;
    }
    true
}

/// Goes through the events that one storage recorded. Insertions and
/// modifications are noted in `inserted` and `modified`. For each removal,
/// the action that takes the entity's body out of the simulation is added
/// to `actions`, or the report that no body or no handle is known for it;
/// a removal that cannot be carried out stops nothing.
pub fn iterate_events(
    events: &Vec<ComponentEvent>,
    inserted: &mut BitSet,
    modified: &mut BitSet,
    bodies: &Vec<SceneBody>,
    actions: &mut Vec<SyncAction>,
)
    requires
        each_fits(events@),
    ensures
        slots_of(*final(inserted)) == slots_of(*old(inserted)).union(inserted_ids(events@)),
        slots_of(*final(modified)) == slots_of(*old(modified)).union(modified_ids(events@)),
        final(actions)@ == old(actions)@ + removal_actions(events@, bodies@),
{
    let mut i: usize = 0;
    assert(slots_of(*inserted) =~= slots_of(*old(inserted)).union(inserted_ids(events@.take(0))));
    assert(slots_of(*modified) =~= slots_of(*old(modified)).union(modified_ids(events@.take(0))));
    assert(actions@ =~= old(actions)@ + removal_actions(events@.take(0), bodies@));
    while i < events.len()
        invariant
            i <= events.len(),
            each_fits(events@),
            slots_of(*inserted) == slots_of(*old(inserted)).union(inserted_ids(events@.take(i as int))),
            slots_of(*modified) == slots_of(*old(modified)).union(modified_ids(events@.take(i as int))),
            actions@ == old(actions)@ + removal_actions(events@.take(i as int), bodies@),
        decreases events.len() - i,
    {
        let ghost seen = events@.take(i as int);
        let ghost next = events@.take(i + 1);
        let event = events[i];
        proof {
            assert(fits(events@[i as int]));
            assert(next =~= seen.push(event));
            assert(next.drop_last() =~= seen);
            assert forall|id: u32|
                next.contains(ComponentEvent::Inserted(id)) <==> (seen.contains(ComponentEvent::Inserted(id))
                    || event == ComponentEvent::Inserted(id)) by {
                lemma_contains_push(seen, event, ComponentEvent::Inserted(id));
            }
            assert forall|id: u32|
                next.contains(ComponentEvent::Modified(id)) <==> (seen.contains(ComponentEvent::Modified(id))
                    || event == ComponentEvent::Modified(id)) by {
                lemma_contains_push(seen, event, ComponentEvent::Modified(id));
            }
        }
        match event {
            ComponentEvent::Modified(id) => {
                modified.add(id);
            },
            ComponentEvent::Inserted(id) => {
                inserted.add(id);
            },
            ComponentEvent::Removed(id) => {
                match lookup_body(bodies, id) {
                    Some(found) => {
                        match found.body.handle() {
                            Some(handle) => {
                                actions.push(SyncAction::RemoveBody { id, handle });
                            },
                            None => {
                                actions.push(SyncAction::Report(SyncError::MissingHandle { id }));
                            },
                        }
                    },
                    None => {
                        actions.push(SyncAction::Report(SyncError::MissingBody { id }));
                    },
                }
            },
        }
        i += 1;
        proof {
            assert(slots_of(*inserted) =~= slots_of(*old(inserted)).union(inserted_ids(next)));
            assert(slots_of(*modified) =~= slots_of(*old(modified)).union(modified_ids(next)));
            assert(actions@ =~= old(actions)@ + removal_actions(next, bodies@));
        }
    }
    assert(events@.take(i as int) =~= events@);
}

/// Adds to `actions` what is to be done for an inserted entity.
fn plan_insert(row: &SceneBody, actions: &mut Vec<SyncAction>)
    ensures
        final(actions)@ == old(actions)@ + insert_actions(row.id, row.body, row.pose_valid, row.in_world),
{
    let id = row.id;
    match row.body {
        DynamicBody::RigidBody(rigid_body) => {
            if !row.pose_valid {
                actions.push(SyncAction::Report(SyncError::InvalidPose { id }));
            } else {
                // Just inserted. Remove old one and insert new.
                if let Some(handle) = rigid_body.handle {
                    if row.in_world {
                        actions.push(SyncAction::RemoveBody { id, handle });
                    }
                }
                actions.push(SyncAction::CreateBody { id });
                actions.push(SyncAction::SetVelocity { id });
                actions.push(SyncAction::ApplyForce { id });
                actions.push(SyncAction::ResetForce { id });
                actions.push(SyncAction::SetStatus { id, status: rigid_body.body_status });
            }
        },
        DynamicBody::Multibody(_) => {
            actions.push(SyncAction::Report(SyncError::MultibodyUnsupported { id }));
        },
    }
    assert(actions@ =~= old(actions)@ + insert_actions(row.id, row.body, row.pose_valid, row.in_world));
}

/// Adds to `actions` what is to be done for a modified entity.
fn plan_modify(row: &SceneBody, actions: &mut Vec<SyncAction>)
    ensures
        final(actions)@ == old(actions)@ + modify_actions(row.id, row.body, row.pose_valid, row.in_world),
{
    let id = row.id;
    match row.body {
        DynamicBody::RigidBody(rigid_body) => {
            if rigid_body.handle.is_none() || !row.in_world {
                actions.push(SyncAction::Report(SyncError::BodyNotInWorld { id }));
            } else if !row.pose_valid {
                actions.push(SyncAction::Report(SyncError::InvalidPose { id }));
            } else {
                actions.push(SyncAction::SetPosition { id });
                actions.push(SyncAction::SetVelocity { id });
                actions.push(SyncAction::ApplyForce { id });
                actions.push(SyncAction::SetStatus { id, status: rigid_body.body_status });
                // Changed mass properties are not passed on.
            }
        },
        DynamicBody::Multibody(_) => {
            actions.push(SyncAction::Report(SyncError::MultibodyUnsupported { id }));
        },
    }
    assert(actions@ =~= old(actions)@ + modify_actions(row.id, row.body, row.pose_valid, row.in_world));
}

/// Whether the sets of slots can take what each of `events` is about.
pub open spec fn each_fits(events: Seq<ComponentEvent>) -> bool {
    forall|i: int| 0 <= i < events.len() ==> fits(#[trigger] events[i])
}

/// Brings the simulation up to date with the scene.
pub struct SyncBodiesToPhysicsSystem {
    transforms_reader_id: Option<ReaderId<ComponentEvent>>,
    physics_bodies_reader_id: Option<ReaderId<ComponentEvent>>,
}

impl SyncBodiesToPhysicsSystem {
    /// The system's subscription to the changes of the transforms.
    pub closed spec fn transforms_reader(&self) -> Option<ReaderId<ComponentEvent>> {
        self.transforms_reader_id
    }

    /// The system's subscription to the changes of the body components.
    pub closed spec fn physics_bodies_reader(&self) -> Option<ReaderId<ComponentEvent>> {
        self.physics_bodies_reader_id
    }

    /// The changes of the transforms that the system has not seen yet, if
    /// the system follows them in `transforms`.
    pub open spec fn unread_transforms(&self, transforms: EventChannel<ComponentEvent>) -> Option<
        Seq<ComponentEvent>,
    > {
        match self.transforms_reader() {
            Some(reader) => unread_changes(transforms, reader),
            None => None,
        }
    }

    /// The changes of the body components that the system has not seen
    /// yet, if the system follows them in `physics_bodies`.
    pub open spec fn unread_physics_bodies(&self, physics_bodies: EventChannel<ComponentEvent>) -> Option<
        Seq<ComponentEvent>,
    > {
        match self.physics_bodies_reader() {
            Some(reader) => unread_changes(physics_bodies, reader),
            None => None,
        }
    }

    /// Whether the system follows the changes in these two channels.
    pub open spec fn set_up_with(
        &self,
        transforms: EventChannel<ComponentEvent>,
        physics_bodies: EventChannel<ComponentEvent>,
    ) -> bool {
        self.unread_transforms(transforms) is Some && self.unread_physics_bodies(physics_bodies) is Some
    }

    /// A system that follows no storage yet.
    pub fn new() -> (system: Self)
        ensures
            system.transforms_reader() is None,
            system.physics_bodies_reader() is None,
    {
        SyncBodiesToPhysicsSystem { transforms_reader_id: None, physics_bodies_reader_id: None }
    }

    /// Subscribes to the changes that the storage of the transforms and the
    /// storage of the body components record from now on.
    pub fn setup(
        &mut self,
        transforms: &mut EventChannel<ComponentEvent>,
        physics_bodies: &mut EventChannel<ComponentEvent>,
    )
        ensures
            final(self).unread_transforms(*final(transforms)) == Some(Seq::<ComponentEvent>::empty()),
            final(self).unread_physics_bodies(*final(physics_bodies)) == Some(
                Seq::<ComponentEvent>::empty(),
            ),
    {
        self.transforms_reader_id = Some(register_reader(transforms));
        self.physics_bodies_reader_id = Some(register_reader(physics_bodies));
    }

    /// Reads what the two storages recorded since the frame before, each
    /// change once, and plans the frame from it as [`Self::plan`] does.
    /// There is no plan if a change is about a slot beyond the largest that
    /// a set of slots takes; the changes are read all the same.
    pub fn run(
        &mut self,
        transforms: &EventChannel<ComponentEvent>,
        physics_bodies: &EventChannel<ComponentEvent>,
        bodies: &Vec<SceneBody>,
    ) -> (actions: Option<Vec<SyncAction>>)
        requires
            old(self).set_up_with(*transforms, *physics_bodies),
        ensures
            final(self).unread_transforms(*transforms) == Some(Seq::<ComponentEvent>::empty()),
            final(self).unread_physics_bodies(*physics_bodies) == Some(Seq::<ComponentEvent>::empty()),
            ({
                let transform_events = old(self).unread_transforms(*transforms)->0;
                let body_events = old(self).unread_physics_bodies(*physics_bodies)->0;
                match actions {
                    Some(actions) => {
                        &&& each_fits(transform_events)
                        &&& each_fits(body_events)
                        &&& actions@ == sync_actions(transform_events, body_events, bodies@)
                    },
                    None => !each_fits(transform_events) || !each_fits(body_events),
                }
            }),
    {
        let transform_events = match &mut self.transforms_reader_id {
            Some(reader) => read_changes(transforms, reader),
            None => Vec::new(),
        };
        let body_events = match &mut self.physics_bodies_reader_id {
            Some(reader) => read_changes(physics_bodies, reader),
            None => Vec::new(),
        };
        if all_fit(&transform_events) && all_fit(&body_events) {
            Some(Self::plan(&transform_events, &body_events, bodies))
        } else {
            None
        }
    }

    /// Plans one frame: `transform_events` and `body_events` are what the
    /// two storages recorded since the frame before; `bodies` holds the
    /// entities that have a body component, and those that lost theirs
    /// since the frame before with the component as it was.
    pub fn plan(
        transform_events: &Vec<ComponentEvent>,
        body_events: &Vec<ComponentEvent>,
        bodies: &Vec<SceneBody>,
    ) -> (actions: Vec<SyncAction>)
        requires
            each_fits(transform_events@),
            each_fits(body_events@),
        ensures
            actions@ == sync_actions(transform_events@, body_events@, bodies@),
    {
        let mut inserted_transforms = BitSet::new();
        let mut modified_transforms = BitSet::new();
        let mut inserted_physics_bodies = BitSet::new();
        let mut modified_physics_bodies = BitSet::new();
        let mut actions: Vec<SyncAction> = Vec::new();

        // Get change flag events for transforms, removing deleted ones from the physics world.
        iterate_events(
            transform_events,
            &mut inserted_transforms,
            &mut modified_transforms,
            bodies,
            &mut actions,
        );
        // Get change flag events for physics bodies, removing deleted ones from the physics world.
        iterate_events(
            body_events,
            &mut inserted_physics_bodies,
            &mut modified_physics_bodies,
            bodies,
            &mut actions,
        );

        let ghost removals = removal_actions(transform_events@, bodies@) + removal_actions(
            body_events@,
            bodies@,
        );
        let ghost all_inserted = inserted_ids(transform_events@).union(inserted_ids(body_events@));
        let ghost all_modified = modified_ids(transform_events@).union(modified_ids(body_events@));
        assert(slots_of(inserted_transforms) =~= inserted_ids(transform_events@));
        assert(slots_of(modified_transforms) =~= modified_ids(transform_events@));
        assert(slots_of(inserted_physics_bodies) =~= inserted_ids(body_events@));
        assert(slots_of(modified_physics_bodies) =~= modified_ids(body_events@));
        assert(actions@ =~= removals + update_actions(bodies@.take(0), all_inserted, all_modified));

        // Update simulation world with the value of components flagged as changed.
        let mut i: usize = 0;
        while i < bodies.len()
            invariant
                i <= bodies.len(),
                slots_of(inserted_transforms) == inserted_ids(transform_events@),
                slots_of(modified_transforms) == modified_ids(transform_events@),
                slots_of(inserted_physics_bodies) == inserted_ids(body_events@),
                slots_of(modified_physics_bodies) == modified_ids(body_events@),
                all_inserted == inserted_ids(transform_events@).union(inserted_ids(body_events@)),
                all_modified == modified_ids(transform_events@).union(modified_ids(body_events@)),
                actions@ == removals + update_actions(bodies@.take(i as int), all_inserted, all_modified),
            decreases bodies.len() - i,
        {
            let row = &bodies[i];
            let ghost before = actions@;
            if row.present && row.has_transform {
                if inserted_transforms.contains(row.id) || inserted_physics_bodies.contains(row.id) {
                    plan_insert(row, &mut actions);
                } else if modified_transforms.contains(row.id) || modified_physics_bodies.contains(row.id) {
                    plan_modify(row, &mut actions);
                }
            }
            i += 1;
            proof {
                assert(bodies@.take(i as int).drop_last() =~= bodies@.take(i - 1));
                assert(bodies@.take(i as int).last() == *row);
                assert(actions@ =~= before + body_actions(*row, all_inserted, all_modified));
                assert(actions@ =~= removals + update_actions(bodies@.take(i as int), all_inserted, all_modified));
            }
        }
        assert(bodies@.take(i as int) =~= bodies@);
        actions
    }
}

/// No removal holds up another: what two lists of events ask to remove,
/// one list after the other, is what the first asks for followed by what
/// the second asks for, whatever is reported on the way.
pub proof fn lemma_removals_are_independent(
    first: Seq<ComponentEvent>,
    second: Seq<ComponentEvent>,
    bodies: Seq<SceneBody>,
)
    ensures
        removal_actions(first + second, bodies) == removal_actions(first, bodies) + removal_actions(
            second,
            bodies,
        ),
    decreases second.len(),
{
    if second.len() == 0 {
        assert(first + second =~= first);
        assert(removal_actions(first, bodies) + removal_actions(second, bodies) =~= removal_actions(
            first,
            bodies,
        ));
    } else {
        assert((first + second).drop_last() =~= first + second.drop_last());
        assert((first + second).last() == second.last());
        lemma_removals_are_independent(first, second.drop_last(), bodies);
        assert(removal_actions(first + second, bodies) =~= removal_actions(first, bodies)
            + removal_actions(second, bodies));
    }
}

/// A removal that is repeated is answered each time as it was the first
/// time: with the same removal or the same report, and never with a
/// failure of the frame.
pub proof fn lemma_removal_can_be_repeated(events: Seq<ComponentEvent>, bodies: Seq<SceneBody>)
    ensures
        removal_actions(events + events, bodies) == removal_actions(events, bodies) + removal_actions(
            events,
            bodies,
        ),
{
    lemma_removals_are_independent(events, events, bodies);
}

/// No entity holds up another: what is to be done for two lists of
/// entities, one after the other, is what is to be done for the first
/// followed by what is to be done for the second.
pub proof fn lemma_updates_are_independent(
    first: Seq<SceneBody>,
    second: Seq<SceneBody>,
    inserted: Set<u32>,
    modified: Set<u32>,
)
    ensures
        update_actions(first + second, inserted, modified) == update_actions(first, inserted, modified)
            + update_actions(second, inserted, modified),
    decreases second.len(),
{
    if second.len() == 0 {
        assert(first + second =~= first);
        assert(update_actions(first, inserted, modified) + update_actions(second, inserted, modified)
            =~= update_actions(first, inserted, modified));
    } else {
        assert((first + second).drop_last() =~= first + second.drop_last());
        assert((first + second).last() == second.last());
        lemma_updates_are_independent(first, second.drop_last(), inserted, modified);
        assert(update_actions(first + second, inserted, modified) =~= update_actions(
            first,
            inserted,
            modified,
        ) + update_actions(second, inserted, modified));
    }
}

/// Insertion wins over modification: for an entity that was inserted it
/// makes no difference whether it was modified as well.
pub proof fn lemma_insert_dominates_modify(
    row: SceneBody,
    inserted: Set<u32>,
    modified: Set<u32>,
    other_modified: Set<u32>,
)
    requires
        inserted.contains(row.id),
    ensures
        body_actions(row, inserted, modified) == body_actions(row, inserted, other_modified),
        row.present && row.has_transform ==> body_actions(row, inserted, modified) == insert_actions(
            row.id,
            row.body,
            row.pose_valid,
            row.in_world,
        ),
{
}

} // verus!
