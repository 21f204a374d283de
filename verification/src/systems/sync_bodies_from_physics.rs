//! Simulation to scene: decides which entities take over the state of their
//! bodies after a frame's stepping, and turns the simulation's contact and
//! proximity events, which speak of colliders, into events that speak of
//! entities.

use crate::bodies::DynamicBody;
use ncollide3d::pipeline::narrow_phase::ContactEvent;
use ncollide3d::pipeline::narrow_phase::EventPool;
use ncollide3d::pipeline::narrow_phase::ProximityEvent;
use ncollide3d::query::Proximity;
use nphysics3d::object::DefaultBodyHandle;
use nphysics3d::object::DefaultColliderHandle;
use shrev::EventChannel;
use shrev::ReaderId;
use specs::Entity;
use vstd::prelude::*;

verus! {

/// How close two colliders are: intersecting, within the margin, disjoint.
/// Nothing in here looks inside one.
#[verifier::external_type_specification]
#[verifier::external_body]
pub struct ExProximity(Proximity);

/// Two colliders began or ceased to touch. The variants and their two
/// handles are read as the simulation declares them.
#[verifier::external_type_specification]
#[verifier::reject_recursive_types(Handle)]
pub struct ExContactEvent<Handle>(ContactEvent<Handle>);

/// Two colliders changed how close they are. The fields are read as the
/// simulation declares them.
#[verifier::external_type_specification]
#[verifier::reject_recursive_types(Handle)]
pub struct ExProximityEvent<Handle>(ProximityEvent<Handle>);

/// A contact event together with the two entities that it is about.
pub type EntityContactEvent = (Entity, Entity, ContactEvent<DefaultColliderHandle>);

/// A proximity event together with the two entities that it is about.
pub type EntityProximityEvent = (Entity, Entity, ProximityEvent<DefaultColliderHandle>);

/// The simulation's list of the events of one kind that a step raised.
#[verifier::external_type_specification]
#[verifier::external_body]
#[verifier::reject_recursive_types(E)]
pub struct ExEventPool<E>(EventPool<E>);

/// The contact events that `pool` holds, in the order in which they were
/// raised.
pub uninterp spec fn pooled_contacts(pool: EventPool<ContactEvent<DefaultColliderHandle>>) -> Seq<
    ContactEvent<DefaultColliderHandle>,
>;

/// The proximity events that `pool` holds, in the order in which they were
/// raised.
pub uninterp spec fn pooled_proximities(pool: EventPool<ProximityEvent<DefaultColliderHandle>>) -> Seq<
    ProximityEvent<DefaultColliderHandle>,
>;

/// The contact events that were written to `channel` and that `reader` has
/// not read yet, oldest first; nothing for a reader that was not
/// registered with `channel`.
pub uninterp spec fn unread_contacts(
    channel: EventChannel<EntityContactEvent>,
    reader: ReaderId<EntityContactEvent>,
) -> Option<Seq<EntityContactEvent>>;

/// The proximity events that were written to `channel` and that `reader`
/// has not read yet, oldest first; nothing for a reader that was not
/// registered with `channel`.
pub uninterp spec fn unread_proximities(
    channel: EventChannel<EntityProximityEvent>,
    reader: ReaderId<EntityProximityEvent>,
) -> Option<Seq<EntityProximityEvent>>;

/// Copies the contact events out of the simulation's pool, by
/// `EventPool::iter`, which goes through them first in, first out.
#[verifier::external_body]
fn contacts_in(pool: &EventPool<ContactEvent<DefaultColliderHandle>>) -> (events: Vec<
    ContactEvent<DefaultColliderHandle>,
>)
    ensures
        events@ == pooled_contacts(*pool),
{
    pool.iter().cloned().collect()
}

/// Copies the proximity events out of the simulation's pool, by
/// `EventPool::iter`, which goes through them first in, first out.
#[verifier::external_body]
fn proximities_in(pool: &EventPool<ProximityEvent<DefaultColliderHandle>>) -> (events: Vec<
    ProximityEvent<DefaultColliderHandle>,
>)
    ensures
        events@ == pooled_proximities(*pool),
{
    pool.iter().cloned().collect()
}

/// Hands contact events to the scene, by `EventChannel::iter_write`: each
/// reader of the channel finds them, in their order, behind what it has
/// not read yet.
#[verifier::external_body]
fn write_contacts(channel: &mut EventChannel<EntityContactEvent>, events: Vec<EntityContactEvent>)
    ensures
        forall|reader: ReaderId<EntityContactEvent>|
            (#[trigger] unread_contacts(*old(channel), reader)) is Some ==> unread_contacts(
                *final(channel),
                reader,
            ) == Some(unread_contacts(*old(channel), reader)->0 + events@),
{
    channel.iter_write(events)
}

/// Hands proximity events to the scene, by `EventChannel::iter_write`:
/// each reader of the channel finds them, in their order, behind what it
/// has not read yet.
#[verifier::external_body]
fn write_proximities(channel: &mut EventChannel<EntityProximityEvent>, events: Vec<EntityProximityEvent>)
    ensures
        forall|reader: ReaderId<EntityProximityEvent>|
            (#[trigger] unread_proximities(*old(channel), reader)) is Some ==> unread_proximities(
                *final(channel),
                reader,
            ) == Some(unread_proximities(*old(channel), reader)->0 + events@),
{
    channel.iter_write(events)
}

/// Whether two handles are the same. Handles compare by slot and
/// generation, which is all that a handle is made of: this is
/// `generational_arena::Index`'s own `==`.
#[verifier::external_body]
fn same_handle(a: &DefaultColliderHandle, b: &DefaultColliderHandle) -> (same: bool)
    ensures
        same == (*a == *b),
{
    a == b
}

/// A collider of the simulation and the entity that it belongs to.
#[derive(Clone, Copy, Debug, PartialEq, Eq)]
pub struct ColliderEntry {
    /// The entity that has the collider.
    pub entity: Entity,
    /// The collider in the simulation.
    pub handle: DefaultColliderHandle,
}

/// The entity of the first of `colliders` that has the handle `handle`.
pub open spec fn owner_of(colliders: Seq<ColliderEntry>, handle: DefaultColliderHandle) -> Option<Entity>
    decreases colliders.len(),
{
    if colliders.len() == 0 {
        None
    } else if colliders[0].handle == handle {
        Some(colliders[0].entity)
    } else {
        owner_of(colliders.subrange(1, colliders.len() as int), handle)
    }
}

/// Finds the entity that the collider with the handle `handle` belongs to.
pub fn entity_from_handle(colliders: &Vec<ColliderEntry>, handle: DefaultColliderHandle) -> (entity: Option<Entity>)
    ensures
        entity == owner_of(colliders@, handle),
{
    let mut i: usize = 0;
    assert(colliders@.subrange(0, colliders@.len() as int) =~= colliders@);
    while i < colliders.len()
        invariant
            i <= colliders.len(),
            owner_of(colliders@, handle) == owner_of(
                colliders@.subrange(i as int, colliders@.len() as int),
                handle,
            ),
        decreases colliders.len() - i,
    {
        if same_handle(&colliders[i].handle, &handle) {
            return Some(colliders[i].entity);
        }
        assert(colliders@.subrange(i as int, colliders@.len() as int).subrange(1, colliders@.len() - i)
            =~= colliders@.subrange(i + 1, colliders@.len() as int));
        i += 1;
    }
    None
}

/// The entities of two colliders, if both have one.
pub open spec fn owners_of(
    colliders: Seq<ColliderEntry>,
    first: DefaultColliderHandle,
    second: DefaultColliderHandle,
) -> Option<(Entity, Entity)> {
    match (owner_of(colliders, first), owner_of(colliders, second)) {
        (Some(a), Some(b)) => Some((a, b)),
        _ => None,
    }
}

/// Finds the entities of two colliders, in the order of the handles.
/// There is no result unless both are found.
pub fn entities_from_handles(
    colliders: &Vec<ColliderEntry>,
    first: DefaultColliderHandle,
    second: DefaultColliderHandle,
) -> (pair: Option<(Entity, Entity)>)
    ensures
        pair == owners_of(colliders@, first, second),
{
    let a = entity_from_handle(colliders, first);
    let b = entity_from_handle(colliders, second);
    match (a, b) {
        (Some(a), Some(b)) => Some((a, b)),
        _ => None,
    }
}

/// The two colliders of a contact event, in the event's order.
pub open spec fn contact_colliders(event: ContactEvent<DefaultColliderHandle>) -> (
    DefaultColliderHandle,
    DefaultColliderHandle,
) {
    match event {
        ContactEvent::Started(first, second) => (first, second),
        ContactEvent::Stopped(first, second) => (first, second),
    }
}

/// The two colliders of a proximity event, in the event's order.
pub open spec fn proximity_colliders(event: ProximityEvent<DefaultColliderHandle>) -> (
    DefaultColliderHandle,
    DefaultColliderHandle,
) {
    (event.collider1, event.collider2)
}

/// The events of the simulation as events of the scene.
pub struct Translation<E> {
    /// Each event of which both colliders belong to an entity, with the two
    /// entities, in the order in which the simulation raised them.
    pub records: Vec<(Entity, Entity, E)>,
    /// The other events. They are dropped, and are here to be logged.
    pub unresolved: Vec<E>,
}

/// The records for `events`: one for each event of which both colliders
/// belong to an entity.
pub open spec fn contact_records(
    events: Seq<ContactEvent<DefaultColliderHandle>>,
    colliders: Seq<ColliderEntry>,
) -> Seq<EntityContactEvent>
    decreases events.len(),
{
    if events.len() == 0 {
        Seq::empty()
    } else {
        let earlier = contact_records(events.drop_last(), colliders);
        let (first, second) = contact_colliders(events.last());
        match owners_of(colliders, first, second) {
            Some((a, b)) => earlier.push((a, b, events.last())),
            None => earlier,
        }
    }
}

/// The events among `events` of which a collider belongs to no entity.
pub open spec fn dropped_contacts(
    events: Seq<ContactEvent<DefaultColliderHandle>>,
    colliders: Seq<ColliderEntry>,
) -> Seq<ContactEvent<DefaultColliderHandle>>
    decreases events.len(),
{
    if events.len() == 0 {
        Seq::empty()
    } else {
        let earlier = dropped_contacts(events.drop_last(), colliders);
        let (first, second) = contact_colliders(events.last());
        match owners_of(colliders, first, second) {
            Some(_) => earlier,
            None => earlier.push(events.last()),
        }
    }
}

/// The records for `events`: one for each event of which both colliders
/// belong to an entity.
pub open spec fn proximity_records(
    events: Seq<ProximityEvent<DefaultColliderHandle>>,
    colliders: Seq<ColliderEntry>,
) -> Seq<EntityProximityEvent>
    decreases events.len(),
{
    if events.len() == 0 {
        Seq::empty()
    } else {
        let earlier = proximity_records(events.drop_last(), colliders);
        let (first, second) = proximity_colliders(events.last());
        match owners_of(colliders, first, second) {
            Some((a, b)) => earlier.push((a, b, events.last())),
            None => earlier,
        }
    }
}

/// The events among `events` of which a collider belongs to no entity.
pub open spec fn dropped_proximities(
    events: Seq<ProximityEvent<DefaultColliderHandle>>,
    colliders: Seq<ColliderEntry>,
) -> Seq<ProximityEvent<DefaultColliderHandle>>
    decreases events.len(),
{
    if events.len() == 0 {
        Seq::empty()
    } else {
        let earlier = dropped_proximities(events.drop_last(), colliders);
        let (first, second) = proximity_colliders(events.last());
        match owners_of(colliders, first, second) {
            Some(_) => earlier,
            None => earlier.push(events.last()),
        }
    }
}

/// Turns contact events between colliders into contact events between
/// entities. An event is passed on whole or not at all.
pub fn translate_contact_events(
    events: &Vec<ContactEvent<DefaultColliderHandle>>,
    colliders: &Vec<ColliderEntry>,
) -> (translated: Translation<ContactEvent<DefaultColliderHandle>>)
    ensures
        translated.records@ == contact_records(events@, colliders@),
        translated.unresolved@ == dropped_contacts(events@, colliders@),
{
    let mut records: Vec<EntityContactEvent> = Vec::new();
    let mut unresolved: Vec<ContactEvent<DefaultColliderHandle>> = Vec::new();
    let mut i: usize = 0;
    while i < events.len()
        invariant
            i <= events.len(),
            records@ == contact_records(events@.take(i as int), colliders@),
            unresolved@ == dropped_contacts(events@.take(i as int), colliders@),
        decreases events.len() - i,
    {
        let event = events[i];
        let (first, second) = match event {
            ContactEvent::Started(first, second) => (first, second),
            ContactEvent::Stopped(first, second) => (first, second),
        };
        match entities_from_handles(colliders, first, second) {
            Some((a, b)) => {
                records.push((a, b, event));
            },
            None => {
                unresolved.push(event);
            },
        }
        i += 1;
        proof {
            assert(events@.take(i as int).drop_last() =~= events@.take(i - 1));
            assert(events@.take(i as int).last() == event);
        }
    }
    assert(events@.take(i as int) =~= events@);
    Translation { records, unresolved }
}

/// Turns proximity events between colliders into proximity events between
/// entities. An event is passed on whole or not at all.
pub fn translate_proximity_events(
    events: &Vec<ProximityEvent<DefaultColliderHandle>>,
    colliders: &Vec<ColliderEntry>,
) -> (translated: Translation<ProximityEvent<DefaultColliderHandle>>)
    ensures
        translated.records@ == proximity_records(events@, colliders@),
        translated.unresolved@ == dropped_proximities(events@, colliders@),
{
    let mut records: Vec<EntityProximityEvent> = Vec::new();
    let mut unresolved: Vec<ProximityEvent<DefaultColliderHandle>> = Vec::new();
    let mut i: usize = 0;
    while i < events.len()
        invariant
            i <= events.len(),
            records@ == proximity_records(events@.take(i as int), colliders@),
            unresolved@ == dropped_proximities(events@.take(i as int), colliders@),
        decreases events.len() - i,
    {
        let event = events[i];
        match entities_from_handles(colliders, event.collider1, event.collider2) {
            Some((a, b)) => {
                records.push((a, b, event));
            },
            None => {
                unresolved.push(event);
            },
        }
        i += 1;
        proof {
            assert(events@.take(i as int).drop_last() =~= events@.take(i - 1));
            assert(events@.take(i as int).last() == event);
        }
    }
    assert(events@.take(i as int) =~= events@);
    Translation { records, unresolved }
}

/// What the simulation says of a body that is of interest here.
#[derive(Clone, Copy, Debug, PartialEq, Eq, Structural)]
pub struct BodyActivity {
    /// Whether the body is awake and moving.
    pub active: bool,
    /// Whether the body is static.
    pub is_static: bool,
}

/// An entity with a transform and a body component, as it stands after the
/// frame's stepping.
#[derive(Clone, Copy, Debug, PartialEq, Eq)]
pub struct SimulatedBody {
    /// The entity's slot.
    pub id: u32,
    /// The body component's link to the simulation.
    pub body: DynamicBody,
    /// The rigid body that the simulation holds under the component's
    /// handle, if it holds one.
    pub found: Option<BodyActivity>,
    /// Whether the entity has a local transform besides its global one.
    pub has_local_transform: bool,
}

/// A body component that has lost its body.
#[derive(Clone, Copy, Debug, PartialEq, Eq, Structural)]
pub enum ReadBackError {
    /// The component has no handle.
    MissingHandle { id: u32 },
    /// The simulation holds no rigid body under the component's handle.
    MissingBody { id: u32 },
}

/// One thing to do to the scene, or to report.
#[derive(Clone, Copy, Debug, PartialEq, Eq)]
pub enum ReadBack {
    /// Take over the state of the body with this handle: its pose into the
    /// entity's global transform, scaled as the local transform is, and, if
    /// `local_transform` is set, into the local transform, which keeps its
    /// scale; its velocity, mass, angular mass and center of mass into the
    /// body component.
    CopyState { id: u32, handle: DefaultBodyHandle, local_transform: bool },
    /// Log that the entity was skipped, and why.
    Report(ReadBackError),
}

/// What is to be done for one entity. A body that sleeps or is static has
/// not moved, so nothing is done for it.
pub open spec fn read_back(row: SimulatedBody) -> Seq<ReadBack> {
    match row.body.spec_handle() {
        None => seq![ReadBack::Report(ReadBackError::MissingHandle { id: row.id })],
        Some(handle) => match row.found {
            None => seq![ReadBack::Report(ReadBackError::MissingBody { id: row.id })],
            Some(state) => {
                if !state.active || state.is_static {
                    Seq::empty()
                } else {
                    seq![
                        ReadBack::CopyState { id: row.id, handle, local_transform: row.has_local_transform },
                    ]
                }
            },
        },
    }
}

/// What is to be done for all of `bodies`, first entity first.
pub open spec fn read_backs(bodies: Seq<SimulatedBody>) -> Seq<ReadBack>
    decreases bodies.len(),
{
    if bodies.len() == 0 {
        Seq::empty()
    } else {
        read_backs(bodies.drop_last()) + read_back(bodies.last())
    }
}

/// What is left to do after a frame was brought back to the scene.
pub struct FromPhysics {
    /// What to copy from the simulation into the scene, and what to report.
    pub updates: Vec<ReadBack>,
    /// The contact events that were dropped for want of an entity.
    pub unresolved_contacts: Vec<ContactEvent<DefaultColliderHandle>>,
    /// The proximity events that were dropped for want of an entity.
    pub unresolved_proximities: Vec<ProximityEvent<DefaultColliderHandle>>,
}

/// Brings the scene up to date with the simulation.
pub struct SyncBodiesFromPhysicsSystem {}

impl SyncBodiesFromPhysicsSystem {
    pub fn new() -> (system: Self) {
        SyncBodiesFromPhysicsSystem {  }
    }

    /// What is to be done for each of `bodies`, the entities with a
    /// transform and a body component.
    pub fn plan(bodies: &Vec<SimulatedBody>) -> (updates: Vec<ReadBack>)
        ensures
            updates@ == read_backs(bodies@),
    {
        let mut updates: Vec<ReadBack> = Vec::new();
        let mut i: usize = 0;
        // Apply the updated values of the simulated world to our components.
        while i < bodies.len()
            invariant
                i <= bodies.len(),
                updates@ == read_backs(bodies@.take(i as int)),
            decreases bodies.len() - i,
        {
            let row = &bodies[i];
            let ghost before = updates@;
            match row.body.handle() {
                Some(handle) => {
                    match row.found {
                        Some(state) => {
                            if !state.active || state.is_static {
                                // Nothing to synchronise from a body that does not move.
                            } else {
                                updates.push(
                                    ReadBack::CopyState {
                                        id: row.id,
                                        handle,
                                        local_transform: row.has_local_transform,
                                    },
                                );
                            }
                        },
                        None => {
                            updates.push(ReadBack::Report(ReadBackError::MissingBody { id: row.id }));
                        },
                    }
                },
                None => {
                    updates.push(ReadBack::Report(ReadBackError::MissingHandle { id: row.id }));
                },
            }
            i += 1;
            proof {
                assert(bodies@.take(i as int).drop_last() =~= bodies@.take(i - 1));
                assert(bodies@.take(i as int).last() == *row);
                assert(updates@ =~= before + read_back(*row));
            }
        }
        assert(bodies@.take(i as int) =~= bodies@);
        updates
    }

    /// Brings a frame back to the scene. Plans what the entities in
    /// `bodies` take over from their bodies, and hands the events in the
    /// simulation's pools `contacts` and `proximities` to the readers of
    /// `contact_events` and `proximity_events`, each with the two entities
    /// that `colliders` names for its colliders. An event of which a
    /// collider has no entity reaches no reader. Bodies are neither
    /// created nor removed here.
    pub fn run(
        &mut self,
        bodies: &Vec<SimulatedBody>,
        contacts: &EventPool<ContactEvent<DefaultColliderHandle>>,
        proximities: &EventPool<ProximityEvent<DefaultColliderHandle>>,
        colliders: &Vec<ColliderEntry>,
        contact_events: &mut EventChannel<EntityContactEvent>,
        proximity_events: &mut EventChannel<EntityProximityEvent>,
    ) -> (outcome: FromPhysics)
        ensures
            outcome.updates@ == read_backs(bodies@),
            outcome.unresolved_contacts@ == dropped_contacts(pooled_contacts(*contacts), colliders@),
            outcome.unresolved_proximities@ == dropped_proximities(
                pooled_proximities(*proximities),
                colliders@,
            ),
            forall|reader: ReaderId<EntityContactEvent>|
                (#[trigger] unread_contacts(*old(contact_events), reader)) is Some ==> unread_contacts(
                    *final(contact_events),
                    reader,
                ) == Some(
                    unread_contacts(*old(contact_events), reader)->0 + contact_records(
                        pooled_contacts(*contacts),
                        colliders@,
                    ),
                ),
            forall|reader: ReaderId<EntityProximityEvent>|
                (#[trigger] unread_proximities(*old(proximity_events), reader)) is Some
                    ==> unread_proximities(*final(proximity_events), reader) == Some(
                    unread_proximities(*old(proximity_events), reader)->0 + proximity_records(
                        pooled_proximities(*proximities),
                        colliders@,
                    ),
                ),
    {
        let updates = Self::plan(bodies);
        let contacts = translate_contact_events(&contacts_in(contacts), colliders);
        write_contacts(contact_events, contacts.records);
        let proximities = translate_proximity_events(&proximities_in(proximities), colliders);
        write_proximities(proximity_events, proximities.records);
        FromPhysics {
            updates,
            unresolved_contacts: contacts.unresolved,
            unresolved_proximities: proximities.unresolved,
        }
    }
}

/// No contact event is passed on in part: each is either passed on with
/// both of its entities or dropped whole.
pub proof fn lemma_contacts_are_passed_on_whole(
    events: Seq<ContactEvent<DefaultColliderHandle>>,
    colliders: Seq<ColliderEntry>,
)
    ensures
        contact_records(events, colliders).len() + dropped_contacts(events, colliders).len()
            == events.len(),
        forall|i: int|
            0 <= i < contact_records(events, colliders).len() ==> {
                let record = #[trigger] contact_records(events, colliders)[i];
                let (first, second) = contact_colliders(record.2);
                &&& owner_of(colliders, first) == Some(record.0)
                &&& owner_of(colliders, second) == Some(record.1)
            },
    decreases events.len(),
{
    if events.len() > 0 {
        lemma_contacts_are_passed_on_whole(events.drop_last(), colliders);
    }
}

/// No proximity event is passed on in part: each is either passed on with
/// both of its entities or dropped whole.
pub proof fn lemma_proximities_are_passed_on_whole(
    events: Seq<ProximityEvent<DefaultColliderHandle>>,
    colliders: Seq<ColliderEntry>,
)
    ensures
        proximity_records(events, colliders).len() + dropped_proximities(events, colliders).len()
            == events.len(),
        forall|i: int|
            0 <= i < proximity_records(events, colliders).len() ==> {
                let record = #[trigger] proximity_records(events, colliders)[i];
                &&& owner_of(colliders, record.2.collider1) == Some(record.0)
                &&& owner_of(colliders, record.2.collider2) == Some(record.1)
            },
    decreases events.len(),
{
    if events.len() > 0 {
        lemma_proximities_are_passed_on_whole(events.drop_last(), colliders);
    }
}

} // verus!
