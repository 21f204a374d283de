//! What the scene's storages hand over: entities, the changes that a
//! storage recorded, and sets of entity slots.

use shrev::EventChannel;
use shrev::ReaderId;
use specs::storage::ComponentEvent;
use specs::BitSet;
use specs::Entity;
use vstd::prelude::*;

verus! {

/// An entity of the scene. Nothing in here looks inside one.
#[verifier::external_type_specification]
#[verifier::external_body]
pub struct ExEntity(Entity);

/// A change that a component storage recorded for the entity in a slot:
/// inserted, modified or removed. The variants and their slot are read as
/// the scene declares them.
#[verifier::external_type_specification]
pub struct ExComponentEvent(ComponentEvent);

/// A set of entity slots.
#[verifier::external_type_specification]
#[verifier::external_body]
pub struct ExBitSet(BitSet);

/// The slots that a set holds.
pub uninterp spec fn slots_of(set: BitSet) -> Set<u32>;

/// The largest slot that a set takes. A set has room for as many slots as
/// the fourth power of the number of bits in a machine word.
pub open spec fn max_slot() -> int {
    if usize::BITS == 64 {
        16_777_215
    } else {
        1_048_575
    }
}

/// The largest slot that a set takes, on this machine.
pub fn largest_slot() -> (slot: u32)
    ensures
        slot == max_slot(),
{
    if usize::BITS == 64 {
        16_777_215
    } else {
        1_048_575
    }
}

/// `BitSet::new` makes an empty set.
pub assume_specification[ BitSet::new ]() -> (set: BitSet)
    ensures
        slots_of(set) == Set::<u32>::empty(),
;

/// `BitSet::add` puts a slot into the set and says whether it was there
/// already. It panics on a slot beyond the largest.
pub assume_specification[ BitSet::add ](set: &mut BitSet, id: u32) -> (was_there: bool)
    requires
        id <= max_slot(),
    ensures
        slots_of(*final(set)) == slots_of(*old(set)).insert(id),
        was_there == slots_of(*old(set)).contains(id),
;

/// `BitSet::contains` says whether a slot is in the set.
pub assume_specification[ BitSet::contains ](set: &BitSet, id: u32) -> (is_there: bool)
    ensures
        is_there == slots_of(*set).contains(id),
;

/// A channel of events that any number of readers follow, each at its own
/// pace. The storages of the scene record their changes in one.
#[verifier::external_type_specification]
#[verifier::external_body]
#[verifier::reject_recursive_types(E)]
pub struct ExEventChannel<E>(EventChannel<E>);

/// A reader's subscription to a channel of events.
#[verifier::external_type_specification]
#[verifier::external_body]
#[verifier::reject_recursive_types(T)]
pub struct ExReaderId<T: 'static>(ReaderId<T>);

/// The changes that were recorded in `channel` and that `reader` has not
/// read yet, oldest first; nothing for a reader that was not registered
/// with `channel`.
pub uninterp spec fn unread_changes(
    channel: EventChannel<ComponentEvent>,
    reader: ReaderId<ComponentEvent>,
) -> Option<Seq<ComponentEvent>>;

/// Subscribes to the changes that a storage records, by
/// `EventChannel::register_reader`. The new reader belongs to the channel
/// and has nothing to read yet.
#[verifier::external_body]
pub(crate) fn register_reader(channel: &mut EventChannel<ComponentEvent>) -> (reader: ReaderId<ComponentEvent>)
    ensures
        unread_changes(*final(channel), reader) == Some(Seq::<ComponentEvent>::empty()),
{
    channel.register_reader()
}

/// Takes the changes that `reader` has not read yet out of `channel`, by
/// `EventChannel::read`, which hands out what was written since the reader
/// last read or was registered, oldest first, and leaves the reader with
/// nothing to read. It panics for a reader of another channel.
#[verifier::external_body]
pub(crate) fn read_changes(channel: &EventChannel<ComponentEvent>, reader: &mut ReaderId<ComponentEvent>) -> (events:
    Vec<ComponentEvent>)
    requires
        unread_changes(*channel, *old(reader)) is Some,
    ensures
        Some(events@) == unread_changes(*channel, *old(reader)),
        unread_changes(*channel, *final(reader)) == Some(Seq::<ComponentEvent>::empty()),
{
    channel.read(reader).cloned().collect()
}

} // verus!
