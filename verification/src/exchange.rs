//! The channel that carries freshly loaded models to the audio thread, and
//! replaced ones back.
//!
//! The queue itself is a heap ring of the `ringbuf` crate. This module states
//! what the ring's operations do to its contents, and builds on that a channel
//! whose every operation returns at once: a push into a full channel hands the
//! item back, a pop from an empty one yields nothing.

use crate::nam::Model;
use ringbuf::traits::{Consumer, Observer, Producer};
use vstd::prelude::*;

verus! {

/// What the contracts see of one queued model: its address and the path it
/// was loaded from.
pub type Pending = (usize, Seq<char>);

/// A loaded model together with the path it came from.
#[derive(Debug)]
pub struct LoadedModel {
    pub model: Model,
    pub path: String,
}

impl View for LoadedModel {
    type V = Pending;

    open spec fn view(&self) -> Pending {
        (self.model@, self.path@)
    }
}

/// The largest number of slots a channel may have. Hand-offs are rare, so a
/// channel needs few slots; the bound keeps the ring's allocation and its
/// index arithmetic far from overflow.
pub const MAX_SLOTS: usize = 4096;

/// A `ringbuf::HeapRb` of address and path pairs. The ring's type is generic
/// over a storage trait of its crate, which cannot be declared to the
/// verifier, so the ring is kept behind this opaque struct: all that is known
/// of a ring is what the functions below say of `ring_items` and
/// `ring_capacity`.
#[verifier::external_body]
pub struct Ring {
    inner: ringbuf::HeapRb<(usize, String)>,
}

/// The items a ring holds, eldest first.
pub uninterp spec fn ring_items(ring: Ring) -> Seq<Pending>;

/// The number of slots a ring was made with.
pub uninterp spec fn ring_capacity(ring: Ring) -> nat;

/// `ringbuf::HeapRb::new`: an empty ring with exactly `capacity` slots. The
/// call panics on a capacity of zero, which the precondition leaves out along
/// with sizes whose allocation could overflow.
#[verifier::external_body]
fn ring_new(capacity: usize) -> (ring: Ring)
    requires
        0 < capacity <= MAX_SLOTS,
    ensures
        ring_items(ring) == Seq::<Pending>::empty(),
        ring_capacity(ring) == capacity,
{
    Ring { inner: ringbuf::HeapRb::new(capacity) }
}

/// `Observer::capacity` on the ring: the slot count it was made with.
#[verifier::external_body]
fn ring_slots(ring: &Ring) -> (slots: usize)
    ensures
        slots == ring_capacity(*ring),
{
    ring.inner.capacity().get()
}

/// `Observer::occupied_len` on the ring: how many items it holds.
#[verifier::external_body]
fn ring_occupied_len(ring: &Ring) -> (held: usize)
    ensures
        held == ring_items(*ring).len(),
{
    ring.inner.occupied_len()
}

/// `Producer::try_push` on the ring. With a free slot the item becomes the
/// youngest and the call returns `Ok`; on a full ring nothing changes and the
/// very item comes back in `Err`.
#[verifier::external_body]
fn ring_try_push(
    ring: &mut Ring,
    address: usize,
    path: String,
) -> (outcome: Result<(), (usize, String)>)
    ensures
        ring_capacity(*final(ring)) == ring_capacity(*old(ring)),
        outcome is Ok <==> ring_items(*old(ring)).len() < ring_capacity(*old(ring)),
        outcome is Ok ==> ring_items(*final(ring)) == ring_items(*old(ring)).push((address, path@)),
        outcome matches Err(back) ==> back == (address, path) && ring_items(*final(ring))
            == ring_items(*old(ring)),
    no_unwind
{
    ring.inner.try_push((address, path))
}

/// `Consumer::try_pop` on the ring: removes and returns the eldest item, or
/// returns `None` and changes nothing when the ring is empty.
#[verifier::external_body]
fn ring_try_pop(ring: &mut Ring) -> (eldest: Option<(usize, String)>)
    ensures
        ring_capacity(*final(ring)) == ring_capacity(*old(ring)),
        eldest is Some <==> ring_items(*old(ring)).len() > 0,
        eldest matches Some(item) ==> (item.0, item.1@) == ring_items(*old(ring))[0]
            && ring_items(*final(ring)) == ring_items(*old(ring)).drop_first(),
        eldest is None ==> ring_items(*final(ring)) == ring_items(*old(ring)),
    no_unwind
{
    ring.inner.try_pop()
}

/// Whether a channel holding `held` has a free slot.
pub open spec fn has_room(held: Seq<Pending>, capacity: nat) -> bool {
    held.len() < capacity
}

/// The contents after offering `item`: appended where there is room, else
/// untouched.
pub open spec fn after_push(held: Seq<Pending>, capacity: nat, item: Pending) -> Seq<Pending> {
    if has_room(held, capacity) {
        held.push(item)
    } else {
        held
    }
}

/// The item a pop would deliver.
pub open spec fn eldest(held: Seq<Pending>) -> Option<Pending> {
    if held.len() > 0 {
        Some(held[0])
    } else {
        None
    }
}

/// The contents after a pop.
pub open spec fn after_pop(held: Seq<Pending>) -> Seq<Pending> {
    if held.len() > 0 {
        held.drop_first()
    } else {
        held
    }
}

/// The contents after offering each item of `offered` in turn, with no pop
/// in between.
pub open spec fn after_pushes(
    held: Seq<Pending>,
    capacity: nat,
    offered: Seq<Pending>,
) -> Seq<Pending>
    decreases offered.len(),
{
    if offered.len() == 0 {
        held
    } else {
        after_push(after_pushes(held, capacity, offered.drop_last()), capacity, offered.last())
    }
}

/// How many of `offered` items a channel holding `held` takes in.
pub open spec fn taken(held: Seq<Pending>, capacity: nat, offered: nat) -> nat {
    if held.len() + offered <= capacity {
        offered
    } else {
        (capacity - held.len()) as nat
    }
}

/// Bounded first-in first-out channel of loaded models.
pub struct ModelChannel {
    ring: Ring,
}

impl ModelChannel {
    #[verifier::type_invariant]
    spec fn well_formed(self) -> bool {
        &&& 1 <= ring_capacity(self.ring) <= MAX_SLOTS
        &&& ring_items(self.ring).len() <= ring_capacity(self.ring)
        &&& forall|i: int|
            0 <= i < ring_items(self.ring).len() ==> (#[trigger] ring_items(self.ring)[i]).0 != 0
    }

    /// The queued items, eldest first.
    pub closed spec fn view(&self) -> Seq<Pending> {
        ring_items(self.ring)
    }

    /// The number of slots, fixed when the channel is made.
    pub closed spec fn spec_capacity(&self) -> nat {
        ring_capacity(self.ring)
    }

    /// An empty channel with a single slot.
    pub fn new() -> (channel: ModelChannel)
        ensures
            channel@ == Seq::<Pending>::empty(),
            channel.spec_capacity() == 1,
    {
        ModelChannel { ring: ring_new(1) }
    }

    /// An empty channel with `slots` slots, for any count from one up to
    /// `MAX_SLOTS`.
    pub fn with_capacity(slots: usize) -> (channel: Option<ModelChannel>)
        ensures
            channel is Some <==> 1 <= slots <= MAX_SLOTS,
            channel matches Some(c) ==> c@ == Seq::<Pending>::empty() && c.spec_capacity() == slots,
    {
        if slots == 0 || slots > MAX_SLOTS {
            None
        } else {
            Some(ModelChannel { ring: ring_new(slots) })
        }
    }

    /// The number of slots.
    pub fn capacity(&self) -> (slots: usize)
        ensures
            slots == self.spec_capacity(),
            1 <= slots <= MAX_SLOTS,
    {
        proof {
            use_type_invariant(self);
        }
        ring_slots(&self.ring)
    }

    /// The number of queued items, never more than the capacity.
    pub fn len(&self) -> (held: usize)
        ensures
            held == self@.len(),
            held <= self.spec_capacity(),
    {
        proof {
            use_type_invariant(self);
        }
        ring_occupied_len(&self.ring)
    }

    /// Whether nothing is queued.
    pub fn is_empty(&self) -> (empty: bool)
        ensures
            empty <==> self@.len() == 0,
    {
        self.len() == 0
    }

    /// Whether the next push would be turned away.
    pub fn is_full(&self) -> (full: bool)
        ensures
            full <==> !has_room(self@, self.spec_capacity()),
            self@.len() <= self.spec_capacity(),
    {
        self.len() == self.capacity()
    }

    /// Offers `item` to the channel without waiting. With a free slot it is
    /// queued behind what is already there; on a full channel the contents
    /// stay as they are and the caller gets the item back.
    pub fn try_push(&mut self, item: LoadedModel) -> (outcome: Result<(), LoadedModel>)
        ensures
            final(self).spec_capacity() == old(self).spec_capacity(),
            final(self)@ == after_push(old(self)@, old(self).spec_capacity(), item@),
            outcome is Ok <==> has_room(old(self)@, old(self).spec_capacity()),
            outcome matches Err(back) ==> back@ == item@,
    {
        proof {
            use_type_invariant(&*self);
        }
        let LoadedModel { model, path } = item;
        let address: usize = model.address();
        match ring_try_push(&mut self.ring, address, path) {
            Ok(()) => Ok(()),
            Err((back_address, back_path)) => Err(
                LoadedModel { model: Model::adopt(back_address), path: back_path },
            ),
        }
    }

    /// Takes the eldest queued item without waiting, or reports that nothing
    /// is pending.
    pub fn try_pop(&mut self) -> (popped: Option<LoadedModel>)
        ensures
            final(self).spec_capacity() == old(self).spec_capacity(),
            final(self)@ == after_pop(old(self)@),
            match popped {
                Some(item) => eldest(old(self)@) == Some(item@),
                None => eldest(old(self)@) is None,
            },
    {
        proof {
            use_type_invariant(&*self);
        }
        match ring_try_pop(&mut self.ring) {
            Some((address, path)) => Some(LoadedModel { model: Model::adopt(address), path }),
            None => None,
        }
    }

    /// Empties the channel and returns what it held, eldest first.
    pub fn drain(&mut self) -> (drained: Vec<LoadedModel>)
        ensures
            final(self).spec_capacity() == old(self).spec_capacity(),
            final(self)@ == Seq::<Pending>::empty(),
            drained@.len() == old(self)@.len(),
            forall|i: int| 0 <= i < drained@.len() ==> (#[trigger] drained@[i])@ == old(self)@[i],
    {
        let mut drained: Vec<LoadedModel> = Vec::new();
        loop
            invariant
                self.spec_capacity() == old(self).spec_capacity(),
                drained@.len() + self@.len() == old(self)@.len(),
                forall|i: int|
                    0 <= i < drained@.len() ==> (#[trigger] drained@[i])@ == old(self)@[i],
                forall|i: int|
                    0 <= i < self@.len() ==> self@[i] == old(self)@[drained@.len() + i],
            ensures
                self@.len() == 0,
            decreases self@.len(),
        {
            match self.try_pop() {
                Some(item) => {
                    drained.push(item);
                },
                None => {
                    break ;
                },
            }
        }
        drained
    }
}

/// A run of pushes with no pop in between fills the free slots with the
/// first items offered, in the order offered, and leaves everything else as
/// it was: no later item replaces a queued one.
pub proof fn lemma_pushes_keep_the_first(held: Seq<Pending>, capacity: nat, offered: Seq<Pending>)
    requires
        held.len() <= capacity,
    ensures
        after_pushes(held, capacity, offered) == held + offered.take(
            taken(held, capacity, offered.len()) as int,
        ),
    decreases offered.len(),
{
    if offered.len() > 0 {
        let earlier = offered.drop_last();
        lemma_pushes_keep_the_first(held, capacity, earlier);
        let kept: nat = taken(held, capacity, earlier.len());
        assert(earlier.take(kept as int) == offered.take(kept as int));
        if held.len() + earlier.len() < capacity {
            assert(offered.take(kept as int).push(offered.last()) == offered.take(kept as int + 1));
        }
    }
}

/// In a run of pushes with no pop in between, the push at position `k` is
/// accepted exactly while free slots remain: once the channel is full, every
/// further push is turned away.
pub proof fn lemma_push_accepted_while_room(
    held: Seq<Pending>,
    capacity: nat,
    offered: Seq<Pending>,
    k: int,
)
    requires
        held.len() <= capacity,
        0 <= k < offered.len(),
    ensures
        has_room(after_pushes(held, capacity, offered.take(k)), capacity) <==> held.len() + k
            < capacity,
{
    lemma_pushes_keep_the_first(held, capacity, offered.take(k));
}

/// On an empty single-slot channel, of any run of pushes with no pop in
/// between only the first succeeds, and it is the first item that a pop then
/// finds.
pub proof fn lemma_single_slot_takes_one(offered: Seq<Pending>, k: int)
    requires
        0 <= k < offered.len(),
    ensures
        has_room(after_pushes(Seq::empty(), 1, offered.take(k)), 1) <==> k == 0,
        after_pushes(Seq::empty(), 1, offered) == seq![offered[0]],
        eldest(after_pushes(Seq::empty(), 1, offered)) == Some(offered[0]),
{
    lemma_push_accepted_while_room(Seq::empty(), 1, offered, k);
    lemma_pushes_keep_the_first(Seq::empty(), 1, offered);
    assert(Seq::<Pending>::empty() + offered.take(1) == seq![offered[0]]);
}

/// What is pushed into an empty channel is what the next pop returns, and the
/// pop after that finds nothing. A push that a single-slot channel accepts
/// always finds it empty.
pub proof fn lemma_push_then_pop_returns_the_item(capacity: nat, item: Pending)
    requires
        capacity >= 1,
    ensures
        has_room(Seq::empty(), capacity),
        eldest(after_push(Seq::empty(), capacity, item)) == Some(item),
        after_pop(after_push(Seq::empty(), capacity, item)) == Seq::<Pending>::empty(),
        eldest(after_pop(after_push(Seq::empty(), capacity, item))) is None,
{
}

/// A channel hands its items out in the order in which it took them in.
pub proof fn lemma_first_in_first_out(held: Seq<Pending>, capacity: nat, item: Pending)
    requires
        held.len() > 0,
        has_room(held, capacity),
    ensures
        eldest(after_push(held, capacity, item)) == eldest(held),
        after_pop(after_push(held, capacity, item)) == after_push(after_pop(held), capacity, item),
{
}

} // verus!
