//! The broadcast bus: one producer, any number of consumers, and a ring of
//! bounded size between them.
//!
//! Every update gets the next sequence number. The ring keeps the newest
//! updates, as many as its capacity; each consumer has a cursor, the
//! sequence number it reads next. A consumer whose cursor has fallen behind
//! the ring is told how many updates it missed and goes on with the oldest
//! that is left. The producer never waits for a consumer.

use vstd::prelude::*;

use std::collections::VecDeque;

use crate::error::BusError;
use crate::message::Update;
use crate::message::UpdateView;

verus! {

/// The capacity of the bus that [`Bus::default`] makes.
pub const DEFAULT_CAPACITY: usize = 16;

/// The mathematical content of a [`Bus`].
pub struct BusView {
    /// How many updates the ring keeps.
    pub capacity: nat,
    /// Every update that was published, oldest first. The position of an
    /// update is its sequence number.
    pub history: Seq<UpdateView>,
    /// The cursor of each consumer slot; `None` for a free slot.
    pub cursors: Seq<Option<nat>>,
    /// The bus is shut down.
    pub closed: bool,
}

impl BusView {
    /// The sequence number of the oldest update that the ring still keeps.
    pub open spec fn head(self) -> nat {
        if self.history.len() > self.capacity {
            (self.history.len() - self.capacity) as nat
        } else {
            0
        }
    }

    /// The updates that the ring keeps, oldest first.
    pub open spec fn retained(self) -> Seq<UpdateView> {
        self.history.subrange(self.head() as int, self.history.len() as int)
    }

    /// A consumer holds the slot.
    pub open spec fn is_subscribed(self, slot: int) -> bool {
        0 <= slot < self.cursors.len() && self.cursors[slot] is Some
    }

    /// The cursor of the consumer in the slot.
    pub open spec fn cursor(self, slot: int) -> nat {
        self.cursors[slot]->0
    }

    /// The state is one that a bus can be in: no cursor is ahead of the
    /// producer, and the sequence numbers fit in 64 bits.
    pub open spec fn wf(self) -> bool {
        &&& self.history.len() <= u64::MAX
        &&& forall|slot: int| self.is_subscribed(slot) ==> self.cursor(slot) <= self.history.len()
    }

    /// The bus takes another update: it is open and has sequence numbers
    /// left.
    pub open spec fn accepts(self) -> bool {
        !self.closed && self.history.len() < u64::MAX
    }

    /// The state after the producer published `update`. A bus that does not
    /// accept it is shut down from then on.
    pub open spec fn publish(self, update: UpdateView) -> BusView {
        if self.accepts() {
            BusView { history: self.history.push(update), ..self }
        } else {
            BusView { closed: true, ..self }
        }
    }

    /// The state after a new consumer took the slot: it starts at the
    /// current end of the history.
    pub open spec fn subscribe(self, slot: int) -> BusView {
        let cursor = Some(self.history.len());
        if slot == self.cursors.len() {
            BusView { cursors: self.cursors.push(cursor), ..self }
        } else {
            BusView { cursors: self.cursors.update(slot, cursor), ..self }
        }
    }

    /// The state after the consumer in the slot left.
    pub open spec fn unsubscribe(self, slot: int) -> BusView {
        if 0 <= slot < self.cursors.len() {
            BusView { cursors: self.cursors.update(slot, None), ..self }
        } else {
            self
        }
    }

    /// The state after the bus was shut down.
    pub open spec fn close(self) -> BusView {
        BusView { closed: true, ..self }
    }

    /// What the consumer in the slot is given when it asks: an update, the
    /// notice that it lagged, the notice that the bus is closed, or `None`
    /// where it has to wait.
    pub open spec fn delivery(self, slot: int) -> Option<Result<UpdateView, BusError>> {
        if !self.is_subscribed(slot) {
            Some(Err(BusError::Closed))
        } else if self.cursor(slot) < self.head() {
            Some(Err(BusError::Lagged { skipped: (self.head() - self.cursor(slot)) as u64 }))
        } else if self.cursor(slot) < self.history.len() {
            Some(Ok(self.history[self.cursor(slot) as int]))
        } else if self.closed {
            Some(Err(BusError::Closed))
        } else {
            None
        }
    }

    /// The state after the consumer in the slot asked: its cursor moved past
    /// what it was given, or up to the oldest update that is left.
    pub open spec fn after_delivery(self, slot: int) -> BusView {
        if !self.is_subscribed(slot) {
            self
        } else if self.cursor(slot) < self.head() {
            BusView { cursors: self.cursors.update(slot, Some(self.head())), ..self }
        } else if self.cursor(slot) < self.history.len() {
            BusView {
                cursors: self.cursors.update(slot, Some((self.cursor(slot) + 1) as nat)),
                ..self
            }
        } else {
            self
        }
    }

    /// The state after the producer published `updates`, one after the other.
    pub open spec fn publish_all(self, updates: Seq<UpdateView>) -> BusView
        decreases updates.len(),
    {
        if updates.len() == 0 {
            self
        } else {
            self.publish_all(updates.drop_last()).publish(updates.last())
        }
    }

    /// The state after the consumer in the slot asked `times` times.
    pub open spec fn after_deliveries(self, slot: int, times: nat) -> BusView
        decreases times,
    {
        if times == 0 {
            self
        } else {
            self.after_deliveries(slot, (times - 1) as nat).after_delivery(slot)
        }
    }
}

/// Publishing moves no cursor, and on a bus that stays open with sequence
/// numbers to spare it appends the updates to the history in their order.
pub proof fn lemma_publish_all(bus: BusView, updates: Seq<UpdateView>)
    requires
        bus.wf(),
    ensures
        bus.publish_all(updates).wf(),
        bus.publish_all(updates).cursors == bus.cursors,
        bus.publish_all(updates).capacity == bus.capacity,
        !bus.closed && bus.history.len() + updates.len() <= u64::MAX ==> bus.publish_all(
            updates,
        ).history == bus.history + updates && !bus.publish_all(updates).closed,
    decreases updates.len(),
{
    if updates.len() > 0 {
        lemma_publish_all(bus, updates.drop_last());
        let before = bus.publish_all(updates.drop_last());
        let after = before.publish(updates.last());
        assert forall|slot: int| after.is_subscribed(slot) implies after.cursor(slot)
            <= after.history.len() by {
            assert(before.is_subscribed(slot));
        }
        if !bus.closed && bus.history.len() + updates.len() <= u64::MAX {
            assert((bus.history + updates.drop_last()).push(updates.last()) =~= bus.history
                + updates);
        }
    }
}

/// A consumer that has fallen behind the ring is told exactly how many
/// updates it missed, and stands at the oldest update that is left.
pub proof fn lemma_lagged(bus: BusView, slot: int)
    requires
        bus.wf(),
        bus.is_subscribed(slot),
        bus.cursor(slot) + bus.capacity < bus.history.len(),
    ensures
        bus.delivery(slot) == Some(
            Err::<UpdateView, BusError>(
                BusError::Lagged {
                    skipped: (bus.history.len() - bus.capacity - bus.cursor(slot)) as u64,
                },
            ),
        ),
        bus.after_delivery(slot).is_subscribed(slot),
        bus.after_delivery(slot).cursor(slot) == bus.history.len() - bus.capacity,
        bus.after_delivery(slot).history == bus.history,
        bus.after_delivery(slot).wf(),
{
    let after = bus.after_delivery(slot);
    assert forall|other: int| after.is_subscribed(other) implies after.cursor(other)
        <= after.history.len() by {
        if other != slot {
            assert(bus.is_subscribed(other));
        }
    }
}

/// A consumer that is within the ring is given the updates from its cursor
/// on, one for each time it asks, in the order in which they were published.
pub proof fn lemma_delivered_in_order(bus: BusView, slot: int, times: nat)
    requires
        bus.wf(),
        bus.is_subscribed(slot),
        bus.head() <= bus.cursor(slot),
        bus.cursor(slot) + times <= bus.history.len(),
    ensures
        bus.after_deliveries(slot, times).wf(),
        bus.after_deliveries(slot, times).history == bus.history,
        bus.after_deliveries(slot, times).capacity == bus.capacity,
        bus.after_deliveries(slot, times).closed == bus.closed,
        bus.after_deliveries(slot, times).is_subscribed(slot),
        bus.after_deliveries(slot, times).cursor(slot) == bus.cursor(slot) + times,
        bus.cursor(slot) + times < bus.history.len() ==> bus.after_deliveries(slot, times).delivery(
            slot,
        ) == Some(Ok::<UpdateView, BusError>(bus.history[(bus.cursor(slot) + times) as int])),
    decreases times,
{
    if times > 0 {
        lemma_delivered_in_order(bus, slot, (times - 1) as nat);
        let before = bus.after_deliveries(slot, (times - 1) as nat);
        let after = before.after_delivery(slot);
        assert forall|other: int| after.is_subscribed(other) implies after.cursor(other)
            <= after.history.len() by {
            if other != slot {
                assert(before.is_subscribed(other));
            }
        }
    }
}

/// A consumer that asks for nothing while more updates are published than
/// the ring keeps is told, the next time it asks, how many it missed: all
/// that were published since its cursor but the newest `capacity`. After
/// that it is given those newest updates, in the order of publication.
pub proof fn lemma_idle_consumer_lags(bus: BusView, slot: int, updates: Seq<UpdateView>, k: nat)
    requires
        bus.wf(),
        bus.is_subscribed(slot),
        !bus.closed,
        bus.history.len() + updates.len() <= u64::MAX,
        bus.cursor(slot) + bus.capacity < bus.history.len() + updates.len(),
        k < bus.capacity,
    ensures
        ({
            let later = bus.publish_all(updates);
            let all = bus.history + updates;
            let missed = all.len() - bus.capacity - bus.cursor(slot);
            &&& later.delivery(slot) == Some(
                Err::<UpdateView, BusError>(BusError::Lagged { skipped: missed as u64 }),
            )
            &&& later.after_delivery(slot).after_deliveries(slot, k).delivery(slot) == Some(
                Ok::<UpdateView, BusError>(all[all.len() - bus.capacity + k]),
            )
        }),
{
    let later = bus.publish_all(updates);
    lemma_publish_all(bus, updates);
    lemma_lagged(later, slot);
    lemma_delivered_in_order(later.after_delivery(slot), slot, k);
}

/// A consumer that leaves changes nothing for another: the other is given
/// what it would have been given, and ends where it would have ended.
pub proof fn lemma_unsubscribe_is_local(bus: BusView, leaving: int, other: int)
    requires
        leaving != other,
    ensures
        bus.unsubscribe(leaving).delivery(other) == bus.delivery(other),
        bus.unsubscribe(leaving).after_delivery(other) == bus.after_delivery(other).unsubscribe(
            leaving,
        ),
        bus.unsubscribe(leaving).history == bus.history,
        bus.unsubscribe(leaving).closed == bus.closed,
{
    let left = bus.unsubscribe(leaving);
    assert(left.after_delivery(other).cursors =~= bus.after_delivery(other).unsubscribe(
        leaving,
    ).cursors);
}

/// What a consumer was given, as the model of the bus states it.
pub open spec fn delivered(given: Option<Result<Update, BusError>>) -> Option<
    Result<UpdateView, BusError>,
> {
    match given {
        Some(Ok(update)) => Some(Ok(update@)),
        Some(Err(e)) => Some(Err(e)),
        None => None,
    }
}

/// The right to read from a bus as one consumer. It is given up by
/// [`Bus::unsubscribe`].
#[derive(Debug)]
pub struct ConsumerHandle {
    slot: usize,
}

impl ConsumerHandle {
    /// The slot that the consumer holds.
    pub closed spec fn slot(self) -> int {
        self.slot as int
    }
}

/// The state of a bus: the ring, the cursors and the sequence numbers.
struct Ring {
    capacity: usize,
    ring: VecDeque<Update>,
    published: u64,
    cursors: Vec<Option<u64>>,
    closed: bool,
    history: Ghost<Seq<UpdateView>>,
}

impl View for Ring {
    type V = BusView;

    closed spec fn view(&self) -> BusView {
        BusView {
            capacity: self.capacity as nat,
            history: self.history@,
            cursors: Seq::new(
                self.cursors@.len(),
                |i: int|
                    match self.cursors@[i] {
                        Some(c) => Some(c as nat),
                        None => None,
                    },
            ),
            closed: self.closed,
        }
    }
}

impl Ring {
    /// The state is in order: its view is well formed and its ring holds the
    /// newest updates of its history.
    spec fn wf(self) -> bool {
        &&& self@.wf()
        &&& self.published == self.history@.len()
        &&& self.ring@.len() == self@.retained().len()
        &&& forall|i: int| 0 <= i < self.ring@.len() ==> (#[trigger] self.ring@[i])@ == self@.retained()[i]
    }

    /// An open bus without consumers that keeps `capacity` updates.
    fn new(capacity: usize) -> (r: Ring)
        ensures
            r.wf(),
            r@ == (BusView {
                capacity: capacity as nat,
                history: Seq::empty(),
                cursors: Seq::empty(),
                closed: false,
            }),
    {
        let r = Ring {
            capacity,
            ring: VecDeque::new(),
            published: 0,
            cursors: Vec::new(),
            closed: false,
            history: Ghost(Seq::empty()),
        };
        assert(r@.cursors =~= Seq::empty());
        r
    }

    /// Publishes an update to every consumer, without waiting for any. On a
    /// bus that is shut down, and on one that has run out of sequence
    /// numbers and is shut down by this, nothing is published.
    fn publish(&mut self, update: Update) -> (r: Result<(), BusError>)
        requires
            old(self).wf(),
        ensures
            final(self).wf(),
            final(self)@ == old(self)@.publish(update@),
            r is Ok <==> old(self)@.accepts(),
            r is Err ==> r == Err::<(), BusError>(BusError::Closed),
    {
        if self.closed || self.published == u64::MAX {
            self.closed = true;
            return Err(BusError::Closed);
        }
        let ghost before = self@;
        let ghost kept = self.ring@;
        if self.capacity == 0 {
            proof {
                self.history@ = self.history@.push(update@);
            }
            self.published = self.published + 1;
        } else {
            if self.ring.len() >= self.capacity {
                self.ring.pop_front();
            }
            proof {
                self.history@ = self.history@.push(update@);
            }
            self.ring.push_back(update);
            self.published = self.published + 1;
            assert forall|i: int| 0 <= i < self.ring@.len() implies (#[trigger] self.ring@[i])@
                == self@.retained()[i] by {
                if i < self.ring@.len() - 1 {
                    let j = i + (kept.len() + 1 - self.ring@.len());
                }
            }
        }
        assert forall|slot: int| self@.is_subscribed(slot) implies self@.cursor(slot)
            <= self@.history.len() by {
            assert(before.is_subscribed(slot));
        }
        Ok(())
    }

    /// Registers a consumer in the first free slot. It is given the updates
    /// that are published from now on.
    fn subscribe(&mut self) -> (handle: ConsumerHandle)
        requires
            old(self).wf(),
        ensures
            final(self).wf(),
            !old(self)@.is_subscribed(handle.slot()),
            0 <= handle.slot() <= old(self)@.cursors.len(),
            forall|slot: int| 0 <= slot < handle.slot() ==> old(self)@.is_subscribed(slot),
            final(self)@ == old(self)@.subscribe(handle.slot()),
    {
        let ghost before = self@;
        let mut slot: usize = 0;
        while slot < self.cursors.len()
            invariant
                slot <= self.cursors.len(),
                self@ == before,
                self.wf(),
                forall|j: int| 0 <= j < slot ==> before.is_subscribed(j),
            ensures
                slot < self.cursors.len() ==> self.cursors@[slot as int] is None,
            decreases self.cursors.len() - slot,
        {
            if self.cursors[slot].is_none() {
                break ;
            }
            slot += 1;
        }
        if slot < self.cursors.len() {
            self.cursors.set(slot, Some(self.published));
        } else {
            self.cursors.push(Some(self.published));
        }
        assert(self@.cursors =~= before.subscribe(slot as int).cursors);
        assert forall|other: int| self@.is_subscribed(other) implies self@.cursor(other)
            <= self@.history.len() by {
            if other != slot {
                assert(before.is_subscribed(other));
            }
        }
        ConsumerHandle { slot }
    }

    /// Gives the consumer its next update, or the notice that it lagged or
    /// that the bus is closed. `None` means that nothing is there yet: the
    /// consumer waits for the next publication or the shutdown and asks
    /// again. A handle that this bus does not know is told that the bus is
    /// closed.
    fn next(&mut self, handle: &ConsumerHandle) -> (r: Option<Result<Update, BusError>>)
        requires
            old(self).wf(),
        ensures
            final(self).wf(),
            delivered(r) == old(self)@.delivery(handle.slot()),
            final(self)@ == old(self)@.after_delivery(handle.slot()),
    {
        let ghost before = self@;
        let slot = handle.slot;
        if slot >= self.cursors.len() {
            return Some(Err(BusError::Closed));
        }
        let cursor = match self.cursors[slot] {
            Some(cursor) => cursor,
            None => {
                return Some(Err(BusError::Closed));
            },
        };
        let kept: u64 = self.ring.len() as u64;
        let head: u64 = self.published - kept;
        if cursor < head {
            self.cursors.set(slot, Some(head));
            assert(self@.cursors =~= before.after_delivery(slot as int).cursors);
            assert forall|other: int| self@.is_subscribed(other) implies self@.cursor(other)
                <= self@.history.len() by {
                if other != slot {
                    assert(before.is_subscribed(other));
                }
            }
            return Some(Err(BusError::Lagged { skipped: head - cursor }));
        }
        if cursor < self.published {
            let update = self.ring[(cursor - head) as usize].clone();
            self.cursors.set(slot, Some(cursor + 1));
            assert(self@.cursors =~= before.after_delivery(slot as int).cursors);
            assert forall|other: int| self@.is_subscribed(other) implies self@.cursor(other)
                <= self@.history.len() by {
                if other != slot {
                    assert(before.is_subscribed(other));
                }
            }
            return Some(Ok(update));
        }
        if self.closed {
            Some(Err(BusError::Closed))
        } else {
            None
        }
    }

    /// Releases the slot of a consumer. Nothing changes for the producer or
    /// for any other consumer.
    fn unsubscribe(&mut self, handle: ConsumerHandle)
        requires
            old(self).wf(),
        ensures
            final(self).wf(),
            final(self)@ == old(self)@.unsubscribe(handle.slot()),
    {
        let ghost before = self@;
        let slot = handle.slot;
        if slot < self.cursors.len() {
            self.cursors.set(slot, None);
            assert(self@.cursors =~= before.unsubscribe(slot as int).cursors);
            assert forall|other: int| self@.is_subscribed(other) implies self@.cursor(other)
                <= self@.history.len() by {
                assert(before.is_subscribed(other));
            }
        }
    }

    /// Shuts the bus down for good. Consumers still get what the ring
    /// holds for them, and then the notice that the bus is closed.
    fn close(&mut self)
        requires
            old(self).wf(),
        ensures
            final(self).wf(),
            final(self)@ == old(self)@.close(),
    {
        let ghost before = self@;
        self.closed = true;
        assert forall|slot: int| self@.is_subscribed(slot) implies self@.cursor(slot)
            <= self@.history.len() by {
            assert(before.is_subscribed(slot));
        }
    }

    /// How many updates the ring keeps.
    fn capacity(&self) -> (r: usize)
        ensures
            r == self@.capacity,
    {
        self.capacity
    }

    /// How many updates were published.
    fn published(&self) -> (r: u64)
        requires
            self.wf(),
        ensures
            r == self@.history.len(),
    {
        self.published
    }

    /// Whether the bus is shut down.
    fn is_closed(&self) -> (r: bool)
        ensures
            r == self@.closed,
    {
        self.closed
    }
}

/// A broadcast bus. Every operation takes the state out, changes it and
/// puts it back, so that the bus is in order whenever it can be looked at.
pub struct Bus {
    state: Ring,
}

impl View for Bus {
    type V = BusView;

    closed spec fn view(&self) -> BusView {
        self.state@
    }
}

impl Bus {
    #[verifier::type_invariant]
    spec fn in_order(self) -> bool {
        self.state.wf()
    }

    /// An open bus without consumers that keeps `capacity` updates.
    pub fn new(capacity: usize) -> (r: Bus)
        ensures
            r@ == (BusView {
                capacity: capacity as nat,
                history: Seq::empty(),
                cursors: Seq::empty(),
                closed: false,
            }),
    {
        Bus { state: Ring::new(capacity) }
    }

    /// Publishes an update to every consumer, without waiting for any. On a
    /// bus that is shut down, and on one that has run out of sequence
    /// numbers and is shut down by this, nothing is published.
    pub fn publish(&mut self, update: Update) -> (r: Result<(), BusError>)
        ensures
            final(self)@ == old(self)@.publish(update@),
            r is Ok <==> old(self)@.accepts(),
            r is Err ==> r == Err::<(), BusError>(BusError::Closed),
            old(self)@.wf() && final(self)@.wf(),
    {
        proof {
            use_type_invariant(&*self);
        }
        let mut state = Ring::new(0);
        core::mem::swap(&mut self.state, &mut state);
        let r = state.publish(update);
        core::mem::swap(&mut self.state, &mut state);
        r
    }

    /// Registers a consumer in the first free slot. It is given the updates
    /// that are published from now on.
    pub fn subscribe(&mut self) -> (handle: ConsumerHandle)
        ensures
            !old(self)@.is_subscribed(handle.slot()),
            0 <= handle.slot() <= old(self)@.cursors.len(),
            forall|slot: int| 0 <= slot < handle.slot() ==> old(self)@.is_subscribed(slot),
            final(self)@ == old(self)@.subscribe(handle.slot()),
            old(self)@.wf() && final(self)@.wf(),
    {
        proof {
            use_type_invariant(&*self);
        }
        let mut state = Ring::new(0);
        core::mem::swap(&mut self.state, &mut state);
        let handle = state.subscribe();
        core::mem::swap(&mut self.state, &mut state);
        handle
    }

    /// Gives the consumer its next update, or the notice that it lagged or
    /// that the bus is closed. `None` means that nothing is there yet: the
    /// consumer waits for the next publication or the shutdown and asks
    /// again. A handle whose slot is free is told that the bus is closed.
    pub fn next(&mut self, handle: &ConsumerHandle) -> (r: Option<Result<Update, BusError>>)
        ensures
            delivered(r) == old(self)@.delivery(handle.slot()),
            final(self)@ == old(self)@.after_delivery(handle.slot()),
            old(self)@.wf() && final(self)@.wf(),
    {
        proof {
            use_type_invariant(&*self);
        }
        let mut state = Ring::new(0);
        core::mem::swap(&mut self.state, &mut state);
        let r = state.next(handle);
        core::mem::swap(&mut self.state, &mut state);
        r
    }

    /// Releases the slot of a consumer. Nothing changes for the producer or
    /// for any other consumer.
    pub fn unsubscribe(&mut self, handle: ConsumerHandle)
        ensures
            final(self)@ == old(self)@.unsubscribe(handle.slot()),
            old(self)@.wf() && final(self)@.wf(),
    {
        proof {
            use_type_invariant(&*self);
        }
        let mut state = Ring::new(0);
        core::mem::swap(&mut self.state, &mut state);
        state.unsubscribe(handle);
        core::mem::swap(&mut self.state, &mut state);
    }

    /// Shuts the bus down for good. Consumers still get what the ring
    /// holds for them, and then the notice that the bus is closed.
    pub fn close(&mut self)
        ensures
            final(self)@ == old(self)@.close(),
            old(self)@.wf() && final(self)@.wf(),
    {
        proof {
            use_type_invariant(&*self);
        }
        let mut state = Ring::new(0);
        core::mem::swap(&mut self.state, &mut state);
        state.close();
        core::mem::swap(&mut self.state, &mut state);
    }

    /// How many updates the ring keeps.
    pub fn capacity(&self) -> (r: usize)
        ensures
            r == self@.capacity,
    {
        self.state.capacity()
    }

    /// How many updates were published.
    pub fn published(&self) -> (r: u64)
        ensures
            r == self@.history.len(),
    {
        proof {
            use_type_invariant(self);
        }
        self.state.published()
    }

    /// Whether the bus is shut down.
    pub fn is_closed(&self) -> (r: bool)
        ensures
            r == self@.closed,
    {
        self.state.is_closed()
    }
}

impl Default for Bus {
    fn default() -> (r: Bus)
        ensures
            r@ == (BusView {
                capacity: DEFAULT_CAPACITY as nat,
                history: Seq::empty(),
                cursors: Seq::empty(),
                closed: false,
            }),
    {
        Bus::new(DEFAULT_CAPACITY)
    }
}

} // verus!
