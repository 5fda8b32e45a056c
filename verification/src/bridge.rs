use std::collections::VecDeque;
use vstd::prelude::*;

verus! {

/// How many payloads of one event kind may wait to be received.
pub const CHANNEL_BUFFER_SIZE: usize = 100;

/// What a receiver finds when it looks into its queue.
#[derive(Debug, PartialEq, Eq)]
pub enum Received<T> {
    /// The oldest payload that had not been received yet.
    Item(T),
    /// Nothing is queued, but the event may still fire.
    Pending,
    /// Nothing is queued and the event will never fire again.
    Closed,
}

/// The outcome of looking at a wait without suspending: either it has
/// resolved, or the caller has to come back after the next event.
#[derive(Debug, PartialEq, Eq)]
pub enum Wait<T> {
    Ready(T),
    Pending,
}

/// The payloads of one event kind that have fired and were not received yet,
/// oldest first, and whether the side that registered the event is gone.
pub struct QueueView<T> {
    pub items: Seq<T>,
    pub closed: bool,
}

impl<T> QueueView<T> {
    /// A queue as registration leaves it: empty and open.
    pub open spec fn new() -> Self {
        QueueView { items: Seq::empty(), closed: false }
    }

    /// No more payloads wait than the buffer holds.
    pub open spec fn wf(self) -> bool {
        self.items.len() <= CHANNEL_BUFFER_SIZE
    }

    /// A payload that fires now is queued rather than dropped.
    pub open spec fn accepts(self) -> bool {
        !self.closed && self.items.len() < CHANNEL_BUFFER_SIZE
    }

    /// The queue after the event fired with `payload`.
    pub open spec fn fire(self, payload: T) -> Self {
        if self.accepts() {
            QueueView { items: self.items.push(payload), closed: self.closed }
        } else {
            self
        }
    }

    /// The queue after the event fired with each of `payloads` in turn.
    pub open spec fn fire_all(self, payloads: Seq<T>) -> Self
        decreases payloads.len(),
    {
        if payloads.len() == 0 {
            self
        } else {
            self.fire(payloads[0]).fire_all(payloads.drop_first())
        }
    }

    /// The queue after the registering side is gone.
    pub open spec fn close(self) -> Self {
        QueueView { items: self.items, closed: true }
    }

    /// What the next receive returns.
    pub open spec fn received(self) -> Received<T> {
        if self.items.len() > 0 {
            Received::Item(self.items[0])
        } else if self.closed {
            Received::Closed
        } else {
            Received::Pending
        }
    }

    /// The queue after the next receive.
    pub open spec fn after_receive(self) -> Self {
        if self.items.len() > 0 {
            QueueView { items: self.items.drop_first(), closed: self.closed }
        } else {
            self
        }
    }

    /// What the next `n` receives return, in order.
    pub open spec fn receive_many(self, n: nat) -> Seq<Received<T>>
        decreases n,
    {
        if n == 0 {
            Seq::empty()
        } else {
            seq![self.received()] + self.after_receive().receive_many((n - 1) as nat)
        }
    }
}

/// `payloads`, each as the item a receive returns.
pub open spec fn as_items<T>(payloads: Seq<T>) -> Seq<Received<T>> {
    Seq::new(payloads.len(), |i: int| Received::Item(payloads[i]))
}

/// Firing a sequence of payloads on an open queue appends them in firing
/// order; once the buffer is full the rest is dropped. A closed queue takes
/// none.
pub proof fn lemma_fire_all<T>(queue: QueueView<T>, payloads: Seq<T>)
    requires
        queue.wf(),
    ensures
        queue.fire_all(payloads).wf(),
        queue.fire_all(payloads).closed == queue.closed,
        queue.closed ==> queue.fire_all(payloads) == queue,
        !queue.closed && queue.items.len() + payloads.len() <= CHANNEL_BUFFER_SIZE
            ==> queue.fire_all(payloads).items == queue.items + payloads,
        !queue.closed && queue.items.len() + payloads.len() > CHANNEL_BUFFER_SIZE
            ==> queue.fire_all(payloads).items == (queue.items + payloads).take(
            CHANNEL_BUFFER_SIZE as int,
        ),
    decreases payloads.len(),
{
    if payloads.len() == 0 {
        assert(queue.items + payloads == queue.items);
    } else {
        let next = queue.fire(payloads[0]);
        let rest = payloads.drop_first();
        lemma_fire_all(next, rest);
        if !queue.closed {
            if queue.accepts() {
                assert(next.items + rest == queue.items + payloads);
            } else {
                assert(next.items + rest == queue.items + rest);
                assert((queue.items + rest).take(CHANNEL_BUFFER_SIZE as int) == queue.items);
                assert((queue.items + payloads).take(CHANNEL_BUFFER_SIZE as int) == queue.items);
            }
        }
    }
}

/// Receives return what waits in the queue, oldest first.
pub proof fn lemma_receive_many<T>(queue: QueueView<T>, n: nat)
    requires
        n <= queue.items.len(),
    ensures
        queue.receive_many(n) == as_items(queue.items.take(n as int)),
    decreases n,
{
    if n > 0 {
        let rest = queue.after_receive();
        lemma_receive_many(rest, (n - 1) as nat);
        assert(rest.items.take(n - 1) == queue.items.take(n as int).drop_first());
    }
}

/// Delivery is first in, first out: payloads that fire on an open queue with
/// room for them are received, after what already waited, in the order in
/// which they fired.
pub proof fn lemma_fifo_delivery<T>(queue: QueueView<T>, payloads: Seq<T>)
    requires
        queue.wf(),
        !queue.closed,
        queue.items.len() + payloads.len() <= CHANNEL_BUFFER_SIZE,
    ensures
        queue.fire_all(payloads).receive_many(queue.items.len() + payloads.len()) == as_items(
            queue.items + payloads,
        ),
{
    lemma_fire_all(queue, payloads);
    let fired = queue.fire_all(payloads);
    lemma_receive_many(fired, fired.items.len());
    assert(fired.items.take(fired.items.len() as int) == fired.items);
}

/// The bounded first-in-first-out queue between one event of the provider and
/// the one consumer that waits for it.
pub struct EventQueue<T> {
    items: VecDeque<T>,
    closed: bool,
}

impl<T> View for EventQueue<T> {
    type V = QueueView<T>;

    closed spec fn view(&self) -> QueueView<T> {
        QueueView { items: self.items@, closed: self.closed }
    }
}

impl<T> EventQueue<T> {
    /// No more payloads wait than the buffer holds.
    #[verifier::type_invariant]
    spec fn bounded(self) -> bool {
        self@.wf()
    }

    /// Registers an event: its queue starts empty and open.
    pub fn new() -> (queue: Self)
        ensures
            queue@ == QueueView::<T>::new(),
            queue@.wf(),
    {
        EventQueue { items: VecDeque::new(), closed: false }
    }

    /// The event fires with `payload`. Never blocks: where the queue is full
    /// or closed the payload is dropped, and the result says so.
    pub fn fire(&mut self, payload: T) -> (queued: bool)
        ensures
            queued == old(self)@.accepts(),
            final(self)@ == old(self)@.fire(payload),
            final(self)@.wf(),
    {
        proof {
            use_type_invariant(&*self);
        }
        if self.closed || self.items.len() >= CHANNEL_BUFFER_SIZE {
            false
        } else {
            // The payloads are taken out while they change, so that the
            // bound holds of the queue at every point.
            let mut items = VecDeque::new();
            std::mem::swap(&mut items, &mut self.items);
            items.push_back(payload);
            self.items = items;
            true
        }
    }

    /// Takes the oldest payload, if one waits.
    pub fn receive(&mut self) -> (received: Received<T>)
        ensures
            received == old(self)@.received(),
            final(self)@ == old(self)@.after_receive(),
            final(self)@.wf(),
    {
        proof {
            use_type_invariant(&*self);
        }
        let mut items = VecDeque::new();
        std::mem::swap(&mut items, &mut self.items);
        let oldest = items.pop_front();
        self.items = items;
        match oldest {
            Some(payload) => Received::Item(payload),
            None => if self.closed {
                Received::Closed
            } else {
                Received::Pending
            },
        }
    }

    /// The registering side is gone: the event never fires again. Payloads
    /// that wait can still be received.
    pub fn close(&mut self)
        ensures
            final(self)@ == old(self)@.close(),
            final(self)@.wf(),
    {
        proof {
            use_type_invariant(&*self);
        }
        self.closed = true;
    }

    /// How many payloads wait: never more than the buffer holds.
    pub fn len(&self) -> (n: usize)
        ensures
            n == self@.items.len(),
            n <= CHANNEL_BUFFER_SIZE,
    {
        proof {
            use_type_invariant(self);
        }
        self.items.len()
    }

    /// Whether no payload waits.
    pub fn is_empty(&self) -> (r: bool)
        ensures
            r == (self@.items.len() == 0),
    {
        self.items.len() == 0
    }

    /// Whether the registering side is gone.
    pub fn is_closed(&self) -> (r: bool)
        ensures
            r == self@.closed,
    {
        self.closed
    }
}

} // verus!
