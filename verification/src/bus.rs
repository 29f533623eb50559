//! The event bus: ordered fan-out from the engine to the single registered
//! observer.
//!
//! The engine never calls into the host, so delivery is split in two:
//! `emit` accepts an event and queues it for the observer's execution
//! context, returning at once; the host drains the queue with
//! `take_delivered` and invokes the observer with each event in order, so an
//! observer failure can never unwind into the engine. With no observer
//! registered, `emit` is a no-op: events are not buffered for an observer
//! registered later.

use vstd::prelude::*;
use crate::events::BusEvent;

verus! {

/// The bus as its mathematical value.
#[verifier::ext_equal]
pub struct BusModel {
    pub observer_attached: bool,
    pub queue: Seq<BusEvent>,
}

/// What handing `events` to the bus does: they are appended for delivery when
/// an observer is attached, and dropped otherwise.
pub open spec fn deliver(b: BusModel, events: Seq<BusEvent>) -> BusModel {
    if b.observer_attached {
        BusModel { observer_attached: true, queue: b.queue + events }
    } else {
        b
    }
}

/// Two deliveries in a row deliver the concatenation.
pub proof fn lemma_deliver_concat(b: BusModel, s1: Seq<BusEvent>, s2: Seq<BusEvent>)
    ensures
        deliver(deliver(b, s1), s2) == deliver(b, s1 + s2),
{
    if b.observer_attached {
        assert((b.queue + s1) + s2 =~= b.queue + (s1 + s2));
        assert(deliver(deliver(b, s1), s2) =~= deliver(b, s1 + s2));
    }
}

/// Delivering nothing changes nothing.
pub proof fn lemma_deliver_empty(b: BusModel)
    ensures
        deliver(b, Seq::<BusEvent>::empty()) == b,
{
    if b.observer_attached {
        assert(b.queue + Seq::<BusEvent>::empty() =~= b.queue);
        assert(deliver(b, Seq::<BusEvent>::empty()) =~= b);
    }
}

/// The bus: whether an observer is attached, and the events accepted for it
/// but not yet handed out.
pub struct EventBus {
    pub observer_attached: bool,
    /// Events queued for delivery, oldest first.
    pub queue: Vec<BusEvent>,
}

impl View for EventBus {
    type V = BusModel;

    open spec fn view(&self) -> BusModel {
        BusModel { observer_attached: self.observer_attached, queue: self.queue@ }
    }
}

impl EventBus {
    /// A fresh bus: no observer, nothing queued.
    pub fn new() -> (r: EventBus)
        ensures
            !r@.observer_attached,
            r@.queue == Seq::<BusEvent>::empty(),
    {
        EventBus { observer_attached: false, queue: Vec::new() }
    }

    /// Registers the observer; a prior registration is replaced, atomically
    /// from the host's point of view. Already-queued events stay queued.
    pub fn register(&mut self)
        ensures
            final(self)@.observer_attached,
            final(self)@.queue == old(self)@.queue,
    {
        self.observer_attached = true;
    }

    /// Accepts one event for delivery and returns at once; without an
    /// observer the event is dropped.
    pub fn emit(&mut self, event: BusEvent)
        ensures
            final(self)@ == deliver(old(self)@, seq![event]),
    {
        if self.observer_attached {
            self.queue.push(event);
            proof {
                assert(self@.queue =~= old(self)@.queue + seq![event]);
                assert(self@ =~= deliver(old(self)@, seq![event]));
            }
        }
    }

    /// Hands every queued event, oldest first, to the host for dispatch to
    /// the observer; each event is handed out at most once.
    pub fn take_delivered(&mut self) -> (r: Vec<BusEvent>)
        ensures
            r@ == old(self)@.queue,
            final(self)@.observer_attached == old(self)@.observer_attached,
            final(self)@.queue == Seq::<BusEvent>::empty(),
    {
        let mut out: Vec<BusEvent> = Vec::new();
        core::mem::swap(&mut out, &mut self.queue);
        out
    }
}

} // verus!
