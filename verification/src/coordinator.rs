//! The channel-open coordinator: the notifications that wait for a data
//! channel to open, in the order in which they were requested, and what is
//! released when it does.

use vstd::prelude::*;
use crate::payload::{Payload, PayloadView};

verus! {

/// A notification that waits for the channel to open.
#[derive(Debug, PartialEq, Eq)]
pub struct Waiter {
    pub ticket: u64,
    pub payload: Payload,
}

/// The mathematical value of a [`Waiter`].
pub struct WaiterView {
    pub ticket: u64,
    pub payload: PayloadView,
}

impl View for Waiter {
    type V = WaiterView;

    open spec fn view(&self) -> WaiterView {
        WaiterView { ticket: self.ticket, payload: self.payload@ }
    }
}

/// A text frame that is due on a channel, for the notification that holds
/// `ticket`.
#[derive(Debug, PartialEq, Eq)]
pub struct Delivery {
    pub ticket: u64,
    pub channel: u64,
    pub text: String,
}

/// The mathematical value of a [`Delivery`].
pub struct DeliveryView {
    pub ticket: u64,
    pub channel: u64,
    pub text: Seq<char>,
}

impl View for Delivery {
    type V = DeliveryView;

    open spec fn view(&self) -> DeliveryView {
        DeliveryView { ticket: self.ticket, channel: self.channel, text: self.text@ }
    }
}

/// The values of a list of deliveries, in order.
pub open spec fn deliveries_view(deliveries: Seq<Delivery>) -> Seq<DeliveryView> {
    deliveries.map_values(|d: Delivery| d@)
}

/// The ticket that is handed out after `ticket`; the count starts over after
/// the largest one.
pub open spec fn ticket_after(ticket: u64) -> u64 {
    if ticket == u64::MAX {
        0
    } else {
        (ticket + 1) as u64
    }
}

/// The frame that is due on `channel` for a waiting notification.
pub open spec fn delivery_of(waiter: WaiterView, channel: u64) -> DeliveryView {
    DeliveryView { ticket: waiter.ticket, channel, text: waiter.payload.wire_text() }
}

/// Whether `i` is the place of the first of `waiting` that holds `ticket`.
pub open spec fn is_first_with(waiting: Seq<WaiterView>, ticket: u64, i: int) -> bool {
    &&& 0 <= i < waiting.len()
    &&& waiting[i].ticket == ticket
    &&& forall|j: int| 0 <= j < i ==> (#[trigger] waiting[j]).ticket != ticket
}

/// The waiting notifications and the next ticket.
#[derive(Debug, PartialEq, Eq)]
pub struct Coordinator {
    waiting: Vec<Waiter>,
    next_ticket: u64,
}

/// The mathematical value of a [`Coordinator`].
pub struct CoordinatorView {
    pub waiting: Seq<WaiterView>,
    pub next_ticket: u64,
}

impl CoordinatorView {
    /// Nothing waits, and the first ticket is 0.
    pub open spec fn empty() -> CoordinatorView {
        CoordinatorView { waiting: Seq::empty(), next_ticket: 0 }
    }

    /// After a ticket was handed out without anything being queued.
    pub open spec fn issue(self) -> CoordinatorView {
        CoordinatorView { waiting: self.waiting, next_ticket: ticket_after(self.next_ticket) }
    }

    /// After `payload` was queued behind the others, under the next ticket.
    pub open spec fn enqueue(self, payload: PayloadView) -> CoordinatorView {
        CoordinatorView {
            waiting: self.waiting.push(WaiterView { ticket: self.next_ticket, payload }),
            next_ticket: ticket_after(self.next_ticket),
        }
    }

    /// After everything that waited has left.
    pub open spec fn drained(self) -> CoordinatorView {
        CoordinatorView { waiting: Seq::empty(), next_ticket: self.next_ticket }
    }

    /// The frames that are due on `channel` when it opens: one for each
    /// waiting notification, oldest first.
    pub open spec fn deliveries(self, channel: u64) -> Seq<DeliveryView> {
        self.waiting.map_values(|w: WaiterView| delivery_of(w, channel))
    }

    /// The tickets of the waiting notifications, oldest first.
    pub open spec fn tickets(self) -> Seq<u64> {
        self.waiting.map_values(|w: WaiterView| w.ticket)
    }

    /// Whether a notification waits under `ticket`.
    pub open spec fn holds(self, ticket: u64) -> bool {
        exists|i: int| 0 <= i < self.waiting.len() && (#[trigger] self.waiting[i]).ticket == ticket
    }

    /// After the oldest notification that waits under `ticket` was withdrawn;
    /// unchanged where none does.
    pub open spec fn without(self, ticket: u64) -> CoordinatorView {
        if self.holds(ticket) {
            let i = choose|i: int| is_first_with(self.waiting, ticket, i);
            CoordinatorView { waiting: self.waiting.remove(i), next_ticket: self.next_ticket }
        } else {
            self
        }
    }
}

/// Withdrawing a ticket removes the waiter at the first place that holds it.
pub proof fn lemma_without_first(c: CoordinatorView, ticket: u64, i: int)
    requires
        is_first_with(c.waiting, ticket, i),
    ensures
        c.holds(ticket),
        c.without(ticket) == (CoordinatorView {
            waiting: c.waiting.remove(i),
            next_ticket: c.next_ticket,
        }),
{
    let k = choose|k: int| is_first_with(c.waiting, ticket, k);
    assert(is_first_with(c.waiting, ticket, k));
    if k < i {
        assert(c.waiting[k].ticket != ticket);
    }
    if i < k {
        assert(c.waiting[i].ticket != ticket);
    }
}

/// Where a notification waits under a ticket, one of them is the oldest.
pub proof fn lemma_first_exists(waiting: Seq<WaiterView>, ticket: u64, k: int)
    requires
        0 <= k < waiting.len(),
        waiting[k].ticket == ticket,
    ensures
        exists|i: int| is_first_with(waiting, ticket, i),
    decreases k,
{
    if exists|j: int| 0 <= j < k && (#[trigger] waiting[j]).ticket == ticket {
        let j = choose|j: int| 0 <= j < k && (#[trigger] waiting[j]).ticket == ticket;
        lemma_first_exists(waiting, ticket, j);
    } else {
        assert(is_first_with(waiting, ticket, k));
    }
}

/// Withdrawing a ticket under which a notification waits takes exactly one
/// notification out of the queue.
pub proof fn lemma_without_takes_one(c: CoordinatorView, ticket: u64)
    requires
        c.holds(ticket),
    ensures
        c.without(ticket).waiting.len() + 1 == c.waiting.len(),
{
    let k = choose|k: int| 0 <= k < c.waiting.len() && (#[trigger] c.waiting[k]).ticket == ticket;
    lemma_first_exists(c.waiting, ticket, k);
    let i = choose|i: int| is_first_with(c.waiting, ticket, i);
    lemma_without_first(c, ticket, i);
}

impl View for Coordinator {
    type V = CoordinatorView;

    closed spec fn view(&self) -> CoordinatorView {
        CoordinatorView {
            waiting: self.waiting@.map_values(|w: Waiter| w@),
            next_ticket: self.next_ticket,
        }
    }
}

impl Coordinator {
    /// A coordinator with nothing waiting.
    pub fn new() -> (c: Coordinator)
        ensures
            c@ == CoordinatorView::empty(),
    {
        let c = Coordinator { waiting: Vec::new(), next_ticket: 0 };
        assert(c@.waiting =~= Seq::empty());
        c
    }

    /// How many notifications wait.
    pub fn waiting_count(&self) -> (n: usize)
        ensures
            n == self@.waiting.len(),
    {
        self.waiting.len()
    }

    /// Hands out the next ticket without queueing anything.
    pub fn issue(&mut self) -> (ticket: u64)
        ensures
            ticket == old(self)@.next_ticket,
            final(self)@ == old(self)@.issue(),
    {
        let ticket: u64 = self.next_ticket;
        self.next_ticket = if ticket == u64::MAX {
            0
        } else {
            ticket + 1
        };
        ticket
    }

    /// Queues `payload` behind the waiting notifications and returns its
    /// ticket.
    pub fn enqueue(&mut self, payload: Payload) -> (ticket: u64)
        ensures
            ticket == old(self)@.next_ticket,
            final(self)@ == old(self)@.enqueue(payload@),
    {
        let ticket: u64 = self.next_ticket;
        self.next_ticket = if ticket == u64::MAX {
            0
        } else {
            ticket + 1
        };
        self.waiting.push(Waiter { ticket, payload });
        assert(self@.waiting =~= old(self)@.enqueue(payload@).waiting);
        ticket
    }

    /// Releases everything that waits: serialises each payload, oldest first,
    /// to the frame that is due on `channel`.
    pub fn release(&mut self, channel: u64) -> (out: Vec<Delivery>)
        ensures
            final(self)@ == old(self)@.drained(),
            deliveries_view(out@) == old(self)@.deliveries(channel),
    {
        let mut taken: Vec<Waiter> = Vec::new();
        core::mem::swap(&mut self.waiting, &mut taken);
        let mut out: Vec<Delivery> = Vec::new();
        let mut i: usize = 0;
        while i < taken.len()
            invariant
                i <= taken.len(),
                out@.len() == i,
                forall|j: int| 0 <= j < i ==> (#[trigger] out@[j])@ == delivery_of(taken@[j]@, channel),
            decreases taken.len() - i,
        {
            let text = taken[i].payload.encode();
            out.push(Delivery { ticket: taken[i].ticket, channel, text });
            i += 1;
        }
        assert(deliveries_view(out@) =~= old(self)@.deliveries(channel));
        assert(self@.waiting =~= Seq::empty());
        out
    }

    /// Gives up everything that waits and returns the tickets, oldest first.
    pub fn abandon(&mut self) -> (tickets: Vec<u64>)
        ensures
            final(self)@ == old(self)@.drained(),
            tickets@ == old(self)@.tickets(),
    {
        let mut taken: Vec<Waiter> = Vec::new();
        core::mem::swap(&mut self.waiting, &mut taken);
        let mut tickets: Vec<u64> = Vec::new();
        let mut i: usize = 0;
        while i < taken.len()
            invariant
                i <= taken.len(),
                tickets@.len() == i,
                forall|j: int| 0 <= j < i ==> #[trigger] tickets@[j] == taken@[j].ticket,
            decreases taken.len() - i,
        {
            tickets.push(taken[i].ticket);
            i += 1;
        }
        assert(tickets@ =~= old(self)@.tickets());
        assert(self@.waiting =~= Seq::empty());
        tickets
    }

    /// Withdraws the oldest notification that waits under `ticket` and says
    /// whether there was one.
    pub fn cancel(&mut self, ticket: u64) -> (removed: bool)
        ensures
            removed == old(self)@.holds(ticket),
            final(self)@ == old(self)@.without(ticket),
    {
        let mut i: usize = 0;
        while i < self.waiting.len()
            invariant
                i <= self.waiting.len(),
                *self == *old(self),
                forall|j: int| 0 <= j < i ==> (#[trigger] self.waiting@[j]).ticket != ticket,
            decreases self.waiting.len() - i,
        {
            if self.waiting[i].ticket == ticket {
                proof {
                    assert(is_first_with(self@.waiting, ticket, i as int));
                    lemma_without_first(self@, ticket, i as int);
                }
                let _ = self.waiting.remove(i);
                assert(self@.waiting =~= old(self)@.waiting.remove(i as int));
                return true;
            }
            i += 1;
        }
        false
    }
}

} // verus!
