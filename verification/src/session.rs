//! A peer session: one peer-to-peer connection, its current data channel, and
//! the notifications that wait for that channel to open.

use vstd::prelude::*;
use crate::channel::{ChannelState, DataChannel};
use crate::coordinator::{
    deliveries_view, Coordinator, CoordinatorView, Delivery, DeliveryView,
};
use crate::payload::{Payload, PayloadView};

verus! {

/// What became of a request to send on a session.
#[derive(Debug, PartialEq, Eq)]
pub enum Subscription {
    /// The channel is open: the frame is due now.
    Fired(Delivery),
    /// No channel is open yet: the notification waits under `ticket`.
    Waiting { ticket: u64 },
    /// The channel is closed: nothing will be sent.
    Closed,
}

/// The mathematical value of a [`Subscription`].
pub enum SubscriptionView {
    Fired(DeliveryView),
    Waiting { ticket: u64 },
    Closed,
}

impl View for Subscription {
    type V = SubscriptionView;

    open spec fn view(&self) -> SubscriptionView {
        match self {
            Subscription::Fired(delivery) => SubscriptionView::Fired(delivery@),
            Subscription::Waiting { ticket } => SubscriptionView::Waiting { ticket: *ticket },
            Subscription::Closed => SubscriptionView::Closed,
        }
    }
}

/// A peer session.
#[derive(Debug, PartialEq, Eq)]
pub struct PeerSession {
    id: u64,
    channel: Option<DataChannel>,
    coordinator: Coordinator,
}

/// The mathematical value of a [`PeerSession`].
pub struct SessionView {
    pub id: u64,
    pub channel: Option<DataChannel>,
    pub coordinator: CoordinatorView,
}

impl SessionView {
    /// A session without a channel and with nothing waiting.
    pub open spec fn fresh(id: u64) -> SessionView {
        SessionView { id, channel: None, coordinator: CoordinatorView::empty() }
    }

    /// Nothing waits on a channel that is open or closed.
    pub open spec fn wf(self) -> bool {
        self.channel matches Some(c) ==> c.state == ChannelState::Proposed
            || self.coordinator.waiting.len() == 0
    }

    /// Whether the session has an open channel.
    pub open spec fn can_send(self) -> bool {
        self.channel matches Some(c) && c.state == ChannelState::Open
    }

    /// Whether `channel` is the session's current channel.
    pub open spec fn has_channel(self, channel: u64) -> bool {
        self.channel matches Some(c) && c.id == channel
    }

    /// After the remote side proposed the channel `channel`: it becomes the
    /// session's current channel, and what waits goes on waiting for it. A
    /// channel is proposed once: the event for the current channel changes
    /// nothing.
    pub open spec fn propose(self, channel: u64) -> SessionView {
        if self.has_channel(channel) {
            self
        } else {
            SessionView {
                id: self.id,
                channel: Some(DataChannel { id: channel, state: ChannelState::Proposed }),
                coordinator: self.coordinator,
            }
        }
    }

    /// Whether the open event of `channel` opens the current channel.
    pub open spec fn opens(self, channel: u64) -> bool {
        self.channel == Some(DataChannel { id: channel, state: ChannelState::Proposed })
    }

    /// After the open event of `channel`.
    pub open spec fn after_open(self, channel: u64) -> SessionView {
        if self.opens(channel) {
            SessionView {
                id: self.id,
                channel: Some(DataChannel { id: channel, state: ChannelState::Open }),
                coordinator: self.coordinator.drained(),
            }
        } else {
            self
        }
    }

    /// The frames that the open event of `channel` releases.
    pub open spec fn released_by_open(self, channel: u64) -> Seq<DeliveryView> {
        if self.opens(channel) {
            self.coordinator.deliveries(channel)
        } else {
            Seq::empty()
        }
    }

    /// Whether the close event of `channel` closes the current channel.
    pub open spec fn closes(self, channel: u64) -> bool {
        self.has_channel(channel) && self.channel->0.state != ChannelState::Closed
    }

    /// After the close event of `channel`.
    pub open spec fn after_close(self, channel: u64) -> SessionView {
        if self.closes(channel) {
            SessionView {
                id: self.id,
                channel: Some(DataChannel { id: channel, state: ChannelState::Closed }),
                coordinator: self.coordinator.drained(),
            }
        } else {
            self
        }
    }

    /// The tickets whose notifications the close event of `channel` fails.
    pub open spec fn failed_by_close(self, channel: u64) -> Seq<u64> {
        if self.closes(channel) {
            self.coordinator.tickets()
        } else {
            Seq::empty()
        }
    }

    /// Whether the session has a channel that is closed.
    pub open spec fn is_closed(self) -> bool {
        self.channel matches Some(c) && c.state == ChannelState::Closed
    }

    /// After a request to send `payload`.
    pub open spec fn after_subscribe(self, payload: PayloadView) -> SessionView {
        if self.can_send() {
            SessionView {
                id: self.id,
                channel: self.channel,
                coordinator: self.coordinator.issue(),
            }
        } else if self.is_closed() {
            self
        } else {
            SessionView {
                id: self.id,
                channel: self.channel,
                coordinator: self.coordinator.enqueue(payload),
            }
        }
    }

    /// What a request to send `payload` gives: the frame at once on an open
    /// channel, a refusal on a closed one, a ticket while no channel is open.
    pub open spec fn subscription(self, payload: PayloadView) -> SubscriptionView {
        if self.can_send() {
            SubscriptionView::Fired(
                DeliveryView {
                    ticket: self.coordinator.next_ticket,
                    channel: self.channel->0.id,
                    text: payload.wire_text(),
                },
            )
        } else if self.is_closed() {
            SubscriptionView::Closed
        } else {
            SubscriptionView::Waiting { ticket: self.coordinator.next_ticket }
        }
    }

    /// After the notification under `ticket` was withdrawn.
    pub open spec fn after_cancel(self, ticket: u64) -> SessionView {
        SessionView {
            id: self.id,
            channel: self.channel,
            coordinator: self.coordinator.without(ticket),
        }
    }
}

impl View for PeerSession {
    type V = SessionView;

    closed spec fn view(&self) -> SessionView {
        SessionView { id: self.id, channel: self.channel, coordinator: self.coordinator@ }
    }
}

impl PeerSession {
    /// A session for the connection `id`, registered before any channel is
    /// proposed.
    pub fn new(id: u64) -> (session: PeerSession)
        ensures
            session@ == SessionView::fresh(id),
            session@.wf(),
    {
        PeerSession { id, channel: None, coordinator: Coordinator::new() }
    }

    /// The identity of the session's connection.
    pub fn id(&self) -> (id: u64)
        ensures
            id == self@.id,
    {
        self.id
    }

    /// The session's current channel, if one was proposed.
    pub fn channel(&self) -> (channel: Option<DataChannel>)
        ensures
            channel == self@.channel,
    {
        self.channel
    }

    /// How many notifications wait for the channel to open.
    pub fn waiting_count(&self) -> (n: usize)
        ensures
            n == self@.coordinator.waiting.len(),
    {
        self.coordinator.waiting_count()
    }

    /// The remote side proposed the channel `channel`.
    pub fn channel_proposed(&mut self, channel: u64)
        ensures
            final(self)@ == old(self)@.propose(channel),
            old(self)@.wf() ==> final(self)@.wf(),
    {
        let known = match self.channel {
            Some(c) => c.id == channel,
            None => false,
        };
        if !known {
            self.channel = Some(DataChannel::proposed(channel));
        }
    }

    /// The channel `channel` has opened: where it is the current channel and
    /// was proposed, it becomes usable and everything that waited is released,
    /// oldest first. An event for another channel changes nothing.
    pub fn channel_opened(&mut self, channel: u64) -> (out: Vec<Delivery>)
        ensures
            final(self)@ == old(self)@.after_open(channel),
            deliveries_view(out@) == old(self)@.released_by_open(channel),
            old(self)@.wf() ==> final(self)@.wf(),
    {
        let mut opened = false;
        match self.channel {
            Some(c) => {
                let mut current = c;
                if current.id == channel && current.mark_open() {
                    self.channel = Some(current);
                    opened = true;
                }
            },
            None => {},
        }
        if opened {
            self.coordinator.release(channel)
        } else {
            Vec::new()
        }
    }

    /// The channel `channel` has closed: where it is the current channel, it
    /// is closed for good and the tickets of what waited are returned as
    /// failed, oldest first. An event for another channel changes nothing.
    pub fn channel_closed(&mut self, channel: u64) -> (failed: Vec<u64>)
        ensures
            final(self)@ == old(self)@.after_close(channel),
            failed@ == old(self)@.failed_by_close(channel),
            old(self)@.wf() ==> final(self)@.wf(),
    {
        let mut closed = false;
        match self.channel {
            Some(c) => {
                let mut current = c;
                if current.id == channel && current.mark_closed() {
                    self.channel = Some(current);
                    closed = true;
                }
            },
            None => {},
        }
        if closed {
            self.coordinator.abandon()
        } else {
            Vec::new()
        }
    }

    /// Asks for `payload` to be sent: fires at once where the channel is
    /// open, queues where none is open yet, refuses where it is closed.
    pub fn subscribe(&mut self, payload: Payload) -> (subscription: Subscription)
        ensures
            final(self)@ == old(self)@.after_subscribe(payload@),
            subscription@ == old(self)@.subscription(payload@),
            old(self)@.wf() ==> final(self)@.wf(),
    {
        match self.channel {
            Some(c) => {
                if c.can_send() {
                    let ticket: u64 = self.coordinator.issue();
                    let text = payload.encode();
                    Subscription::Fired(Delivery { ticket, channel: c.id, text })
                } else if c.is_closed() {
                    Subscription::Closed
                } else {
                    let ticket: u64 = self.coordinator.enqueue(payload);
                    Subscription::Waiting { ticket }
                }
            },
            None => {
                let ticket: u64 = self.coordinator.enqueue(payload);
                Subscription::Waiting { ticket }
            },
        }
    }

    /// Withdraws the notification that waits under `ticket` and says whether
    /// there was one.
    pub fn cancel(&mut self, ticket: u64) -> (removed: bool)
        ensures
            removed == old(self)@.coordinator.holds(ticket),
            final(self)@ == old(self)@.after_cancel(ticket),
            old(self)@.wf() ==> final(self)@.wf(),
    {
        self.coordinator.cancel(ticket)
    }
}

} // verus!
