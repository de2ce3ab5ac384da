//! The notification dispatcher, and the routing of data-channel events to the
//! active session.
//!
//! Every operation acts on the session that the registry holds when it is
//! called. An event that names another session is stale and changes nothing.

use vstd::prelude::*;
use crate::coordinator::{deliveries_view, Delivery, DeliveryView};
use crate::payload::{Payload, PayloadView};
use crate::registry::Registry;
use crate::session::{SessionView, Subscription, SubscriptionView};

verus! {

/// What a request for a notification led to.
#[derive(Debug, PartialEq, Eq)]
pub enum Dispatch {
    /// No session is registered: the notification is dropped.
    NoSession,
    /// The session has no open channel yet: the notification waits under
    /// `ticket`.
    NotYetOpen { session: u64, ticket: u64 },
    /// The session's channel is open: `delivery` is to be sent on it now.
    Ready { session: u64, delivery: Delivery },
    /// The session's channel is closed: the notification cannot be sent.
    ChannelClosed { session: u64 },
}

/// The mathematical value of a [`Dispatch`].
pub enum DispatchView {
    NoSession,
    NotYetOpen { session: u64, ticket: u64 },
    Ready { session: u64, delivery: DeliveryView },
    ChannelClosed { session: u64 },
}

impl View for Dispatch {
    type V = DispatchView;

    open spec fn view(&self) -> DispatchView {
        match self {
            Dispatch::NoSession => DispatchView::NoSession,
            Dispatch::NotYetOpen { session, ticket } => DispatchView::NotYetOpen {
                session: *session,
                ticket: *ticket,
            },
            Dispatch::Ready { session, delivery } => DispatchView::Ready {
                session: *session,
                delivery: delivery@,
            },
            Dispatch::ChannelClosed { session } => DispatchView::ChannelClosed { session: *session },
        }
    }
}

/// How a notification ended, as far as the sender can tell.
#[derive(Clone, Copy, Debug, PartialEq, Eq, Structural)]
pub enum Outcome {
    /// No session was registered.
    NoSession,
    /// The notification waits for the channel to open.
    NotYetOpen,
    /// The channel took the frame.
    Sent,
    /// The channel was closed or refused the frame.
    SendFailed,
}

/// The outcome of a frame that was handed to the channel, which either took
/// it or did not.
pub open spec fn send_outcome(accepted: bool) -> Outcome {
    if accepted {
        Outcome::Sent
    } else {
        Outcome::SendFailed
    }
}

impl DispatchView {
    /// The outcome of the request, given whether the channel took the frame
    /// where one was due.
    pub open spec fn outcome(self, accepted: bool) -> Outcome {
        match self {
            DispatchView::NoSession => Outcome::NoSession,
            DispatchView::NotYetOpen { .. } => Outcome::NotYetOpen,
            DispatchView::Ready { .. } => send_outcome(accepted),
            DispatchView::ChannelClosed { .. } => Outcome::SendFailed,
        }
    }
}

/// Whether `session` is the session that the registry holds.
pub open spec fn is_current(registry: Option<SessionView>, session: u64) -> bool {
    registry matches Some(s) && s.id == session
}

/// What a request to send `payload` leads to.
pub open spec fn dispatch_of(registry: Option<SessionView>, payload: PayloadView) -> DispatchView {
    match registry {
        None => DispatchView::NoSession,
        Some(s) => match s.subscription(payload) {
            SubscriptionView::Fired(delivery) => DispatchView::Ready { session: s.id, delivery },
            SubscriptionView::Waiting { ticket } => DispatchView::NotYetOpen {
                session: s.id,
                ticket,
            },
            SubscriptionView::Closed => DispatchView::ChannelClosed { session: s.id },
        },
    }
}

/// The registry after a request to send `payload`.
pub open spec fn after_notify(registry: Option<SessionView>, payload: PayloadView) -> Option<
    SessionView,
> {
    match registry {
        None => None,
        Some(s) => Some(s.after_subscribe(payload)),
    }
}

/// The registry after the session `session` was told that `channel` was
/// proposed.
pub open spec fn after_proposed(registry: Option<SessionView>, session: u64, channel: u64) -> Option<
    SessionView,
> {
    if is_current(registry, session) {
        Some(registry->0.propose(channel))
    } else {
        registry
    }
}

/// The registry after the session `session` was told that `channel` opened.
pub open spec fn after_opened(registry: Option<SessionView>, session: u64, channel: u64) -> Option<
    SessionView,
> {
    if is_current(registry, session) {
        Some(registry->0.after_open(channel))
    } else {
        registry
    }
}

/// The frames that are due when the session `session` is told that `channel`
/// opened.
pub open spec fn released_by_opened(
    registry: Option<SessionView>,
    session: u64,
    channel: u64,
) -> Seq<DeliveryView> {
    if is_current(registry, session) {
        registry->0.released_by_open(channel)
    } else {
        Seq::empty()
    }
}

/// The registry after the session `session` was told that `channel` closed.
pub open spec fn after_closed(registry: Option<SessionView>, session: u64, channel: u64) -> Option<
    SessionView,
> {
    if is_current(registry, session) {
        Some(registry->0.after_close(channel))
    } else {
        registry
    }
}

/// The tickets that fail when the session `session` is told that `channel`
/// closed.
pub open spec fn failed_by_closed(registry: Option<SessionView>, session: u64, channel: u64) -> Seq<
    u64,
> {
    if is_current(registry, session) {
        registry->0.failed_by_close(channel)
    } else {
        Seq::empty()
    }
}

/// The registry after the notification under `ticket` of the session
/// `session` was withdrawn.
pub open spec fn after_cancelled(registry: Option<SessionView>, session: u64, ticket: u64) -> Option<
    SessionView,
> {
    if is_current(registry, session) {
        Some(registry->0.after_cancel(ticket))
    } else {
        registry
    }
}

impl Dispatch {
    /// The outcome of the request. `accepted` says whether the channel took
    /// the frame; it counts only where a frame was due.
    pub fn outcome(&self, accepted: bool) -> (outcome: Outcome)
        ensures
            outcome == self@.outcome(accepted),
    {
        match self {
            Dispatch::NoSession => Outcome::NoSession,
            Dispatch::NotYetOpen { .. } => Outcome::NotYetOpen,
            Dispatch::Ready { .. } => delivery_outcome(accepted),
            Dispatch::ChannelClosed { .. } => Outcome::SendFailed,
        }
    }
}

/// The outcome of a released frame, given whether the channel took it.
pub fn delivery_outcome(accepted: bool) -> (outcome: Outcome)
    ensures
        outcome == send_outcome(accepted),
{
    if accepted {
        Outcome::Sent
    } else {
        Outcome::SendFailed
    }
}

/// Asks for `payload` to be sent to the connected peer.
///
/// With no session registered this does nothing. Otherwise the active
/// session decides: on an open channel the frame is due at once, without one
/// the notification waits for the channel to open, on a closed one it fails.
/// The call never waits.
pub fn notify(registry: &mut Registry, payload: Payload) -> (dispatch: Dispatch)
    ensures
        dispatch@ == dispatch_of(old(registry)@, payload@),
        final(registry)@ == after_notify(old(registry)@, payload@),
        old(registry)@ is None ==> dispatch@ == DispatchView::NoSession && final(registry)@
            == old(registry)@,
{
    match registry.current_mut() {
        None => Dispatch::NoSession,
        Some(session) => {
            let id: u64 = session.id();
            match session.subscribe(payload) {
                Subscription::Fired(delivery) => Dispatch::Ready { session: id, delivery },
                Subscription::Waiting { ticket } => Dispatch::NotYetOpen { session: id, ticket },
                Subscription::Closed => Dispatch::ChannelClosed { session: id },
            }
        },
    }
}

/// The remote side of the session `session` proposed the channel `channel`.
/// Returns whether the event was for the active session.
pub fn channel_proposed(registry: &mut Registry, session: u64, channel: u64) -> (current: bool)
    ensures
        current == is_current(old(registry)@, session),
        final(registry)@ == after_proposed(old(registry)@, session, channel),
{
    match registry.current_mut() {
        None => false,
        Some(active) => {
            if active.id() == session {
                active.channel_proposed(channel);
                true
            } else {
                false
            }
        },
    }
}

/// The channel `channel` of the session `session` opened. Returns the frames
/// that are now due on it, oldest request first.
pub fn channel_opened(registry: &mut Registry, session: u64, channel: u64) -> (out: Vec<Delivery>)
    ensures
        final(registry)@ == after_opened(old(registry)@, session, channel),
        deliveries_view(out@) == released_by_opened(old(registry)@, session, channel),
{
    let mut out: Vec<Delivery> = Vec::new();
    match registry.current_mut() {
        None => {},
        Some(active) => {
            if active.id() == session {
                out = active.channel_opened(channel);
            }
        },
    }
    out
}

/// The channel `channel` of the session `session` closed. Returns the
/// tickets of the notifications that can no longer be delivered, oldest
/// first.
pub fn channel_closed(registry: &mut Registry, session: u64, channel: u64) -> (failed: Vec<u64>)
    ensures
        final(registry)@ == after_closed(old(registry)@, session, channel),
        failed@ == failed_by_closed(old(registry)@, session, channel),
{
    let mut failed: Vec<u64> = Vec::new();
    match registry.current_mut() {
        None => {},
        Some(active) => {
            if active.id() == session {
                failed = active.channel_closed(channel);
            }
        },
    }
    failed
}

/// Withdraws the notification that waits under `ticket` in the session
/// `session`, as when its wait has run out. Returns whether it was still
/// waiting there.
pub fn cancel(registry: &mut Registry, session: u64, ticket: u64) -> (removed: bool)
    ensures
        removed == (is_current(old(registry)@, session) && old(registry)@->0.coordinator.holds(
            ticket,
        )),
        final(registry)@ == after_cancelled(old(registry)@, session, ticket),
{
    match registry.current_mut() {
        None => false,
        Some(active) => {
            if active.id() == session {
                active.cancel(ticket)
            } else {
                false
            }
        },
    }
}

} // verus!
