//! What holds of the bridge beyond single calls: the text of the frames, which
//! session the registry holds after any run of events, what requests on an
//! open or a closed channel lead to, that a closed channel stays closed, that
//! nothing is left waiting on a channel that is open or closed, and that no
//! waiting notification is lost or settled twice.

use vstd::prelude::*;
use crate::control::{next_registry, ConnectionState, ControlEventView};
use crate::coordinator::{
    delivery_of, lemma_without_takes_one, ticket_after, CoordinatorView, DeliveryView, WaiterView,
};
use crate::control::{new_image_locator, upload_response_text};
use crate::dispatcher::{
    after_cancelled, after_closed, after_notify, after_opened, after_proposed, dispatch_of,
    failed_by_closed, is_current, released_by_opened, DispatchView, Outcome,
};
use crate::json::{is_plain, json_string_text};
use crate::payload::PayloadView;
use crate::registry::{registered, registered_all};
use crate::session::SessionView;

verus! {

/// The frame of an image update is the object with the member `type`, which
/// holds `imageUpdate`, and the member `imageUrl`, which holds the locator as
/// a JSON string. A locator in which nothing needs an escape stands there as
/// it is, between quotes.
pub proof fn lemma_image_update_frame(image_url: Seq<char>)
    ensures
        (PayloadView::ImageUpdate { image_url }).wire_text()
            == "{\"type\":\"imageUpdate\",\"imageUrl\":"@ + json_string_text(image_url) + "}"@,
        is_plain(image_url) ==> (PayloadView::ImageUpdate { image_url }).wire_text()
            == "{\"type\":\"imageUpdate\",\"imageUrl\":\""@ + image_url + "\"}"@,
{
    reveal_strlit("type");
    reveal_strlit("imageUpdate");
    reveal_strlit("imageUrl");
    reveal_strlit("}");
    reveal_strlit("\"}");
    reveal_strlit("{\"type\":\"imageUpdate\",\"imageUrl\":");
    reveal_strlit("{\"type\":\"imageUpdate\",\"imageUrl\":\"");
    assert((PayloadView::ImageUpdate { image_url }).wire_text()
        =~= "{\"type\":\"imageUpdate\",\"imageUrl\":"@ + json_string_text(image_url) + "}"@);
    if is_plain(image_url) {
        assert((PayloadView::ImageUpdate { image_url }).wire_text()
            =~= "{\"type\":\"imageUpdate\",\"imageUrl\":\""@ + image_url + "\"}"@);
    }
}

/// What the trigger announces and what it answers: the frame names the new
/// image's locator, and the body reports success with the same locator.
pub proof fn lemma_trigger_texts()
    ensures
        (PayloadView::ImageUpdate { image_url: new_image_locator() }).wire_text()
            == "{\"type\":\"imageUpdate\",\"imageUrl\":\"/static/images/new_image.jpg\"}"@,
        upload_response_text(new_image_locator())
            == "{\"status\":\"success\",\"new_image_url\":\"/static/images/new_image.jpg\"}"@,
{
    reveal_strlit("type");
    reveal_strlit("imageUpdate");
    reveal_strlit("imageUrl");
    reveal_strlit("status");
    reveal_strlit("success");
    reveal_strlit("new_image_url");
    reveal_strlit("/static/images/new_image.jpg");
    reveal_strlit("{\"type\":\"imageUpdate\",\"imageUrl\":\"/static/images/new_image.jpg\"}");
    reveal_strlit("{\"status\":\"success\",\"new_image_url\":\"/static/images/new_image.jpg\"}");
    assert(is_plain(new_image_locator()));
    assert((PayloadView::ImageUpdate { image_url: new_image_locator() }).wire_text()
        =~= "{\"type\":\"imageUpdate\",\"imageUrl\":\"/static/images/new_image.jpg\"}"@);
    assert(upload_response_text(new_image_locator())
        =~= "{\"status\":\"success\",\"new_image_url\":\"/static/images/new_image.jpg\"}"@);
}

/// The registry after a request for each of `payloads` in turn.
pub open spec fn notified_all(registry: Option<SessionView>, payloads: Seq<PayloadView>) -> Option<
    SessionView,
>
    decreases payloads.len(),
{
    if payloads.len() == 0 {
        registry
    } else {
        after_notify(notified_all(registry, payloads.drop_last()), payloads.last())
    }
}

/// What the requests for each of `payloads` in turn lead to, in the order of
/// the requests.
pub open spec fn dispatched_all(registry: Option<SessionView>, payloads: Seq<PayloadView>) -> Seq<
    DispatchView,
>
    decreases payloads.len(),
{
    if payloads.len() == 0 {
        Seq::empty()
    } else {
        dispatched_all(registry, payloads.drop_last()).push(
            dispatch_of(notified_all(registry, payloads.drop_last()), payloads.last()),
        )
    }
}

/// The ticket that is handed out `n` tickets after `ticket`.
pub open spec fn ticket_after_n(ticket: u64, n: nat) -> u64
    decreases n,
{
    if n == 0 {
        ticket
    } else {
        ticket_after(ticket_after_n(ticket, (n - 1) as nat))
    }
}

/// The session `session` after `n` tickets were handed out for frames that
/// went out at once.
pub open spec fn after_issues(session: SessionView, n: nat) -> SessionView {
    SessionView {
        id: session.id,
        channel: session.channel,
        coordinator: CoordinatorView {
            waiting: session.coordinator.waiting,
            next_ticket: ticket_after_n(session.coordinator.next_ticket, n),
        },
    }
}

/// Whether every session that the registry holds is well formed.
pub open spec fn registry_wf(registry: Option<SessionView>) -> bool {
    registry matches Some(s) ==> s.wf()
}

/// After any run of registrations the registry holds exactly the session
/// that was registered last.
pub proof fn lemma_registry_holds_last(registry: Option<SessionView>, sessions: Seq<SessionView>)
    requires
        sessions.len() > 0,
    ensures
        registered_all(registry, sessions) == Some(sessions.last()),
{
}

/// A request with no session registered does nothing: the registry stays
/// empty, no frame is due, and the outcome says so whatever a send would
/// have given.
pub proof fn lemma_notify_without_session(payload: PayloadView, accepted: bool)
    ensures
        dispatch_of(None, payload) == DispatchView::NoSession,
        after_notify(None, payload) == None::<SessionView>,
        dispatch_of(None, payload).outcome(accepted) == Outcome::NoSession,
{
}

/// On a session whose channel is open, each request of a run leads to one
/// frame that is due at once on that channel, the frames come in the order
/// of the requests, and nothing is queued, so that no frame is due a second
/// time when a later event arrives.
pub proof fn lemma_open_channel_delivers_in_order(session: SessionView, payloads: Seq<PayloadView>)
    requires
        session.can_send(),
    ensures
        dispatched_all(Some(session), payloads).len() == payloads.len(),
        forall|i: int|
            0 <= i < payloads.len() ==> #[trigger] dispatched_all(Some(session), payloads)[i] == (
            DispatchView::Ready {
                session: session.id,
                delivery: DeliveryView {
                    ticket: ticket_after_n(session.coordinator.next_ticket, i as nat),
                    channel: session.channel->0.id,
                    text: payloads[i].wire_text(),
                },
            }),
        notified_all(Some(session), payloads) == Some(after_issues(session, payloads.len())),
    decreases payloads.len(),
{
    if payloads.len() > 0 {
        let front = payloads.drop_last();
        lemma_open_channel_delivers_in_order(session, front);
        let before = after_issues(session, front.len());
        assert(before.can_send());
        assert(after_issues(session, payloads.len()) == before.after_subscribe(payloads.last()));
        assert forall|i: int| 0 <= i < payloads.len() implies #[trigger] dispatched_all(
            Some(session),
            payloads,
        )[i] == (DispatchView::Ready {
            session: session.id,
            delivery: DeliveryView {
                ticket: ticket_after_n(session.coordinator.next_ticket, i as nat),
                channel: session.channel->0.id,
                text: payloads[i].wire_text(),
            },
        }) by {
            if i < front.len() {
                assert(front[i] == payloads[i]);
                assert(dispatched_all(Some(session), payloads)[i] == dispatched_all(
                    Some(session),
                    front,
                )[i]);
            }
        }
    }
}

/// A frame that is due on an open channel is reported as sent where the
/// channel takes it, and as failed where it does not, as when the channel
/// closes before the frame is handed over.
pub proof fn lemma_send_result_is_reported(session: SessionView, payload: PayloadView)
    requires
        session.can_send(),
    ensures
        dispatch_of(Some(session), payload).outcome(true) == Outcome::Sent,
        dispatch_of(Some(session), payload).outcome(false) == Outcome::SendFailed,
{
}

/// A request on a session whose channel is closed fails and is reported as a
/// failure; it is not queued and changes nothing.
pub proof fn lemma_closed_channel_is_reported(
    session: SessionView,
    payload: PayloadView,
    accepted: bool,
)
    requires
        session.is_closed(),
    ensures
        dispatch_of(Some(session), payload) == (DispatchView::ChannelClosed {
            session: session.id,
        }),
        dispatch_of(Some(session), payload).outcome(accepted) == Outcome::SendFailed,
        after_notify(Some(session), payload) == Some(session),
{
}

/// A request that is made while the channel `channel` is proposed waits, and
/// is settled by the channel's next event: when the channel opens, its frame
/// is released behind those of the earlier requests; when the channel closes
/// instead, its ticket is reported as failed behind theirs. Either way
/// nothing is left waiting.
pub proof fn lemma_waiting_is_released_or_failed(
    session: SessionView,
    channel: u64,
    payload: PayloadView,
)
    requires
        session.opens(channel),
    ensures
        dispatch_of(Some(session), payload) == (DispatchView::NotYetOpen {
            session: session.id,
            ticket: session.coordinator.next_ticket,
        }),
        released_by_opened(after_notify(Some(session), payload), session.id, channel)
            == released_by_opened(Some(session), session.id, channel).push(
            DeliveryView {
                ticket: session.coordinator.next_ticket,
                channel,
                text: payload.wire_text(),
            },
        ),
        failed_by_closed(after_notify(Some(session), payload), session.id, channel)
            == failed_by_closed(Some(session), session.id, channel).push(
            session.coordinator.next_ticket,
        ),
        after_opened(
            after_notify(Some(session), payload),
            session.id,
            channel,
        )->0.coordinator.waiting.len() == 0,
        after_closed(
            after_notify(Some(session), payload),
            session.id,
            channel,
        )->0.coordinator.waiting.len() == 0,
{
    let queued = session.after_subscribe(payload);
    let waiter = WaiterView { ticket: session.coordinator.next_ticket, payload };
    assert(queued.coordinator.waiting == session.coordinator.waiting.push(waiter));
    assert(queued.opens(channel));
    assert(queued.closes(channel));
    assert(queued.coordinator.deliveries(channel) =~= session.coordinator.deliveries(channel).push(
        delivery_of(waiter, channel),
    ));
    assert(queued.coordinator.tickets() =~= session.coordinator.tickets().push(waiter.ticket));
}

/// Once a second session is registered, a request is decided by that session
/// alone: what the first session holds, an open channel included, plays no
/// part, and any frame that is due names the second session.
pub proof fn lemma_notify_reaches_latest_session(
    registry: Option<SessionView>,
    first: SessionView,
    second: SessionView,
    payload: PayloadView,
)
    ensures
        dispatch_of(registered(registered(registry, first), second), payload) == dispatch_of(
            Some(second),
            payload,
        ),
        after_notify(registered(registered(registry, first), second), payload) == Some(
            second.after_subscribe(payload),
        ),
        dispatch_of(Some(second), payload) matches DispatchView::Ready { session, .. }
            ==> session == second.id,
{
}

/// An event of a session that has been replaced is stale: it releases no
/// frame, fails no ticket and leaves the registry as it is.
pub proof fn lemma_replaced_session_is_ignored(
    first: SessionView,
    second: SessionView,
    channel: u64,
)
    requires
        first.id != second.id,
    ensures
        !is_current(registered(Some(first), second), first.id),
        after_opened(registered(Some(first), second), first.id, channel) == Some(second),
        released_by_opened(registered(Some(first), second), first.id, channel)
            == Seq::<DeliveryView>::empty(),
        after_closed(registered(Some(first), second), first.id, channel) == Some(second),
        failed_by_closed(registered(Some(first), second), first.id, channel) == Seq::<u64>::empty(),
{
}

/// Nothing waits on a channel that is open or closed: a fresh session is
/// well formed, and every step of a well-formed session gives a well-formed
/// one.
pub proof fn lemma_session_stays_wf(
    session: SessionView,
    channel: u64,
    payload: PayloadView,
    ticket: u64,
)
    requires
        session.wf(),
    ensures
        SessionView::fresh(session.id).wf(),
        session.propose(channel).wf(),
        session.after_open(channel).wf(),
        session.after_close(channel).wf(),
        session.after_subscribe(payload).wf(),
        session.after_cancel(ticket).wf(),
{
}

/// A closed channel stays closed: whatever happens to a session whose
/// channel is closed, the channel is closed afterwards for as long as it is
/// the session's current channel.
pub proof fn lemma_closed_is_terminal(
    session: SessionView,
    channel: u64,
    other: u64,
    payload: PayloadView,
    ticket: u64,
)
    requires
        session.has_channel(channel),
        session.is_closed(),
    ensures
        session.propose(other).has_channel(channel) ==> session.propose(other).is_closed(),
        session.after_open(other).has_channel(channel) && session.after_open(other).is_closed(),
        session.after_close(other).has_channel(channel) && session.after_close(other).is_closed(),
        session.after_subscribe(payload) == session,
        session.after_cancel(ticket).has_channel(channel) && session.after_cancel(
            ticket,
        ).is_closed(),
{
}

/// A step of a control-plane connection keeps the registry well formed.
pub proof fn lemma_control_step_keeps_wf(
    registry: Option<SessionView>,
    state: ConnectionState,
    event: ControlEventView,
)
    requires
        registry_wf(registry),
    ensures
        registry_wf(next_registry(registry, state, event)),
{
}

/// One thing that happens to the bridge.
pub enum BridgeEvent {
    /// An event on a control-plane connection that is in `state`.
    Control { state: ConnectionState, event: ControlEventView },
    /// A request to send `payload`.
    Notify { payload: PayloadView },
    /// The channel `channel` of `session` was proposed.
    ChannelProposed { session: u64, channel: u64 },
    /// The channel `channel` of `session` opened.
    ChannelOpened { session: u64, channel: u64 },
    /// The channel `channel` of `session` closed.
    ChannelClosed { session: u64, channel: u64 },
    /// The notification under `ticket` of `session` was withdrawn.
    Cancel { session: u64, ticket: u64 },
}

/// The registry after `event`.
pub open spec fn after_event(registry: Option<SessionView>, event: BridgeEvent) -> Option<
    SessionView,
> {
    match event {
        BridgeEvent::Control { state, event } => next_registry(registry, state, event),
        BridgeEvent::Notify { payload } => after_notify(registry, payload),
        BridgeEvent::ChannelProposed { session, channel } => after_proposed(
            registry,
            session,
            channel,
        ),
        BridgeEvent::ChannelOpened { session, channel } => after_opened(registry, session, channel),
        BridgeEvent::ChannelClosed { session, channel } => after_closed(registry, session, channel),
        BridgeEvent::Cancel { session, ticket } => after_cancelled(registry, session, ticket),
    }
}

/// The registry after each of `events` in turn.
pub open spec fn after_run(registry: Option<SessionView>, events: Seq<BridgeEvent>) -> Option<
    SessionView,
>
    decreases events.len(),
{
    if events.len() == 0 {
        registry
    } else {
        after_event(after_run(registry, events.drop_last()), events.last())
    }
}

/// The identity of the connection that `event` sets up, if it sets one up.
pub open spec fn connection_of(event: BridgeEvent) -> Option<u64> {
    match event {
        BridgeEvent::Control {
            state: ConnectionState::Connecting,
            event: ControlEventView::PeerReady { connection },
        } => Some(connection),
        _ => None,
    }
}

/// The identity of the connection that was set up last in `events`, if any
/// was.
pub open spec fn latest_connection(events: Seq<BridgeEvent>) -> Option<u64>
    decreases events.len(),
{
    if events.len() == 0 {
        None
    } else if connection_of(events.last()) is Some {
        connection_of(events.last())
    } else {
        latest_connection(events.drop_last())
    }
}

/// The identity of the session that the registry holds, if it holds one.
pub open spec fn active_id(registry: Option<SessionView>) -> Option<u64> {
    match registry {
        Some(s) => Some(s.id),
        None => None,
    }
}

/// Whatever happens in a run, the registry afterwards holds the session of
/// the connection that was set up last in it. Where the run sets up none,
/// the registry holds a session of the same identity as before, or is still
/// empty.
pub proof fn lemma_run_holds_latest_connection(
    registry: Option<SessionView>,
    events: Seq<BridgeEvent>,
)
    ensures
        latest_connection(events) matches Some(connection) ==> active_id(
            after_run(registry, events),
        ) == Some(connection),
        latest_connection(events) is None ==> active_id(after_run(registry, events)) == active_id(
            registry,
        ),
    decreases events.len(),
{
    if events.len() > 0 {
        lemma_run_holds_latest_connection(registry, events.drop_last());
    }
}

/// An empty registry stays empty until a connection is set up: no request
/// and no channel event fills it.
pub proof fn lemma_run_without_connection_stays_empty(events: Seq<BridgeEvent>)
    requires
        latest_connection(events) is None,
    ensures
        after_run(None, events) == None::<SessionView>,
    decreases events.len(),
{
    if events.len() > 0 {
        lemma_run_without_connection_stays_empty(events.drop_last());
    }
}

/// Whatever happens in a run, nothing is left waiting on a channel that is
/// open or closed.
pub proof fn lemma_run_keeps_wf(registry: Option<SessionView>, events: Seq<BridgeEvent>)
    requires
        registry_wf(registry),
    ensures
        registry_wf(after_run(registry, events)),
    decreases events.len(),
{
    if events.len() > 0 {
        lemma_run_keeps_wf(registry, events.drop_last());
    }
}

/// How many notifications wait in the registry.
pub open spec fn waiting_in(registry: Option<SessionView>) -> nat {
    match registry {
        Some(s) => s.coordinator.waiting.len(),
        None => 0,
    }
}

/// How many notifications `event` puts into the queue: one for a request that
/// has to wait.
pub open spec fn queued_by(registry: Option<SessionView>, event: BridgeEvent) -> nat {
    match event {
        BridgeEvent::Notify { payload } => if dispatch_of(registry, payload) is NotYetOpen {
            1
        } else {
            0
        },
        _ => 0,
    }
}

/// How many waiting notifications `event` takes out of the queue. Each of
/// them is accounted for to the caller: as a frame that the open event
/// releases, as a ticket that the close event fails, as the notification
/// that is withdrawn, or inside the session that a new connection replaces
/// and that is handed back.
pub open spec fn settled_by(registry: Option<SessionView>, event: BridgeEvent) -> nat {
    match event {
        BridgeEvent::Control { .. } => if connection_of(event) is Some {
            waiting_in(registry)
        } else {
            0
        },
        BridgeEvent::Notify { .. } => 0,
        BridgeEvent::ChannelProposed { .. } => 0,
        BridgeEvent::ChannelOpened { session, channel } => released_by_opened(
            registry,
            session,
            channel,
        ).len(),
        BridgeEvent::ChannelClosed { session, channel } => failed_by_closed(
            registry,
            session,
            channel,
        ).len(),
        BridgeEvent::Cancel { session, ticket } => if is_current(registry, session)
            && registry->0.coordinator.holds(ticket) {
            1
        } else {
            0
        },
    }
}

/// How many notifications the run `events` puts into the queue.
pub open spec fn queued_in_run(registry: Option<SessionView>, events: Seq<BridgeEvent>) -> nat
    decreases events.len(),
{
    if events.len() == 0 {
        0
    } else {
        queued_in_run(registry, events.drop_last()) + queued_by(
            after_run(registry, events.drop_last()),
            events.last(),
        )
    }
}

/// How many waiting notifications the run `events` takes out of the queue.
pub open spec fn settled_in_run(registry: Option<SessionView>, events: Seq<BridgeEvent>) -> nat
    decreases events.len(),
{
    if events.len() == 0 {
        0
    } else {
        settled_in_run(registry, events.drop_last()) + settled_by(
            after_run(registry, events.drop_last()),
            events.last(),
        )
    }
}

/// One event neither loses a waiting notification nor settles one twice:
/// what waits afterwards and what the event settled add up to what waited
/// before and what the event queued.
pub proof fn lemma_event_accounts_for_waiters(registry: Option<SessionView>, event: BridgeEvent)
    ensures
        waiting_in(after_event(registry, event)) + settled_by(registry, event) == waiting_in(
            registry,
        ) + queued_by(registry, event),
{
    match event {
        BridgeEvent::Cancel { session, ticket } => {
            if is_current(registry, session) && registry->0.coordinator.holds(ticket) {
                lemma_without_takes_one(registry->0.coordinator, ticket);
            }
        },
        _ => {},
    }
}

/// Over a whole run no waiting notification is lost and none is settled
/// twice: every notification that was queued is either still waiting or was
/// taken out of the queue once, with an account of it to the caller.
pub proof fn lemma_run_accounts_for_waiters(registry: Option<SessionView>, events: Seq<BridgeEvent>)
    ensures
        waiting_in(after_run(registry, events)) + settled_in_run(registry, events) == waiting_in(
            registry,
        ) + queued_in_run(registry, events),
    decreases events.len(),
{
    if events.len() > 0 {
        lemma_run_accounts_for_waiters(registry, events.drop_last());
        lemma_event_accounts_for_waiters(after_run(registry, events.drop_last()), events.last());
    }
}

} // verus!
