//! The control plane: what a control-plane connection does to the registry
//! from the moment it is accepted until it ends, and the trigger that asks
//! for an image update to be announced.

use vstd::prelude::*;
use crate::dispatcher::{after_notify, dispatch_of, notify, Dispatch, DispatchView};
use crate::json::{json_string_text, object_text, quoted, string_object};
use crate::payload::{Payload, PayloadView};
use crate::registry::{registered, session_view, Registry};
use crate::session::{PeerSession, SessionView};

verus! {

/// Where a control-plane connection stands.
#[derive(Clone, Copy, Debug, PartialEq, Eq, Structural)]
pub enum ConnectionState {
    /// Accepted; its peer connection is being set up.
    Connecting,
    /// Its session is registered and its frames are read.
    Serving { session: u64 },
    /// Over: setup failed or the connection ended.
    Finished,
}

/// What happened on a control-plane connection.
#[derive(Debug, PartialEq, Eq)]
pub enum ControlEvent {
    /// The peer connection was set up; `connection` is the identity under
    /// which the caller knows it.
    PeerReady { connection: u64 },
    /// The peer connection could not be set up.
    PeerFailed,
    /// A text frame arrived.
    Text(String),
    /// A frame that is not text arrived.
    Other,
    /// The connection ended or could not be read.
    Closed,
}

/// The mathematical value of a [`ControlEvent`].
pub enum ControlEventView {
    PeerReady { connection: u64 },
    PeerFailed,
    Text(Seq<char>),
    Other,
    Closed,
}

impl View for ControlEvent {
    type V = ControlEventView;

    open spec fn view(&self) -> ControlEventView {
        match self {
            ControlEvent::PeerReady { connection } => ControlEventView::PeerReady {
                connection: *connection,
            },
            ControlEvent::PeerFailed => ControlEventView::PeerFailed,
            ControlEvent::Text(text) => ControlEventView::Text(text@),
            ControlEvent::Other => ControlEventView::Other,
            ControlEvent::Closed => ControlEventView::Closed,
        }
    }
}

/// What the caller does next on a control-plane connection.
#[derive(Debug, PartialEq, Eq)]
pub enum ControlAction {
    /// The session `session` is registered: listen for the channels that the
    /// remote side proposes on it and start reading frames. `released` is
    /// the session that it replaced.
    Serve { session: u64, released: Option<PeerSession> },
    /// Log the text, then read the next frame.
    Log(String),
    /// Read the next frame; nothing else is to be done.
    Continue,
    /// Setup failed: report it and end this connection attempt. It is not
    /// tried again.
    ReportSetupFailure,
    /// The connection is over. Its session stays registered.
    Stop,
}

/// The mathematical value of a [`ControlAction`].
pub enum ControlActionView {
    Serve { session: u64, released: Option<SessionView> },
    Log(Seq<char>),
    Continue,
    ReportSetupFailure,
    Stop,
}

impl View for ControlAction {
    type V = ControlActionView;

    open spec fn view(&self) -> ControlActionView {
        match self {
            ControlAction::Serve { session, released } => ControlActionView::Serve {
                session: *session,
                released: session_view(*released),
            },
            ControlAction::Log(text) => ControlActionView::Log(text@),
            ControlAction::Continue => ControlActionView::Continue,
            ControlAction::ReportSetupFailure => ControlActionView::ReportSetupFailure,
            ControlAction::Stop => ControlActionView::Stop,
        }
    }
}

/// The state of a connection after `event`.
///
/// Setup is answered once, while connecting. Frames count while serving.
/// The end of the connection finishes it in every state. Everything else
/// leaves the state as it is.
pub open spec fn next_state(state: ConnectionState, event: ControlEventView) -> ConnectionState {
    match (state, event) {
        (ConnectionState::Connecting, ControlEventView::PeerReady { connection }) => {
            ConnectionState::Serving { session: connection }
        },
        (ConnectionState::Connecting, ControlEventView::PeerFailed) => ConnectionState::Finished,
        (_, ControlEventView::Closed) => ConnectionState::Finished,
        _ => state,
    }
}

/// The registry after `event` on a connection in `state`: a connection that
/// is set up registers a fresh session, before any channel is proposed on it;
/// nothing else touches the registry, the end of a connection included.
pub open spec fn next_registry(
    registry: Option<SessionView>,
    state: ConnectionState,
    event: ControlEventView,
) -> Option<SessionView> {
    match (state, event) {
        (ConnectionState::Connecting, ControlEventView::PeerReady { connection }) => registered(
            registry,
            SessionView::fresh(connection),
        ),
        _ => registry,
    }
}

/// What the caller is to do after `event` on a connection in `state`.
pub open spec fn next_action(
    registry: Option<SessionView>,
    state: ConnectionState,
    event: ControlEventView,
) -> ControlActionView {
    match (state, event) {
        (ConnectionState::Connecting, ControlEventView::PeerReady { connection }) => {
            ControlActionView::Serve { session: connection, released: registry }
        },
        (ConnectionState::Connecting, ControlEventView::PeerFailed) => {
            ControlActionView::ReportSetupFailure
        },
        (ConnectionState::Serving { .. }, ControlEventView::Text(text)) => ControlActionView::Log(
            text,
        ),
        (ConnectionState::Finished, _) => ControlActionView::Stop,
        (_, ControlEventView::Closed) => ControlActionView::Stop,
        _ => ControlActionView::Continue,
    }
}

/// Takes one step of a control-plane connection: applies `event` to the
/// connection in `state` and to the registry, and returns the connection's
/// next state with what the caller is to do.
pub fn handle_websocket(registry: &mut Registry, state: ConnectionState, event: ControlEvent) -> (step:
    (ConnectionState, ControlAction))
    ensures
        step.0 == next_state(state, event@),
        step.1@ == next_action(old(registry)@, state, event@),
        final(registry)@ == next_registry(old(registry)@, state, event@),
{
    match state {
        ConnectionState::Connecting => match event {
            ControlEvent::PeerReady { connection } => {
                let released = registry.register(PeerSession::new(connection));
                (
                    ConnectionState::Serving { session: connection },
                    ControlAction::Serve { session: connection, released },
                )
            },
            ControlEvent::PeerFailed => (
                ConnectionState::Finished,
                ControlAction::ReportSetupFailure,
            ),
            ControlEvent::Closed => (ConnectionState::Finished, ControlAction::Stop),
            _ => (state, ControlAction::Continue),
        },
        ConnectionState::Serving { .. } => match event {
            ControlEvent::Text(text) => (state, ControlAction::Log(text)),
            ControlEvent::Closed => (ConnectionState::Finished, ControlAction::Stop),
            _ => (state, ControlAction::Continue),
        },
        ConnectionState::Finished => (ConnectionState::Finished, ControlAction::Stop),
    }
}

/// The locator of the image that the trigger announces.
pub open spec fn new_image_locator() -> Seq<char> {
    "/static/images/new_image.jpg"@
}

/// The body with which the trigger answers: a JSON object with the members
/// `status`, always `success`, and `new_image_url`.
pub open spec fn upload_response_text(new_image_url: Seq<char>) -> Seq<char> {
    object_text(
        quoted("status"@),
        quoted("success"@),
        quoted("new_image_url"@),
        json_string_text(new_image_url),
    )
}

/// What the trigger hands back: what became of the notification, and the
/// body of the answer.
#[derive(Debug, PartialEq, Eq)]
pub struct UploadReply {
    pub dispatch: Dispatch,
    pub body: String,
}

/// Asks for the peer to be told that the image at `new_image_url` has
/// changed.
pub fn notify_image_update(registry: &mut Registry, new_image_url: &str) -> (dispatch: Dispatch)
    ensures
        dispatch@ == dispatch_of(
            old(registry)@,
            PayloadView::ImageUpdate { image_url: new_image_url@ },
        ),
        final(registry)@ == after_notify(
            old(registry)@,
            PayloadView::ImageUpdate { image_url: new_image_url@ },
        ),
{
    notify(registry, Payload::image_update(new_image_url))
}

/// The trigger: announces the new image and answers with success, whether or
/// not the notification could be delivered.
pub fn upload_image_handler(registry: &mut Registry) -> (reply: UploadReply)
    ensures
        reply.dispatch@ == dispatch_of(
            old(registry)@,
            PayloadView::ImageUpdate { image_url: new_image_locator() },
        ),
        reply.body@ == upload_response_text(new_image_locator()),
        final(registry)@ == after_notify(
            old(registry)@,
            PayloadView::ImageUpdate { image_url: new_image_locator() },
        ),
{
    proof {
        reveal_strlit("status");
        reveal_strlit("success");
        reveal_strlit("new_image_url");
    }
    let new_image_url = "/static/images/new_image.jpg";
    let dispatch = notify_image_update(registry, new_image_url);
    let body = string_object("status", "success", "new_image_url", new_image_url);
    UploadReply { dispatch, body }
}

} // verus!
