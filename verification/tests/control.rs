use serde_json::Value;
use session_bridge::control::{
    handle_websocket, notify_image_update, upload_image_handler, ConnectionState, ControlAction,
    ControlEvent,
};
use session_bridge::coordinator::Delivery;
use session_bridge::dispatcher::{channel_opened, channel_proposed, Dispatch, Outcome};
use session_bridge::registry::Registry;
use session_bridge::session::PeerSession;

#[test]
fn peer_ready_registers_a_fresh_session_and_serves() {
    let mut registry = Registry::new();
    let (state, action) = handle_websocket(
        &mut registry,
        ConnectionState::Connecting,
        ControlEvent::PeerReady { connection: 5 },
    );
    assert_eq!(state, ConnectionState::Serving { session: 5 });
    assert_eq!(action, ControlAction::Serve { session: 5, released: None });
    assert_eq!(registry.current(), Some(&PeerSession::new(5)));
}

#[test]
fn registration_does_not_wait_for_a_channel() {
    let mut registry = Registry::new();
    handle_websocket(
        &mut registry,
        ConnectionState::Connecting,
        ControlEvent::PeerReady { connection: 5 },
    );
    assert_eq!(registry.current().unwrap().channel(), None);
    assert_eq!(registry.current().unwrap().id(), 5);
}

#[test]
fn peer_ready_hands_back_the_replaced_session() {
    let mut registry = Registry::new();
    registry.register(PeerSession::new(4));
    let (state, action) = handle_websocket(
        &mut registry,
        ConnectionState::Connecting,
        ControlEvent::PeerReady { connection: 5 },
    );
    assert_eq!(state, ConnectionState::Serving { session: 5 });
    assert_eq!(
        action,
        ControlAction::Serve { session: 5, released: Some(PeerSession::new(4)) }
    );
    assert_eq!(registry.current().unwrap().id(), 5);
}

#[test]
fn setup_failure_is_reported_and_ends_the_attempt() {
    let mut registry = Registry::new();
    registry.register(PeerSession::new(4));
    let (state, action) =
        handle_websocket(&mut registry, ConnectionState::Connecting, ControlEvent::PeerFailed);
    assert_eq!(state, ConnectionState::Finished);
    assert_eq!(action, ControlAction::ReportSetupFailure);
    assert_eq!(registry.current().unwrap().id(), 4);
}

#[test]
fn setup_failure_on_an_empty_registry_leaves_it_empty() {
    let mut registry = Registry::new();
    handle_websocket(&mut registry, ConnectionState::Connecting, ControlEvent::PeerFailed);
    assert!(registry.current().is_none());
}

#[test]
fn text_frames_are_logged_while_serving() {
    let mut registry = Registry::new();
    registry.register(PeerSession::new(5));
    let serving = ConnectionState::Serving { session: 5 };
    let (state, action) =
        handle_websocket(&mut registry, serving, ControlEvent::Text("hello".to_string()));
    assert_eq!(state, serving);
    assert_eq!(action, ControlAction::Log("hello".to_string()));
    let (state, action) =
        handle_websocket(&mut registry, serving, ControlEvent::Text(String::new()));
    assert_eq!(state, serving);
    assert_eq!(action, ControlAction::Log(String::new()));
    assert_eq!(registry.current(), Some(&PeerSession::new(5)));
}

#[test]
fn other_frames_are_ignored_while_serving() {
    let mut registry = Registry::new();
    registry.register(PeerSession::new(5));
    let serving = ConnectionState::Serving { session: 5 };
    let (state, action) = handle_websocket(&mut registry, serving, ControlEvent::Other);
    assert_eq!(state, serving);
    assert_eq!(action, ControlAction::Continue);
    assert_eq!(registry.current(), Some(&PeerSession::new(5)));
}

#[test]
fn setup_events_are_ignored_while_serving() {
    let mut registry = Registry::new();
    registry.register(PeerSession::new(5));
    let serving = ConnectionState::Serving { session: 5 };
    let (state, action) =
        handle_websocket(&mut registry, serving, ControlEvent::PeerReady { connection: 6 });
    assert_eq!(state, serving);
    assert_eq!(action, ControlAction::Continue);
    let (state, action) = handle_websocket(&mut registry, serving, ControlEvent::PeerFailed);
    assert_eq!(state, serving);
    assert_eq!(action, ControlAction::Continue);
    assert_eq!(registry.current().unwrap().id(), 5);
}

#[test]
fn end_of_connection_keeps_the_session_registered() {
    let mut registry = Registry::new();
    registry.register(PeerSession::new(5));
    let (state, action) = handle_websocket(
        &mut registry,
        ConnectionState::Serving { session: 5 },
        ControlEvent::Closed,
    );
    assert_eq!(state, ConnectionState::Finished);
    assert_eq!(action, ControlAction::Stop);
    assert_eq!(registry.current(), Some(&PeerSession::new(5)));
}

#[test]
fn frames_before_setup_are_ignored() {
    let mut registry = Registry::new();
    let (state, action) = handle_websocket(
        &mut registry,
        ConnectionState::Connecting,
        ControlEvent::Text("early".to_string()),
    );
    assert_eq!(state, ConnectionState::Connecting);
    assert_eq!(action, ControlAction::Continue);
    let (state, action) =
        handle_websocket(&mut registry, ConnectionState::Connecting, ControlEvent::Other);
    assert_eq!(state, ConnectionState::Connecting);
    assert_eq!(action, ControlAction::Continue);
    assert!(registry.current().is_none());
}

#[test]
fn end_of_connection_during_setup_finishes_it() {
    let mut registry = Registry::new();
    let (state, action) =
        handle_websocket(&mut registry, ConnectionState::Connecting, ControlEvent::Closed);
    assert_eq!(state, ConnectionState::Finished);
    assert_eq!(action, ControlAction::Stop);
    assert!(registry.current().is_none());
}

#[test]
fn finished_connection_stays_finished() {
    let mut registry = Registry::new();
    let events = [
        ControlEvent::PeerReady { connection: 9 },
        ControlEvent::PeerFailed,
        ControlEvent::Text("late".to_string()),
        ControlEvent::Other,
        ControlEvent::Closed,
    ];
    for event in events {
        let (state, action) = handle_websocket(&mut registry, ConnectionState::Finished, event);
        assert_eq!(state, ConnectionState::Finished);
        assert_eq!(action, ControlAction::Stop);
    }
    assert!(registry.current().is_none());
}

#[test]
fn upload_without_session_still_answers_success() {
    let mut registry = Registry::new();
    let reply = upload_image_handler(&mut registry);
    assert_eq!(reply.dispatch, Dispatch::NoSession);
    assert_eq!(reply.dispatch.outcome(true), Outcome::NoSession);
    assert_eq!(
        reply.body,
        "{\"status\":\"success\",\"new_image_url\":\"/static/images/new_image.jpg\"}"
    );
    let decoded: Value = serde_json::from_str(&reply.body).unwrap();
    assert_eq!(decoded["status"], Value::String("success".to_string()));
    assert_eq!(
        decoded["new_image_url"],
        Value::String("/static/images/new_image.jpg".to_string())
    );
    assert!(registry.current().is_none());
}

#[test]
fn upload_announces_the_new_image_on_the_open_channel() {
    let mut registry = Registry::new();
    registry.register(PeerSession::new(1));
    channel_proposed(&mut registry, 1, 2);
    channel_opened(&mut registry, 1, 2);
    let reply = upload_image_handler(&mut registry);
    assert_eq!(
        reply.dispatch,
        Dispatch::Ready {
            session: 1,
            delivery: Delivery {
                ticket: 0,
                channel: 2,
                text: "{\"type\":\"imageUpdate\",\"imageUrl\":\"/static/images/new_image.jpg\"}"
                    .to_string(),
            },
        }
    );
    assert_eq!(
        reply.body,
        "{\"status\":\"success\",\"new_image_url\":\"/static/images/new_image.jpg\"}"
    );
}

#[test]
fn upload_answers_success_while_the_notification_waits() {
    let mut registry = Registry::new();
    registry.register(PeerSession::new(1));
    let reply = upload_image_handler(&mut registry);
    assert_eq!(reply.dispatch, Dispatch::NotYetOpen { session: 1, ticket: 0 });
    assert_eq!(
        reply.body,
        "{\"status\":\"success\",\"new_image_url\":\"/static/images/new_image.jpg\"}"
    );
    assert_eq!(registry.current().unwrap().waiting_count(), 1);
}

#[test]
fn notify_image_update_sends_the_given_locator() {
    let mut registry = Registry::new();
    assert_eq!(notify_image_update(&mut registry, "/x.jpg"), Dispatch::NoSession);
    registry.register(PeerSession::new(1));
    channel_proposed(&mut registry, 1, 2);
    channel_opened(&mut registry, 1, 2);
    assert_eq!(
        notify_image_update(&mut registry, "/x.jpg"),
        Dispatch::Ready {
            session: 1,
            delivery: Delivery {
                ticket: 0,
                channel: 2,
                text: "{\"type\":\"imageUpdate\",\"imageUrl\":\"/x.jpg\"}".to_string(),
            },
        }
    );
}
