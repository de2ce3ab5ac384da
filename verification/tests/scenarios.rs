use serde_json::Value;
use session_bridge::control::{
    handle_websocket, notify_image_update, upload_image_handler, ConnectionState, ControlAction,
    ControlEvent,
};
use session_bridge::coordinator::Delivery;
use session_bridge::dispatcher::{
    channel_closed, channel_opened, channel_proposed, notify, Dispatch, Outcome,
};
use session_bridge::payload::Payload;
use session_bridge::registry::Registry;

fn connect(registry: &mut Registry, connection: u64) -> ConnectionState {
    let (state, action) = handle_websocket(
        registry,
        ConnectionState::Connecting,
        ControlEvent::PeerReady { connection },
    );
    assert!(matches!(action, ControlAction::Serve { session, .. } if session == connection));
    state
}

#[test]
fn open_channel_then_notify_gives_exactly_one_frame() {
    let mut registry = Registry::new();
    let state = connect(&mut registry, 1);
    assert_eq!(state, ConnectionState::Serving { session: 1 });
    assert!(channel_proposed(&mut registry, 1, 1));
    assert_eq!(channel_opened(&mut registry, 1, 1), Vec::<Delivery>::new());
    let dispatch = notify_image_update(&mut registry, "/x.jpg");
    match &dispatch {
        Dispatch::Ready { session, delivery } => {
            assert_eq!(*session, 1);
            assert_eq!(delivery.channel, 1);
            assert_eq!(delivery.text, "{\"type\":\"imageUpdate\",\"imageUrl\":\"/x.jpg\"}");
            let received: Value = serde_json::from_str(&delivery.text).unwrap();
            let expected: Value =
                serde_json::from_str("{\"type\":\"imageUpdate\",\"imageUrl\":\"/x.jpg\"}").unwrap();
            assert_eq!(received, expected);
        }
        other => panic!("no frame was due: {:?}", other),
    }
    assert_eq!(dispatch.outcome(true), Outcome::Sent);
    assert_eq!(registry.current().unwrap().waiting_count(), 0);
    assert_eq!(channel_opened(&mut registry, 1, 1), Vec::<Delivery>::new());
    assert_eq!(channel_closed(&mut registry, 1, 1), Vec::<u64>::new());
}

#[test]
fn notify_with_no_session_sends_nothing_and_trigger_answers_success() {
    let mut registry = Registry::new();
    assert_eq!(notify(&mut registry, Payload::image_update("/x.jpg")), Dispatch::NoSession);
    let reply = upload_image_handler(&mut registry);
    assert_eq!(reply.dispatch, Dispatch::NoSession);
    let body: Value = serde_json::from_str(&reply.body).unwrap();
    assert_eq!(body["status"], Value::String("success".to_string()));
    assert!(registry.current().is_none());
    let state = connect(&mut registry, 1);
    assert_eq!(state, ConnectionState::Serving { session: 1 });
    channel_proposed(&mut registry, 1, 1);
    assert_eq!(channel_opened(&mut registry, 1, 1), Vec::<Delivery>::new());
}

#[test]
fn second_connection_takes_over_notifications() {
    let mut registry = Registry::new();
    connect(&mut registry, 1);
    channel_proposed(&mut registry, 1, 11);
    channel_opened(&mut registry, 1, 11);
    let (state, action) = handle_websocket(
        &mut registry,
        ConnectionState::Connecting,
        ControlEvent::PeerReady { connection: 2 },
    );
    assert_eq!(state, ConnectionState::Serving { session: 2 });
    match action {
        ControlAction::Serve { session, released } => {
            assert_eq!(session, 2);
            assert_eq!(released.map(|s| s.id()), Some(1));
        }
        other => panic!("the second session was not served: {:?}", other),
    }
    channel_proposed(&mut registry, 2, 22);
    channel_opened(&mut registry, 2, 22);
    match notify_image_update(&mut registry, "/x.jpg") {
        Dispatch::Ready { session, delivery } => {
            assert_eq!(session, 2);
            assert_eq!(delivery.channel, 22);
        }
        other => panic!("no frame was due: {:?}", other),
    }
}

#[test]
fn second_connection_without_channel_keeps_the_first_channel_silent() {
    let mut registry = Registry::new();
    connect(&mut registry, 1);
    channel_proposed(&mut registry, 1, 11);
    channel_opened(&mut registry, 1, 11);
    connect(&mut registry, 2);
    assert_eq!(
        notify_image_update(&mut registry, "/x.jpg"),
        Dispatch::NotYetOpen { session: 2, ticket: 0 }
    );
    assert_eq!(channel_opened(&mut registry, 1, 11), Vec::<Delivery>::new());
    assert_eq!(channel_closed(&mut registry, 1, 11), Vec::<u64>::new());
    assert_eq!(registry.current().unwrap().waiting_count(), 1);
}

#[test]
fn first_connection_ending_does_not_unregister_the_second() {
    let mut registry = Registry::new();
    let first = connect(&mut registry, 1);
    let second = connect(&mut registry, 2);
    let (state, action) = handle_websocket(&mut registry, first, ControlEvent::Closed);
    assert_eq!(state, ConnectionState::Finished);
    assert_eq!(action, ControlAction::Stop);
    assert_eq!(registry.current().unwrap().id(), 2);
    let (state, _) = handle_websocket(&mut registry, second, ControlEvent::Other);
    assert_eq!(state, ConnectionState::Serving { session: 2 });
}

#[test]
fn channel_closing_between_request_and_send_is_reported() {
    let mut registry = Registry::new();
    connect(&mut registry, 1);
    channel_proposed(&mut registry, 1, 1);
    let waiting = notify_image_update(&mut registry, "/x.jpg");
    assert_eq!(waiting, Dispatch::NotYetOpen { session: 1, ticket: 0 });
    assert_eq!(channel_closed(&mut registry, 1, 1), vec![0]);
    let refused = notify_image_update(&mut registry, "/y.jpg");
    assert_eq!(refused, Dispatch::ChannelClosed { session: 1 });
    assert_eq!(refused.outcome(true), Outcome::SendFailed);
    assert_eq!(refused.outcome(false), Outcome::SendFailed);
}

#[test]
fn registry_holds_the_most_recent_of_many_connections() {
    let mut registry = Registry::new();
    for connection in 0..20u64 {
        let state = connect(&mut registry, connection);
        assert_eq!(state, ConnectionState::Serving { session: connection });
        assert_eq!(registry.current().map(|s| s.id()), Some(connection));
        if connection % 3 == 0 {
            channel_proposed(&mut registry, connection, connection + 100);
            notify(&mut registry, Payload::image_update("/x.jpg"));
        }
        if connection % 5 == 0 {
            handle_websocket(&mut registry, state, ControlEvent::Closed);
        }
        assert_eq!(registry.current().map(|s| s.id()), Some(connection));
    }
    assert_eq!(registry.current().map(|s| s.id()), Some(19));
    assert_eq!(registry.current().unwrap().waiting_count(), 0);
}

#[test]
fn failed_setup_between_connections_keeps_the_earlier_session() {
    let mut registry = Registry::new();
    connect(&mut registry, 1);
    let (state, action) =
        handle_websocket(&mut registry, ConnectionState::Connecting, ControlEvent::PeerFailed);
    assert_eq!(state, ConnectionState::Finished);
    assert_eq!(action, ControlAction::ReportSetupFailure);
    assert_eq!(registry.current().map(|s| s.id()), Some(1));
    channel_proposed(&mut registry, 1, 1);
    channel_opened(&mut registry, 1, 1);
    assert!(matches!(
        notify_image_update(&mut registry, "/x.jpg"),
        Dispatch::Ready { session: 1, .. }
    ));
}
