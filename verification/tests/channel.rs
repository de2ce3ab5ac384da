use session_bridge::channel::{ChannelState, DataChannel};

#[test]
fn proposed_channel_cannot_send() {
    let channel = DataChannel::proposed(4);
    assert_eq!(channel, DataChannel { id: 4, state: ChannelState::Proposed });
    assert!(!channel.can_send());
    assert!(!channel.is_closed());
}

#[test]
fn proposed_channel_opens_once() {
    let mut channel = DataChannel::proposed(4);
    assert!(channel.mark_open());
    assert_eq!(channel.state, ChannelState::Open);
    assert!(channel.can_send());
    assert!(!channel.mark_open());
    assert_eq!(channel.state, ChannelState::Open);
    assert_eq!(channel.id, 4);
}

#[test]
fn open_channel_closes() {
    let mut channel = DataChannel::proposed(9);
    channel.mark_open();
    assert!(channel.mark_closed());
    assert_eq!(channel, DataChannel { id: 9, state: ChannelState::Closed });
    assert!(!channel.can_send());
    assert!(channel.is_closed());
}

#[test]
fn proposed_channel_can_close_before_it_opens() {
    let mut channel = DataChannel::proposed(9);
    assert!(channel.mark_closed());
    assert_eq!(channel.state, ChannelState::Closed);
}

#[test]
fn closed_channel_is_terminal() {
    let mut channel = DataChannel::proposed(1);
    channel.mark_closed();
    assert!(!channel.mark_open());
    assert_eq!(channel.state, ChannelState::Closed);
    assert!(!channel.mark_closed());
    assert_eq!(channel.state, ChannelState::Closed);
    assert!(!channel.can_send());
}
