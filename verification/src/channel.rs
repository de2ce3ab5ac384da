//! The lifecycle of a data channel.

use vstd::prelude::*;

verus! {

/// Where a data channel stands. A channel starts as `Proposed`, may become
/// `Open`, and ends as `Closed`.
#[derive(Clone, Copy, Debug, PartialEq, Eq, Structural)]
pub enum ChannelState {
    /// Created by the remote side, not yet usable.
    Proposed,
    /// Usable for sending.
    Open,
    /// Terminal: sending fails.
    Closed,
}

/// A data channel of a peer session: the label under which the caller knows
/// it, and its state.
#[derive(Clone, Copy, Debug, PartialEq, Eq, Structural)]
pub struct DataChannel {
    pub id: u64,
    pub state: ChannelState,
}

impl ChannelState {
    /// The state after the open event: only a proposed channel opens.
    pub open spec fn after_open(self) -> ChannelState {
        match self {
            ChannelState::Proposed => ChannelState::Open,
            ChannelState::Open => ChannelState::Open,
            ChannelState::Closed => ChannelState::Closed,
        }
    }

    /// Whether text can be sent in this state.
    pub open spec fn can_send(self) -> bool {
        self == ChannelState::Open
    }
}

impl DataChannel {
    /// A channel that the remote side has just proposed.
    pub fn proposed(id: u64) -> (channel: DataChannel)
        ensures
            channel == (DataChannel { id, state: ChannelState::Proposed }),
    {
        DataChannel { id, state: ChannelState::Proposed }
    }

    /// Whether text can be sent on the channel.
    pub fn can_send(&self) -> (b: bool)
        ensures
            b == self.state.can_send(),
    {
        match self.state {
            ChannelState::Open => true,
            _ => false,
        }
    }

    /// Whether the channel is closed for good.
    pub fn is_closed(&self) -> (b: bool)
        ensures
            b == (self.state == ChannelState::Closed),
    {
        match self.state {
            ChannelState::Closed => true,
            _ => false,
        }
    }

    /// Applies the open event and says whether the channel has just become
    /// usable.
    pub fn mark_open(&mut self) -> (opened: bool)
        ensures
            final(self).id == old(self).id,
            final(self).state == old(self).state.after_open(),
            opened == (old(self).state == ChannelState::Proposed),
    {
        match self.state {
            ChannelState::Proposed => {
                self.state = ChannelState::Open;
                true
            },
            _ => false,
        }
    }

    /// Applies the close event and says whether the channel was still alive.
    pub fn mark_closed(&mut self) -> (was_alive: bool)
        ensures
            final(self).id == old(self).id,
            final(self).state == ChannelState::Closed,
            was_alive == (old(self).state != ChannelState::Closed),
    {
        match self.state {
            ChannelState::Closed => false,
            _ => {
                self.state = ChannelState::Closed;
                true
            },
        }
    }
}

} // verus!
