//! The session registry: the one slot that holds the active peer session.

use vstd::prelude::*;
use crate::session::{PeerSession, SessionView};

verus! {

/// The value of a session that may be absent.
pub open spec fn session_view(session: Option<PeerSession>) -> Option<SessionView> {
    match session {
        Some(s) => Some(s@),
        None => None,
    }
}

/// The registry after `session` was registered in it: whatever it held, it
/// now holds `session`.
pub open spec fn registered(registry: Option<SessionView>, session: SessionView) -> Option<
    SessionView,
> {
    Some(session)
}

/// The registry after each of `sessions` was registered in turn.
pub open spec fn registered_all(registry: Option<SessionView>, sessions: Seq<SessionView>) -> Option<
    SessionView,
>
    decreases sessions.len(),
{
    if sessions.len() == 0 {
        registry
    } else {
        registered(registered_all(registry, sessions.drop_last()), sessions.last())
    }
}

/// The registry of the active peer session. It is created empty and holds at
/// most one session; registering another replaces it.
#[derive(Debug, PartialEq, Eq)]
pub struct Registry {
    slot: Option<PeerSession>,
}

impl View for Registry {
    type V = Option<SessionView>;

    closed spec fn view(&self) -> Option<SessionView> {
        session_view(self.slot)
    }
}

impl Registry {
    /// An empty registry.
    pub fn new() -> (registry: Registry)
        ensures
            registry@ is None,
    {
        Registry { slot: None }
    }

    /// Makes `session` the active session and hands back the one it
    /// replaces, so that the caller can tear it down.
    pub fn register(&mut self, session: PeerSession) -> (released: Option<PeerSession>)
        ensures
            final(self)@ == registered(old(self)@, session@),
            session_view(released) == old(self)@,
    {
        let released = self.slot.take();
        self.slot = Some(session);
        released
    }

    /// The active session, if there is one.
    pub fn current(&self) -> (session: Option<&PeerSession>)
        ensures
            session is Some == self@ is Some,
            session matches Some(s) ==> self@ == Some(s@),
    {
        self.slot.as_ref()
    }

    /// The active session for an update in place, if there is one.
    pub fn current_mut(&mut self) -> (session: Option<&mut PeerSession>)
        ensures
            session is Some == old(self)@ is Some,
            session matches Some(s) ==> old(self)@ == Some(s@) && final(self)@ == Some(final(s)@),
            session is None ==> final(self)@ is None,
    {
        self.slot.as_mut()
    }
}

} // verus!
