//! A session bridge between a control-plane connection and a peer-to-peer
//! data channel.
//!
//! The crate holds the decisions of the bridge as plain state machines: which
//! peer session is the active one, when a proposed data channel becomes usable,
//! and what is sent once a notification is requested. The caller performs the
//! network work and hands each event back.
//!
//! - [`registry`]: the one slot that holds the active peer session.
//! - [`session`] and [`channel`]: a peer session and the lifecycle of its data
//!   channel.
//! - [`coordinator`]: the notifications that wait for a channel to open.
//! - [`dispatcher`]: requests for a notification, and the routing of channel
//!   events to the active session.
//! - [`control`]: the steps of a control-plane connection and the trigger.
//! - [`payload`] and [`json`]: the payload and its text on the wire.
//! - [`laws`]: what holds over whole runs.

pub mod json;
pub mod payload;
pub mod channel;
pub mod coordinator;
pub mod session;
pub mod registry;
pub mod dispatcher;
pub mod control;
pub mod laws;
