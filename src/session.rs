//! Per-channel session state.
use vstd::prelude::*;

use crate::errors::AmqpTransportError;

verus! {

/// A session once both Begin frames are exchanged.
#[derive(Debug, PartialEq)]
pub struct SessionInner {
    /// The local token, which is also the local channel number.
    pub id: usize,
    /// Whether this side sent the first Begin.
    pub initiator: bool,
    /// The peer's channel number for this session.
    pub remote_channel: u16,
    pub next_outgoing_id: u32,
    pub incoming_window: u32,
    pub outgoing_window: u32,
    pub error: Option<AmqpTransportError>,
}

impl SessionInner {
    pub fn id(&self) -> (r: usize)
        ensures
            r == self.id,
    {
        self.id
    }

    /// Stores a terminal error for the session.
    pub fn set_error(&mut self, err: AmqpTransportError)
        ensures
            *final(self) == (SessionInner { error: Some(err), ..*old(self) }),
    {
        self.error = Some(err);
    }
}

/// What a slot of the session table holds.
#[derive(Debug, PartialEq)]
pub enum ChannelState {
    /// We sent Begin and wait for the peer's; `waiter_alive` is false once
    /// nobody waits for the session any more.
    Opening { waiter_alive: bool },
    /// Both Begin frames exchanged.
    Established(SessionInner),
    /// We sent End on the session whose peer channel is given, and wait for
    /// the peer's End.
    Closing(u16),
}

impl ChannelState {
    pub open spec fn spec_is_opening(&self) -> bool {
        self is Opening
    }

    pub fn is_opening(&self) -> (r: bool)
        ensures
            r == self.spec_is_opening(),
    {
        matches!(self, ChannelState::Opening { .. })
    }
}

} // verus!
