//! Frames as the engine sees them: a channel and a performative.
use vstd::prelude::*;

use crate::errors::WireError;

verus! {

/// The Begin performative's fields that the engine reads or writes.
#[derive(Debug, Clone, Copy, PartialEq, Eq, Structural)]
pub struct Begin {
    /// The sender's channel for the session, set when answering a Begin.
    pub remote_channel: Option<u16>,
    pub next_outgoing_id: u32,
    pub incoming_window: u32,
    pub outgoing_window: u32,
    pub handle_max: u32,
}

/// A performative. Link-level ones travel as their encoded bytes: the
/// engine routes them without reading them.
#[derive(Debug, PartialEq)]
pub enum Performative {
    Begin(Begin),
    Attach(Vec<u8>),
    Flow(Vec<u8>),
    Transfer(Vec<u8>),
    Disposition(Vec<u8>),
    Detach(Vec<u8>),
    End(Option<WireError>),
    Close(Option<WireError>),
    /// The heartbeat: a frame without a performative.
    Empty,
}

/// One AMQP frame.
#[derive(Debug, PartialEq)]
pub struct Frame {
    pub channel: u16,
    pub performative: Performative,
}

impl Frame {
    pub fn new(channel: u16, performative: Performative) -> (r: Frame)
        ensures
            r == (Frame { channel, performative }),
    {
        Frame { channel, performative }
    }

    pub fn channel_id(&self) -> (r: u16)
        ensures
            r == self.channel,
    {
        self.channel
    }

    pub fn performative(&self) -> (r: &Performative)
        ensures
            *r == self.performative,
    {
        &self.performative
    }
}

} // verus!
