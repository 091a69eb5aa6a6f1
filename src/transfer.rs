//! An incoming message transfer as a receiving service sees it.
use vstd::prelude::*;

use crate::errors::{AmqpError, AmqpErrorKind, ErrorCondition, WireError};
use crate::session::SessionInner;

verus! {

/// The payload of a Transfer frame.
#[derive(Debug, PartialEq)]
pub enum TransferBody {
    /// Raw message bytes, to be decoded by the receiver.
    Data(Vec<u8>),
    /// A message that the codec has already taken apart, still encoded.
    Message(Vec<u8>),
}

/// The Transfer performative's fields that a receiver reads.
#[derive(Debug, PartialEq)]
pub struct TransferFrame {
    pub handle: u32,
    pub delivery_id: Option<u32>,
    pub delivery_tag: Option<Vec<u8>>,
    pub settled: Option<bool>,
    pub more: bool,
    pub body: Option<TransferBody>,
}

/// How a delivery ended, as sent back in a Disposition.
#[derive(Debug, PartialEq)]
pub enum DeliveryState {
    Accepted,
    Rejected(Option<WireError>),
    Released,
    Modified,
}

/// The receiver's verdict on a transfer.
#[derive(Debug, PartialEq)]
pub enum Outcome {
    Accept,
    Reject,
    Error(WireError),
}

impl Outcome {
    /// The outcome that carries an error record.
    pub fn from_error(err: WireError) -> (r: Outcome)
        ensures
            r == Outcome::Error(err),
    {
        Outcome::Error(err)
    }

    /// Accept is `Accepted`; Reject and Error are `Rejected`, with the error
    /// record where there is one.
    pub fn into_delivery_state(self) -> (r: DeliveryState)
        ensures
            r == match self {
                Outcome::Accept => DeliveryState::Accepted,
                Outcome::Reject => DeliveryState::Rejected(None),
                Outcome::Error(e) => DeliveryState::Rejected(Some(e)),
            },
    {
        match self {
            Outcome::Accept => DeliveryState::Accepted,
            Outcome::Reject => DeliveryState::Rejected(None),
            Outcome::Error(e) => DeliveryState::Rejected(Some(e)),
        }
    }
}

/// A received transfer with the service state and the session it came on.
pub struct Transfer<S> {
    state: S,
    frame: TransferFrame,
    session: SessionInner,
}

impl<S> Transfer<S> {
    pub closed spec fn spec_state(&self) -> S {
        self.state
    }

    pub closed spec fn spec_frame(&self) -> TransferFrame {
        self.frame
    }

    pub closed spec fn spec_session(&self) -> SessionInner {
        self.session
    }

    pub fn new(state: S, frame: TransferFrame, session: SessionInner) -> (r: Self)
        ensures
            r.spec_state() == state,
            r.spec_frame() == frame,
            r.spec_session() == session,
    {
        Transfer { state, frame, session }
    }

    pub fn state(&self) -> (r: &S)
        ensures
            *r == self.spec_state(),
    {
        &self.state
    }

    pub fn state_mut(&mut self) -> (r: &mut S)
        ensures
            *r == old(self).spec_state(),
            final(self).spec_state() == *final(r),
            final(self).spec_frame() == old(self).spec_frame(),
            final(self).spec_session() == old(self).spec_session(),
    {
        &mut self.state
    }

    pub fn session(&self) -> (r: &SessionInner)
        ensures
            *r == self.spec_session(),
    {
        &self.session
    }

    pub fn session_mut(&mut self) -> (r: &mut SessionInner)
        ensures
            *r == old(self).spec_session(),
            final(self).spec_session() == *final(r),
            final(self).spec_frame() == old(self).spec_frame(),
            final(self).spec_state() == old(self).spec_state(),
    {
        &mut self.session
    }

    pub fn frame(&self) -> (r: &TransferFrame)
        ensures
            *r == self.spec_frame(),
    {
        &self.frame
    }

    /// The raw message bytes, if the body is `Data`.
    pub fn body(&self) -> (r: Option<&Vec<u8>>)
        ensures
            match self.spec_frame().body {
                Some(TransferBody::Data(b)) => r == Some(&b),
                _ => r is None,
            },
    {
        match &self.frame.body {
            Some(TransferBody::Data(b)) => Some(b),
            _ => None,
        }
    }

    /// Decodes a `Data` body with `decode`. A body that does not decode
    /// gives `decode-error`; a missing or other body gives `invalid-field`.
    pub fn load_message<T, F>(&self, decode: F) -> (r: Result<T, AmqpError>)
        where
            F: FnOnce(&Vec<u8>) -> Option<T>,
        requires
            self.spec_frame().body matches Some(TransferBody::Data(b)) ==> decode.requires((&b,)),
        ensures
            match self.spec_frame().body {
                Some(TransferBody::Data(b)) => match r {
                    Ok(m) => decode.ensures((&b,), Some(m)),
                    Err(e) => {
                        &&& decode.ensures((&b,), None)
                        &&& e.condition == ErrorCondition::AmqpError(AmqpErrorKind::DecodeError)
                        &&& e.description matches Some(d) && d@ == "Can not decode message"@
                        &&& e.info is None
                    },
                },
                _ => r matches Err(e) && e.condition == ErrorCondition::AmqpError(
                    AmqpErrorKind::InvalidField,
                ) && (e.description matches Some(d) && d@ == "Unknown body"@) && e.info is None,
            },
    {
        match &self.frame.body {
            Some(TransferBody::Data(b)) => match decode(b) {
                Some(msg) => Ok(msg),
                None => Err(AmqpError::decode_error().description("Can not decode message")),
            },
            _ => Err(AmqpError::invalid_field().description("Unknown body")),
        }
    }
}

} // verus!
