//! Core of an AMQP 1.0 connection engine: the session table, the outgoing
//! frame queue, incoming frame routing, the heartbeat watchdog and the error
//! taxonomy, stated as verified state machines over plain values.
mod config;
mod connection;
mod driver;
mod errors;
mod frame;
mod handshake;
mod hb;
pub mod laws;
mod session;
mod table;
mod transfer;

pub use config::Configuration;
pub use errors::{
    AmqpError, AmqpErrorKind, AmqpTransportError, ConnectionErrorKind, ErrorCondition, LinkError,
    LinkErrorKind, SessionErrorKind, WireError,
};
pub use frame::{Begin, Frame, Performative};
pub use hb::{Heartbeat, HeartbeatAction};
pub use session::{ChannelState, SessionInner};
pub use connection::{ConnectionController, Incoming, State};
pub use driver::Connection;
pub use transfer::{DeliveryState, Outcome, Transfer, TransferBody, TransferFrame};
pub use handshake::{
    accept_protocol, check_protocol, header_round_trip, parse_protocol_header, protocol_header,
    ProtocolId, ProtocolIdError,
};
