//! Protocol-id negotiation: the 8-byte header `"AMQP" id 1 0 0` that opens
//! the stream, before and after SASL.
use vstd::prelude::*;

use ntex_amqp_codec::ProtocolIdCodec;
use ntex_codec::Decoder;

verus! {

/// The protocol that a header announces.
#[derive(Debug, Clone, Copy, PartialEq, Eq, Structural)]
pub enum ProtocolId {
    Amqp,
    AmqpTls,
    AmqpSasl,
}

/// Why a header was refused.
#[derive(Debug, Clone, Copy, PartialEq, Eq, Structural)]
pub enum ProtocolIdError {
    /// The header does not start with `AMQP`.
    InvalidHeader,
    /// The version is not 1.0.0.
    Incompatible,
    /// The protocol id is none of 0, 2 and 3.
    Unknown,
    /// A valid protocol, but not the one this point of the handshake needs.
    Unexpected { exp: ProtocolId, got: ProtocolId },
}

/// The id byte that announces `id`.
pub open spec fn id_byte(id: ProtocolId) -> u8 {
    match id {
        ProtocolId::Amqp => 0,
        ProtocolId::AmqpTls => 2,
        ProtocolId::AmqpSasl => 3,
    }
}

/// What decoding the start of `b` as a header gives: nothing while fewer
/// than 8 bytes are there, else the id byte or the reason for refusal.
pub open spec fn decoded_header(b: Seq<u8>) -> Result<Option<u8>, ProtocolIdError> {
    if b.len() < 8 {
        Ok(None)
    } else if b[0] != 65 || b[1] != 77 || b[2] != 81 || b[3] != 80 {
        Err(ProtocolIdError::InvalidHeader)
    } else if b[5] != 1 || b[6] != 0 || b[7] != 0 {
        Err(ProtocolIdError::Incompatible)
    } else if b[4] == 0 || b[4] == 2 || b[4] == 3 {
        Ok(Some(b[4]))
    } else {
        Err(ProtocolIdError::Unknown)
    }
}

/// The protocol announced by the start of `b`, as `decoded_header` reads it.
pub open spec fn header_protocol(b: Seq<u8>) -> Result<Option<ProtocolId>, ProtocolIdError> {
    match decoded_header(b) {
        Ok(Some(0)) => Ok(Some(ProtocolId::Amqp)),
        Ok(Some(2)) => Ok(Some(ProtocolId::AmqpTls)),
        Ok(Some(_)) => Ok(Some(ProtocolId::AmqpSasl)),
        Ok(None) => Ok(None),
        Err(e) => Err(e),
    }
}

/// Relies on ntex_amqp_codec::ProtocolIdCodec's `Decoder::decode`: it
/// waits for 8 bytes, checks the `AMQP` prefix, then the version 1.0.0,
/// then maps the id byte 0, 2 or 3 to its protocol; `Unexpected` never
/// comes from it. The protocol is handed back as its id byte.
#[verifier::external_body]
fn decode_header(buf: &[u8]) -> (r: Result<Option<u8>, ProtocolIdError>)
    ensures
        r == decoded_header(buf@),
{
    let mut src = ntex_bytes::BytesMut::copy_from_slice(buf);
    match ProtocolIdCodec.decode(&mut src) {
        Ok(None) => Ok(None),
        Ok(Some(id)) => Ok(Some(id as u8)),
        Err(ntex_amqp_codec::ProtocolIdError::InvalidHeader) => Err(ProtocolIdError::InvalidHeader),
        Err(ntex_amqp_codec::ProtocolIdError::Incompatible) => Err(ProtocolIdError::Incompatible),
        Err(_) => Err(ProtocolIdError::Unknown),
    }
}

/// Reads a protocol header from the start of `buf`; `Ok(None)` asks for
/// more bytes.
pub fn parse_protocol_header(buf: &[u8]) -> (r: Result<Option<ProtocolId>, ProtocolIdError>)
    ensures
        r == header_protocol(buf@),
{
    match decode_header(buf) {
        Ok(Some(0)) => Ok(Some(ProtocolId::Amqp)),
        Ok(Some(2)) => Ok(Some(ProtocolId::AmqpTls)),
        Ok(Some(_)) => Ok(Some(ProtocolId::AmqpSasl)),
        Ok(None) => Ok(None),
        Err(e) => Err(e),
    }
}

/// The header that announces `id`.
pub fn protocol_header(id: ProtocolId) -> (r: Vec<u8>)
    ensures
        r@ == seq![65u8, 77u8, 81u8, 80u8, id_byte(id), 1u8, 0u8, 0u8],
{
    let b: u8 = match id {
        ProtocolId::Amqp => 0,
        ProtocolId::AmqpTls => 2,
        ProtocolId::AmqpSasl => 3,
    };
    let r = vec![65u8, 77u8, 81u8, 80u8, b, 1u8, 0u8, 0u8];
    proof {
        assert(r@ =~= seq![65u8, 77u8, 81u8, 80u8, id_byte(id), 1u8, 0u8, 0u8]);
    }
    r
}

/// Whether the announced protocol may go on. TLS is for a wrapping layer,
/// not for this engine; after SASL only plain AMQP may follow.
pub fn check_protocol(got: ProtocolId, after_sasl: bool) -> (r: Result<ProtocolId, ProtocolIdError>)
    ensures
        got == ProtocolId::AmqpTls ==> r == Err::<ProtocolId, ProtocolIdError>(
            ProtocolIdError::Unexpected { exp: ProtocolId::Amqp, got },
        ),
        got == ProtocolId::AmqpSasl && after_sasl ==> r == Err::<ProtocolId, ProtocolIdError>(
            ProtocolIdError::Unexpected { exp: ProtocolId::Amqp, got },
        ),
        got == ProtocolId::Amqp || (got == ProtocolId::AmqpSasl && !after_sasl) ==> r == Ok::<
            ProtocolId,
            ProtocolIdError,
        >(got),
{
    match got {
        ProtocolId::AmqpTls => Err(ProtocolIdError::Unexpected { exp: ProtocolId::Amqp, got }),
        ProtocolId::AmqpSasl => if after_sasl {
            Err(ProtocolIdError::Unexpected { exp: ProtocolId::Amqp, got })
        } else {
            Ok(got)
        },
        ProtocolId::Amqp => Ok(got),
    }
}

/// Reads the peer's header and decides whether the handshake goes on:
/// `Ok(None)` asks for more bytes, `Ok(Some(id))` names the protocol to
/// echo and continue with.
pub fn accept_protocol(buf: &[u8], after_sasl: bool) -> (r: Result<Option<ProtocolId>, ProtocolIdError>)
    ensures
        match header_protocol(buf@) {
            Ok(None) => r == Ok::<Option<ProtocolId>, ProtocolIdError>(None),
            Ok(Some(got)) => {
                &&& (got == ProtocolId::Amqp || (got == ProtocolId::AmqpSasl && !after_sasl))
                    ==> r == Ok::<Option<ProtocolId>, ProtocolIdError>(Some(got))
                &&& (got == ProtocolId::AmqpTls || (got == ProtocolId::AmqpSasl && after_sasl))
                    ==> r == Err::<Option<ProtocolId>, ProtocolIdError>(
                    ProtocolIdError::Unexpected { exp: ProtocolId::Amqp, got },
                )
            },
            Err(e) => r == Err::<Option<ProtocolId>, ProtocolIdError>(e),
        },
{
    match parse_protocol_header(buf) {
        Ok(Some(got)) => match check_protocol(got, after_sasl) {
            Ok(id) => Ok(Some(id)),
            Err(e) => Err(e),
        },
        Ok(None) => Ok(None),
        Err(e) => Err(e),
    }
}

/// The header that announces a protocol reads back as that protocol.
pub proof fn header_round_trip(id: ProtocolId)
    ensures
        header_protocol(seq![65u8, 77u8, 81u8, 80u8, id_byte(id), 1u8, 0u8, 0u8]) == Ok::<
            Option<ProtocolId>,
            ProtocolIdError,
        >(Some(id)),
{
}

} // verus!
