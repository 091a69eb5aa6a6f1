use ntex_amqp::{accept_protocol, parse_protocol_header, protocol_header, ProtocolId, ProtocolIdError};

#[test]
fn amqp_header_is_accepted() {
    let header = [0x41u8, 0x4D, 0x51, 0x50, 0x00, 0x01, 0x00, 0x00];
    assert_eq!(parse_protocol_header(&header), Ok(Some(ProtocolId::Amqp)));
    assert_eq!(accept_protocol(&header, false), Ok(Some(ProtocolId::Amqp)));
    assert_eq!(protocol_header(ProtocolId::Amqp), header.to_vec());
}

#[test]
fn header_round_trips() {
    for id in [ProtocolId::Amqp, ProtocolId::AmqpTls, ProtocolId::AmqpSasl] {
        assert_eq!(parse_protocol_header(&protocol_header(id)), Ok(Some(id)));
    }
    assert_eq!(protocol_header(ProtocolId::AmqpSasl)[4], 3);
}

#[test]
fn short_header_waits() {
    assert_eq!(parse_protocol_header(b"AMQP\x00\x01\x00"), Ok(None));
    assert_eq!(accept_protocol(b"", true), Ok(None));
}

#[test]
fn malformed_headers_are_refused() {
    assert_eq!(
        parse_protocol_header(b"AMQX\x00\x01\x00\x00"),
        Err(ProtocolIdError::InvalidHeader)
    );
    assert_eq!(
        parse_protocol_header(b"AMQP\x00\x02\x00\x00"),
        Err(ProtocolIdError::Incompatible)
    );
    assert_eq!(
        parse_protocol_header(b"AMQP\x01\x01\x00\x00"),
        Err(ProtocolIdError::Unknown)
    );
}

#[test]
fn tls_is_unexpected() {
    assert_eq!(
        accept_protocol(b"AMQP\x02\x01\x00\x00", false),
        Err(ProtocolIdError::Unexpected { exp: ProtocolId::Amqp, got: ProtocolId::AmqpTls })
    );
}

#[test]
fn sasl_then_amqp() {
    let sasl = protocol_header(ProtocolId::AmqpSasl);
    assert_eq!(accept_protocol(&sasl, false), Ok(Some(ProtocolId::AmqpSasl)));
    assert_eq!(
        accept_protocol(&sasl, true),
        Err(ProtocolIdError::Unexpected { exp: ProtocolId::Amqp, got: ProtocolId::AmqpSasl })
    );
    assert_eq!(
        accept_protocol(&protocol_header(ProtocolId::Amqp), true),
        Ok(Some(ProtocolId::Amqp))
    );
}
