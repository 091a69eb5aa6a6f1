use ntex_amqp::{
    AmqpError, AmqpErrorKind, ErrorCondition, Heartbeat, HeartbeatAction, LinkError,
    LinkErrorKind, WireError,
};

#[test]
fn amqp_error_builders() {
    let e = AmqpError::not_found().description("gone").into_error();
    assert_eq!(
        e,
        WireError {
            condition: ErrorCondition::AmqpError(AmqpErrorKind::NotFound),
            description: Some("gone".to_string()),
            info: None,
        }
    );
    assert_eq!(
        AmqpError::internal_error().condition,
        ErrorCondition::AmqpError(AmqpErrorKind::InternalError)
    );
    assert_eq!(
        AmqpError::unauthorized_access().condition,
        ErrorCondition::AmqpError(AmqpErrorKind::UnauthorizedAccess)
    );
    assert_eq!(
        AmqpError::decode_error().condition,
        ErrorCondition::AmqpError(AmqpErrorKind::DecodeError)
    );
    assert_eq!(
        AmqpError::invalid_field().condition,
        ErrorCondition::AmqpError(AmqpErrorKind::InvalidField)
    );
    assert_eq!(
        AmqpError::not_allowed().condition,
        ErrorCondition::AmqpError(AmqpErrorKind::NotAllowed)
    );
    assert_eq!(
        AmqpError::not_implemented().set_description("later".to_string()).description,
        Some("later".to_string())
    );
    let custom = AmqpError::with_error(ErrorCondition::Custom("x:y".to_string())).into_error();
    assert_eq!(custom.condition, ErrorCondition::Custom("x:y".to_string()));
}

#[test]
fn link_error_builders() {
    let e = LinkError::force_detach()
        .text("bye")
        .fields(vec![("k".to_string(), "v".to_string())])
        .into_error();
    assert_eq!(e.condition, ErrorCondition::LinkError(LinkErrorKind::DetachForced));
    assert_eq!(e.description, Some("bye".to_string()));
    assert_eq!(e.info, Some(vec![("k".to_string(), "v".to_string())]));
    assert_eq!(
        LinkError::redirect().description("there").description,
        Some("there".to_string())
    );
    assert_eq!(
        LinkError::new(ErrorCondition::Custom("c".to_string())).condition,
        ErrorCondition::Custom("c".to_string())
    );
}

#[test]
fn wire_error_duplicate_keeps_fields() {
    let e = LinkError::redirect()
        .fields(vec![("a".to_string(), "b".to_string())])
        .into_error();
    assert_eq!(e.duplicate(), e);
}

#[test]
fn heartbeat_watches() {
    let mut hb = Heartbeat::new(2000, 4000, 100);
    assert_eq!(hb.poll(2099), HeartbeatAction::Nothing);
    assert_eq!(hb.poll(2100), HeartbeatAction::Heartbeat);
    assert_eq!(hb.last_write, 2100);
    assert_eq!(hb.poll(4099), HeartbeatAction::Nothing);
    assert_eq!(hb.poll(4100), HeartbeatAction::Close);
    let mut off = Heartbeat::new(0, 0, 0);
    assert_eq!(off.poll(u64::MAX), HeartbeatAction::Nothing);
    hb.update_local(true, 5000);
    assert_eq!(hb.last_read, 5000);
    assert_eq!(hb.poll(5000), HeartbeatAction::Heartbeat);
    hb.update_remote(false, 9000);
    assert_eq!(hb.last_write, 5000);
    hb.update_remote(true, 9000);
    assert_eq!(hb.poll(8999), HeartbeatAction::Nothing);
}
