use ntex_amqp::{
    AmqpErrorKind, DeliveryState, ErrorCondition, Outcome, SessionInner, Transfer, TransferBody,
    TransferFrame, WireError,
};

fn session() -> SessionInner {
    SessionInner {
        id: 2,
        initiator: true,
        remote_channel: 5,
        next_outgoing_id: 1,
        incoming_window: 10,
        outgoing_window: 10,
        error: None,
    }
}

fn frame(body: Option<TransferBody>) -> TransferFrame {
    TransferFrame {
        handle: 1,
        delivery_id: Some(3),
        delivery_tag: None,
        settled: None,
        more: false,
        body,
    }
}

fn first_byte(b: &Vec<u8>) -> Option<u8> {
    b.first().copied()
}

#[test]
fn load_message_decodes_data() {
    let t = Transfer::new((), frame(Some(TransferBody::Data(vec![42, 1]))), session());
    assert_eq!(t.load_message(first_byte).unwrap(), 42);
    assert_eq!(t.body(), Some(&vec![42, 1]));
}

#[test]
fn load_message_reports_decode_failure() {
    let t = Transfer::new((), frame(Some(TransferBody::Data(vec![]))), session());
    let e = t.load_message(first_byte).unwrap_err();
    assert_eq!(e.condition, ErrorCondition::AmqpError(AmqpErrorKind::DecodeError));
    assert_eq!(e.description, Some("Can not decode message".to_string()));
}

#[test]
fn load_message_rejects_other_bodies() {
    let t = Transfer::new((), frame(Some(TransferBody::Message(vec![1]))), session());
    let e = t.load_message(first_byte).unwrap_err();
    assert_eq!(e.condition, ErrorCondition::AmqpError(AmqpErrorKind::InvalidField));
    assert_eq!(e.description, Some("Unknown body".to_string()));
    assert_eq!(t.body(), None);
    let none = Transfer::new((), frame(None), session());
    assert!(none.load_message(first_byte).is_err());
}

#[test]
fn transfer_accessors() {
    let mut t = Transfer::new(7u32, frame(None), session());
    assert_eq!(*t.state(), 7);
    *t.state_mut() = 8;
    assert_eq!(*t.state(), 8);
    assert_eq!(t.session().remote_channel, 5);
    t.session_mut().incoming_window = 3;
    assert_eq!(t.session().incoming_window, 3);
    assert_eq!(t.frame().delivery_id, Some(3));
}

#[test]
fn outcome_to_delivery_state() {
    assert_eq!(Outcome::Accept.into_delivery_state(), DeliveryState::Accepted);
    assert_eq!(Outcome::Reject.into_delivery_state(), DeliveryState::Rejected(None));
    let e = WireError {
        condition: ErrorCondition::AmqpError(AmqpErrorKind::NotAllowed),
        description: None,
        info: None,
    };
    let e2 = e.duplicate();
    assert_eq!(
        Outcome::from_error(e).into_delivery_state(),
        DeliveryState::Rejected(Some(e2))
    );
}
