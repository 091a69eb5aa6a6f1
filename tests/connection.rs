use ntex_amqp::{
    AmqpErrorKind, AmqpTransportError, Begin, Configuration, Connection, ConnectionController,
    ErrorCondition, Frame, Incoming, Performative, State, WireError,
};

fn config(channel_max: u16, idle: u32) -> Configuration {
    Configuration::new(channel_max, 65535, idle, "node".to_string())
}

fn driver(channel_max: u16, idle: u32) -> Connection {
    Connection::new(config(channel_max, idle), config(channel_max, idle), 0)
}

fn local_begin(channel: u16) -> Frame {
    Frame::new(
        channel,
        Performative::Begin(Begin {
            remote_channel: None,
            next_outgoing_id: 1,
            incoming_window: u32::MAX,
            outgoing_window: u32::MAX,
            handle_max: u32::MAX,
        }),
    )
}

fn peer_begin(channel: u16, remote: Option<u16>) -> Frame {
    Frame::new(
        channel,
        Performative::Begin(Begin {
            remote_channel: remote,
            next_outgoing_id: 7,
            incoming_window: 100,
            outgoing_window: 200,
            handle_max: 10,
        }),
    )
}

fn internal_error() -> WireError {
    WireError {
        condition: ErrorCondition::AmqpError(AmqpErrorKind::InternalError),
        description: None,
        info: None,
    }
}

fn drain(c: &mut Connection, now: u64) -> Vec<Frame> {
    let mut out = Vec::new();
    while let Some(f) = c.next_frame(now) {
        out.push(f);
    }
    out
}

#[test]
fn happy_open_close() {
    let mut c = driver(8, 30000);
    assert_eq!(c.open_session(), Ok(0));
    assert_eq!(drain(&mut c, 1), vec![local_begin(0)]);
    assert_eq!(c.receive(peer_begin(0, Some(0)), 2), Incoming::SessionOpened(0));
    let s = c.controller().get_remote_session(0).unwrap();
    assert_eq!(s.id, 0);
    assert!(s.initiator);
    assert_eq!(s.remote_channel, 0);
    assert_eq!(s.next_outgoing_id, 7);
    assert_eq!(s.incoming_window, 100);
    assert_eq!(s.outgoing_window, 200);
    assert_eq!(c.end_session(0, None), Ok(()));
    assert_eq!(c.close(), Ok(()));
    assert_eq!(
        drain(&mut c, 3),
        vec![
            Frame::new(0, Performative::End(None)),
            Frame::new(0, Performative::Close(None))
        ]
    );
    assert_eq!(
        c.receive(Frame::new(0, Performative::End(None)), 4),
        Incoming::SessionClosed(0)
    );
    assert_eq!(c.receive(Frame::new(0, Performative::Close(None)), 5), Incoming::Stop);
    assert_eq!(c.controller().get_error(), &Some(AmqpTransportError::Closed(None)));
    assert_eq!(c.controller().get_state(), State::Closing);
    assert!(c.controller().write_queue_is_empty());
}

#[test]
fn channel_exhaustion() {
    let mut c = driver(2, 0);
    assert_eq!(c.open_session(), Ok(0));
    assert_eq!(c.open_session(), Ok(1));
    assert_eq!(c.open_session(), Err(AmqpTransportError::TooManyChannels));
    assert_eq!(drain(&mut c, 0), vec![local_begin(0), local_begin(1)]);
}

#[test]
fn freed_channel_is_reused() {
    let mut c = driver(1, 0);
    assert_eq!(c.open_session(), Ok(0));
    c.receive(peer_begin(5, Some(0)), 1);
    assert_eq!(c.open_session(), Err(AmqpTransportError::TooManyChannels));
    assert_eq!(
        c.receive(Frame::new(5, Performative::End(None)), 2),
        Incoming::SessionEnded(0, None)
    );
    assert_eq!(c.open_session(), Ok(0));
}

#[test]
fn idle_timeout() {
    let mut c = driver(8, 1000);
    assert_eq!(c.open_session(), Ok(0));
    assert_eq!(c.receive(peer_begin(3, Some(0)), 0), Incoming::SessionOpened(0));
    drain(&mut c, 0);
    assert!(!c.poll_timer(1999));
    assert!(c.poll_timer(2000));
    assert_eq!(c.controller().get_error(), &Some(AmqpTransportError::Timeout));
    assert!(c.controller().get_remote_session(3).is_none());
    assert_eq!(
        c.take_errored_sessions(),
        vec![(0, AmqpTransportError::SessionEnded(None))]
    );
    assert_eq!(c.take_errored_sessions(), Vec::new());
    assert_eq!(c.open_session(), Err(AmqpTransportError::Timeout));
}

#[test]
fn teardown_reports_every_dropped_slot() {
    let mut c = driver(8, 0);
    c.open_session().unwrap();
    c.open_session().unwrap();
    c.receive(peer_begin(7, Some(1)), 0);
    c.receive(Frame::new(0, Performative::Close(None)), 0);
    let mut dropped = c.take_errored_sessions();
    dropped.sort_by_key(|p| p.0);
    assert_eq!(
        dropped,
        vec![
            (0, AmqpTransportError::Disconnected),
            (1, AmqpTransportError::Closed(None))
        ]
    );
}

#[test]
fn codec_failure_is_stored() {
    let mut c = driver(8, 0);
    c.open_session().unwrap();
    c.receive(peer_begin(2, Some(0)), 0);
    c.open_session().unwrap();
    c.codec_failed("bad frame".to_string());
    assert_eq!(
        c.controller().get_error(),
        &Some(AmqpTransportError::Codec("bad frame".to_string()))
    );
    let mut dropped = c.take_errored_sessions();
    dropped.sort_by_key(|p| p.0);
    assert_eq!(
        dropped,
        vec![
            (0, AmqpTransportError::SessionEnded(None)),
            (1, AmqpTransportError::Disconnected)
        ]
    );
    assert_eq!(
        c.open_session(),
        Err(AmqpTransportError::Codec("bad frame".to_string()))
    );
}

#[test]
fn close_on_session_channel_is_routed() {
    let mut c = driver(8, 0);
    c.open_session().unwrap();
    c.receive(peer_begin(6, Some(0)), 0);
    let close = Frame::new(6, Performative::Close(None));
    assert_eq!(
        c.receive(Frame::new(6, Performative::Close(None)), 0),
        Incoming::Forward(0, close)
    );
    assert_eq!(c.controller().get_error(), &None);
    assert_eq!(
        c.receive(Frame::new(9, Performative::Close(None)), 0),
        Incoming::Consumed
    );
    assert_eq!(c.controller().get_state(), State::Normal);
}

#[test]
fn sessions_post_frames_in_order() {
    let mut c = driver(8, 0);
    c.post_frame(Frame::new(3, Performative::Flow(vec![1])));
    c.post_frame(Frame::new(3, Performative::Transfer(vec![2])));
    assert_eq!(
        drain(&mut c, 0),
        vec![
            Frame::new(3, Performative::Flow(vec![1])),
            Frame::new(3, Performative::Transfer(vec![2]))
        ]
    );
}

#[test]
fn received_frame_restarts_idle_watch() {
    let mut c = driver(8, 1000);
    assert!(!c.poll_timer(1500));
    c.receive(Frame::new(0, Performative::Empty), 1500);
    assert!(!c.poll_timer(3000));
    assert!(c.poll_timer(3500));
}

#[test]
fn peer_closes_first() {
    let mut c = driver(8, 0);
    assert_eq!(c.open_session(), Ok(0));
    c.receive(peer_begin(4, Some(0)), 0);
    drain(&mut c, 0);
    assert_eq!(c.end_session(0, None), Ok(()));
    assert_eq!(
        c.receive(Frame::new(0, Performative::Close(Some(internal_error()))), 1),
        Incoming::Stop
    );
    assert_eq!(
        c.controller().get_error(),
        &Some(AmqpTransportError::Closed(Some(internal_error())))
    );
    assert_eq!(c.controller().get_state(), State::RemoteClose);
    assert!(!c.is_done(true));
    assert_eq!(
        drain(&mut c, 2),
        vec![
            Frame::new(0, Performative::End(None)),
            Frame::new(0, Performative::Close(None))
        ]
    );
    assert!(!c.is_done(false));
    assert!(c.is_done(true));
    assert_eq!(
        c.open_session(),
        Err(AmqpTransportError::Closed(Some(internal_error())))
    );
    assert_eq!(
        c.close(),
        Err(AmqpTransportError::Closed(Some(internal_error())))
    );
}

#[test]
fn rogue_channel() {
    let mut c = driver(8, 0);
    assert_eq!(
        c.receive(Frame::new(42, Performative::Transfer(vec![1, 2, 3])), 0),
        Incoming::Consumed
    );
    assert_eq!(c.controller().get_state(), State::Normal);
    assert_eq!(c.controller().get_error(), &None);
    assert!(c.controller().write_queue_is_empty());
}

#[test]
fn heartbeat_emission() {
    let mut c = driver(8, 4000);
    assert!(!c.poll_timer(1999));
    assert!(c.controller().write_queue_is_empty());
    assert!(!c.poll_timer(2000));
    assert_eq!(drain(&mut c, 2000), vec![Frame::new(0, Performative::Empty)]);
    assert!(!c.poll_timer(3999));
    assert!(c.controller().write_queue_is_empty());
}

#[test]
fn no_heartbeat_after_error() {
    let mut c = driver(8, 4000);
    c.disconnected();
    assert!(!c.poll_timer(2000));
    assert!(c.controller().write_queue_is_empty());
    assert_eq!(c.open_session(), Err(AmqpTransportError::Disconnected));
}

#[test]
fn errored_connection_discards_frames() {
    let mut c = driver(8, 0);
    c.disconnected();
    assert_eq!(
        c.receive(Frame::new(0, Performative::Attach(vec![9])), 0),
        Incoming::Stop
    );
    assert!(c.controller().write_queue_is_empty());
}

#[test]
fn peer_initiated_begin_is_surfaced_and_accepted() {
    let mut c = driver(8, 0);
    let begin = peer_begin(9, None);
    assert_eq!(c.receive(peer_begin(9, None), 0), Incoming::PeerBegin(begin));
    let b = Begin {
        remote_channel: None,
        next_outgoing_id: 7,
        incoming_window: 100,
        outgoing_window: 200,
        handle_max: 10,
    };
    assert_eq!(c.register_remote_session(9, &b), Ok(0));
    let answer = Frame::new(
        0,
        Performative::Begin(Begin {
            remote_channel: Some(9),
            next_outgoing_id: 1,
            incoming_window: u32::MAX,
            outgoing_window: 100,
            handle_max: u32::MAX,
        }),
    );
    assert_eq!(drain(&mut c, 0), vec![answer]);
    let s = c.controller().get_remote_session(9).unwrap();
    assert!(!s.initiator);
    assert_eq!(s.remote_channel, 9);
}

#[test]
fn frames_are_forwarded_to_open_session() {
    let mut c = driver(8, 0);
    c.open_session().unwrap();
    c.open_session().unwrap();
    c.receive(peer_begin(6, Some(1)), 0);
    let attach = Frame::new(6, Performative::Attach(vec![1]));
    assert_eq!(
        c.receive(Frame::new(6, Performative::Attach(vec![1])), 0),
        Incoming::Forward(1, attach)
    );
    let flow = Frame::new(6, Performative::Flow(vec![2]));
    assert_eq!(
        c.receive(Frame::new(6, Performative::Flow(vec![2])), 0),
        Incoming::Forward(1, flow)
    );
}

#[test]
fn peer_end_is_echoed() {
    let mut c = driver(8, 0);
    c.open_session().unwrap();
    c.open_session().unwrap();
    c.receive(peer_begin(6, Some(1)), 0);
    drain(&mut c, 0);
    assert_eq!(
        c.receive(Frame::new(6, Performative::End(Some(internal_error()))), 0),
        Incoming::SessionEnded(1, Some(internal_error()))
    );
    assert_eq!(drain(&mut c, 0), vec![Frame::new(1, Performative::End(None))]);
    assert!(c.controller().get_remote_session(6).is_none());
}

#[test]
fn begin_for_unknown_slot_is_ignored() {
    let mut c = driver(8, 0);
    assert_eq!(c.receive(peer_begin(2, Some(5)), 0), Incoming::Consumed);
    assert!(c.controller().get_remote_session(2).is_none());
}

#[test]
fn dropped_waiter_gets_courtesy_end() {
    let mut ctl = ConnectionController::new(config(8, 0), config(8, 0));
    assert_eq!(ctl.open_session(), Ok(0));
    ctl.pop_next_frame();
    ctl.drop_waiter(0);
    assert_eq!(ctl.handle_frame(peer_begin(3, Some(0))), Incoming::Consumed);
    assert_eq!(ctl.pop_next_frame(), Some(Frame::new(0, Performative::End(None))));
    assert_eq!(
        ctl.handle_frame(Frame::new(3, Performative::End(None))),
        Incoming::SessionClosed(0)
    );
}

#[test]
fn frames_leave_in_posting_order() {
    let mut ctl = ConnectionController::new(config(8, 0), config(8, 0));
    ctl.post_frame(Frame::new(1, Performative::Flow(vec![1])));
    ctl.post_frame(Frame::new(2, Performative::Transfer(vec![2])));
    ctl.post_frame(Frame::new(0, Performative::Close(None)));
    assert_eq!(ctl.pop_next_frame(), Some(Frame::new(1, Performative::Flow(vec![1]))));
    assert_eq!(ctl.pop_next_frame(), Some(Frame::new(2, Performative::Transfer(vec![2]))));
    assert_eq!(ctl.pop_next_frame(), Some(Frame::new(0, Performative::Close(None))));
    assert_eq!(ctl.pop_next_frame(), None);
}

#[test]
fn close_with_error_sends_record() {
    let mut c = driver(8, 0);
    assert_eq!(c.close_with_error(internal_error()), Ok(()));
    assert_eq!(c.close(), Ok(()));
    assert_eq!(
        drain(&mut c, 0),
        vec![Frame::new(0, Performative::Close(Some(internal_error())))]
    );
    assert_eq!(c.controller().get_state(), State::Closing);
}

#[test]
fn drop_connection_finishes_driver() {
    let mut c = driver(8, 0);
    assert!(!c.is_done(true));
    c.drop_connection();
    assert!(c.is_done(false));
}

#[test]
fn end_of_unknown_session_fails() {
    let mut c = driver(8, 0);
    assert_eq!(
        c.end_session(3, None),
        Err(AmqpTransportError::SessionEnded(None))
    );
}

#[test]
fn driver_finishes_after_stop() {
    let mut c = driver(8, 0);
    assert!(!c.finished(false, true));
    c.receive(Frame::new(0, Performative::Close(None)), 0);
    assert!(!c.finished(true, true));
    c.next_frame(0);
    assert!(!c.finished(true, false));
    assert!(c.finished(true, true));
    let mut d = driver(8, 0);
    d.close().unwrap();
    d.receive(Frame::new(0, Performative::Close(None)), 0);
    assert!(d.finished(true, false));
}

#[test]
fn drop_ends_sessions_and_pending_opens() {
    let mut c = driver(8, 0);
    c.open_session().unwrap();
    c.open_session().unwrap();
    c.receive(peer_begin(4, Some(1)), 0);
    c.disconnected();
    assert_eq!(c.controller().get_error(), &Some(AmqpTransportError::Disconnected));
    let mut dropped = c.take_errored_sessions();
    dropped.sort_by_key(|p| p.0);
    assert_eq!(
        dropped,
        vec![
            (0, AmqpTransportError::Disconnected),
            (1, AmqpTransportError::SessionEnded(None))
        ]
    );
}
