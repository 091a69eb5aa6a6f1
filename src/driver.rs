//! The connection driver: the shared connection state together with the
//! heartbeat watchdog. The I/O loop around it reads frames, hands them to
//! `receive`, writes what `next_frame` gives, and ticks `poll_timer`.
use vstd::prelude::*;

use crate::config::Configuration;
use crate::connection::{heartbeat_frame, ConnectionController, Incoming};
use crate::errors::{AmqpTransportError, WireError};
use crate::frame::{Begin, Frame, Performative};
use crate::hb::{Heartbeat, HeartbeatAction};

verus! {

pub struct Connection {
    inner: ConnectionController,
    hb: Heartbeat,
}

impl Connection {
    pub closed spec fn ctl(&self) -> ConnectionController {
        self.inner
    }

    pub closed spec fn heartbeat(&self) -> Heartbeat {
        self.hb
    }

    pub open spec fn wf(&self) -> bool {
        self.ctl().wf()
    }

    /// A driver over a fresh connection; both watches start at `now`.
    pub fn new(local: Configuration, remote: Configuration, now: u64) -> (r: Connection)
        ensures
            r.wf(),
            r.ctl().local() == local,
            r.ctl().remote() == remote,
            r.ctl().slots().dom().len() == 0,
            r.ctl().remote_map().dom().len() == 0,
            r.ctl().queue().len() == 0,
            r.ctl().next_token() == 0,
            r.ctl().errored().len() == 0,
            r.ctl().error() is None,
            r.ctl().state() == crate::connection::State::Normal,
            r.heartbeat() == Heartbeat::new_spec(local.idle_time_out, remote.idle_time_out, now),
    {
        let hb = Heartbeat::new(local.idle_time_out, remote.idle_time_out, now);
        Connection { inner: ConnectionController::new(local, remote), hb }
    }

    /// A driver over a connection that the handshake prepared.
    pub fn new_server(inner: ConnectionController, now: u64) -> (r: Connection)
        ensures
            r.ctl() == inner,
            r.heartbeat() == Heartbeat::new_spec(
                inner.local().idle_time_out,
                inner.remote().idle_time_out,
                now,
            ),
    {
        let hb = Heartbeat::new(inner.local_config().idle_time_out, inner.remote_config().idle_time_out, now);
        Connection { inner, hb }
    }

    /// The shared connection state.
    pub fn controller(&self) -> (r: &ConnectionController)
        ensures
            *r == self.ctl(),
    {
        &self.inner
    }

    /// The peer's configuration.
    pub fn remote_config(&self) -> (r: &Configuration)
        ensures
            *r == self.ctl().remote(),
    {
        self.inner.remote_config()
    }

    /// Opens a session from our side (see `ConnectionController::open_session`).
    pub fn open_session(&mut self) -> (r: Result<usize, AmqpTransportError>)
        requires
            old(self).wf(),
        ensures
            final(self).wf(),
            ConnectionController::open_session_post(old(self).ctl(), final(self).ctl(), r),
            final(self).heartbeat() == old(self).heartbeat(),
    {
        self.inner.open_session()
    }

    /// Accepts a session that the peer began on `channel`.
    pub fn register_remote_session(&mut self, channel: u16, begin: &Begin) -> (r: Result<
        usize,
        AmqpTransportError,
    >)
        requires
            old(self).wf(),
            !old(self).ctl().remote_map().contains_key(channel),
        ensures
            final(self).wf(),
            ConnectionController::register_post(
                old(self).ctl(),
                final(self).ctl(),
                channel,
                *begin,
                r,
            ),
            final(self).heartbeat() == old(self).heartbeat(),
    {
        self.inner.register_remote_session(channel, begin)
    }

    /// Ends an open session from our side.
    pub fn end_session(&mut self, token: usize, error: Option<WireError>) -> (r: Result<
        (),
        AmqpTransportError,
    >)
        requires
            old(self).wf(),
        ensures
            final(self).wf(),
            ConnectionController::end_session_post(
                old(self).ctl(),
                final(self).ctl(),
                token,
                error,
                r,
            ),
            final(self).heartbeat() == old(self).heartbeat(),
    {
        self.inner.end_session(token, error)
    }

    /// Gracefully closes the connection.
    pub fn close(&mut self) -> (r: Result<(), AmqpTransportError>)
        requires
            old(self).wf(),
        ensures
            final(self).wf(),
            ConnectionController::close_post(old(self).ctl(), final(self).ctl(), None, r),
            final(self).heartbeat() == old(self).heartbeat(),
    {
        self.inner.send_close(None)
    }

    /// Closes the connection, telling the peer why.
    pub fn close_with_error(&mut self, err: WireError) -> (r: Result<(), AmqpTransportError>)
        requires
            old(self).wf(),
        ensures
            final(self).wf(),
            ConnectionController::close_post(old(self).ctl(), final(self).ctl(), Some(err), r),
            final(self).heartbeat() == old(self).heartbeat(),
    {
        self.inner.send_close(Some(err))
    }

    /// Asks for teardown.
    pub fn drop_connection(&mut self)
        requires
            old(self).wf(),
        ensures
            final(self).wf(),
            final(self).ctl().state() == crate::connection::State::Drop,
            final(self).ctl().queue() == old(self).ctl().queue(),
            final(self).ctl().error() == old(self).ctl().error(),
            final(self).ctl().slots() == old(self).ctl().slots(),
            final(self).heartbeat() == old(self).heartbeat(),
    {
        self.inner.drop_connection()
    }

    /// The transport ended or failed: the connection is in error with
    /// `Disconnected` and holds no session.
    pub fn disconnected(&mut self)
        ensures
            final(self).wf(),
            final(self).ctl().error() == Some(AmqpTransportError::Disconnected),
            final(self).ctl().slots().dom().len() == 0,
            old(self).ctl().records_teardown(&final(self).ctl(), AmqpTransportError::Disconnected),
            final(self).ctl().queue() == old(self).ctl().queue(),
            final(self).ctl().state() == old(self).ctl().state(),
            final(self).heartbeat() == old(self).heartbeat(),
    {
        self.inner.set_error(AmqpTransportError::Disconnected)
    }

    /// The peer's bytes could not be decoded: the connection is in error
    /// with `Codec`, carrying the codec's report, and holds no session.
    pub fn codec_failed(&mut self, report: String)
        ensures
            final(self).wf(),
            final(self).ctl().error() == Some(AmqpTransportError::Codec(report)),
            final(self).ctl().slots().dom().len() == 0,
            final(self).ctl().remote_map().dom().len() == 0,
            old(self).ctl().records_teardown(&final(self).ctl(), AmqpTransportError::Codec(report)),
            final(self).ctl().queue() == old(self).ctl().queue(),
            final(self).ctl().state() == old(self).ctl().state(),
            final(self).heartbeat() == old(self).heartbeat(),
    {
        self.inner.set_error(AmqpTransportError::Codec(report))
    }

    /// Queues a frame that a session sends.
    pub fn post_frame(&mut self, frame: Frame)
        requires
            old(self).wf(),
        ensures
            final(self).wf(),
            final(self).ctl().queue() == old(self).ctl().queue().push(frame),
            final(self).ctl().same_but_queue(&old(self).ctl()),
            final(self).heartbeat() == old(self).heartbeat(),
    {
        self.inner.post_frame(frame)
    }

    /// The heartbeat tick. Returns true when the driver must end: nothing
    /// was received for twice the local idle timeout, and the connection is
    /// then in error with `Timeout`. When half the peer's idle timeout has
    /// passed without a write, an Empty frame is queued, unless the
    /// connection is already in error.
    pub fn poll_timer(&mut self, now: u64) -> (r: bool)
        requires
            old(self).wf(),
        ensures
            final(self).wf(),
            r == old(self).heartbeat().read_expired(now),
            r ==> final(self).ctl().error() == Some(AmqpTransportError::Timeout)
                && final(self).ctl().slots().dom().len() == 0
                && old(self).ctl().records_teardown(&final(self).ctl(), AmqpTransportError::Timeout)
                && final(self).ctl().queue() == old(self).ctl().queue(),
            !r && old(self).heartbeat().write_due(now) && old(self).ctl().error() is None
                ==> final(self).ctl().queue() == old(self).ctl().queue().push(heartbeat_frame())
                && final(self).ctl().same_but_queue(&old(self).ctl()),
            !r && !(old(self).heartbeat().write_due(now) && old(self).ctl().error() is None)
                ==> final(self).ctl() == old(self).ctl(),
    {
        match self.hb.poll(now) {
            HeartbeatAction::Close => {
                self.inner.set_error(AmqpTransportError::Timeout);
                true
            },
            HeartbeatAction::Heartbeat => {
                if self.inner.get_error().is_none() {
                    self.inner.post_frame(Frame::new(0, Performative::Empty));
                }
                false
            },
            HeartbeatAction::Nothing => false,
        }
    }

    /// Handles a frame received at `now` (see `ConnectionController::handle_frame`).
    pub fn receive(&mut self, frame: Frame, now: u64) -> (r: Incoming)
        requires
            old(self).wf(),
        ensures
            final(self).wf(),
            ConnectionController::incoming_post(old(self).ctl(), final(self).ctl(), frame, r),
            final(self).heartbeat() == (Heartbeat { last_read: now, ..old(self).heartbeat() }),
    {
        self.hb.update_local(true, now);
        self.inner.handle_frame(frame)
    }

    /// The next frame to write at `now`, oldest first.
    pub fn next_frame(&mut self, now: u64) -> (r: Option<Frame>)
        requires
            old(self).wf(),
        ensures
            final(self).wf(),
            old(self).ctl().queue().len() == 0 ==> r is None && final(self).ctl().queue() == old(
                self,
            ).ctl().queue() && final(self).ctl().same_but_queue(&old(self).ctl())
                && final(self).heartbeat() == old(self).heartbeat(),
            old(self).ctl().queue().len() > 0 ==> r == Some(old(self).ctl().queue()[0])
                && final(self).ctl().queue() == old(self).ctl().queue().drop_first()
                && final(self).ctl().same_but_queue(&old(self).ctl())
                && final(self).heartbeat() == (Heartbeat { last_write: now, ..old(self).heartbeat() }),
    {
        let r = self.inner.pop_next_frame();
        self.hb.update_remote(r.is_some(), now);
        r
    }

    /// See `ConnectionController::is_done`.
    pub fn is_done(&self, write_buf_empty: bool) -> (r: bool)
        ensures
            r == (self.ctl().state() == crate::connection::State::Drop || (self.ctl().state()
                == crate::connection::State::RemoteClose && self.ctl().queue().len() == 0
                && write_buf_empty)),
    {
        self.inner.is_done(write_buf_empty)
    }

    /// Whether the driver ends now, given whether reading has stopped
    /// (`Incoming::Stop`) and whether the transport's write buffer is empty.
    /// After the peer's Close the echo must be written out first; any other
    /// stop ends the driver at once.
    pub fn finished(&self, stopped: bool, write_buf_empty: bool) -> (r: bool)
        ensures
            r == (self.ctl().state() == crate::connection::State::Drop || (self.ctl().state()
                == crate::connection::State::RemoteClose && self.ctl().queue().len() == 0
                && write_buf_empty) || (stopped && self.ctl().state()
                != crate::connection::State::RemoteClose)),
    {
        self.is_done(write_buf_empty) || (stopped && self.inner.get_state()
            != crate::connection::State::RemoteClose)
    }

    /// See `ConnectionController::take_errored_sessions`.
    pub fn take_errored_sessions(&mut self) -> (r: Vec<(usize, AmqpTransportError)>)
        requires
            old(self).wf(),
        ensures
            final(self).wf(),
            r@ == old(self).ctl().errored(),
            final(self).ctl().errored().len() == 0,
            final(self).ctl().queue() == old(self).ctl().queue(),
            final(self).ctl().error() == old(self).ctl().error(),
            final(self).ctl().state() == old(self).ctl().state(),
            final(self).ctl().slots() == old(self).ctl().slots(),
            final(self).heartbeat() == old(self).heartbeat(),
    {
        self.inner.take_errored_sessions()
    }
}

} // verus!
