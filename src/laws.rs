//! Properties of the connection state machine that span several calls.
use vstd::prelude::*;
use vstd::set_lib::{lemma_len_subset, FiniteRange};

use crate::connection::{local_begin, ConnectionController, Incoming, State};
use crate::errors::AmqpTransportError;
use crate::frame::{Frame, Performative};
use crate::session::ChannelState;

verus! {

/// A well-formed connection never holds more sessions (opening, open or
/// closing) than its `channel_max`. Every operation keeps the connection
/// well-formed, so this holds after any sequence of them.
pub proof fn session_count_bounded(c: ConnectionController)
    requires
        c.wf(),
    ensures
        c.slots().dom().len() <= c.channel_max(),
{
    let n = c.channel_max() as usize;
    <usize as FiniteRange>::range_properties(0, n);
    assert(c.slots().dom().subset_of(Set::range(0usize, n)));
    lemma_len_subset(c.slots().dom(), Set::range(0usize, n));
}

/// When the peer's Close on channel 0 answers ours, no session is left.
pub proof fn completed_close_leaves_no_session(
    o: ConnectionController,
    n: ConnectionController,
    f: Frame,
    r: Incoming,
)
    requires
        o.wf(),
        o.state() == State::Closing,
        f.performative is Close,
        f.channel == 0,
        ConnectionController::incoming_post(o, n, f, r),
    ensures
        n.slots().dom().len() == 0,
        n.remote_map().dom().len() == 0,
{
}

/// The queue after appending `fs` to `q`, one frame at a time, as
/// `post_frame` does.
pub open spec fn post_all(q: Seq<Frame>, fs: Seq<Frame>) -> Seq<Frame>
    decreases fs.len(),
{
    if fs.len() == 0 {
        q
    } else {
        post_all(q.push(fs[0]), fs.drop_first())
    }
}

/// The frames that taking from the front of `q` until it is empty yields,
/// as `pop_next_frame` does.
pub open spec fn drain_all(q: Seq<Frame>) -> Seq<Frame>
    decreases q.len(),
{
    if q.len() == 0 {
        Seq::empty()
    } else {
        seq![q[0]] + drain_all(q.drop_first())
    }
}

proof fn drain_is_identity(q: Seq<Frame>)
    ensures
        drain_all(q) == q,
    decreases q.len(),
{
    if q.len() > 0 {
        drain_is_identity(q.drop_first());
        assert(seq![q[0]] + q.drop_first() =~= q);
    }
}

proof fn post_all_appends(q: Seq<Frame>, fs: Seq<Frame>)
    ensures
        post_all(q, fs) == q + fs,
    decreases fs.len(),
{
    if fs.len() > 0 {
        post_all_appends(q.push(fs[0]), fs.drop_first());
        assert(q.push(fs[0]) + fs.drop_first() =~= q + fs);
    }
}

/// Frames leave the outgoing queue in the order they were posted: after
/// posting `fs` behind what was queued, the writer emits the old contents,
/// then `fs`, in order.
pub proof fn emission_follows_enqueue_order(q: Seq<Frame>, fs: Seq<Frame>)
    ensures
        drain_all(post_all(q, fs)) == q + fs,
{
    post_all_appends(q, fs);
    drain_is_identity(q + fs);
}

/// A slot that `open_session` makes opening comes with our Begin on its
/// channel, queued behind everything that was queued before.
pub proof fn opening_slot_follows_local_begin(
    o: ConnectionController,
    n: ConnectionController,
    r: Result<usize, crate::errors::AmqpTransportError>,
)
    requires
        o.wf(),
        ConnectionController::open_session_post(o, n, r),
        r is Ok,
    ensures
        n.slots()[r->Ok_0] is Opening,
        n.queue().last() == local_begin(r->Ok_0 as u16),
{
}

/// A peer Begin on an unpaired channel that names one of our channels
/// opens a session only where that slot was opening; one that names none is
/// handed up as a session that the peer begins.
pub proof fn peer_begin_pairs_or_surfaces(
    o: ConnectionController,
    n: ConnectionController,
    f: Frame,
    r: Incoming,
)
    requires
        o.wf(),
        o.error() is None,
        f.performative is Begin,
        !o.remote_map().contains_key(f.channel),
        ConnectionController::incoming_post(o, n, f, r),
    ensures
        f.performative->Begin_0.remote_channel is None ==> r == Incoming::PeerBegin(f) && n == o,
        n.remote_map().contains_key(f.channel) ==> {
            let c = f.performative->Begin_0.remote_channel->Some_0;
            &&& f.performative->Begin_0.remote_channel is Some
            &&& o.slots().contains_key(c as usize)
            &&& o.slots()[c as usize] is Opening
            &&& n.remote_map()[f.channel] == c as usize
        },
        r is SessionOpened ==> {
            let c = f.performative->Begin_0.remote_channel->Some_0;
            &&& f.performative->Begin_0.remote_channel is Some
            &&& r->SessionOpened_0 == c as usize
            &&& o.slots()[c as usize] == (ChannelState::Opening { waiter_alive: true })
        },
{
}

/// Once the connection is in error, `open_session` fails with the stored
/// error and changes nothing, and an incoming frame other than a Close on
/// channel 0 is discarded without queueing anything.
pub proof fn errored_connection_stays_quiet(
    o: ConnectionController,
    n1: ConnectionController,
    r1: Result<usize, crate::errors::AmqpTransportError>,
    n2: ConnectionController,
    f: Frame,
    r2: Incoming,
)
    requires
        o.wf(),
        o.error() is Some,
        ConnectionController::open_session_post(o, n1, r1),
        ConnectionController::incoming_post(o, n2, f, r2),
        !(f.performative is Close && f.channel == 0),
    ensures
        r1 matches Err(e) && e.same(&o.error()->Some_0),
        n1 == o,
        n2.queue() == o.queue(),
        n2.error() == o.error(),
{
}

/// Each incoming frame goes to one place. A frame handed to a session is
/// the frame itself, on a channel that the remote channel map pairs with
/// that session's token, and the session is open; a frame on an unpaired
/// channel never reaches a session.
pub proof fn frames_route_by_remote_channel(
    o: ConnectionController,
    n: ConnectionController,
    f: Frame,
    r: Incoming,
)
    requires
        o.wf(),
        ConnectionController::incoming_post(o, n, f, r),
    ensures
        r matches Incoming::Forward(t, g) ==> {
            &&& g == f
            &&& o.remote_map().contains_key(f.channel)
            &&& o.remote_map()[f.channel] == t
            &&& o.slots().contains_key(t)
            &&& o.slots()[t] is Established
        },
        !o.remote_map().contains_key(f.channel) ==> !(r is Forward) && !(r is SessionEnded)
            && !(r is SessionClosed),
{
    if r is Forward {
        let t = o.remote_map()[f.channel];
        assert(o.slots().contains_key(t));
    }
}

/// After a teardown, every slot that was dropped is on record with the
/// error its session now sees: a transport error (`Codec`, `Disconnected`,
/// `Timeout`) ends a paired session with `SessionEnded(None)`, a peer Close
/// ends it with that Close, and an open still waiting for the peer's Begin
/// fails with `Disconnected`.
pub proof fn teardown_errors_every_session(
    o: ConnectionController,
    n: ConnectionController,
    err: AmqpTransportError,
    i: int,
)
    requires
        o.records_teardown(&n, err),
        o.errored().len() <= i < n.errored().len(),
    ensures
        o.slots().contains_key(n.errored()[i].0),
        o.slots()[n.errored()[i].0] is Opening ==> n.errored()[i].1 == AmqpTransportError::Disconnected,
        !(o.slots()[n.errored()[i].0] is Opening) && (err is Codec || err is Disconnected
            || err is Timeout) ==> n.errored()[i].1 == AmqpTransportError::SessionEnded(None),
        !(o.slots()[n.errored()[i].0] is Opening) && err is Closed ==> n.errored()[i].1.same(&err),
{
}

} // verus!
