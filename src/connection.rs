//! The connection state machine: the session table, the remote channel map,
//! the outgoing queue, the lifecycle state and the error slot.
use std::collections::HashMap;
use std::collections::VecDeque;

use vstd::prelude::*;

use crate::config::Configuration;
use crate::errors::{AmqpTransportError, WireError};
use crate::frame::{Begin, Frame, Performative};
use crate::session::{ChannelState, SessionInner};
use crate::table::{
    slab_next, slab_slots, table_clear, table_get, table_insert, table_new, table_remove,
    table_keys, table_set, table_vacant_key,
};

verus! {

broadcast use vstd::std_specs::hash::group_hash_axioms;

/// Connection lifecycle.
#[derive(Debug, Clone, Copy, PartialEq, Eq, Structural)]
pub enum State {
    /// Open exchanged, traffic flowing.
    Normal,
    /// We sent Close and wait for the peer's.
    Closing,
    /// The peer sent Close first; we echoed it and drain the writes.
    RemoteClose,
    /// The owner asked for teardown.
    Drop,
}

/// What handling one incoming frame led to.
#[derive(Debug, PartialEq)]
pub enum Incoming {
    /// Handled or dropped; reading goes on.
    Consumed,
    /// Reading stops: the peer closed, or the connection is in error.
    Stop,
    /// A Begin that opens a session from the peer's side, for higher layers.
    PeerBegin(Frame),
    /// The peer answered our Begin: the session with this token is open.
    SessionOpened(usize),
    /// The peer ended an open session; our End answer is queued.
    SessionEnded(usize, Option<WireError>),
    /// The peer confirmed the End we sent.
    SessionClosed(usize),
    /// A frame for the open session with this token.
    Forward(usize, Frame),
}

/// The peer channel that a slot is paired with, if it is paired.
pub open spec fn paired_channel(st: ChannelState) -> Option<u16> {
    match st {
        ChannelState::Opening { .. } => None,
        ChannelState::Established(s) => Some(s.remote_channel),
        ChannelState::Closing(c) => Some(c),
    }
}

/// The session table and the remote channel map agree: every key is below
/// `channel_max`; an open session knows its own token; a slot is in the map
/// exactly when it is paired with a peer channel, under that channel.
pub open spec fn table_wf(slots: Map<usize, ChannelState>, map: Map<u16, usize>, channel_max: u16) -> bool {
    &&& forall|t: usize| #[trigger] slots.contains_key(t) ==> t < channel_max
    &&& forall|t: usize| #[trigger]
        slots.contains_key(t) && slots[t] is Established ==> slots[t]->Established_0.id == t
    &&& forall|t: usize| #[trigger]
        slots.contains_key(t) && paired_channel(slots[t]) is Some ==> map.contains_key(
            paired_channel(slots[t])->Some_0,
        ) && map[paired_channel(slots[t])->Some_0] == t
    &&& forall|c: u16| #[trigger]
        map.contains_key(c) ==> slots.contains_key(map[c]) && paired_channel(slots[map[c]]) == Some(
            c,
        )
}

/// The table stays consistent when slot `t` takes the state `st`: `t` is a
/// valid key, an open session knows its token, and the map gains a pairing
/// exactly when an unpaired slot becomes paired with a free peer channel.
pub proof fn lemma_wf_set_slot(
    om: Map<usize, ChannelState>,
    omp: Map<u16, usize>,
    cm: u16,
    t: usize,
    st: ChannelState,
    mp: Map<u16, usize>,
)
    requires
        table_wf(om, omp, cm),
        t < cm,
        st is Established ==> st->Established_0.id == t,
        om.contains_key(t) && paired_channel(om[t]) is Some ==> paired_channel(st) == paired_channel(
            om[t],
        ) && mp == omp,
        !(om.contains_key(t) && paired_channel(om[t]) is Some) ==> match paired_channel(st) {
            None => mp == omp,
            Some(c) => !omp.contains_key(c) && mp == omp.insert(c, t),
        },
    ensures
        table_wf(om.insert(t, st), mp, cm),
{
    let m = om.insert(t, st);
    assert forall|k: usize| #[trigger] m.contains_key(k) implies k < cm by {
        if k != t {
            assert(om.contains_key(k));
        }
    }
    assert forall|k: usize| #[trigger]
        m.contains_key(k) && m[k] is Established implies m[k]->Established_0.id == k by {
        if k != t {
            assert(om.contains_key(k));
        }
    }
    assert forall|k: usize| #[trigger]
        m.contains_key(k) && paired_channel(m[k]) is Some implies mp.contains_key(
        paired_channel(m[k])->Some_0,
    ) && mp[paired_channel(m[k])->Some_0] == k by {
        if k != t {
            assert(om.contains_key(k));
            assert(omp.contains_key(paired_channel(om[k])->Some_0));
        }
    }
    assert forall|d: u16| #[trigger]
        mp.contains_key(d) implies m.contains_key(mp[d]) && paired_channel(m[mp[d]]) == Some(d) by {
        if omp.contains_key(d) {
            assert(om.contains_key(omp[d]));
        }
    }
}

/// The table stays consistent when the slot paired with peer channel `c`
/// is removed together with its pairing.
pub proof fn lemma_wf_unpair(om: Map<usize, ChannelState>, omp: Map<u16, usize>, cm: u16, c: u16)
    requires
        table_wf(om, omp, cm),
        omp.contains_key(c),
    ensures
        table_wf(om.remove(omp[c]), omp.remove(c), cm),
{
    let m = om.remove(omp[c]);
    let mp = omp.remove(c);
    assert forall|k: usize| #[trigger] m.contains_key(k) implies k < cm by {
        assert(om.contains_key(k));
    }
    assert forall|k: usize| #[trigger]
        m.contains_key(k) && m[k] is Established implies m[k]->Established_0.id == k by {
        assert(om.contains_key(k));
    }
    assert forall|k: usize| #[trigger]
        m.contains_key(k) && paired_channel(m[k]) is Some implies mp.contains_key(
        paired_channel(m[k])->Some_0,
    ) && mp[paired_channel(m[k])->Some_0] == k by {
        assert(om.contains_key(k));
        assert(omp.contains_key(paired_channel(om[k])->Some_0));
    }
    assert forall|d: u16| #[trigger]
        mp.contains_key(d) implies m.contains_key(mp[d]) && paired_channel(m[mp[d]]) == Some(d) by {
        assert(omp.contains_key(d));
        assert(om.contains_key(omp[d]));
    }
}

/// The Begin that we send to open a session on `channel`.
pub open spec fn local_begin(channel: u16) -> Frame {
    Frame {
        channel,
        performative: Performative::Begin(
            Begin {
                remote_channel: None,
                next_outgoing_id: 1,
                incoming_window: u32::MAX,
                outgoing_window: u32::MAX,
                handle_max: u32::MAX,
            },
        ),
    }
}

/// The Begin that accepts the peer's session `remote` on our `channel`.
pub open spec fn answer_begin(channel: u16, remote: u16, peer: Begin) -> Frame {
    Frame {
        channel,
        performative: Performative::Begin(
            Begin {
                remote_channel: Some(remote),
                next_outgoing_id: 1,
                incoming_window: u32::MAX,
                outgoing_window: peer.incoming_window,
                handle_max: u32::MAX,
            },
        ),
    }
}

pub open spec fn end_frame(channel: u16, error: Option<WireError>) -> Frame {
    Frame { channel, performative: Performative::End(error) }
}

pub open spec fn close_frame(error: Option<WireError>) -> Frame {
    Frame { channel: 0, performative: Performative::Close(error) }
}

pub open spec fn heartbeat_frame() -> Frame {
    Frame { channel: 0, performative: Performative::Empty }
}

/// The session record made when both Begin frames are exchanged.
pub open spec fn new_session(id: usize, initiator: bool, remote: u16, peer: Begin) -> SessionInner {
    SessionInner {
        id,
        initiator,
        remote_channel: remote,
        next_outgoing_id: peer.next_outgoing_id,
        incoming_window: peer.incoming_window,
        outgoing_window: peer.outgoing_window,
        error: None,
    }
}

/// The error that a session sees once a teardown with `err` dropped its
/// slot: a pending open fails with `Disconnected`; a session that was paired
/// sees the peer's Close where the peer closed, else `SessionEnded(None)`.
pub open spec fn session_error(opening: bool, err: AmqpTransportError) -> AmqpTransportError {
    if opening {
        AmqpTransportError::Disconnected
    } else {
        match err {
            AmqpTransportError::Closed(e) => AmqpTransportError::Closed(e),
            _ => AmqpTransportError::SessionEnded(None),
        }
    }
}

/// The tokens of dropped-slot records.
pub open spec fn tokens_of(s: Seq<(usize, AmqpTransportError)>) -> Seq<usize> {
    s.map_values(|p: (usize, AmqpTransportError)| p.0)
}

/// The error that a session sees once a teardown with `err` dropped its
/// slot, `opening` telling whether the slot was still waiting for the
/// peer's Begin.
pub fn session_error_for(opening: bool, err: &AmqpTransportError) -> (r: AmqpTransportError)
    ensures
        r.same(&session_error(opening, *err)),
{
    if opening {
        AmqpTransportError::Disconnected
    } else {
        match err {
            AmqpTransportError::Closed(_) => err.duplicate(),
            _ => AmqpTransportError::SessionEnded(None),
        }
    }
}

/// The state that a connection shares with its users.
pub struct ConnectionController {
    local: Configuration,
    remote: Configuration,
    write_queue: VecDeque<Frame>,
    sessions: slab::Slab<ChannelState>,
    sessions_map: HashMap<u16, usize>,
    error: Option<AmqpTransportError>,
    state: State,
    errored: Vec<(usize, AmqpTransportError)>,
}

impl ConnectionController {
    pub closed spec fn slots(&self) -> Map<usize, ChannelState> {
        slab_slots(self.sessions)
    }

    /// Peer channel to local token.
    pub closed spec fn remote_map(&self) -> Map<u16, usize> {
        self.sessions_map@
    }

    /// Frames waiting for the writer, oldest first.
    pub closed spec fn queue(&self) -> Seq<Frame> {
        self.write_queue@
    }

    pub closed spec fn error(&self) -> Option<AmqpTransportError> {
        self.error
    }

    /// The slots that teardowns dropped, not yet taken, each with the
    /// error that its session ended with.
    pub closed spec fn errored(&self) -> Seq<(usize, AmqpTransportError)> {
        self.errored@
    }

    pub closed spec fn state(&self) -> State {
        self.state
    }

    pub closed spec fn local(&self) -> Configuration {
        self.local
    }

    pub closed spec fn remote(&self) -> Configuration {
        self.remote
    }

    /// The token that the next opened session gets.
    pub closed spec fn next_token(&self) -> usize {
        slab_next(self.sessions)
    }

    pub open spec fn channel_max(&self) -> u16 {
        self.local().channel_max
    }

    /// The table is consistent, and an errored connection holds no session.
    pub open spec fn wf(&self) -> bool {
        &&& table_wf(self.slots(), self.remote_map(), self.channel_max())
        &&& !self.slots().contains_key(self.next_token())
        &&& self.error() is Some ==> self.slots() == Map::<usize, ChannelState>::empty()
            && self.remote_map() == Map::<u16, usize>::empty()
    }

    /// Everything but the queue is as in `o`.
    pub open spec fn same_but_queue(&self, o: &ConnectionController) -> bool {
        &&& self.slots() == o.slots()
        &&& self.remote_map() == o.remote_map()
        &&& self.next_token() == o.next_token()
        &&& self.error() == o.error()
        &&& self.state() == o.state()
        &&& self.local() == o.local()
        &&& self.remote() == o.remote()
        &&& self.errored() == o.errored()
    }

    /// Configuration, error, state and dropped tokens are as in `o`.
    pub open spec fn same_settings(&self, o: &ConnectionController) -> bool {
        &&& self.error() == o.error()
        &&& self.state() == o.state()
        &&& self.local() == o.local()
        &&& self.remote() == o.remote()
        &&& self.errored() == o.errored()
    }

    /// `n` keeps what `self` recorded as dropped and adds every slot of
    /// `self`, each with the error that its session sees after a teardown
    /// with `err`.
    pub open spec fn records_teardown(&self, n: &ConnectionController, err: AmqpTransportError) -> bool {
        let k = self.errored().len();
        &&& n.errored().len() >= k
        &&& n.errored().subrange(0, k as int) == self.errored()
        &&& forall|i: int|
            #![trigger n.errored()[i]]
            k <= i < n.errored().len() ==> self.slots().contains_key(n.errored()[i].0)
                && n.errored()[i].1.same(
                &session_error(self.slots()[n.errored()[i].0] is Opening, err),
            )
        &&& forall|t: usize| #[trigger]
            tokens_of(n.errored()).contains(t) <==> tokens_of(self.errored()).contains(t)
                || self.slots().contains_key(t)
    }

    /// A connection in `Normal` state with no session and nothing queued.
    pub fn new(local: Configuration, remote: Configuration) -> (r: ConnectionController)
        ensures
            r.wf(),
            r.local() == local,
            r.remote() == remote,
            r.slots() == Map::<usize, ChannelState>::empty(),
            r.remote_map() == Map::<u16, usize>::empty(),
            r.queue() == Seq::<Frame>::empty(),
            r.next_token() == 0,
            r.errored().len() == 0,
            r.error() is None,
            r.state() == State::Normal,
    {
        let r = ConnectionController {
            local,
            remote,
            write_queue: VecDeque::new(),
            sessions: table_new(),
            sessions_map: HashMap::new(),
            error: None,
            state: State::Normal,
            errored: Vec::new(),
        };
        proof {
            assert(r.slots() =~= Map::<usize, ChannelState>::empty());
        }
        r
    }

    /// Installs the peer's configuration.
    pub fn set_remote(&mut self, remote: Configuration)
        ensures
            final(self).remote() == remote,
            final(self).local() == old(self).local(),
            final(self).slots() == old(self).slots(),
            final(self).remote_map() == old(self).remote_map(),
            final(self).next_token() == old(self).next_token(),
            final(self).queue() == old(self).queue(),
            final(self).error() == old(self).error(),
            final(self).state() == old(self).state(),
            final(self).errored() == old(self).errored(),
    {
        self.remote = remote;
    }

    /// The peer's configuration.
    pub fn remote_config(&self) -> (r: &Configuration)
        ensures
            *r == self.remote(),
    {
        &self.remote
    }

    /// The local configuration.
    pub fn local_config(&self) -> (r: &Configuration)
        ensures
            *r == self.local(),
    {
        &self.local
    }

    /// The stored error, if any.
    pub fn get_error(&self) -> (r: &Option<AmqpTransportError>)
        ensures
            *r == self.error(),
    {
        &self.error
    }

    pub fn get_state(&self) -> (r: State)
        ensures
            r == self.state(),
    {
        self.state
    }

    /// Asks for teardown: the driver flushes and ends.
    pub fn drop_connection(&mut self)
        ensures
            final(self).state() == State::Drop,
            final(self).error() == old(self).error(),
            final(self).local() == old(self).local(),
            final(self).remote() == old(self).remote(),
            final(self).slots() == old(self).slots(),
            final(self).remote_map() == old(self).remote_map(),
            final(self).next_token() == old(self).next_token(),
            final(self).queue() == old(self).queue(),
            final(self).errored() == old(self).errored(),
    {
        self.state = State::Drop;
    }

    /// Appends a frame to the outgoing queue.
    pub fn post_frame(&mut self, frame: Frame)
        ensures
            final(self).queue() == old(self).queue().push(frame),
            final(self).same_but_queue(old(self)),
    {
        self.write_queue.push_back(frame);
    }

    /// Takes the oldest frame off the outgoing queue.
    pub fn pop_next_frame(&mut self) -> (r: Option<Frame>)
        ensures
            old(self).queue().len() == 0 ==> r is None && final(self).queue() == old(self).queue(),
            old(self).queue().len() > 0 ==> r == Some(old(self).queue()[0]) && final(self).queue()
                == old(self).queue().drop_first(),
            final(self).same_but_queue(old(self)),
    {
        self.write_queue.pop_front()
    }

    pub fn write_queue_is_empty(&self) -> (r: bool)
        ensures
            r == (self.queue().len() == 0),
    {
        self.write_queue.len() == 0
    }
}


impl ConnectionController {
    /// Result and effect of `open_session` on `o`, giving `n`.
    pub open spec fn open_session_post(
        o: ConnectionController,
        n: ConnectionController,
        r: Result<usize, AmqpTransportError>,
    ) -> bool {
        match o.error() {
            Some(e) => r matches Err(x) && x.same(&e) && n == o,
            None => if o.next_token() >= o.channel_max() {
                r matches Err(AmqpTransportError::TooManyChannels) && n == o
            } else {
                &&& r == Ok::<usize, AmqpTransportError>(o.next_token())
                &&& n.slots() == o.slots().insert(
                    o.next_token(),
                    ChannelState::Opening { waiter_alive: true },
                )
                &&& n.remote_map() == o.remote_map()
                &&& n.queue() == o.queue().push(local_begin(o.next_token() as u16))
                &&& n.same_settings(&o)
            },
        }
    }

    /// Starts a session from our side: takes a slot, marks it opening and
    /// queues a Begin on its channel. The session is open once the peer's
    /// Begin answers it (`Incoming::SessionOpened`).
    pub fn open_session(&mut self) -> (r: Result<usize, AmqpTransportError>)
        requires
            old(self).wf(),
        ensures
            final(self).wf(),
            Self::open_session_post(*old(self), *final(self), r),
    {
        if let Some(e) = &self.error {
            return Err(e.duplicate());
        }
        let token = table_vacant_key(&self.sessions);
        if token >= self.local.channel_max as usize {
            return Err(AmqpTransportError::TooManyChannels);
        }
        let ghost before = *self;
        let t = table_insert(&mut self.sessions, ChannelState::Opening { waiter_alive: true });
        let begin = Begin {
            remote_channel: None,
            next_outgoing_id: 1,
            incoming_window: u32::MAX,
            outgoing_window: u32::MAX,
            handle_max: u32::MAX,
        };
        self.post_frame(Frame::new(token as u16, Performative::Begin(begin)));
        proof {
            lemma_wf_set_slot(
                before.slots(),
                before.remote_map(),
                before.channel_max(),
                t,
                self.slots()[t],
                self.remote_map(),
            );
        }
        Ok(token)
    }

    /// Stores a terminal error: every session is dropped with the table,
    /// and recorded with the error it ends with for `take_errored_sessions`.
    pub fn set_error(&mut self, err: AmqpTransportError)
        ensures
            old(self).records_teardown(&*final(self), err),
            final(self).wf(),
            final(self).error() == Some(err),
            final(self).slots() == Map::<usize, ChannelState>::empty(),
            final(self).remote_map() == Map::<u16, usize>::empty(),
            final(self).queue() == old(self).queue(),
            final(self).state() == old(self).state(),
            final(self).local() == old(self).local(),
            final(self).remote() == old(self).remote(),
    {
        let ghost before = *self;
        let keys = table_keys(&self.sessions);
        let mut dropped: Vec<(usize, AmqpTransportError)> = Vec::new();
        let mut i: usize = 0;
        while i < keys.len()
            invariant
                i <= keys.len(),
                dropped@.len() == i,
                self.slots() == before.slots(),
                forall|k: usize| keys@.contains(k) <==> before.slots().contains_key(k),
                forall|j: int|
                    #![trigger dropped@[j]]
                    0 <= j < i ==> dropped@[j].0 == keys@[j] && dropped@[j].1.same(
                        &session_error(before.slots()[keys@[j]] is Opening, err),
                    ),
            decreases keys.len() - i,
        {
            let k = keys[i];
            proof {
                assert(keys@.contains(keys@[i as int]));
            }
            let opening = match table_get(&self.sessions, k) {
                Some(st) => st.is_opening(),
                None => false,
            };
            dropped.push((k, session_error_for(opening, &err)));
            i = i + 1;
        }
        let ghost added = dropped@;
        self.errored.append(&mut dropped);
        table_clear(&mut self.sessions);
        self.sessions_map.clear();
        self.error = Some(err);
        proof {
            let k = before.errored().len();
            let n = self.errored();
            assert(n == before.errored() + added);
            assert(n.subrange(0, k as int) =~= before.errored());
            assert forall|i: int| #![trigger n[i]] k <= i < n.len() implies before.slots().contains_key(
                n[i].0,
            ) && n[i].1.same(&session_error(before.slots()[n[i].0] is Opening, err)) by {
                assert(n[i] == added[i - k]);
                assert(keys@.contains(keys@[i - k]));
            }
            assert forall|t: usize| #[trigger]
                tokens_of(n).contains(t) <==> tokens_of(before.errored()).contains(t)
                    || before.slots().contains_key(t) by {
                if tokens_of(n).contains(t) {
                    let j = choose|j: int| 0 <= j < tokens_of(n).len() && tokens_of(n)[j] == t;
                    if j < k {
                        assert(tokens_of(before.errored())[j] == t);
                    } else {
                        assert(n[j] == added[j - k]);
                        assert(keys@.contains(keys@[j - k]));
                    }
                }
                if tokens_of(before.errored()).contains(t) {
                    let j = choose|j: int|
                        0 <= j < tokens_of(before.errored()).len() && tokens_of(before.errored())[j]
                            == t;
                    assert(n[j] == before.errored()[j]);
                    assert(tokens_of(n)[j] == t);
                }
                if before.slots().contains_key(t) {
                    assert(keys@.contains(t));
                    let j = choose|j: int| 0 <= j < keys@.len() && keys@[j] == t;
                    assert(n[k + j] == added[j]);
                    assert(tokens_of(n)[k + j] == t);
                }
            }
            assert(self.slots() =~= Map::<usize, ChannelState>::empty());
        }
    }

    /// Result and effect of `register_remote_session(channel, begin)`.
    pub open spec fn register_post(
        o: ConnectionController,
        n: ConnectionController,
        channel: u16,
        begin: Begin,
        r: Result<usize, AmqpTransportError>,
    ) -> bool {
        match o.error() {
            Some(e) => r matches Err(x) && x.same(&e) && n == o,
            None => if o.next_token() >= o.channel_max() {
                r matches Err(AmqpTransportError::TooManyChannels) && n == o
            } else {
                let t = o.next_token();
                &&& r == Ok::<usize, AmqpTransportError>(t)
                &&& n.slots() == o.slots().insert(
                    t,
                    ChannelState::Established(new_session(t, false, channel, begin)),
                )
                &&& n.remote_map() == o.remote_map().insert(channel, t)
                &&& n.queue() == o.queue().push(answer_begin(t as u16, channel, begin))
                &&& n.same_settings(&o)
            },
        }
    }

    /// Accepts a session that the peer began on `channel`: takes a slot,
    /// pairs it with the peer channel and queues our answering Begin.
    pub fn register_remote_session(&mut self, channel: u16, begin: &Begin) -> (r: Result<
        usize,
        AmqpTransportError,
    >)
        requires
            old(self).wf(),
            !old(self).remote_map().contains_key(channel),
        ensures
            final(self).wf(),
            Self::register_post(*old(self), *final(self), channel, *begin, r),
    {
        if let Some(e) = &self.error {
            return Err(e.duplicate());
        }
        let token = table_vacant_key(&self.sessions);
        if token >= self.local.channel_max as usize {
            return Err(AmqpTransportError::TooManyChannels);
        }
        let ghost before = *self;
        let session = SessionInner {
            id: token,
            initiator: false,
            remote_channel: channel,
            next_outgoing_id: begin.next_outgoing_id,
            incoming_window: begin.incoming_window,
            outgoing_window: begin.outgoing_window,
            error: None,
        };
        let t = table_insert(&mut self.sessions, ChannelState::Established(session));
        self.sessions_map.insert(channel, token);
        let answer = Begin {
            remote_channel: Some(channel),
            next_outgoing_id: 1,
            incoming_window: u32::MAX,
            outgoing_window: begin.incoming_window,
            handle_max: u32::MAX,
        };
        self.post_frame(Frame::new(token as u16, Performative::Begin(answer)));
        proof {
            lemma_wf_set_slot(
                before.slots(),
                before.remote_map(),
                before.channel_max(),
                t,
                self.slots()[t],
                self.remote_map(),
            );
        }
        Ok(token)
    }

    /// Whether the peer channel is paired with a slot.
    pub fn has_remote_channel(&self, channel: u16) -> (r: bool)
        ensures
            r == self.remote_map().contains_key(channel),
    {
        self.sessions_map.contains_key(&channel)
    }

    /// The open session that the peer calls `channel`, if there is one.
    pub fn get_remote_session(&self, channel: u16) -> (r: Option<&SessionInner>)
        requires
            self.wf(),
        ensures
            match r {
                Some(s) => {
                    &&& self.remote_map().contains_key(channel)
                    &&& self.slots()[self.remote_map()[channel]] == ChannelState::Established(*s)
                },
                None => !self.remote_map().contains_key(channel) || !(self.slots()[self.remote_map()[channel]] is Established),
            },
    {
        match self.sessions_map.get(&channel) {
            None => None,
            Some(token) => match table_get(&self.sessions, *token) {
                Some(ChannelState::Established(s)) => Some(s),
                _ => None,
            },
        }
    }
}


impl ConnectionController {
    /// Result and effect of a peer Begin that names our channel `c` and
    /// arrives on the unpaired peer channel `channel`.
    pub open spec fn pairing_post(
        o: ConnectionController,
        n: ConnectionController,
        channel: u16,
        c: u16,
        begin: Begin,
        r: Incoming,
    ) -> bool {
        let t = c as usize;
        if o.slots().contains_key(t) && o.slots()[t] is Opening {
            &&& n.remote_map() == o.remote_map().insert(channel, t)
            &&& n.same_settings(&o)
            &&& n.next_token() == o.next_token()
            &&& if o.slots()[t]->waiter_alive {
                &&& n.slots() == o.slots().insert(
                    t,
                    ChannelState::Established(new_session(t, true, channel, begin)),
                )
                &&& n.queue() == o.queue()
                &&& r == Incoming::SessionOpened(t)
            } else {
                &&& n.slots() == o.slots().insert(t, ChannelState::Closing(channel))
                &&& n.queue() == o.queue().push(end_frame(c, None))
                &&& r == Incoming::Consumed
            }
        } else {
            n == o && r == Incoming::Consumed
        }
    }

    /// Pairs our opening slot `c` with the peer's session on `channel`. If
    /// nobody waits for the session any more, it is ended at once.
    fn complete_session_creation(&mut self, channel: u16, c: u16, begin: Begin) -> (r: Incoming)
        requires
            old(self).wf(),
            old(self).error() is None,
            !old(self).remote_map().contains_key(channel),
        ensures
            final(self).wf(),
            Self::pairing_post(*old(self), *final(self), channel, c, begin, r),
    {
        let t = c as usize;
        let alive = match table_get(&self.sessions, t) {
            Some(ChannelState::Opening { waiter_alive }) => Some(*waiter_alive),
            _ => None,
        };
        let alive = match alive {
            None => return Incoming::Consumed,
            Some(a) => a,
        };
        let ghost before = *self;
        self.sessions_map.insert(channel, t);
        let r = if alive {
            let session = SessionInner {
                id: t,
                initiator: true,
                remote_channel: channel,
                next_outgoing_id: begin.next_outgoing_id,
                incoming_window: begin.incoming_window,
                outgoing_window: begin.outgoing_window,
                error: None,
            };
            table_set(&mut self.sessions, t, ChannelState::Established(session));
            Incoming::SessionOpened(t)
        } else {
            table_set(&mut self.sessions, t, ChannelState::Closing(channel));
            self.post_frame(Frame::new(c, Performative::End(None)));
            Incoming::Consumed
        };
        proof {
            lemma_wf_set_slot(
                before.slots(),
                before.remote_map(),
                before.channel_max(),
                t,
                self.slots()[t],
                self.remote_map(),
            );
        }
        r
    }

    /// Result and effect of handling the incoming frame `f`.
    pub open spec fn incoming_post(
        o: ConnectionController,
        n: ConnectionController,
        f: Frame,
        r: Incoming,
    ) -> bool {
        match f.performative {
            Performative::Empty => r == Incoming::Consumed && n == o,
            Performative::Close(e) => if f.channel == 0 {
                &&& r == Incoming::Stop
                &&& n.error() == Some(AmqpTransportError::Closed(e))
                &&& n.slots() == Map::<usize, ChannelState>::empty()
                &&& n.remote_map() == Map::<u16, usize>::empty()
                &&& n.local() == o.local()
                &&& n.remote() == o.remote()
                &&& o.records_teardown(&n, AmqpTransportError::Closed(e))
                &&& if o.state() == State::Closing {
                    n.queue() == o.queue() && n.state() == o.state()
                } else {
                    n.queue() == o.queue().push(close_frame(None)) && n.state() == State::RemoteClose
                }
            } else {
                Self::routed_post(o, n, f, r)
            },
            _ => Self::routed_post(o, n, f, r),
        }
    }

    /// Result and effect of routing `f`, a frame other than a heartbeat or
    /// a connection Close, by the remote channel map.
    pub open spec fn routed_post(
        o: ConnectionController,
        n: ConnectionController,
        f: Frame,
        r: Incoming,
    ) -> bool {
        {
            if o.error() is Some {
                r == Incoming::Stop && n == o
            } else if !o.remote_map().contains_key(f.channel) {
                match f.performative {
                    Performative::Begin(b) => match b.remote_channel {
                        Some(c) => Self::pairing_post(o, n, f.channel, c, b, r),
                        None => r == Incoming::PeerBegin(f) && n == o,
                    },
                    _ => r == Incoming::Consumed && n == o,
                }
            } else {
                let t = o.remote_map()[f.channel];
                match o.slots()[t] {
                    ChannelState::Established(_) => match f.performative {
                        Performative::End(e) => {
                            &&& r == Incoming::SessionEnded(t, e)
                            &&& n.queue() == o.queue().push(end_frame(t as u16, None))
                            &&& n.slots() == o.slots().remove(t)
                            &&& n.remote_map() == o.remote_map().remove(f.channel)
                            &&& n.same_settings(&o)
                        },
                        _ => r == Incoming::Forward(t, f) && n == o,
                    },
                    ChannelState::Closing(_) => match f.performative {
                        Performative::End(_) => {
                            &&& r == Incoming::SessionClosed(t)
                            &&& n.queue() == o.queue()
                            &&& n.slots() == o.slots().remove(t)
                            &&& n.remote_map() == o.remote_map().remove(f.channel)
                            &&& n.same_settings(&o)
                        },
                        _ => r == Incoming::Consumed && n == o,
                    },
                    ChannelState::Opening { .. } => r == Incoming::Consumed && n == o,
                }
            }
        }
    }

    /// Removes the slot paired with peer channel `channel`.
    fn unpair(&mut self, channel: u16)
        requires
            old(self).wf(),
            old(self).remote_map().contains_key(channel),
        ensures
            final(self).wf(),
            final(self).slots() == old(self).slots().remove(old(self).remote_map()[channel]),
            final(self).remote_map() == old(self).remote_map().remove(channel),
            final(self).queue() == old(self).queue(),
            final(self).same_settings(old(self)),
    {
        let ghost before = *self;
        let t = self.sessions_map.remove(&channel);
        if let Some(t) = t {
            let _ = table_remove(&mut self.sessions, t);
        }
        proof {
            lemma_wf_unpair(before.slots(), before.remote_map(), before.channel_max(), channel);
            if self.error() is Some {
                assert(self.slots() =~= Map::<usize, ChannelState>::empty());
                assert(self.remote_map() =~= Map::<u16, usize>::empty());
            }
        }
    }

    /// Routes a frame other than a heartbeat or a connection Close by the
    /// remote channel map: a Begin that answers ours opens a session, End
    /// frames close sessions, the rest goes to the session it belongs to.
    fn route(&mut self, channel: u16, performative: Performative) -> (r: Incoming)
        requires
            old(self).wf(),
        ensures
            final(self).wf(),
            Self::routed_post(*old(self), *final(self), Frame { channel, performative }, r),
    {
        if self.error.is_some() {
            return Incoming::Stop;
        }
        let token = match self.sessions_map.get(&channel) {
            Some(t) => *t,
            None => {
                return match performative {
                    Performative::Begin(b) => match b.remote_channel {
                        Some(c) => self.complete_session_creation(channel, c, b),
                        None => Incoming::PeerBegin(
                            Frame { channel, performative: Performative::Begin(b) },
                        ),
                    },
                    _ => Incoming::Consumed,
                };
            },
        };
        let kind: u8 = match table_get(&self.sessions, token) {
            Some(ChannelState::Established(_)) => 1,
            Some(ChannelState::Closing(_)) => 2,
            _ => 0,
        };
        if kind == 1 {
            match performative {
                Performative::End(e) => {
                    self.post_frame(Frame::new(token as u16, Performative::End(None)));
                    self.unpair(channel);
                    Incoming::SessionEnded(token, e)
                },
                p => Incoming::Forward(token, Frame { channel, performative: p }),
            }
        } else if kind == 2 {
            match performative {
                Performative::End(_) => {
                    self.unpair(channel);
                    Incoming::SessionClosed(token)
                },
                _ => Incoming::Consumed,
            }
        } else {
            Incoming::Consumed
        }
    }

    /// Handles one incoming frame: heartbeats are absorbed, a Close on
    /// channel 0 tears the connection down, and the rest is routed by the
    /// remote channel map.
    pub fn handle_frame(&mut self, frame: Frame) -> (r: Incoming)
        requires
            old(self).wf(),
        ensures
            final(self).wf(),
            Self::incoming_post(*old(self), *final(self), frame, r),
    {
        let Frame { channel, performative } = frame;
        match performative {
            Performative::Empty => Incoming::Consumed,
            Performative::Close(e) => {
                if channel != 0 {
                    return self.route(channel, Performative::Close(e));
                }
                self.set_error(AmqpTransportError::Closed(e));
                if self.state != State::Closing {
                    self.post_frame(Frame::new(0, Performative::Close(None)));
                    self.state = State::RemoteClose;
                }
                Incoming::Stop
            },
            performative => self.route(channel, performative),
        }
    }
}


impl ConnectionController {
    /// Result and effect of `end_session(token, error)`.
    pub open spec fn end_session_post(
        o: ConnectionController,
        n: ConnectionController,
        token: usize,
        error: Option<WireError>,
        r: Result<(), AmqpTransportError>,
    ) -> bool {
        match o.error() {
            Some(e) => r matches Err(x) && x.same(&e) && n == o,
            None => if o.slots().contains_key(token) && o.slots()[token] is Established {
                &&& r is Ok
                &&& n.slots() == o.slots().insert(
                    token,
                    ChannelState::Closing(o.slots()[token]->Established_0.remote_channel),
                )
                &&& n.remote_map() == o.remote_map()
                &&& n.queue() == o.queue().push(end_frame(token as u16, error))
                &&& n.same_settings(&o)
                &&& n.next_token() == o.next_token()
            } else {
                r matches Err(AmqpTransportError::SessionEnded(None)) && n == o
            },
        }
    }

    /// Ends an open session from our side: queues End and waits for the
    /// peer's End in the closing state.
    pub fn end_session(&mut self, token: usize, error: Option<WireError>) -> (r: Result<
        (),
        AmqpTransportError,
    >)
        requires
            old(self).wf(),
        ensures
            final(self).wf(),
            Self::end_session_post(*old(self), *final(self), token, error, r),
    {
        if let Some(e) = &self.error {
            return Err(e.duplicate());
        }
        let remote = match table_get(&self.sessions, token) {
            Some(ChannelState::Established(s)) => s.remote_channel,
            _ => return Err(AmqpTransportError::SessionEnded(None)),
        };
        let ghost before = *self;
        table_set(&mut self.sessions, token, ChannelState::Closing(remote));
        self.post_frame(Frame::new(token as u16, Performative::End(error)));
        proof {
            lemma_wf_set_slot(
                before.slots(),
                before.remote_map(),
                before.channel_max(),
                token,
                self.slots()[token],
                self.remote_map(),
            );
        }
        Ok(())
    }

    /// Notes that nobody waits any more for the opening session `token`;
    /// when the peer answers, the session is ended at once.
    pub fn drop_waiter(&mut self, token: usize)
        requires
            old(self).wf(),
        ensures
            final(self).wf(),
            old(self).slots().contains_key(token) && old(self).slots()[token] is Opening ==> final(self).slots() == old(self).slots().insert(token, ChannelState::Opening { waiter_alive: false }),
            !(old(self).slots().contains_key(token) && old(self).slots()[token] is Opening) ==> final(self).slots() == old(self).slots(),
            final(self).remote_map() == old(self).remote_map(),
            final(self).queue() == old(self).queue(),
            final(self).next_token() == old(self).next_token(),
            final(self).same_settings(old(self)),
    {
        let opening = match table_get(&self.sessions, token) {
            Some(st) => st.is_opening(),
            None => false,
        };
        if opening {
            let ghost before = *self;
            table_set(&mut self.sessions, token, ChannelState::Opening { waiter_alive: false });
            proof {
                lemma_wf_set_slot(
                    before.slots(),
                    before.remote_map(),
                    before.channel_max(),
                    token,
                    self.slots()[token],
                    self.remote_map(),
                );
            }
        }
    }

    /// Result and effect of asking to close with `error`.
    pub open spec fn close_post(
        o: ConnectionController,
        n: ConnectionController,
        error: Option<WireError>,
        r: Result<(), AmqpTransportError>,
    ) -> bool {
        match o.error() {
            Some(e) => r matches Err(x) && x.same(&e) && n == o,
            None => if o.state() != State::Normal {
                r is Ok && n == o
            } else {
                &&& r is Ok
                &&& n.queue() == o.queue().push(close_frame(error))
                &&& n.state() == State::Closing
                &&& n.slots() == o.slots()
                &&& n.remote_map() == o.remote_map()
                &&& n.next_token() == o.next_token()
                &&& n.error() == o.error()
                &&& n.local() == o.local()
                &&& n.remote() == o.remote()
            },
        }
    }

    /// Queues Close and waits for the peer's Close.
    pub fn send_close(&mut self, error: Option<WireError>) -> (r: Result<(), AmqpTransportError>)
        requires
            old(self).wf(),
        ensures
            final(self).wf(),
            Self::close_post(*old(self), *final(self), error, r),
    {
        if let Some(e) = &self.error {
            return Err(e.duplicate());
        }
        if self.state != State::Normal {
            return Ok(());
        }
        self.post_frame(Frame::new(0, Performative::Close(error)));
        self.state = State::Closing;
        Ok(())
    }

    /// The driver is done: teardown was asked for, or the peer closed and
    /// every queued frame has been written out.
    pub fn is_done(&self, write_buf_empty: bool) -> (r: bool)
        ensures
            r == (self.state() == State::Drop || (self.state() == State::RemoteClose
                && self.queue().len() == 0 && write_buf_empty)),
    {
        self.state == State::Drop || (self.state == State::RemoteClose && self.write_queue.len()
            == 0 && write_buf_empty)
    }
}

impl ConnectionController {
    /// Hands out the slots that teardowns dropped, oldest first, each with
    /// the error its session ended with (see `session_error`), and forgets
    /// them.
    pub fn take_errored_sessions(&mut self) -> (r: Vec<(usize, AmqpTransportError)>)
        ensures
            r@ == old(self).errored(),
            final(self).errored().len() == 0,
            final(self).slots() == old(self).slots(),
            final(self).remote_map() == old(self).remote_map(),
            final(self).next_token() == old(self).next_token(),
            final(self).queue() == old(self).queue(),
            final(self).error() == old(self).error(),
            final(self).state() == old(self).state(),
            final(self).local() == old(self).local(),
            final(self).remote() == old(self).remote(),
    {
        let mut r: Vec<(usize, AmqpTransportError)> = Vec::new();
        r.append(&mut self.errored);
        r
    }
}

} // verus!
