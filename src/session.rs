use crate::envelope::{ChannelMessage, JoinReference, MessageType, MsgReference, Topic};
use crate::errors::ClientError;
use crate::queue::OutboundQueue;
use vstd::prelude::*;
use vstd::string::*;

verus! {

/// Time between two heartbeats while joined, in milliseconds.
pub const HEARTBEAT_PERIOD_MS: u64 = 500;

/// The join reference of the control-topic join: the first join of a transport.
pub const CONTROL_JOIN_REF: u64 = 0;

/// The lifecycle of one transport.
#[derive(Clone, Copy, Debug, PartialEq, Eq, Structural)]
pub enum SessionState {
    /// The transport is being opened.
    Handshaking,
    /// The transport is open and the control-topic join has been sent.
    Joining,
    /// The server accepted the join; heartbeats flow.
    Joined,
    /// The transport was closed by the peer or broke; no more producers.
    Closing,
    /// The session has ended after having been open.
    Closed,
    /// The transport could not be opened, or ended before it was.
    Failed,
}

/// Where an inbound envelope goes.
#[derive(Clone, Copy, Debug, PartialEq, Eq, Structural)]
pub enum Route {
    /// The control topic or the heartbeat topic: handled by the session.
    Control,
    /// The topic of the registered tracker with this index.
    Tracker(usize),
    /// No live handler: logged and dropped.
    Unmatched,
}

/// The reserved topic that heartbeats travel on.
pub open spec fn heartbeat_topic() -> Seq<char> {
    "phoenix"@
}

/// The payload of envelopes that carry no body.
pub open spec fn empty_payload() -> Seq<char> {
    "{}"@
}

/// `m` is the `k`-th heartbeat of a session.
pub open spec fn is_heartbeat(m: ChannelMessage, k: nat) -> bool {
    &&& m.0 == JoinReference(None)
    &&& m.1 is Number && m.1->Number_0 == k
    &&& m.2.0@ == heartbeat_topic()
    &&& m.3 == MessageType::Heartbeat
    &&& m.4@ == empty_payload()
}

/// `m` is the join of the control topic `topic`.
pub open spec fn is_control_join(m: ChannelMessage, topic: Seq<char>) -> bool {
    &&& m.0 == JoinReference(Some(CONTROL_JOIN_REF))
    &&& m.1 is Number && m.1->Number_0 == 0
    &&& m.2.0@ == topic
    &&& m.3 == MessageType::Join
    &&& m.4@ == empty_payload()
}

/// One transport lifetime: its state, the queue that all producers share, and
/// the registry of tracker topics that inbound traffic is routed to.
pub struct Session {
    state: SessionState,
    queue: OutboundQueue,
    client_topic: String,
    heartbeats: u64,
    joined_at_ms: u64,
    trackers: Vec<String>,
}

/// The producers may enqueue in these states.
pub open spec fn is_live(s: SessionState) -> bool {
    s is Handshaking || s is Joining || s is Joined
}

impl Session {
    pub closed spec fn state(&self) -> SessionState {
        self.state
    }

    /// The envelopes waiting for the writer, oldest first.
    pub closed spec fn pending(&self) -> Seq<ChannelMessage> {
        self.queue.pending()
    }

    /// Whether producers may still enqueue.
    pub closed spec fn accepting(&self) -> bool {
        self.queue.accepting()
    }

    /// The control topic of this client, `"client:<hardware-id>"`.
    pub closed spec fn client_topic(&self) -> Seq<char> {
        self.client_topic@
    }

    /// Heartbeats enqueued since the session joined.
    pub closed spec fn heartbeats(&self) -> nat {
        self.heartbeats as nat
    }

    /// When the join was confirmed, in milliseconds of the caller's clock.
    pub closed spec fn joined_at(&self) -> nat {
        self.joined_at_ms as nat
    }

    /// The topics of the registered trackers, by index.
    pub closed spec fn trackers(&self) -> Seq<Seq<char>> {
        self.trackers@.map_values(|t: String| t@)
    }

    /// The queue takes envelopes exactly while the session is live.
    pub closed spec fn wf(&self) -> bool {
        self.queue.accepting() == is_live(self.state)
    }

    /// A session about to open its transport, for the client topic `client_topic`.
    pub fn new(client_topic: String) -> (r: Session)
        ensures
            r.wf(),
            r.state() == SessionState::Handshaking,
            r.pending() == Seq::<ChannelMessage>::empty(),
            r.client_topic() == client_topic@,
            r.trackers() == Seq::<Seq<char>>::empty(),
            r.heartbeats() == 0,
    {
        let r = Session {
            state: SessionState::Handshaking,
            queue: OutboundQueue::new(),
            client_topic,
            heartbeats: 0,
            joined_at_ms: 0,
            trackers: Vec::new(),
        };
        assert(r.trackers() =~= Seq::<Seq<char>>::empty());
        r
    }

    pub fn current_state(&self) -> (r: SessionState)
        ensures
            r == self.state(),
    {
        self.state
    }

    pub fn is_accepting(&self) -> (r: bool)
        requires
            self.wf(),
        ensures
            r == self.accepting(),
            r == is_live(self.state()),
    {
        self.queue.is_open()
    }

    /// Number of envelopes waiting for the writer.
    pub fn pending_len(&self) -> (r: usize)
        ensures
            r == self.pending().len(),
    {
        self.queue.len()
    }
}

/// What `handshake_succeeded` does: from `Handshaking` the session moves to
/// `Joining` with the control-topic join put ahead of everything waiting;
/// in any other state nothing changes.
pub open spec fn handshake_post(old: Session, new: Session) -> bool {
    &&& new.wf()
    &&& new.client_topic() == old.client_topic()
    &&& new.trackers() == old.trackers()
    &&& new.heartbeats() == old.heartbeats()
    &&& if old.state() is Handshaking {
        &&& new.state() == SessionState::Joining
        &&& new.pending().len() == old.pending().len() + 1
        &&& is_control_join(new.pending()[0], old.client_topic())
        &&& new.pending().drop_first() == old.pending()
    } else {
        &&& new.state() == old.state()
        &&& new.pending() == old.pending()
    }
}

/// `new` differs from `old` at most in what is waiting in its queue.
pub open spec fn same_but_pending(old: Session, new: Session) -> bool {
    &&& new.wf()
    &&& new.state() == old.state()
    &&& new.accepting() == old.accepting()
    &&& new.client_topic() == old.client_topic()
    &&& new.trackers() == old.trackers()
    &&& new.heartbeats() == old.heartbeats()
    &&& new.joined_at() == old.joined_at()
}

/// What `enqueue` does: appends while the session is live, and otherwise
/// fails with `ChannelClosed` and leaves the queue as it was.
pub open spec fn enqueue_post(
    old: Session,
    new: Session,
    m: ChannelMessage,
    r: Result<(), ClientError>,
) -> bool {
    &&& same_but_pending(old, new)
    &&& if is_live(old.state()) {
        r is Ok && new.pending() == old.pending().push(m)
    } else {
        (r matches Err(ClientError::ChannelClosed)) && new.pending() == old.pending()
    }
}

/// The number of heartbeats owed at time `now`: one per full period since the
/// join, and none outside `Joined`.
pub open spec fn heartbeats_due(s: Session, now: nat) -> nat {
    if s.state() is Joined && now >= s.joined_at() {
        ((now - s.joined_at()) / (HEARTBEAT_PERIOD_MS as int)) as nat
    } else {
        0
    }
}

/// What `tick` does: appends the heartbeats owed and not yet sent, numbered on
/// from the last one, and changes nothing else.
pub open spec fn tick_post(old: Session, new: Session, now: nat) -> bool {
    let due = heartbeats_due(old, now);
    let added: nat = if due > old.heartbeats() {
        (due - old.heartbeats()) as nat
    } else {
        0
    };
    &&& new.wf()
    &&& new.state() == old.state()
    &&& new.client_topic() == old.client_topic()
    &&& new.trackers() == old.trackers()
    &&& new.joined_at() == old.joined_at()
    &&& new.heartbeats() == old.heartbeats() + added
    &&& new.pending().len() == old.pending().len() + added
    &&& new.pending().subrange(0, old.pending().len() as int) == old.pending()
    &&& forall|i: int|
        0 <= i < added ==> is_heartbeat(
            #[trigger] new.pending()[old.pending().len() + i],
            old.heartbeats() + i as nat + 1,
        )
}

/// `m` confirms the control-topic join of a joining session.
pub open spec fn confirms_join(s: Session, m: ChannelMessage) -> bool {
    &&& s.state() is Joining
    &&& m.3 == MessageType::Reply
    &&& m.2.0@ == s.client_topic()
    &&& m.0 == JoinReference(Some(CONTROL_JOIN_REF))
}

/// Where an envelope on `topic` is routed.
pub open spec fn route_is(s: Session, topic: Seq<char>, r: Route) -> bool {
    if topic == s.client_topic() || topic == heartbeat_topic() {
        r == Route::Control
    } else {
        match r {
            Route::Tracker(i) => i < s.trackers().len() && s.trackers()[i as int] == topic,
            Route::Unmatched => forall|i: int|
                0 <= i < s.trackers().len() ==> s.trackers()[i] != topic,
            Route::Control => false,
        }
    }
}

impl Session {
    /// The transport is open: send the control-topic join before anything else.
    pub fn handshake_succeeded(&mut self)
        requires
            old(self).wf(),
        ensures
            handshake_post(*old(self), *final(self)),
            final(self).joined_at() == old(self).joined_at(),
    {
        if self.state == SessionState::Handshaking {
            let join = ChannelMessage(
                JoinReference(Some(CONTROL_JOIN_REF)),
                MsgReference::Number(0),
                Topic(self.client_topic.clone()),
                MessageType::Join,
                String::from_str("{}"),
            );
            self.queue.requeue_front(join);
            self.state = SessionState::Joining;
            assert(self.queue.pending().drop_first() =~= old(self).queue.pending());
        }
    }

    /// The transport could not be opened.
    pub fn handshake_failed(&mut self)
        requires
            old(self).wf(),
        ensures
            final(self).wf(),
            final(self).state() == if old(self).state() is Handshaking {
                SessionState::Failed
            } else {
                old(self).state()
            },
            final(self).pending() == old(self).pending(),
            final(self).client_topic() == old(self).client_topic(),
            final(self).trackers() == old(self).trackers(),
    {
        if self.state == SessionState::Handshaking {
            self.state = SessionState::Failed;
            self.queue.close();
        }
    }

    /// Hand an envelope to the writer. Never blocks; fails with
    /// `ChannelClosed` once the session is no longer live.
    pub fn enqueue(&mut self, m: ChannelMessage) -> (r: Result<(), ClientError>)
        requires
            old(self).wf(),
        ensures
            enqueue_post(*old(self), *final(self), m, r),
    {
        self.queue.enqueue(m)
    }

    /// The next envelope for the writer, oldest first.
    pub fn next_outbound(&mut self) -> (r: Option<ChannelMessage>)
        requires
            old(self).wf(),
        ensures
            final(self).wf(),
            final(self).state() == old(self).state(),
            final(self).client_topic() == old(self).client_topic(),
            final(self).trackers() == old(self).trackers(),
            final(self).heartbeats() == old(self).heartbeats(),
            final(self).joined_at() == old(self).joined_at(),
            old(self).pending().len() == 0 ==> r is None && final(self).pending() == old(
                self,
            ).pending(),
            old(self).pending().len() > 0 ==> r == Some(old(self).pending()[0])
                && final(self).pending() == old(self).pending().drop_first(),
    {
        self.queue.pop_front()
    }

    /// Writing `m` failed: it goes back to the front, so the order is kept.
    pub fn write_failed(&mut self, m: ChannelMessage)
        requires
            old(self).wf(),
        ensures
            final(self).wf(),
            final(self).state() == old(self).state(),
            final(self).client_topic() == old(self).client_topic(),
            final(self).trackers() == old(self).trackers(),
            final(self).heartbeats() == old(self).heartbeats(),
            final(self).joined_at() == old(self).joined_at(),
            final(self).pending() == seq![m] + old(self).pending(),
    {
        self.queue.requeue_front(m);
    }

    /// The peer closed the transport, or reading from it failed: producers
    /// are refused from now on.
    pub fn begin_close(&mut self)
        requires
            old(self).wf(),
        ensures
            final(self).wf(),
            final(self).state() == match old(self).state() {
                SessionState::Handshaking => SessionState::Failed,
                SessionState::Joining => SessionState::Closing,
                SessionState::Joined => SessionState::Closing,
                other => other,
            },
            !final(self).accepting(),
            final(self).pending() == old(self).pending(),
            final(self).client_topic() == old(self).client_topic(),
            final(self).trackers() == old(self).trackers(),
    {
        self.state = match self.state {
            SessionState::Handshaking => SessionState::Failed,
            SessionState::Joining => SessionState::Closing,
            SessionState::Joined => SessionState::Closing,
            other => other,
        };
        self.queue.close();
    }

    /// The session's tasks have ended. A session that never opened its
    /// transport ends `Failed`, any other `Closed`.
    pub fn finish(&mut self)
        requires
            old(self).wf(),
        ensures
            final(self).wf(),
            final(self).state() == match old(self).state() {
                SessionState::Handshaking => SessionState::Failed,
                SessionState::Failed => SessionState::Failed,
                _ => SessionState::Closed,
            },
            !final(self).accepting(),
            final(self).pending() == old(self).pending(),
            final(self).client_topic() == old(self).client_topic(),
            final(self).trackers() == old(self).trackers(),
    {
        self.state = match self.state {
            SessionState::Handshaking => SessionState::Failed,
            SessionState::Failed => SessionState::Failed,
            _ => SessionState::Closed,
        };
        self.queue.close();
    }

    /// Register a tracker's topic for inbound routing; returns its index.
    pub fn register_tracker(&mut self, topic: String) -> (r: usize)
        requires
            old(self).wf(),
            old(self).trackers().len() < usize::MAX,
        ensures
            final(self).wf(),
            r == old(self).trackers().len(),
            final(self).trackers() == old(self).trackers().push(topic@),
            final(self).state() == old(self).state(),
            final(self).pending() == old(self).pending(),
            final(self).client_topic() == old(self).client_topic(),
            final(self).heartbeats() == old(self).heartbeats(),
            final(self).joined_at() == old(self).joined_at(),
    {
        let r = self.trackers.len();
        let ghost t = topic@;
        self.trackers.push(topic);
        assert(self.trackers() =~= old(self).trackers().push(t));
        r
    }

    /// Where an envelope on `topic` goes.
    pub fn route(&self, topic: &str) -> (r: Route)
        ensures
            route_is(*self, topic@, r),
    {
        if String::from_str(topic) == self.client_topic || crate::text::text_is(topic, "phoenix") {
            return Route::Control;
        }
        let mut i: usize = 0;
        while i < self.trackers.len()
            invariant
                i <= self.trackers@.len(),
                topic@ != self.client_topic(),
                topic@ != heartbeat_topic(),
                forall|j: int| 0 <= j < i ==> self.trackers()[j] != topic@,
            decreases self.trackers@.len() - i,
        {
            if String::from_str(topic) == self.trackers[i] {
                return Route::Tracker(i);
            }
            i = i + 1;
        }
        Route::Unmatched
    }

    /// Take in an inbound envelope received at `now_ms`: a reply that confirms
    /// the control-topic join moves the session to `Joined`. Returns where
    /// the envelope goes.
    pub fn receive(&mut self, m: &ChannelMessage, now_ms: u64) -> (r: Route)
        requires
            old(self).wf(),
        ensures
            final(self).wf(),
            route_is(*old(self), m.2.0@, r),
            confirms_join(*old(self), *m) ==> final(self).state() == SessionState::Joined
                && final(self).joined_at() == now_ms && final(self).heartbeats() == 0,
            !confirms_join(*old(self), *m) ==> final(self).state() == old(self).state()
                && final(self).joined_at() == old(self).joined_at() && final(self).heartbeats()
                == old(self).heartbeats(),
            final(self).pending() == old(self).pending(),
            final(self).client_topic() == old(self).client_topic(),
            final(self).trackers() == old(self).trackers(),
    {
        let r = self.route(m.2.0.as_str());
        if self.state == SessionState::Joining && m.3 == MessageType::Reply && m.0.0 == Some(
            CONTROL_JOIN_REF,
        ) && m.2.0 == self.client_topic {
            self.state = SessionState::Joined;
            self.joined_at_ms = now_ms;
            self.heartbeats = 0;
        }
        r
    }

    /// The heartbeat timer fired at `now_ms`: enqueue every heartbeat owed.
    pub fn tick(&mut self, now_ms: u64)
        requires
            old(self).wf(),
        ensures
            tick_post(*old(self), *final(self), now_ms as nat),
    {
        if self.state != SessionState::Joined || now_ms < self.joined_at_ms {
            assert(self.queue.pending().subrange(0, self.queue.pending().len() as int)
                =~= self.queue.pending());
            return;
        }
        let due: u64 = (now_ms - self.joined_at_ms) / HEARTBEAT_PERIOD_MS;
        let ghost start = self.queue.pending();
        let ghost first = self.heartbeats;
        while self.heartbeats < due
            invariant
                self.wf(),
                self.state == SessionState::Joined,
                self.state == old(self).state,
                self.client_topic == old(self).client_topic,
                self.trackers == old(self).trackers,
                self.joined_at_ms == old(self).joined_at_ms,
                first == old(self).heartbeats,
                start == old(self).queue.pending(),
                due == heartbeats_due(*old(self), now_ms as nat),
                first <= self.heartbeats,
                self.heartbeats <= due || self.heartbeats == first,
                self.queue.pending().len() == start.len() + (self.heartbeats - first),
                self.queue.pending().subrange(0, start.len() as int) == start,
                forall|i: int|
                    0 <= i < self.heartbeats - first ==> is_heartbeat(
                        #[trigger] self.queue.pending()[start.len() + i],
                        (first + i + 1) as nat,
                    ),
            decreases due - self.heartbeats,
        {
            let k: u64 = self.heartbeats + 1;
            let beat = ChannelMessage(
                JoinReference(None),
                MsgReference::Number(k),
                Topic(String::from_str("phoenix")),
                MessageType::Heartbeat,
                String::from_str("{}"),
            );
            let ghost before = self.queue.pending();
            let _ = self.queue.enqueue(beat);
            self.heartbeats = k;
            assert forall|i: int|
                0 <= i < self.heartbeats - first implies is_heartbeat(
                #[trigger] self.queue.pending()[start.len() + i],
                (first + i + 1) as nat,
            ) by {
                if i < k - 1 - first {
                    assert(self.queue.pending()[start.len() + i] == before[start.len() + i]);
                }
            }
            assert(self.queue.pending().subrange(0, start.len() as int) =~= start) by {
                assert(before.subrange(0, start.len() as int) == start);
            }
        }
    }
}

/// The join on the control topic is the first envelope the writer sees once
/// the transport is open, whatever producers enqueued while it was opening.
pub proof fn join_comes_first(old: Session, new: Session)
    requires
        old.wf(),
        old.state() is Handshaking,
        handshake_post(old, new),
    ensures
        new.state() is Joining,
        new.pending().len() > 0,
        is_control_join(new.pending()[0], old.client_topic()),
{
}

/// Once a session has closed, enqueueing always fails with `ChannelClosed`
/// and leaves the queue unchanged.
pub proof fn enqueue_after_close_fails(
    old: Session,
    new: Session,
    m: ChannelMessage,
    r: Result<(), ClientError>,
)
    requires
        old.wf(),
        old.state() is Closed,
        enqueue_post(old, new, m, r),
    ensures
        r matches Err(ClientError::ChannelClosed),
        new.pending() == old.pending(),
        new.state() is Closed,
{
}

/// Over a stretch of `Joined` time starting at the join, one heartbeat is
/// enqueued per full period, on the heartbeat topic, with strictly increasing
/// message references.
pub proof fn heartbeat_cadence(old: Session, new: Session, now: nat)
    requires
        old.wf(),
        old.state() is Joined,
        old.heartbeats() == 0,
        now >= old.joined_at(),
        tick_post(old, new, now),
    ensures
        new.pending().len() == old.pending().len() + (now - old.joined_at())
            / (HEARTBEAT_PERIOD_MS as int),
        forall|i: int|
            old.pending().len() <= i < new.pending().len() ==> (#[trigger] new.pending()[i]).3
                == MessageType::Heartbeat && new.pending()[i].2.0@ == heartbeat_topic(),
        forall|i: int, j: int|
            old.pending().len() <= i < j < new.pending().len() ==> (#[trigger] new.pending()[i]).1->Number_0
                < (#[trigger] new.pending()[j]).1->Number_0,
{
    let n = old.pending().len();
    assert forall|i: int|
        n <= i < new.pending().len() implies (#[trigger] new.pending()[i]).3
        == MessageType::Heartbeat && new.pending()[i].2.0@ == heartbeat_topic() by {
        assert(is_heartbeat(new.pending()[n + (i - n)], (i - n) as nat + 1));
    }
    assert forall|i: int, j: int|
        n <= i < j < new.pending().len() implies (#[trigger] new.pending()[i]).1->Number_0 < (
        #[trigger] new.pending()[j]).1->Number_0 by {
        assert(is_heartbeat(new.pending()[n + (i - n)], (i - n) as nat + 1));
        assert(is_heartbeat(new.pending()[n + (j - n)], (j - n) as nat + 1));
    }
}

/// Ticks may come at any times: after ticks at `t1` and then `t2`, a session
/// that joined with no heartbeat sent has sent one per full period up to `t2`.
pub proof fn heartbeats_follow_the_clock(s0: Session, s1: Session, s2: Session, t1: nat, t2: nat)
    requires
        s0.wf(),
        s0.state() is Joined,
        s0.heartbeats() == 0,
        s0.joined_at() <= t1 <= t2,
        tick_post(s0, s1, t1),
        tick_post(s1, s2, t2),
    ensures
        s2.heartbeats() == (t2 - s0.joined_at()) / (HEARTBEAT_PERIOD_MS as int),
        s2.pending().len() == s0.pending().len() + s2.heartbeats(),
{
    let j = s0.joined_at() as int;
    assert((t1 - j) / 500 <= (t2 - j) / 500) by {
        vstd::arithmetic::div_mod::lemma_div_is_ordered(t1 - j, t2 - j, 500);
    }
}

} // verus!
