use crate::envelope::{ChannelMessage, JoinReference, MessageType, MsgReference, Topic};
use crate::errors::UploaderError;
use crate::ids::{uuid_text, uuid_text_of};
use crate::plan::{chunk_plan, is_plan_for, ChunkPlan, MAX_PARTS};
use crate::session::{is_live, same_but_pending, Session};
use crate::text::{decimal, push_decimal};
use vstd::prelude::*;
use vstd::string::*;

verus! {

/// Number of `true` entries.
pub open spec fn count_true(s: Seq<bool>) -> nat
    decreases s.len(),
{
    if s.len() == 0 {
        0
    } else {
        count_true(s.drop_last()) + if s.last() {
            1nat
        } else {
            0nat
        }
    }
}

proof fn lemma_count_true_bound(s: Seq<bool>)
    ensures
        count_true(s) <= s.len(),
    decreases s.len(),
{
    if s.len() > 0 {
        lemma_count_true_bound(s.drop_last());
    }
}

/// Setting an entry that was `false` adds one to the count.
proof fn lemma_count_true_set(s: Seq<bool>, j: int)
    requires
        0 <= j < s.len(),
        !s[j],
    ensures
        count_true(s.update(j, true)) == count_true(s) + 1,
    decreases s.len(),
{
    let t = s.update(j, true);
    if j == s.len() - 1 {
        assert(t.drop_last() =~= s.drop_last());
    } else {
        lemma_count_true_set(s.drop_last(), j);
        assert(t.drop_last() =~= s.drop_last().update(j, true));
    }
}

/// The text of the topic of upload `id`.
pub open spec fn upload_topic(id: u128) -> Seq<char> {
    "uploader:"@ + uuid_text_of(id)
}

/// The payload of a status report.
pub open spec fn status_payload(sent: nat, remaining: nat) -> Seq<char> {
    "{\"parts_sent\":"@ + decimal(sent) + ",\"parts_remaining\":"@ + decimal(remaining) + "}"@
}

/// The tracker of one file's multipart upload. It keeps the chunk plan, a
/// completion flag per part, and its own message-reference sequence on the
/// topic `"uploader:<id>"`.
pub struct Uploader {
    id: u128,
    file_path: String,
    chunk_size: u64,
    num_parts: u64,
    topic: String,
    done: Vec<bool>,
    sent: u64,
    next_msg_ref: u64,
    join_requested: bool,
    joined: bool,
}

impl Uploader {
    pub closed spec fn spec_id(&self) -> u128 {
        self.id
    }

    pub closed spec fn spec_file_path(&self) -> Seq<char> {
        self.file_path@
    }

    pub closed spec fn spec_plan(&self) -> ChunkPlan {
        ChunkPlan { chunk_size: self.chunk_size, num_parts: self.num_parts }
    }

    /// Completion flag of each part, by index.
    pub closed spec fn done(&self) -> Seq<bool> {
        self.done@
    }

    pub closed spec fn spec_parts_sent(&self) -> nat {
        self.sent as nat
    }

    /// The message reference that the next request will carry.
    pub closed spec fn spec_next_msg_ref(&self) -> nat {
        self.next_msg_ref as nat
    }

    /// Whether the join of the tracker's topic has been enqueued.
    pub closed spec fn spec_join_requested(&self) -> bool {
        self.join_requested
    }

    /// Whether the server confirmed the join.
    pub closed spec fn spec_joined(&self) -> bool {
        self.joined
    }

    pub closed spec fn spec_topic(&self) -> Seq<char> {
        self.topic@
    }

    pub closed spec fn wf(&self) -> bool {
        &&& self.done@.len() == self.num_parts
        &&& self.num_parts <= MAX_PARTS
        &&& self.sent == count_true(self.done@)
        &&& self.topic@ == upload_topic(self.id)
    }

    pub open spec fn spec_parts_remaining(&self) -> nat {
        (self.spec_plan().num_parts - self.spec_parts_sent()) as nat
    }
}

/// `u` is the tracker that `Uploader::new` makes for upload `id` of the file at
/// `path`, `size` bytes long, with completion markers `markers` already
/// persisted: one flag per part, set for the parts that a marker names.
pub open spec fn created_from(
    u: Uploader,
    id: u128,
    path: Seq<char>,
    size: nat,
    markers: Seq<u64>,
) -> bool {
    &&& u.wf()
    &&& u.spec_id() == id
    &&& u.spec_file_path() == path
    &&& is_plan_for(size, u.spec_plan())
    &&& u.done().len() == u.spec_plan().num_parts
    &&& forall|i: int|
        0 <= i < u.spec_plan().num_parts ==> (#[trigger] u.done()[i] <==> markers.contains(
            i as u64,
        ))
    &&& u.spec_parts_sent() == count_true(u.done())
    &&& u.spec_next_msg_ref() == 0
    &&& !u.spec_join_requested()
    &&& !u.spec_joined()
}

impl Uploader {
    /// Prepare the upload `id` of the file at `file_path`. `file_size` is the
    /// file's length, `None` if it does not exist; `markers` are the part
    /// indices whose completion was persisted by an earlier run. Markers at or
    /// beyond the number of parts, and repeated ones, count once or not at all.
    pub fn new(id: u128, file_path: String, file_size: Option<u64>, markers: &Vec<u64>) -> (r:
        Result<Uploader, UploaderError>)
        ensures
            file_size is None ==> (r matches Err(UploaderError::FileNotFound)),
            file_size is Some ==> r is Ok,
            r matches Ok(u) ==> created_from(u, id, file_path@, file_size->Some_0 as nat, markers@),
            r matches Ok(u) ==> (markers@.no_duplicates() && (forall|k: int|
                0 <= k < markers@.len() ==> #[trigger] markers@[k] < u.spec_plan().num_parts)
                ==> u.spec_parts_sent() == markers@.len()),
    {
        let size = match file_size {
            None => return Err(UploaderError::FileNotFound),
            Some(s) => s,
        };
        let plan = chunk_plan(size);
        let n = plan.num_parts;
        assert(n <= MAX_PARTS);
        let mut done: Vec<bool> = vec![false; n as usize];
        let mut sent: u64 = 0;
        let mut i: usize = 0;
        proof {
            assert(count_true(done@) == 0) by {
                lemma_count_false(done@);
            }
        }
        while i < markers.len()
            invariant
                done@.len() == n,
                n <= MAX_PARTS,
                i <= markers@.len(),
                sent == count_true(done@),
                forall|j: int|
                    0 <= j < n ==> (#[trigger] done@[j] <==> markers@.subrange(
                        0,
                        i as int,
                    ).contains(j as u64)),
            decreases markers@.len() - i,
        {
            let m = markers[i];
            let ghost prefix = markers@.subrange(0, i as int);
            let ghost next = markers@.subrange(0, i + 1);
            assert(next =~= prefix.push(m));
            let ghost old_done = done@;
            if m < n && !done[m as usize] {
                proof {
                    lemma_count_true_set(done@, m as int);
                    lemma_count_true_bound(done@);
                }
                done.set(m as usize, true);
                sent = sent + 1;
            }
            proof {
                assert forall|j: int| 0 <= j < n implies (#[trigger] done@[j] <==> next.contains(
                    j as u64,
                )) by {
                    assert(old_done[j] <==> prefix.contains(j as u64));
                    if j == m as int {
                        assert(next[i as int] == m);
                    } else {
                        assert(done@[j] == old_done[j]);
                    }
                    if next.contains(j as u64) && !prefix.contains(j as u64) {
                        let k = choose|k: int| 0 <= k < next.len() && next[k] == j as u64;
                        assert(k == i);
                    }
                    if prefix.contains(j as u64) {
                        let k = choose|k: int| 0 <= k < prefix.len() && prefix[k] == j as u64;
                        assert(next[k] == j as u64);
                    }
                }
            }
            i = i + 1;
        }
        assert(markers@.subrange(0, markers@.len() as int) =~= markers@);
        proof {
            if markers@.no_duplicates() && (forall|k: int|
                0 <= k < markers@.len() ==> #[trigger] markers@[k] < n) {
                lemma_count_matches_markers(done@, markers@);
            }
        }
        let mut topic = String::from_str("uploader:");
        let id_text = uuid_text(id);
        topic.append(id_text.as_str());
        Ok(
            Uploader {
                id,
                file_path,
                chunk_size: plan.chunk_size,
                num_parts: n,
                topic,
                done,
                sent,
                next_msg_ref: 0,
                join_requested: false,
                joined: false,
            },
        )
    }
}

/// `m` is the join of an upload topic.
pub open spec fn is_upload_join(m: ChannelMessage, topic: Seq<char>) -> bool {
    &&& m.0 == JoinReference(Some(0))
    &&& m.1 is Number && m.1->Number_0 == 0
    &&& m.2.0@ == topic
    &&& m.3 == MessageType::Join
    &&& m.4@ == "null"@
}

/// `m` is a status report on an upload topic.
pub open spec fn is_upload_status(
    m: ChannelMessage,
    topic: Seq<char>,
    msg_ref: nat,
    sent: nat,
    remaining: nat,
) -> bool {
    &&& m.0 == JoinReference(Some(0))
    &&& m.1 is Number && m.1->Number_0 == msg_ref
    &&& m.2.0@ == topic
    &&& m.3 == MessageType::Status
    &&& m.4@ == status_payload(sent, remaining)
}

/// `new` is `old` with the envelope `m` appended to its queue.
pub open spec fn appended(old: Session, new: Session, m: ChannelMessage) -> bool {
    &&& same_but_pending(old, new)
    &&& new.pending() == old.pending().push(m)
}

impl Uploader {
    pub fn id(&self) -> (r: u128)
        ensures
            r == self.spec_id(),
    {
        self.id
    }

    pub fn file_path(&self) -> (r: &String)
        ensures
            r@ == self.spec_file_path(),
    {
        &self.file_path
    }

    pub fn num_parts(&self) -> (r: u64)
        ensures
            r == self.spec_plan().num_parts,
    {
        self.num_parts
    }

    pub fn chunk_size(&self) -> (r: u64)
        ensures
            r == self.spec_plan().chunk_size,
    {
        self.chunk_size
    }

    /// The tracker's topic, `"uploader:<id>"`.
    pub fn topic(&self) -> (r: &String)
        ensures
            r@ == self.spec_topic(),
    {
        &self.topic
    }

    pub fn is_joined(&self) -> (r: bool)
        ensures
            r == self.spec_joined(),
    {
        self.joined
    }

    /// Number of parts marked complete.
    pub fn parts_sent(&self) -> (r: u64)
        ensures
            r == self.spec_parts_sent(),
    {
        self.sent
    }

    /// Number of parts not yet marked complete.
    pub fn parts_remaining(&self) -> (r: u64)
        requires
            self.wf(),
        ensures
            r == self.spec_parts_remaining(),
            r + self.spec_parts_sent() == self.spec_plan().num_parts,
    {
        proof {
            lemma_count_true_bound(self.done@);
        }
        self.num_parts - self.sent
    }

    /// Whether part `part` is marked complete.
    pub fn is_part_done(&self, part: u64) -> (r: bool)
        requires
            self.wf(),
        ensures
            r == (part < self.spec_plan().num_parts && self.done()[part as int]),
    {
        part < self.num_parts && self.done[part as usize]
    }

    /// Record that part `part` has been transferred and its marker persisted.
    /// Fails with `PartOutOfRange`, changing nothing, for an index at or beyond
    /// the number of parts. Marking a part twice counts it once.
    pub fn mark_complete(&mut self, part: u64) -> (r: Result<(), UploaderError>)
        requires
            old(self).wf(),
        ensures
            final(self).wf(),
            part >= old(self).spec_plan().num_parts ==> (r matches Err(
                UploaderError::PartOutOfRange,
            )) && *final(self) == *old(self),
            part < old(self).spec_plan().num_parts ==> r is Ok && final(self).done() == old(
                self,
            ).done().update(part as int, true) && final(self).spec_parts_sent() == old(
                self,
            ).spec_parts_sent() + if old(self).done()[part as int] {
                0nat
            } else {
                1nat
            },
            final(self).spec_id() == old(self).spec_id(),
            final(self).spec_plan() == old(self).spec_plan(),
            final(self).spec_topic() == old(self).spec_topic(),
            final(self).spec_next_msg_ref() == old(self).spec_next_msg_ref(),
            final(self).spec_join_requested() == old(self).spec_join_requested(),
            final(self).spec_joined() == old(self).spec_joined(),
    {
        if part >= self.num_parts {
            return Err(UploaderError::PartOutOfRange);
        }
        if self.done[part as usize] {
            assert(self.done@.update(part as int, true) =~= self.done@);
        } else {
            proof {
                lemma_count_true_set(self.done@, part as int);
                lemma_count_true_bound(self.done@);
            }
            self.done.set(part as usize, true);
            self.sent = self.sent + 1;
        }
        Ok(())
    }

    /// Ask to join the tracker's topic. The join carries join reference 0 and
    /// starts the tracker's message references afresh at 0. Fails with
    /// `ChannelClosed`, changing nothing, once the session has ended.
    pub fn request_join_channel(&mut self, session: &mut Session) -> (r: Result<(), UploaderError>)
        requires
            old(self).wf(),
            old(session).wf(),
        ensures
            final(self).wf(),
            is_live(old(session).state()) ==> r is Ok && final(session).pending().len() > 0
                && appended(*old(session), *final(session), final(session).pending().last())
                && is_upload_join(final(session).pending().last(), old(self).spec_topic())
                && final(self).spec_join_requested() && !final(self).spec_joined()
                && final(self).spec_next_msg_ref() == 1,
            !is_live(old(session).state()) ==> (r matches Err(UploaderError::ChannelClosed))
                && *final(session) == *old(session) && *final(self) == *old(self),
            final(self).spec_id() == old(self).spec_id(),
            final(self).spec_plan() == old(self).spec_plan(),
            final(self).done() == old(self).done(),
            final(self).spec_topic() == old(self).spec_topic(),
    {
        if !session.is_accepting() {
            return Err(UploaderError::ChannelClosed);
        }
        let join = ChannelMessage(
            JoinReference(Some(0)),
            MsgReference::Number(0),
            Topic(self.topic.clone()),
            MessageType::Join,
            String::from_str("null"),
        );
        let _ = session.enqueue(join);
        self.join_requested = true;
        self.joined = false;
        self.next_msg_ref = 1;
        Ok(())
    }

    /// Apply an inbound envelope addressed to this tracker. A reply confirms
    /// the join; a part request is not handled by this client
    /// (`NotImplemented`); an envelope on another topic is refused
    /// (`Internal`); anything else is accepted and changes nothing.
    pub fn handle_msg(&mut self, m: &ChannelMessage) -> (r: Result<(), UploaderError>)
        requires
            old(self).wf(),
        ensures
            final(self).wf(),
            m.2.0@ != old(self).spec_topic() ==> (r matches Err(UploaderError::Internal(_)))
                && *final(self) == *old(self),
            m.2.0@ == old(self).spec_topic() && m.3 == MessageType::PartRequest ==> (r matches Err(
                UploaderError::NotImplemented,
            )) && *final(self) == *old(self),
            m.2.0@ == old(self).spec_topic() && m.3 != MessageType::PartRequest ==> r is Ok
                && final(self).spec_joined() == (old(self).spec_joined() || (m.3
                == MessageType::Reply && old(self).spec_join_requested())),
            final(self).spec_id() == old(self).spec_id(),
            final(self).spec_plan() == old(self).spec_plan(),
            final(self).done() == old(self).done(),
            final(self).spec_topic() == old(self).spec_topic(),
            final(self).spec_parts_sent() == old(self).spec_parts_sent(),
            final(self).spec_next_msg_ref() == old(self).spec_next_msg_ref(),
            final(self).spec_join_requested() == old(self).spec_join_requested(),
    {
        if !(m.2.0 == self.topic) {
            return Err(UploaderError::Internal(String::from_str("envelope for another topic")));
        }
        match m.3 {
            MessageType::PartRequest => Err(UploaderError::NotImplemented),
            MessageType::Reply => {
                if self.join_requested {
                    self.joined = true;
                }
                Ok(())
            },
            _ => Ok(()),
        }
    }

    /// Report progress on the tracker's topic: a `Status` envelope whose
    /// payload gives the parts marked complete and the parts left, both from
    /// the same state. Fails with `NotJoined` before the join was requested,
    /// with `ChannelClosed` once the session has ended, and with `Internal`
    /// when the message references are used up; on failure nothing changes.
    pub fn request_status(&mut self, session: &mut Session) -> (r: Result<(), UploaderError>)
        requires
            old(self).wf(),
            old(session).wf(),
        ensures
            final(self).wf(),
            !old(self).spec_join_requested() ==> (r matches Err(UploaderError::NotJoined)),
            old(self).spec_join_requested() && old(self).spec_next_msg_ref() == u64::MAX ==> (
            r matches Err(UploaderError::Internal(_))),
            old(self).spec_join_requested() && old(self).spec_next_msg_ref() < u64::MAX
                && !is_live(old(session).state()) ==> (r matches Err(
                UploaderError::ChannelClosed,
            )),
            r is Err ==> *final(session) == *old(session) && *final(self) == *old(self),
            old(self).spec_join_requested() && old(self).spec_next_msg_ref() < u64::MAX && is_live(
                old(session).state(),
            ) ==> r is Ok && final(session).pending().len() > 0 && appended(
                *old(session),
                *final(session),
                final(session).pending().last(),
            ) && is_upload_status(
                final(session).pending().last(),
                old(self).spec_topic(),
                old(self).spec_next_msg_ref(),
                old(self).spec_parts_sent(),
                old(self).spec_parts_remaining(),
            ) && final(self).spec_next_msg_ref() == old(self).spec_next_msg_ref() + 1,
            final(self).spec_id() == old(self).spec_id(),
            final(self).spec_plan() == old(self).spec_plan(),
            final(self).done() == old(self).done(),
            final(self).spec_topic() == old(self).spec_topic(),
            final(self).spec_parts_sent() == old(self).spec_parts_sent(),
            final(self).spec_join_requested() == old(self).spec_join_requested(),
            final(self).spec_joined() == old(self).spec_joined(),
    {
        if !self.join_requested {
            return Err(UploaderError::NotJoined);
        }
        if self.next_msg_ref == u64::MAX {
            return Err(UploaderError::Internal(String::from_str("message references exhausted")));
        }
        if !session.is_accepting() {
            return Err(UploaderError::ChannelClosed);
        }
        let remaining = self.parts_remaining();
        let mut payload = String::from_str("{\"parts_sent\":");
        push_decimal(&mut payload, self.sent);
        payload.append(",\"parts_remaining\":");
        push_decimal(&mut payload, remaining);
        payload.append("}");
        let status = ChannelMessage(
            JoinReference(Some(0)),
            MsgReference::Number(self.next_msg_ref),
            Topic(self.topic.clone()),
            MessageType::Status,
            payload,
        );
        let _ = session.enqueue(status);
        self.next_msg_ref = self.next_msg_ref + 1;
        Ok(())
    }
}

/// After a restart, a tracker re-created from `P` distinct persisted markers,
/// all naming parts of the file, reports `P` parts sent and the rest of the
/// parts remaining.
pub proof fn resume_counts_persisted_parts(
    u: Uploader,
    id: u128,
    path: Seq<char>,
    size: nat,
    markers: Seq<u64>,
)
    requires
        created_from(u, id, path, size, markers),
        markers.no_duplicates(),
        forall|k: int| 0 <= k < markers.len() ==> #[trigger] markers[k] < u.spec_plan().num_parts,
    ensures
        u.spec_parts_sent() == markers.len(),
        u.spec_parts_remaining() == u.spec_plan().num_parts - markers.len(),
        markers.len() <= u.spec_plan().num_parts,
{
    lemma_count_matches_markers(u.done(), markers);
    lemma_count_true_bound(u.done());
}

/// When the flags are set exactly at the distinct in-range markers, they
/// count the markers.
proof fn lemma_count_matches_markers(done: Seq<bool>, markers: Seq<u64>)
    requires
        done.len() <= MAX_PARTS,
        markers.no_duplicates(),
        forall|k: int| 0 <= k < markers.len() ==> #[trigger] markers[k] < done.len(),
        forall|i: int| 0 <= i < done.len() ==> (#[trigger] done[i] <==> markers.contains(i as u64)),
    ensures
        count_true(done) == markers.len(),
    decreases done.len(),
{
    if done.len() == 0 {
        if markers.len() > 0 {
            assert(markers[0] < done.len());
        }
    } else {
        let last = (done.len() - 1) as int;
        let rest = done.drop_last();
        if done[last] {
            assert(markers.contains(last as u64));
            let k = choose|k: int| 0 <= k < markers.len() && markers[k] == last as u64;
            let others = markers.remove(k);
            assert forall|j: int| 0 <= j < others.len() implies #[trigger] others[j] < rest.len() by {
                let src = if j < k { j } else { j + 1 };
                assert(others[j] == markers[src]);
                assert(src != k);
            }
            assert forall|a: int, b: int|
                0 <= a < others.len() && 0 <= b < others.len() && a != b implies others[a]
                != others[b] by {
                let sa = if a < k { a } else { a + 1 };
                let sb = if b < k { b } else { b + 1 };
                assert(others[a] == markers[sa] && others[b] == markers[sb]);
            }
            assert forall|i: int| 0 <= i < rest.len() implies (#[trigger] rest[i]
                <==> others.contains(i as u64)) by {
                if markers.contains(i as u64) {
                    let p = choose|p: int| 0 <= p < markers.len() && markers[p] == i as u64;
                    assert(p != k);
                    let q = if p < k { p } else { p - 1 };
                    assert(others[q] == markers[p]);
                }
                if others.contains(i as u64) {
                    let q = choose|q: int| 0 <= q < others.len() && others[q] == i as u64;
                    let p = if q < k { q } else { q + 1 };
                    assert(markers[p] == others[q]);
                }
            }
            lemma_count_matches_markers(rest, others);
        } else {
            assert forall|j: int| 0 <= j < markers.len() implies #[trigger] markers[j] < rest.len() by {
                assert(markers.contains(markers[j]));
                assert(markers[j] != last);
            }
            assert forall|i: int| 0 <= i < rest.len() implies (#[trigger] rest[i]
                <==> markers.contains(i as u64)) by {
                assert(rest[i] == done[i]);
            }
            lemma_count_matches_markers(rest, markers);
        }
    }
}

/// A sequence of `false` counts zero.
proof fn lemma_count_false(s: Seq<bool>)
    requires
        forall|i: int| 0 <= i < s.len() ==> !s[i],
    ensures
        count_true(s) == 0,
    decreases s.len(),
{
    if s.len() > 0 {
        lemma_count_false(s.drop_last());
    }
}

} // verus!
