//! The decisions of the demultiplexer: which submissions await a reply, where
//! each packet read from the peer goes, which submissions have waited too
//! long, and what is failed at shutdown. The task that owns the socket makes
//! these calls and carries out what they return.

use vstd::prelude::*;
use crate::events::{EventSet, event_set_of, parse_event_packet};
use crate::protocol::{
    JdwpError, JdwpResult, ReplyPacket, decoded_view, protocol_error, reply_of,
    HEADER_SIZE, REPLY_FLAG,
};
use crate::reader::be_u32;

verus! {

/// How long a submission waits for its reply, in milliseconds.
pub const REPLY_TIMEOUT_MS: u64 = 30_000;

/// How often the pending-reply table is swept, in milliseconds.
pub const SWEEP_INTERVAL_MS: u64 = 10_000;

/// Capacity of the submission queue.
pub const COMMAND_QUEUE_CAPACITY: usize = 32;

/// Capacity of the event queue; a full queue stalls reading rather than
/// dropping an event.
pub const EVENT_QUEUE_CAPACITY: usize = 256;

/// A submission written to the peer and awaiting its reply.
#[derive(Debug, Clone, Copy, PartialEq, Eq, Structural)]
pub struct PendingEntry {
    pub id: u32,
    /// When it was written, in milliseconds of a monotonic clock.
    pub sent_at: u64,
}

/// Where a packet read from the peer goes.
#[derive(Debug)]
pub enum Route {
    /// The reply of a waiting submission: hand it to that submission.
    Reply { id: u32, reply: JdwpResult<ReplyPacket> },
    /// A reply that no submission awaits (it timed out, or was never
    /// submitted): log it and drop it.
    Unmatched { id: u32 },
    /// An event composite: enqueue it.
    Events(EventSet),
    /// A packet from the peer that is neither: log it and drop it.
    Dropped(JdwpError),
}

/// The demultiplexer's own state: the pending-reply table, in the order of
/// submission, and whether it has shut down.
pub struct Demux {
    pending: Vec<PendingEntry>,
    closed: bool,
}

pub struct DemuxView {
    pub pending: Seq<PendingEntry>,
    pub closed: bool,
}

impl View for Demux {
    type V = DemuxView;

    closed spec fn view(&self) -> DemuxView {
        DemuxView { pending: self.pending@, closed: self.closed }
    }
}

/// Some entry of `s` awaits `id`.
pub open spec fn has_id(s: Seq<PendingEntry>, id: u32) -> bool
    decreases s.len(),
{
    s.len() > 0 && (s.last().id == id || has_id(s.drop_last(), id))
}

/// No two entries of `s` await the same id.
pub open spec fn unique_ids(s: Seq<PendingEntry>) -> bool
    decreases s.len(),
{
    s.len() == 0 || (!has_id(s.drop_last(), s.last().id) && unique_ids(s.drop_last()))
}

/// `s` without the entries that await `id`, the others in order.
pub open spec fn without(s: Seq<PendingEntry>, id: u32) -> Seq<PendingEntry>
    decreases s.len(),
{
    if s.len() == 0 {
        s
    } else if s.last().id == id {
        without(s.drop_last(), id)
    } else {
        without(s.drop_last(), id).push(s.last())
    }
}

/// The entry has waited longer than the reply timeout at time `now`.
pub open spec fn expired(e: PendingEntry, now: u64) -> bool {
    now >= e.sent_at && now - e.sent_at > REPLY_TIMEOUT_MS
}

/// The entries of `s` that have not expired at `now`, in order.
pub open spec fn fresh(s: Seq<PendingEntry>, now: u64) -> Seq<PendingEntry>
    decreases s.len(),
{
    if s.len() == 0 {
        s
    } else if expired(s.last(), now) {
        fresh(s.drop_last(), now)
    } else {
        fresh(s.drop_last(), now).push(s.last())
    }
}

/// The ids of the entries of `s` that have expired at `now`, in order.
pub open spec fn expired_ids(s: Seq<PendingEntry>, now: u64) -> Seq<u32>
    decreases s.len(),
{
    if s.len() == 0 {
        Seq::empty()
    } else if expired(s.last(), now) {
        expired_ids(s.drop_last(), now).push(s.last().id)
    } else {
        expired_ids(s.drop_last(), now)
    }
}

/// The ids of the entries of `s`, in order.
pub open spec fn ids_of(s: Seq<PendingEntry>) -> Seq<u32> {
    s.map_values(|e: PendingEntry| e.id)
}

/// The packet is a reply: a whole header, with the reply flag.
pub open spec fn is_reply_packet(p: Seq<u8>) -> bool {
    p.len() >= 11 && p[8] == 0x80
}

/// The id in a packet's header.
pub open spec fn packet_id(p: Seq<u8>) -> u32 {
    be_u32(p[4], p[5], p[6], p[7])
}

/// What routing a packet does to the pending-reply table, and the id of the
/// submission that it completes, if any.
pub open spec fn route_step(s: Seq<PendingEntry>, p: Seq<u8>) -> (Seq<PendingEntry>, Option<u32>) {
    if is_reply_packet(p) && has_id(s, packet_id(p)) {
        (without(s, packet_id(p)), Some(packet_id(p)))
    } else {
        (s, None)
    }
}

/// The submission that a route completes, if any.
pub open spec fn completed(r: Route) -> Option<u32> {
    match r {
        Route::Reply { id, .. } => Some(id),
        _ => None,
    }
}

/// The packet was dropped as malformed.
pub open spec fn dropped(r: Route) -> bool {
    r matches Route::Dropped(JdwpError::Protocol(_))
}

/// The table after recording a submission of `id` at `now`: an older entry
/// for the same id is replaced.
pub open spec fn record_step(s: Seq<PendingEntry>, id: u32, now: u64) -> Seq<PendingEntry> {
    without(s, id).push(PendingEntry { id, sent_at: now })
}

proof fn lemma_has_id_index(s: Seq<PendingEntry>, id: u32)
    ensures
        has_id(s, id) <==> exists|i: int| 0 <= i < s.len() && s[i].id == id,
    decreases s.len(),
{
    if s.len() > 0 {
        lemma_has_id_index(s.drop_last(), id);
        if has_id(s.drop_last(), id) {
            let i = choose|i: int| 0 <= i < s.drop_last().len() && s.drop_last()[i].id == id;
            assert(s[i].id == id);
        }
        if exists|i: int| 0 <= i < s.len() && s[i].id == id {
            let i = choose|i: int| 0 <= i < s.len() && s[i].id == id;
            if i < s.len() - 1 {
                assert(s.drop_last()[i].id == id);
            }
        }
    }
}

proof fn lemma_without_has(s: Seq<PendingEntry>, id: u32, x: u32)
    ensures
        has_id(without(s, id), x) <==> has_id(s, x) && x != id,
    decreases s.len(),
{
    if s.len() > 0 {
        lemma_without_has(s.drop_last(), id, x);
        if s.last().id != id {
            assert(without(s, id).drop_last() =~= without(s.drop_last(), id));
        }
    }
}

proof fn lemma_without_unique(s: Seq<PendingEntry>, id: u32)
    requires
        unique_ids(s),
    ensures
        unique_ids(without(s, id)),
    decreases s.len(),
{
    if s.len() > 0 {
        lemma_without_unique(s.drop_last(), id);
        lemma_without_has(s.drop_last(), id, s.last().id);
        if s.last().id != id {
            assert(without(s, id).drop_last() =~= without(s.drop_last(), id));
        }
    }
}

proof fn lemma_without_absent(s: Seq<PendingEntry>, id: u32)
    requires
        !has_id(s, id),
    ensures
        without(s, id) == s,
    decreases s.len(),
{
    if s.len() > 0 {
        lemma_without_absent(s.drop_last(), id);
        assert(s.drop_last().push(s.last()) =~= s);
    }
}

proof fn lemma_fresh_has(s: Seq<PendingEntry>, now: u64, x: u32)
    ensures
        has_id(fresh(s, now), x) ==> has_id(s, x),
    decreases s.len(),
{
    if s.len() > 0 {
        lemma_fresh_has(s.drop_last(), now, x);
        if !expired(s.last(), now) {
            assert(fresh(s, now).drop_last() =~= fresh(s.drop_last(), now));
        }
    }
}

proof fn lemma_fresh_unique(s: Seq<PendingEntry>, now: u64)
    requires
        unique_ids(s),
    ensures
        unique_ids(fresh(s, now)),
    decreases s.len(),
{
    if s.len() > 0 {
        lemma_fresh_unique(s.drop_last(), now);
        lemma_fresh_has(s.drop_last(), now, s.last().id);
        if !expired(s.last(), now) {
            assert(fresh(s, now).drop_last() =~= fresh(s.drop_last(), now));
        }
    }
}

impl Demux {
    /// The table of a well-formed demultiplexer awaits each id at most once.
    pub open spec fn wf(&self) -> bool {
        unique_ids(self@.pending)
    }

    /// An open demultiplexer with nothing pending.
    pub fn new() -> (r: Demux)
        ensures
            r.wf(),
            r@.pending == Seq::<PendingEntry>::empty(),
            !r@.closed,
    {
        Demux { pending: Vec::new(), closed: false }
    }

    /// It has shut down: every submission now fails at once.
    pub fn is_closed(&self) -> (r: bool)
        ensures
            r == self@.closed,
    {
        self.closed
    }

    /// The number of submissions awaiting a reply.
    pub fn pending_len(&self) -> (r: usize)
        ensures
            r == self@.pending.len(),
    {
        self.pending.len()
    }

    /// A submission of `id` has been awaiting its reply; false when it does not.
    pub fn is_pending(&self, id: u32) -> (r: bool)
        ensures
            r == has_id(self@.pending, id),
    {
        let mut i: usize = 0;
        while i < self.pending.len()
            invariant
                i <= self.pending@.len(),
                !has_id(self.pending@.take(i as int), id),
            decreases self.pending@.len() - i,
        {
            assert(self.pending@.take(i + 1).drop_last() =~= self.pending@.take(i as int));
            if self.pending[i].id == id {
                proof {
                    lemma_has_id_index(self.pending@, id);
                }
                return true;
            }
            i = i + 1;
        }
        assert(self.pending@.take(i as int) =~= self.pending@);
        false
    }

    /// Remove the entries that await `id`; true when there was one.
    fn take_pending(&mut self, id: u32) -> (found: bool)
        ensures
            found == has_id(old(self)@.pending, id),
            final(self)@.pending == without(old(self)@.pending, id),
            final(self)@.closed == old(self)@.closed,
    {
        let mut kept: Vec<PendingEntry> = Vec::new();
        let mut found = false;
        let mut i: usize = 0;
        while i < self.pending.len()
            invariant
                i <= self.pending@.len(),
                kept@ == without(self.pending@.take(i as int), id),
                found == has_id(self.pending@.take(i as int), id),
            decreases self.pending@.len() - i,
        {
            assert(self.pending@.take(i + 1).drop_last() =~= self.pending@.take(i as int));
            let e = self.pending[i];
            if e.id == id {
                found = true;
            } else {
                kept.push(e);
            }
            i = i + 1;
        }
        assert(self.pending@.take(i as int) =~= self.pending@);
        self.pending = kept;
        found
    }

    /// Record that the submission `id` was written to the peer at `now`. An
    /// older entry for the same id is replaced. A closed demultiplexer takes
    /// nothing and answers false: that submission fails.
    pub fn record_sent(&mut self, id: u32, now: u64) -> (r: bool)
        requires
            old(self).wf(),
        ensures
            final(self).wf(),
            r == !old(self)@.closed,
            final(self)@.closed == old(self)@.closed,
            r ==> final(self)@.pending == record_step(old(self)@.pending, id, now),
            !r ==> final(self)@.pending == old(self)@.pending,
    {
        if self.closed {
            return false;
        }
        let ghost before = self@.pending;
        self.take_pending(id);
        proof {
            lemma_without_unique(before, id);
            lemma_without_has(before, id, id);
        }
        self.pending.push(PendingEntry { id, sent_at: now });
        proof {
            assert(self@.pending.drop_last() =~= without(before, id));
        }
        true
    }

    /// Decide where a packet read from the peer goes. A reply that a
    /// submission awaits completes it and leaves the table; a reply that none
    /// awaits is dropped and the table is untouched; a command from the peer
    /// is parsed as an event composite and leaves the table untouched.
    pub fn route(&mut self, packet: &[u8]) -> (r: Route)
        requires
            old(self).wf(),
        ensures
            final(self).wf(),
            final(self)@.closed == old(self)@.closed,
            (final(self)@.pending, completed(r)) == route_step(old(self)@.pending, packet@),
            r matches Route::Reply { reply, .. } ==> decoded_view(reply, reply_of(packet@)),
            (r is Unmatched) <==> is_reply_packet(packet@) && !has_id(
                old(self)@.pending,
                packet_id(packet@),
            ),
            r matches Route::Unmatched { id } ==> id == packet_id(packet@),
            packet@.len() < 11 ==> dropped(r),
            packet@.len() >= 11 && !is_reply_packet(packet@) ==> match event_set_of(
                packet@.skip(11),
            ) {
                Some(v) => (r matches Route::Events(set) && set@ == v),
                None => dropped(r),
            },
    {
        if packet.len() < HEADER_SIZE {
            return Route::Dropped(protocol_error("Packet shorter than its header"));
        }
        let id = ((packet[4] as u32) << 24u32) | ((packet[5] as u32) << 16u32) | ((packet[6] as u32)
            << 8u32) | (packet[7] as u32);
        if packet[8] == REPLY_FLAG {
            let ghost before = self@.pending;
            if self.take_pending(id) {
                proof {
                    lemma_without_unique(before, id);
                }
                Route::Reply { id, reply: ReplyPacket::decode(packet) }
            } else {
                proof {
                    lemma_without_absent(before, id);
                }
                Route::Unmatched { id }
            }
        } else {
            let body = vstd::slice::slice_subrange(packet, HEADER_SIZE, packet.len());
            assert(body@ =~= packet@.skip(11));
            match parse_event_packet(body) {
                Ok(set) => Route::Events(set),
                Err(e) => Route::Dropped(e),
            }
        }
    }

    /// Fail the submissions that have waited longer than the reply timeout at
    /// `now`: their ids are returned in order of submission, and they leave
    /// the table.
    pub fn sweep(&mut self, now: u64) -> (r: Vec<u32>)
        requires
            old(self).wf(),
        ensures
            final(self).wf(),
            final(self)@.closed == old(self)@.closed,
            final(self)@.pending == fresh(old(self)@.pending, now),
            r@ == expired_ids(old(self)@.pending, now),
    {
        let ghost before = self@.pending;
        let mut kept: Vec<PendingEntry> = Vec::new();
        let mut failed: Vec<u32> = Vec::new();
        let mut i: usize = 0;
        while i < self.pending.len()
            invariant
                i <= self.pending@.len(),
                self.pending@ == before,
                kept@ == fresh(before.take(i as int), now),
                failed@ == expired_ids(before.take(i as int), now),
            decreases self.pending@.len() - i,
        {
            assert(before.take(i + 1).drop_last() =~= before.take(i as int));
            let e = self.pending[i];
            if now >= e.sent_at && now - e.sent_at > REPLY_TIMEOUT_MS {
                failed.push(e.id);
            } else {
                kept.push(e);
            }
            i = i + 1;
        }
        assert(before.take(i as int) =~= before);
        self.pending = kept;
        proof {
            lemma_fresh_unique(before, now);
        }
        failed
    }

    /// Shut down: every waiting submission fails, in order of submission, the
    /// table empties, and later submissions are refused.
    pub fn shutdown(&mut self) -> (r: Vec<u32>)
        ensures
            final(self).wf(),
            final(self)@.closed,
            final(self)@.pending == Seq::<PendingEntry>::empty(),
            r@ == ids_of(old(self)@.pending),
    {
        let mut ids: Vec<u32> = Vec::new();
        let mut i: usize = 0;
        while i < self.pending.len()
            invariant
                i <= self.pending@.len(),
                ids@ == ids_of(self.pending@.take(i as int)),
            decreases self.pending@.len() - i,
        {
            ids.push(self.pending[i].id);
            assert(ids_of(self.pending@.take(i + 1)) =~= ids_of(self.pending@.take(i as int)).push(
                self.pending@[i as int].id,
            ));
            i = i + 1;
        }
        assert(self.pending@.take(i as int) =~= self.pending@);
        self.pending = Vec::new();
        self.closed = true;
        ids
    }
}


/// The table after routing each packet of `ps` in turn, and the submission
/// that each of them completed.
pub open spec fn route_all(s: Seq<PendingEntry>, ps: Seq<Seq<u8>>) -> (
    Seq<PendingEntry>,
    Seq<Option<u32>>,
)
    decreases ps.len(),
{
    if ps.len() == 0 {
        (s, Seq::empty())
    } else {
        let before = route_all(s, ps.drop_last());
        let step = route_step(before.0, ps.last());
        (step.0, before.1.push(step.1))
    }
}

/// The ids in the headers of `ps`, in order.
pub open spec fn packet_ids(ps: Seq<Seq<u8>>) -> Seq<u32> {
    ps.map_values(|p: Seq<u8>| packet_id(p))
}

/// `s` without the entries that await any of `ids`.
pub open spec fn without_all(s: Seq<PendingEntry>, ids: Seq<u32>) -> Seq<PendingEntry>
    decreases ids.len(),
{
    if ids.len() == 0 {
        s
    } else {
        without(without_all(s, ids.drop_last()), ids.last())
    }
}

proof fn lemma_without_all_has(s: Seq<PendingEntry>, ids: Seq<u32>, x: u32)
    ensures
        has_id(without_all(s, ids), x) <==> has_id(s, x) && !ids.contains(x),
    decreases ids.len(),
{
    if ids.len() > 0 {
        lemma_without_all_has(s, ids.drop_last(), x);
        lemma_without_has(without_all(s, ids.drop_last()), ids.last(), x);
        if ids.drop_last().contains(x) {
            let k = choose|k: int| 0 <= k < ids.drop_last().len() && ids.drop_last()[k] == x;
            assert(ids[k] == x);
        }
        if ids.contains(x) && x != ids.last() {
            let k = choose|k: int| 0 <= k < ids.len() && ids[k] == x;
            assert(ids.drop_last()[k] == x);
        }
    }
}

proof fn lemma_route_all_replies(s: Seq<PendingEntry>, ps: Seq<Seq<u8>>)
    requires
        forall|k: int| 0 <= k < ps.len() ==> is_reply_packet(#[trigger] ps[k]) && has_id(s, packet_id(ps[k])),
        forall|k: int, l: int| 0 <= k < l < ps.len() ==> packet_id(#[trigger] ps[k]) != packet_id(#[trigger] ps[l]),
    ensures
        route_all(s, ps).0 == without_all(s, packet_ids(ps)),
        route_all(s, ps).1 == packet_ids(ps).map_values(|x: u32| Some(x)),
    decreases ps.len(),
{
    if ps.len() > 0 {
        let front = ps.drop_last();
        lemma_route_all_replies(s, front);
        let x = packet_id(ps.last());
        assert(packet_ids(front) =~= packet_ids(ps).drop_last());
        assert(!packet_ids(front).contains(x)) by {
            if packet_ids(front).contains(x) {
                let k = choose|k: int| 0 <= k < packet_ids(front).len() && packet_ids(front)[k] == x;
                assert(packet_id(ps[k]) == packet_id(ps[ps.len() - 1]));
            }
        }
        assert(is_reply_packet(ps[ps.len() - 1]) && has_id(s, packet_id(ps[ps.len() - 1])));
        lemma_without_all_has(s, packet_ids(front), x);
        assert(packet_ids(ps).map_values(|x: u32| Some(x)) =~= packet_ids(front).map_values(
            |x: u32| Some(x),
        ).push(Some(x)));
    }
}

proof fn lemma_empty_when_nothing_pending(s: Seq<PendingEntry>)
    requires
        forall|x: u32| !has_id(s, x),
    ensures
        s.len() == 0,
{
    if s.len() > 0 {
        assert(has_id(s, s.last().id));
    }
}

/// Replies routed in any order each complete the submission that carries
/// their own id. When every pending submission gets exactly one reply, in
/// whatever order the replies arrive, the k-th reply completes the submission
/// with its id, and the table ends empty.
pub proof fn lemma_replies_reach_own_submission(s: Seq<PendingEntry>, ps: Seq<Seq<u8>>)
    requires
        unique_ids(s),
        forall|k: int| 0 <= k < ps.len() ==> is_reply_packet(#[trigger] ps[k]) && has_id(s, packet_id(ps[k])),
        forall|k: int, l: int| 0 <= k < l < ps.len() ==> packet_id(#[trigger] ps[k]) != packet_id(#[trigger] ps[l]),
        forall|i: int| 0 <= i < s.len() ==> exists|k: int| 0 <= k < ps.len() && packet_id(ps[k]) == (#[trigger] s[i]).id,
    ensures
        route_all(s, ps).1.len() == ps.len(),
        forall|k: int| 0 <= k < ps.len() ==> route_all(s, ps).1[k] == Some(packet_id(#[trigger] ps[k])),
        route_all(s, ps).0.len() == 0,
{
    lemma_route_all_replies(s, ps);
    let ids = packet_ids(ps);
    assert forall|x: u32| !has_id(without_all(s, ids), x) by {
        lemma_without_all_has(s, ids, x);
        lemma_has_id_index(s, x);
        if has_id(s, x) {
            let i = choose|i: int| 0 <= i < s.len() && s[i].id == x;
            let k = choose|k: int| 0 <= k < ps.len() && packet_id(ps[k]) == s[i].id;
            assert(ids[k] == x);
        }
    }
    lemma_empty_when_nothing_pending(without_all(s, ids));
}

/// An event composite that arrives between the write of a request and its
/// reply changes nothing for that request: it completes nothing, leaves the
/// table as it was, and the reply then routes as it would have without it.
pub proof fn lemma_event_leaves_replies_alone(s: Seq<PendingEntry>, event: Seq<u8>, reply: Seq<u8>)
    requires
        event.len() >= 11,
        !is_reply_packet(event),
    ensures
        route_step(s, event) == (s, None::<u32>),
        route_step(route_step(s, event).0, reply) == route_step(s, reply),
{
}

/// A reply whose id no submission awaits completes nothing and leaves the
/// table as it was, so what is routed after it routes as if it had never come.
pub proof fn lemma_unknown_reply_is_dropped(s: Seq<PendingEntry>, stray: Seq<u8>, next: Seq<u8>)
    requires
        is_reply_packet(stray),
        !has_id(s, packet_id(stray)),
    ensures
        route_step(s, stray) == (s, None::<u32>),
        route_step(route_step(s, stray).0, next) == route_step(s, next),
{
}

proof fn lemma_all_fresh(s: Seq<PendingEntry>, now: u64)
    requires
        forall|i: int| 0 <= i < s.len() ==> !expired(#[trigger] s[i], now),
    ensures
        fresh(s, now) == s,
        expired_ids(s, now) == Seq::<u32>::empty(),
    decreases s.len(),
{
    if s.len() > 0 {
        assert(!expired(s[s.len() - 1], now));
        assert forall|i: int| 0 <= i < s.drop_last().len() implies !expired(
            #[trigger] s.drop_last()[i],
            now,
        ) by {
            assert(s.drop_last()[i] == s[i]);
        }
        lemma_all_fresh(s.drop_last(), now);
        assert(s.drop_last().push(s.last()) =~= s);
    }
}

/// A submission that the peer never answers is failed by the first sweep
/// after the reply timeout, and the table then returns to what it was before
/// that submission (the others still being within their timeout).
pub proof fn lemma_unanswered_submission_times_out(
    s: Seq<PendingEntry>,
    id: u32,
    sent_at: u64,
    now: u64,
)
    requires
        !has_id(s, id),
        forall|i: int| 0 <= i < s.len() ==> !expired(#[trigger] s[i], now),
        expired(PendingEntry { id, sent_at }, now),
    ensures
        fresh(record_step(s, id, sent_at), now) == s,
        expired_ids(record_step(s, id, sent_at), now) == seq![id],
{
    lemma_without_absent(s, id);
    lemma_all_fresh(s, now);
    let t = record_step(s, id, sent_at);
    assert(t.drop_last() =~= s);
    assert(expired_ids(t, now) =~= seq![id]);
}

} // verus!
