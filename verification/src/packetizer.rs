//! The per-session task state and its cooperative step: draining the
//! inbound queue into the live connection, assigning correlation ids in
//! strict pop order, recording pending watchers, surviving connection loss
//! through a Reconnecting state, and sequencing the clean shutdown.

use crate::codec::close_packet;
use crate::connection::{ConnV, Connection, WatcherEntryV};
use crate::queue::SessionQueue;
use crate::request::{prepare_request, ReqV, WatcherRegV};
use crate::watch::Watch;
use vstd::prelude::*;

verus! {

/// The session task's view of its connection: live, or being replaced by
/// the reconnection task after the connection was lost. There is exactly
/// one transition edge here, Reconnecting to Connected; the loss of a
/// connection is signalled from the connection's own I/O step, outside this
/// core.
pub enum PacketizerState {
    Connected(Connection),
    Reconnecting,
}

/// Mathematical model of the session-state holder.
pub ghost enum PacketizerStateV {
    Connected(ConnV),
    Reconnecting,
}

impl View for PacketizerState {
    type V = PacketizerStateV;

    open spec fn view(&self) -> PacketizerStateV {
        match self {
            PacketizerState::Connected(c) => PacketizerStateV::Connected(c@),
            PacketizerState::Reconnecting => PacketizerStateV::Reconnecting,
        }
    }
}

/// The per-session task state: the session-state holder, the monotonic
/// correlation-id counter, and the exit flag. All of it is owned and
/// mutated by one cooperative task; nothing here needs synchronization.
pub struct Packetizer {
    pub state: PacketizerState,
    pub xid: i32,
    pub exiting: bool,
}

/// Mathematical model of the session task state.
pub ghost struct PacketizerV {
    pub state: PacketizerStateV,
    pub xid: i32,
    pub exiting: bool,
}

impl View for Packetizer {
    type V = PacketizerV;

    open spec fn view(&self) -> PacketizerV {
        PacketizerV { state: self.state@, xid: self.xid, exiting: self.exiting }
    }
}

impl PacketizerV {
    /// Well-formedness of the session: the id counter has not wrapped, and
    /// a live connection's bookkeeping is consistent with the counter.
    pub open spec fn wf(self) -> bool {
        &&& 0 <= self.xid
        &&& (self.state matches PacketizerStateV::Connected(c) ==> c.wf(self.xid as int))
    }
}

/// The packets handed to the connection when the entries of `items` are
/// drained starting at correlation id `base`: entry `i` goes out in wire
/// form under id `base + i`.
pub open spec fn sent_of(items: Seq<(ReqV, u64)>, base: int) -> Seq<crate::connection::SentPacketV> {
    Seq::new(
        items.len(),
        |i: int|
            crate::connection::SentPacketV {
                xid: (base + i) as i32,
                req: items[i].0.wire_form(),
                reply: items[i].1,
            },
    )
}

/// The pending-watcher entries (none, or exactly one) recorded for a single
/// request about to be sent under `xid`: one entry exactly when the watch
/// mode is Custom, holding the original sink and the variant's watch
/// classification.
pub open spec fn reg_entries_of(r: ReqV, xid: int) -> Seq<WatcherEntryV> {
    match r.watch() {
        Watch::Custom(s) => seq![
            WatcherEntryV {
                xid: xid as i32,
                reg: WatcherRegV { path: r.path(), sink: s, wtype: r.watch_type() },
            },
        ],
        _ => Seq::empty(),
    }
}

/// The pending-watcher entries recorded when the entries of `items` are
/// drained starting at correlation id `base`, in drain order.
pub open spec fn watchers_of(items: Seq<(ReqV, u64)>, base: int) -> Seq<WatcherEntryV>
    decreases items.len(),
{
    if items.len() == 0 {
        Seq::empty()
    } else {
        reg_entries_of(items[0].0, base) + watchers_of(items.skip(1), base + 1)
    }
}

impl Packetizer {
    /// The session task state over a freshly established connection that
    /// has not been written through yet: correlation ids start at 0 and the
    /// session is not exiting.
    pub fn new(conn: Connection) -> (p: Packetizer)
        requires
            conn@.sent.len() == 0,
            conn@.watchers.len() == 0,
        ensures
            p@.state == PacketizerStateV::Connected(conn@),
            p@.xid == 0,
            !p@.exiting,
            p@.wf(),
    {
        Packetizer { state: PacketizerState::Connected(conn), xid: 0, exiting: false }
    }

    /// Drains the inbound queue into the live connection: each popped entry
    /// is rewritten for the wire, its pending watcher (if any) is recorded
    /// under the id it is about to be sent with, the entry is handed over
    /// under that id, and only then is the counter incremented. While the
    /// session is Reconnecting the queue is not touched at all. Returns
    /// whether a closed, fully drained queue was observed — the
    /// end-of-session signal, reported only while Connected.
    pub fn poll_enqueue(&mut self, queue: &mut SessionQueue) -> (done: bool)
        requires
            old(self)@.wf(),
            old(self)@.xid + old(queue)@.items.len() <= i32::MAX as int,
        ensures
            final(self)@.wf(),
            final(self)@.exiting == old(self)@.exiting,
            final(queue)@.closed == old(queue)@.closed,
            old(self)@.state is Reconnecting ==> (final(self)@ == old(self)@ && final(queue)@
                == old(queue)@ && !done),
            old(self)@.state matches PacketizerStateV::Connected(c) ==> ({
                &&& final(queue)@.items.len() == 0
                &&& final(self)@.xid == old(self)@.xid + old(queue)@.items.len()
                &&& final(self)@.state matches PacketizerStateV::Connected(c2) && c2.outbox
                    == c.outbox && c2.sent == c.sent + sent_of(
                    old(queue)@.items,
                    old(self)@.xid as int,
                ) && c2.watchers == c.watchers + watchers_of(
                    old(queue)@.items,
                    old(self)@.xid as int,
                )
                &&& done == old(queue)@.closed
            }),
    {
        let mut state = PacketizerState::Reconnecting;
        core::mem::swap(&mut state, &mut self.state);
        match state {
            PacketizerState::Reconnecting => {
                self.state = PacketizerState::Reconnecting;
                false
            }
            PacketizerState::Connected(mut conn) => {
                let ghost items0 = queue@.items;
                let ghost base = self.xid as int;
                let ghost c0 = conn@;
                let ghost closed0 = queue@.closed;
                let ghost exiting0 = self.exiting;
                let ghost mut j: int = 0;
                proof {
                    assert(items0.skip(0) =~= items0);
                    assert(items0.take(0) =~= Seq::<(ReqV, u64)>::empty());
                    assert(sent_of(items0.take(0), base) =~= Seq::<
                        crate::connection::SentPacketV,
                    >::empty());
                    assert(c0.sent + sent_of(items0.take(0), base) =~= c0.sent);
                }
                while queue.len() > 0
                    invariant
                        0 <= j <= items0.len(),
                        0 <= base,
                        base + items0.len() <= i32::MAX as int,
                        self.xid == base + j,
                        self.exiting == exiting0,
                        queue@.items == items0.skip(j),
                        queue@.closed == closed0,
                        conn@.outbox == c0.outbox,
                        conn@.sent == c0.sent + sent_of(items0.take(j), base),
                        conn@.watchers + watchers_of(items0.skip(j), base + j) == c0.watchers
                            + watchers_of(items0, base),
                        conn@.wf(base + j),
                    decreases queue@.items.len(),
                {
                    let popped = queue.pop_front();
                    match popped {
                        None => {
                            proof {
                                assert(false);
                            }
                        }
                        Some((req, reply)) => {
                            let ghost req_v = req@;
                            let ghost pre_conn = conn@;
                            proof {
                                assert(items0.skip(j)[0] == items0[j]);
                                assert(req_v == items0[j].0);
                                assert(reply == items0[j].1);
                            }
                            let (wire_req, reg_opt) = prepare_request(req);
                            let xid_now = self.xid;
                            match reg_opt {
                                Some(reg) => conn.register_watcher(xid_now, reg),
                                None => {},
                            }
                            conn.enqueue(xid_now, wire_req, reply);
                            self.xid = self.xid + 1;
                            proof {
                                // the popped entry now stands at the end of `sent`
                                // under the id read before the increment
                                assert(conn@.watchers == pre_conn.watchers + reg_entries_of(
                                    items0[j].0,
                                    base + j,
                                )) by {
                                    match req_v.watch() {
                                        Watch::Custom(s) => {
                                            assert(conn@.watchers =~= pre_conn.watchers
                                                + reg_entries_of(items0[j].0, base + j));
                                        }
                                        _ => {
                                            assert(reg_entries_of(items0[j].0, base + j)
                                                =~= Seq::<WatcherEntryV>::empty());
                                            assert(conn@.watchers =~= pre_conn.watchers
                                                + reg_entries_of(items0[j].0, base + j));
                                        }
                                    }
                                }
                                assert(items0.skip(j).skip(1) =~= items0.skip(j + 1));
                                assert(watchers_of(items0.skip(j), base + j) == reg_entries_of(
                                    items0[j].0,
                                    base + j,
                                ) + watchers_of(items0.skip(j + 1), base + j + 1));
                                assert((pre_conn.watchers + reg_entries_of(items0[j].0, base + j))
                                    + watchers_of(items0.skip(j + 1), base + j + 1)
                                    =~= pre_conn.watchers + (reg_entries_of(items0[j].0, base + j)
                                    + watchers_of(items0.skip(j + 1), base + j + 1)));
                                assert(sent_of(items0.take(j + 1), base) =~= sent_of(
                                    items0.take(j),
                                    base,
                                ).push(
                                    (crate::connection::SentPacketV {
                                        xid: (base + j) as i32,
                                        req: items0[j].0.wire_form(),
                                        reply: items0[j].1,
                                    }),
                                ));
                                assert(conn@.sent =~= c0.sent + sent_of(items0.take(j + 1), base));
                                // well-formedness carries to the next id
                                assert forall|a: int| 0 <= a < conn@.sent.len() implies #[trigger] conn@.sent[a].xid
                                    == (base + j + 1) - conn@.sent.len() + a by {
                                    if a < conn@.sent.len() - 1 {
                                        assert(conn@.sent[a] == pre_conn.sent[a]);
                                    }
                                }
                                assert forall|a: int, b: int|
                                    0 <= a < b < conn@.watchers.len() implies conn@.watchers[a].xid
                                    != conn@.watchers[b].xid by {
                                    if b < pre_conn.watchers.len() {
                                        assert(conn@.watchers[a] == pre_conn.watchers[a]);
                                        assert(conn@.watchers[b] == pre_conn.watchers[b]);
                                    } else {
                                        assert(conn@.watchers[a] == pre_conn.watchers[a]);
                                        assert(pre_conn.watchers[a].xid < base + j);
                                    }
                                }
                                j = j + 1;
                            }
                        }
                    }
                }
                proof {
                    assert(items0.skip(j).len() == 0);
                    assert(j == items0.len());
                    assert(items0.take(j) =~= items0);
                    assert(watchers_of(items0.skip(j), base + j) =~= Seq::<WatcherEntryV>::empty());
                    assert(conn@.watchers + watchers_of(items0.skip(j), base + j)
                        =~= conn@.watchers);
                }
                let done = queue.is_closed();
                self.state = PacketizerState::Connected(conn);
                done
            }
        }
    }

    /// One cooperative step of the session task's own bookkeeping. Unless
    /// already exiting, it drains the inbound queue into the live
    /// connection; if draining observes the end-of-session signal — the
    /// queue closed and fully drained, reported only while Connected — it
    /// appends the fixed close-session packet to the connection's outbound
    /// buffer, once, and marks the session exiting. The connection's own
    /// I/O step (transmission, reply demultiplexing, reconnection
    /// signalling) follows this call, outside this core.
    pub fn poll(&mut self, queue: &mut SessionQueue)
        requires
            old(self)@.wf(),
            old(self)@.xid + old(queue)@.items.len() <= i32::MAX as int,
        ensures
            final(self)@.wf(),
            final(queue)@.closed == old(queue)@.closed,
            old(self)@.exiting ==> (final(self)@ == old(self)@ && final(queue)@ == old(queue)@),
            !old(self)@.exiting && old(self)@.state is Reconnecting ==> (final(self)@ == old(
                self,
            )@ && final(queue)@ == old(queue)@),
            !old(self)@.exiting ==> (old(self)@.state matches PacketizerStateV::Connected(c)
                ==> ({
                &&& final(queue)@.items.len() == 0
                &&& final(self)@.xid == old(self)@.xid + old(queue)@.items.len()
                &&& final(self)@.exiting == old(queue)@.closed
                &&& final(self)@.state matches PacketizerStateV::Connected(c2) && c2.sent == c.sent
                    + sent_of(old(queue)@.items, old(self)@.xid as int) && c2.watchers == c.watchers
                    + watchers_of(old(queue)@.items, old(self)@.xid as int) && c2.outbox == (
                if old(queue)@.closed {
                    c.outbox + close_packet()
                } else {
                    c.outbox
                })
            })),
    {
        if !self.exiting {
            let queue_done = self.poll_enqueue(queue);
            if queue_done {
                // no more requests will ever be enqueued: send the
                // close-session packet, exactly once, while Connected —
                // draining reports the signal in no other state
                self.exiting = true;
                let mut state = PacketizerState::Reconnecting;
                core::mem::swap(&mut state, &mut self.state);
                match state {
                    PacketizerState::Connected(mut conn) => {
                        conn.append_close_packet();
                        self.state = PacketizerState::Connected(conn);
                    }
                    PacketizerState::Reconnecting => {
                        proof {
                            assert(false);
                        }
                        self.state = PacketizerState::Reconnecting;
                    }
                }
            }
        }
    }

    /// Records that the live connection was lost, as signalled from the
    /// connection's own I/O step: the session enters Reconnecting. The
    /// correlation-id counter and the exit flag are untouched, and queued
    /// requests are unaffected, since the queue is not read while
    /// Reconnecting.
    pub fn connection_lost(&mut self)
        requires
            old(self)@.wf(),
            old(self)@.state is Connected,
        ensures
            final(self)@ == lost_step(old(self)@),
            final(self)@.wf(),
    {
        self.state = PacketizerState::Reconnecting;
    }

    /// Collapses Reconnecting into Connected once the reconnection task
    /// yields a fresh connection, so that the same scheduling turn can go
    /// on draining through it. Ids already issued are never reissued: the
    /// counter is untouched.
    pub fn reconnect_complete(&mut self, conn: Connection)
        requires
            old(self)@.wf(),
            old(self)@.state is Reconnecting,
            conn@.sent.len() == 0,
            conn@.watchers.len() == 0,
        ensures
            final(self)@ == reconnect_step(old(self)@, conn@),
            final(self)@.wf(),
    {
        self.state = PacketizerState::Connected(conn);
    }
}

/// The session-state transition taken when the live connection is lost.
pub open spec fn lost_step(p: PacketizerV) -> PacketizerV {
    PacketizerV { state: PacketizerStateV::Reconnecting, xid: p.xid, exiting: p.exiting }
}

/// The session-state transition taken when the reconnection task completes
/// with a fresh connection.
pub open spec fn reconnect_step(p: PacketizerV, c: ConnV) -> PacketizerV {
    PacketizerV { state: PacketizerStateV::Connected(c), xid: p.xid, exiting: p.exiting }
}

/// Law: draining assigns correlation ids consecutively from the counter's
/// value, in exactly the order entries were popped from the queue, with no
/// gap and no repeat, and each entry goes out in its wire form with its own
/// reply token.
pub proof fn lemma_ids_consecutive(items: Seq<(ReqV, u64)>, base: int)
    requires
        0 <= base,
        base + items.len() <= i32::MAX as int,
    ensures
        sent_of(items, base).len() == items.len(),
        forall|i: int| 0 <= i < items.len() ==> #[trigger] sent_of(items, base)[i].xid == base + i,
        forall|i: int|
            0 <= i < items.len() ==> #[trigger] sent_of(items, base)[i].req
                == items[i].0.wire_form(),
        forall|i: int|
            0 <= i < items.len() ==> #[trigger] sent_of(items, base)[i].reply == items[i].1,
        forall|i: int, j: int|
            0 <= i < j < items.len() ==> sent_of(items, base)[i].xid != sent_of(
                items,
                base,
            )[j].xid,
{
    assert forall|i: int| 0 <= i < items.len() implies #[trigger] sent_of(items, base)[i].xid
        == base + i by {
        assert(0 <= base + i <= i32::MAX as int);
    }
}

/// Law: a request whose watch mode is Custom(sink) yields, when drained,
/// exactly one pending-watcher entry, keyed by the id the request is sent
/// under, holding the original sink and the classification of the variant.
/// (That no second entry can share the key is `lemma_watcher_key_unique`.)
pub proof fn lemma_watch_registration(items: Seq<(ReqV, u64)>, base: int, i: int)
    requires
        0 <= i < items.len(),
        0 <= base,
        base + items.len() <= i32::MAX as int,
    ensures
        items[i].0.watch() matches Watch::Custom(s) ==> watchers_of(items, base).contains(
            (WatcherEntryV {
                xid: (base + i) as i32,
                reg: (WatcherRegV {
                    path: items[i].0.path(),
                    sink: s,
                    wtype: items[i].0.watch_type(),
                }),
            }),
        ),
    decreases items.len(),
{
    match items[i].0.watch() {
        Watch::Custom(s) => {
            let entry = WatcherEntryV {
                xid: (base + i) as i32,
                reg: WatcherRegV {
                    path: items[i].0.path(),
                    sink: s,
                    wtype: items[i].0.watch_type(),
                },
            };
            if i == 0 {
                assert(watchers_of(items, base)[0] == entry);
                assert(watchers_of(items, base).contains(entry));
            } else {
                lemma_watch_registration(items.skip(1), base + 1, i - 1);
                assert(items.skip(1)[i - 1] == items[i]);
                let sub = watchers_of(items.skip(1), base + 1);
                let head = reg_entries_of(items[0].0, base);
                let k = choose|k: int| 0 <= k < sub.len() && sub[k] == entry;
                assert(watchers_of(items, base)[head.len() + k] == entry);
                assert(watchers_of(items, base).contains(entry));
            }
        }
        _ => {},
    }
}

/// Law: draining records nothing for a request whose watch mode is not
/// Custom — every pending-watcher entry is keyed by the assigned id of some
/// drained request whose watch mode was Custom.
pub proof fn lemma_watchers_only_custom(items: Seq<(ReqV, u64)>, base: int, k: int)
    requires
        0 <= base,
        base + items.len() <= i32::MAX as int,
        0 <= k < watchers_of(items, base).len(),
    ensures
        exists|i: int|
            0 <= i < items.len() && #[trigger] watchers_of(items, base)[k].xid == base + i && (
            items[i].0.watch() is Custom),
    decreases items.len(),
{
    let head = reg_entries_of(items[0].0, base);
    if k < head.len() {
        assert(items[0].0.watch() is Custom);
        assert(watchers_of(items, base)[k] == head[0]);
        assert(watchers_of(items, base)[k].xid == base + 0 && (items[0].0.watch() is Custom));
    } else {
        lemma_watchers_only_custom(items.skip(1), base + 1, k - head.len());
        let sub = watchers_of(items.skip(1), base + 1);
        let i0 = choose|i0: int|
            0 <= i0 < items.skip(1).len() && #[trigger] sub[k - head.len()].xid == base + 1 + i0
                && (items.skip(1)[i0].0.watch() is Custom);
        assert(watchers_of(items, base)[k] == sub[k - head.len()]);
        assert(items.skip(1)[i0] == items[i0 + 1]);
        assert(watchers_of(items, base)[k].xid == base + (i0 + 1) && (items[i0 + 1].0.watch()
            is Custom));
    }
}

/// Law: in a well-formed connection the pending-watcher table holds at most
/// one entry per correlation id.
pub proof fn lemma_watcher_key_unique(c: ConnV, next: int, i: int, j: int)
    requires
        c.wf(next),
        0 <= i < c.watchers.len(),
        0 <= j < c.watchers.len(),
        c.watchers[i].xid == c.watchers[j].xid,
    ensures
        i == j,
{
}

/// Law: a connection loss followed by a completed reconnection preserves
/// the correlation-id counter and the exit flag, and leaves the session
/// well formed over the fresh connection — so ids of requests not yet
/// drained are neither lost nor reassigned. Neither transition reads the
/// inbound queue, which therefore still holds whatever had not been
/// drained.
pub proof fn lemma_reconnect_preserves_session(p: PacketizerV, c: ConnV)
    requires
        p.wf(),
        p.state is Connected,
        c.sent.len() == 0,
        c.watchers.len() == 0,
    ensures
        ({
            let q = reconnect_step(lost_step(p), c);
            &&& q.xid == p.xid
            &&& q.exiting == p.exiting
            &&& q.state == PacketizerStateV::Connected(c)
            &&& q.wf()
        }),
{
}

} // verus!
