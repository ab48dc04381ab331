//! Model of the active-connection collaborator at the interface this core
//! relies on.
//!
//! The collaborator owns the transport: it frames and transmits enqueued
//! requests, demultiplexes replies and watch events, and signals the loss of
//! the connection from its own I/O step. None of that is modelled here.
//! What this core does rely on — and what is modelled — is the interface it
//! writes through: an `enqueue` that takes ownership of an id-assigned
//! request, a pending-watcher table keyed by correlation id, and an outbound
//! byte buffer that raw framed control bytes may be appended to directly.
//! The `sent` list records exactly what was handed over, in order.

use crate::codec::{close_packet, write_i32_be, OP_CLOSE_SESSION};
use crate::request::{ReqV, Request, WatcherReg, WatcherRegV};
use vstd::prelude::*;

verus! {

/// One packet handed to the connection: the request in its wire form, the
/// correlation id it is sent under, and the token of the caller's
/// single-resolution reply channel.
#[derive(Debug)]
pub struct SentPacket {
    pub xid: i32,
    pub req: Request,
    pub reply: u64,
}

/// Mathematical model of a handed-over packet.
pub ghost struct SentPacketV {
    pub xid: i32,
    pub req: ReqV,
    pub reply: u64,
}

impl View for SentPacket {
    type V = SentPacketV;

    open spec fn view(&self) -> SentPacketV {
        SentPacketV { xid: self.xid, req: self.req@, reply: self.reply }
    }
}

/// A pending-watcher table entry, keyed by the correlation id the request
/// was sent under.
#[derive(Debug)]
pub struct WatcherEntry {
    pub xid: i32,
    pub reg: WatcherReg,
}

/// Mathematical model of a pending-watcher table entry.
pub ghost struct WatcherEntryV {
    pub xid: i32,
    pub reg: WatcherRegV,
}

impl View for WatcherEntry {
    type V = WatcherEntryV;

    open spec fn view(&self) -> WatcherEntryV {
        WatcherEntryV { xid: self.xid, reg: self.reg@ }
    }
}

/// The writable face of one live connection: the outbound byte buffer, the
/// pending-watcher table, and the list of packets handed over for framing
/// and transmission.
#[derive(Debug)]
pub struct Connection {
    pub outbox: Vec<u8>,
    pub watchers: Vec<WatcherEntry>,
    pub sent: Vec<SentPacket>,
}

/// Mathematical model of a connection's writable face.
pub ghost struct ConnV {
    pub outbox: Seq<u8>,
    pub watchers: Seq<WatcherEntryV>,
    pub sent: Seq<SentPacketV>,
}

impl View for Connection {
    type V = ConnV;

    open spec fn view(&self) -> ConnV {
        ConnV {
            outbox: self.outbox@,
            watchers: self.watchers@.map_values(|e: WatcherEntry| e@),
            sent: self.sent@.map_values(|p: SentPacket| p@),
        }
    }
}

impl ConnV {
    /// Well-formedness relative to the next correlation id the session will
    /// issue: the ids already handed over are consecutive and end just below
    /// `next`, and the pending-watcher table is keyed, uniquely, by ids
    /// already issued.
    pub open spec fn wf(self, next: int) -> bool {
        &&& self.sent.len() <= next
        &&& forall|i: int|
            0 <= i < self.sent.len() ==> #[trigger] self.sent[i].xid == next - self.sent.len() + i
        &&& forall|i: int|
            0 <= i < self.watchers.len() ==> 0 <= #[trigger] self.watchers[i].xid < next
        &&& forall|i: int, j: int|
            0 <= i < j < self.watchers.len() ==> self.watchers[i].xid != self.watchers[j].xid
    }
}

impl Connection {
    /// A connection that has not been written through yet: empty outbox,
    /// empty pending-watcher table, nothing handed over.
    pub fn new() -> (c: Connection)
        ensures
            c@.outbox == Seq::<u8>::empty(),
            c@.watchers == Seq::<WatcherEntryV>::empty(),
            c@.sent == Seq::<SentPacketV>::empty(),
    {
        let c = Connection { outbox: Vec::new(), watchers: Vec::new(), sent: Vec::new() };
        proof {
            assert(c@.outbox =~= Seq::<u8>::empty());
            assert(c@.watchers =~= Seq::<WatcherEntryV>::empty());
            assert(c@.sent =~= Seq::<SentPacketV>::empty());
        }
        c
    }

    /// Records a pending-watcher registration under the given correlation
    /// id, before the request itself is handed over.
    pub fn register_watcher(&mut self, xid: i32, reg: WatcherReg)
        ensures
            final(self)@.watchers == old(self)@.watchers.push(
                (WatcherEntryV { xid, reg: reg@ }),
            ),
            final(self)@.outbox == old(self)@.outbox,
            final(self)@.sent == old(self)@.sent,
    {
        let ghost pre = self@;
        let entry = WatcherEntry { xid, reg };
        let ghost entry_v = entry@;
        self.watchers.push(entry);
        proof {
            assert(self@.watchers =~= pre.watchers.push(entry_v));
            assert(self@.outbox =~= pre.outbox);
            assert(self@.sent =~= pre.sent);
        }
    }

    /// Takes ownership of a request already assigned a correlation id,
    /// together with its reply-channel token. Never blocks; a connection
    /// that can no longer accept surfaces that through its own I/O step, not
    /// through this call.
    pub fn enqueue(&mut self, xid: i32, req: Request, reply: u64)
        ensures
            final(self)@.sent == old(self)@.sent.push((SentPacketV { xid, req: req@, reply })),
            final(self)@.outbox == old(self)@.outbox,
            final(self)@.watchers == old(self)@.watchers,
    {
        let ghost pre = self@;
        let packet = SentPacket { xid, req, reply };
        let ghost packet_v = packet@;
        self.sent.push(packet);
        proof {
            assert(self@.sent =~= pre.sent.push(packet_v));
            assert(self@.outbox =~= pre.outbox);
            assert(self@.watchers =~= pre.watchers);
        }
    }

    /// Appends the fixed 12-byte close-session control packet to the
    /// outbound buffer, bypassing the per-request path.
    pub fn append_close_packet(&mut self)
        ensures
            final(self)@.outbox == old(self)@.outbox + close_packet(),
            final(self)@.watchers == old(self)@.watchers,
            final(self)@.sent == old(self)@.sent,
    {
        let ghost pre = self@;
        write_i32_be(&mut self.outbox, 8);
        write_i32_be(&mut self.outbox, 0);
        write_i32_be(&mut self.outbox, OP_CLOSE_SESSION);
        proof {
            assert(self@.outbox =~= pre.outbox + close_packet());
            assert(self@.watchers =~= pre.watchers);
            assert(self@.sent =~= pre.sent);
        }
    }
}

} // verus!
