//! Client requests and the watch-rewrite transform applied while a request
//! is enqueued.

use crate::watch::{Watch, WatchType};
use vstd::prelude::*;

verus! {

/// A client request. The variants that support watching carry the node path
/// and a watch mode; every other operation is collapsed into `Other`, which
/// carries only its operation code, since this core never looks inside it.
#[derive(Debug)]
pub enum Request {
    GetData { path: Vec<u8>, watch: Watch },
    GetChildren { path: Vec<u8>, watch: Watch },
    Exists { path: Vec<u8>, watch: Watch },
    Other { opcode: i32 },
}

/// Mathematical model of a request, with paths as byte sequences.
pub ghost enum ReqV {
    GetData { path: Seq<u8>, watch: Watch },
    GetChildren { path: Seq<u8>, watch: Watch },
    Exists { path: Seq<u8>, watch: Watch },
    Other { opcode: i32 },
}

impl View for Request {
    type V = ReqV;

    open spec fn view(&self) -> ReqV {
        match self {
            Request::GetData { path, watch } => ReqV::GetData { path: path@, watch: *watch },
            Request::GetChildren { path, watch } => ReqV::GetChildren {
                path: path@,
                watch: *watch,
            },
            Request::Exists { path, watch } => ReqV::Exists { path: path@, watch: *watch },
            Request::Other { opcode } => ReqV::Other { opcode: *opcode },
        }
    }
}

impl ReqV {
    /// Whether the variant supports watching.
    pub open spec fn watchable(self) -> bool {
        !(self is Other)
    }

    /// The watch mode carried by the request; `NoWatch` for variants that
    /// cannot watch.
    pub open spec fn watch(self) -> Watch {
        match self {
            ReqV::GetData { watch, .. } => watch,
            ReqV::GetChildren { watch, .. } => watch,
            ReqV::Exists { watch, .. } => watch,
            ReqV::Other { .. } => Watch::NoWatch,
        }
    }

    /// The node path carried by the request; empty for variants without one.
    pub open spec fn path(self) -> Seq<u8> {
        match self {
            ReqV::GetData { path, .. } => path,
            ReqV::GetChildren { path, .. } => path,
            ReqV::Exists { path, .. } => path,
            ReqV::Other { .. } => Seq::empty(),
        }
    }

    /// The classification a watch set by this request gets: data watches for
    /// get-data, child watches for get-children, existence watches for
    /// exists.
    pub open spec fn watch_type(self) -> WatchType
        recommends
            self.watchable(),
    {
        match self {
            ReqV::GetData { .. } => WatchType::Data,
            ReqV::GetChildren { .. } => WatchType::Child,
            ReqV::Exists { .. } => WatchType::Exist,
            ReqV::Other { .. } => WatchType::Data,
        }
    }

    /// The request with its watch mode replaced; variants without a watch
    /// field are unchanged.
    pub open spec fn with_watch(self, w: Watch) -> ReqV {
        match self {
            ReqV::GetData { path, .. } => ReqV::GetData { path, watch: w },
            ReqV::GetChildren { path, .. } => ReqV::GetChildren { path, watch: w },
            ReqV::Exists { path, .. } => ReqV::Exists { path, watch: w },
            ReqV::Other { .. } => self,
        }
    }

    /// The request as handed to the connection: a Custom watch is downgraded
    /// to Global, since the wire format carries only a boolean watch flag;
    /// everything else is unchanged.
    pub open spec fn wire_form(self) -> ReqV {
        if self.watch() is Custom {
            self.with_watch(Watch::Global)
        } else {
            self
        }
    }

}

/// A pending-watcher registration produced while a request whose watch mode
/// was Custom is enqueued: the node path, the caller's sink token, and the
/// classification of the watch.
#[derive(Debug)]
pub struct WatcherReg {
    pub path: Vec<u8>,
    pub sink: u64,
    pub wtype: WatchType,
}

/// Mathematical model of a pending-watcher registration.
pub ghost struct WatcherRegV {
    pub path: Seq<u8>,
    pub sink: u64,
    pub wtype: WatchType,
}

impl View for WatcherReg {
    type V = WatcherRegV;

    open spec fn view(&self) -> WatcherRegV {
        WatcherRegV { path: self.path@, sink: self.sink, wtype: self.wtype }
    }
}

/// Copies a byte vector.
fn clone_bytes(v: &Vec<u8>) -> (r: Vec<u8>)
    ensures
        r@ == v@,
{
    let mut r: Vec<u8> = Vec::new();
    let mut i: usize = 0;
    while i < v.len()
        invariant
            i <= v.len(),
            r@ == v@.take(i as int),
        decreases v.len() - i,
    {
        r.push(v[i]);
        proof {
            assert(v@.take(i + 1 as int) =~= v@.take(i as int).push(v@[i as int]));
        }
        i = i + 1;
    }
    proof {
        assert(v@.take(v@.len() as int) =~= v@);
    }
    r
}

/// Rewrites a request for the wire and extracts its pending-watcher
/// registration, if any: a Custom watch is downgraded to Global, and the
/// original sink is returned beside the rewritten request together with the
/// watch classification of the variant. Requests without a Custom watch are
/// returned unchanged, with no registration.
pub fn prepare_request(req: Request) -> (r: (Request, Option<WatcherReg>))
    ensures
        r.0@ == req@.wire_form(),
        match req@.watch() {
            Watch::Custom(s) => r.1 matches Some(reg) && reg@.path == req@.path() && reg@.sink
                == s && reg@.wtype == req@.watch_type(),
            _ => r.1 is None,
        },
{
    match req {
        Request::GetData { path, watch: Watch::Custom(s) } => {
            let reg = WatcherReg { path: clone_bytes(&path), sink: s, wtype: WatchType::Data };
            (Request::GetData { path, watch: Watch::Global }, Some(reg))
        }
        Request::GetChildren { path, watch: Watch::Custom(s) } => {
            let reg = WatcherReg { path: clone_bytes(&path), sink: s, wtype: WatchType::Child };
            (Request::GetChildren { path, watch: Watch::Global }, Some(reg))
        }
        Request::Exists { path, watch: Watch::Custom(s) } => {
            let reg = WatcherReg { path: clone_bytes(&path), sink: s, wtype: WatchType::Exist };
            (Request::Exists { path, watch: Watch::Global }, Some(reg))
        }
        other => (other, None),
    }
}

} // verus!
