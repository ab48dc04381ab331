//! Watch registration records: what to do when a watch set by a request
//! fires.

use vstd::prelude::*;

verus! {

/// The watch mode carried by a watchable request: no watch, delivery to the
/// session's shared default channel, or delivery to a caller-owned one-shot
/// sink. The sink is identified here by a plain token; the side that owns
/// the actual channel keeps the token-to-sink association.
#[derive(Clone, Copy, Debug, PartialEq, Eq, Structural)]
pub enum Watch {
    NoWatch,
    Global,
    Custom(u64),
}

/// The classification of a pending watch, determined by the request variant
/// that set it.
#[derive(Clone, Copy, Debug, PartialEq, Eq, Structural)]
pub enum WatchType {
    Data,
    Child,
    Exist,
}

} // verus!
