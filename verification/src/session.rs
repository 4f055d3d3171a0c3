//! The messages that a bitswap session exchanges with its peers, and the
//! handle of a block that a session was asked for. Content identifiers and
//! peers are named by integer identifiers.
use vstd::prelude::*;
use crate::query::Block;

verus! {

/// A block that a session was asked for and has not delivered yet.
pub struct PendingGet {}

/// A request to some peers.
pub struct Request {
    pub typ: RequestType,
    pub receivers: Vec<u64>,
}

/// A response from a peer.
pub struct Response {
    pub sender: u64,
    pub typ: ResponseType,
}

pub enum RequestType {
    /// Send this block once you get it.
    WantBlock { cid: u64 },
    /// Tell me when you have this block.
    WantHave { cid: u64 },
    /// I am no longer interested in Want & WantHaves of this block.
    Cancel { cid: u64 },
    /// Tell me if you have this block.
    DontHave { cid: u64 },
}

pub enum ResponseType {
    /// I do not have this block. (response to DontHave)
    DontHave { cid: u64 },
    /// I have this block. (response to WantHave)
    Have { cid: u64 },
    /// Here is the block. (response to WantBlock)
    Block { block: Block },
}

} // verus!
