//! Verified core of a peer-to-peer chat node: peer views per broadcast
//! strategy, bounded duplicate suppression, inbound validation gating and the
//! decision step of the node's event loop.

pub mod bytes;
pub mod peer_set;
pub mod seen_cache;
pub mod address;
pub mod validation;
pub mod node;
