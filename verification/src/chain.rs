//! The chain transport: the one-hop courier the resolver hands a serialized
//! request to. Implementations live with the callers; the resolver promises
//! nothing about what a courier returns.

use vstd::prelude::*;

use crate::node::Node;
pub use crate::network::NetworkFailure;

verus! {

/// Delivers serialized bytes to one target node and returns the raw reply.
/// One call is one hop to one node.
pub trait Chain {
    fn request(&self, bytes: &Vec<u8>, target: &Node) -> Result<Vec<u8>, NetworkFailure>;
}

} // verus!
