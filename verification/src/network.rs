//! Failures of the network layer under a chained request.

use vstd::prelude::*;

verus! {

/// What can go wrong when one request is sent to one node.
#[derive(Clone, Copy, PartialEq, Eq, Structural, Debug)]
pub enum NetworkFailure {
    TimedOut,
    Bind,
    SocketWrite,
    SocketRead,
    SocketError,
    UnsupportedAction,
}

} // verus!
