//! A node for a hierarchical, DNS-like name-resolution network.
//!
//! The crate holds the node's logic: the node model and its textual formats,
//! the wire-message grammar, the in-memory netspace registry, the resolution
//! engine, the command dispatcher, the multicast aggregator, and the parsers
//! of the management console. Socket plumbing and persistent storage live
//! outside the library.

pub mod text;
pub mod node;
pub mod config;
pub mod netspace;
pub mod uri;
pub mod message;
pub mod network;
pub mod chain;
pub mod resolution;
pub mod requests;
pub mod protocol;
pub mod management;
pub mod netservice;
