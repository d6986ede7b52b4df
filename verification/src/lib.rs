//! A small flood-gossip ledger: proof-of-work blocks linked by their digests,
//! signed transfer messages, and the decisions a node takes on each message.
//!
//! Everything here computes on plain values. Sockets, threads, locks and the
//! JSON form of a message belong to the program built around this library.

pub mod block;
pub mod blockchain;
pub mod client;
pub mod clock;
pub mod config;
pub mod decimal;
pub mod deflate;
pub mod digest;
pub mod frame;
pub mod json;
pub mod listener;
pub mod p2p;
pub mod signature;
