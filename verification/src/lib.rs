//! Core of a Minetest network protocol engine.
//!
//! The crate turns a bidirectional UDP datagram flow into an ordered, typed
//! stream of game-protocol commands and back: a bit-exact wire codec for the
//! command vocabulary, packet framing, per-channel reliability (sequence
//! numbers, retransmission, duplicate suppression, sliding window), split
//! packet framing and reassembly, and the peer-id handshake rules.

pub mod peer;
pub mod wire;
