//! The per-connection engine: sequence-number arithmetic, reliable send and
//! receive state machines, split-packet fragmentation and reassembly, and the
//! packet-level decisions of the peer runtime.

pub mod peer;
pub mod reliable_receiver;
pub mod reliable_sender;
pub mod split_receiver;
pub mod split_sender;
pub mod util;
