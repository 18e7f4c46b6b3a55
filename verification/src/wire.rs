//! The wire codec: primitive and container codecs, packet framing, and the
//! command catalog.

pub mod audit;
pub mod command;
pub mod deser;
pub mod inventory;
pub mod packet;
pub mod ser;
pub mod types;
pub mod util;
