//! Packet-level decisions of the peer runtime: the peer-id handshake, the
//! sender-id filter, control handling, and the protocol-context upgrade on
//! a sniffed Hello. The surrounding event loop performs the I/O; these
//! functions decide.

use vstd::prelude::*;

use crate::wire::command::Command;
use crate::wire::command::ToClientCommand;
use crate::wire::packet::PeerId;
use crate::wire::packet::SetPeerIdBody;
use crate::wire::types::ProtocolContext;

verus! {

/// How long a freshly assigned client may keep sending with peer id zero.
pub const INEXISTENT_PEER_ID_GRACE_MS: u64 = 20000;

/// Why a peer died.
#[derive(Debug, Clone, Copy, PartialEq, Eq, Structural)]
pub enum PeerError {
    /// The remote sent a disconnect control: a clean end.
    PeerSentDisconnect,
    /// The socket side hung up.
    SocketClosed,
    /// The application side hung up.
    ControllerClosed,
    /// A peer id dispute or another unrecoverable fault.
    InternalPeerError,
}

/// What the socket side hands a peer.
#[derive(Debug, Clone, PartialEq, Eq)]
pub enum SocketToPeer {
    Received(Vec<u8>),
}

pub type ChannelNum = u8;

pub type FullSeqNum = u64;

/// The identity half of a peer's state: who we are and who the remote is.
#[derive(Debug, Clone, Copy, PartialEq, Eq, Structural)]
pub struct PeerIdState {
    /// True when the remote end is the server (we are the client).
    pub remote_is_server: bool,
    pub remote_peer_id: PeerId,
    pub local_peer_id: PeerId,
    pub connect_time: u64,
}

/// Mint a peer id for a new client from a random draw: always in
/// [2, 65535), never the reserved ids 0 (unassigned) and 1 (server).
pub fn mint_peer_id(randomness: u16) -> (r: PeerId)
    ensures
        2 <= r < 65535,
{
    2 + randomness % 65533
}

/// What to do with an arriving packet, by sender id alone.
#[derive(Debug, Clone, Copy, PartialEq, Eq, Structural)]
pub enum PacketAdmission {
    /// Drop the packet without processing.
    Ignore,
    /// Process it; when a peer id was just minted, also send a reliable
    /// `SetPeerId` with it on channel zero.
    Accept { announce: Option<SetPeerIdBody> },
}

/// Decide whether an arriving packet is processed, minting a peer id for a
/// first contact on the server side. `randomness` feeds the mint.
pub fn admit_packet(st: &mut PeerIdState, randomness: u16, now: u64, sender_peer_id: PeerId) -> (r:
    PacketAdmission)
    ensures
        final(st).remote_is_server == old(st).remote_is_server,
        final(st).connect_time == old(st).connect_time,
        old(st).remote_is_server ==> *final(st) == *old(st) && (r == (if sender_peer_id == 1 {
            PacketAdmission::Accept { announce: None }
        } else {
            PacketAdmission::Ignore
        })),
        !old(st).remote_is_server ==> ({
            // A first contact mints an id and announces it.
            &&& (old(st).remote_peer_id == 0 ==> final(st).local_peer_id == 1 && 2 <= final(
                st).remote_peer_id < 65535 && (r is Ignore || r == PacketAdmission::Accept {
                announce: Some(SetPeerIdBody { peer_id: final(st).remote_peer_id }),
            }))
            &&& (old(st).remote_peer_id != 0 ==> *final(st) == *old(st) && (r is Ignore || r
                == PacketAdmission::Accept { announce: None }))
            // The zero sender id is honored only within the grace window.
            &&& (sender_peer_id == 0 ==> (r is Ignore <==> now > old(st).connect_time
                + INEXISTENT_PEER_ID_GRACE_MS))
            // Any other sender id must be the assigned one.
            &&& (sender_peer_id != 0 ==> (r is Ignore <==> sender_peer_id != final(
                st).remote_peer_id))
        }),
{
    if st.remote_is_server {
        // We are the client: the server always sends as peer 1.
        if sender_peer_id != 1 {
            return PacketAdmission::Ignore;
        }
        return PacketAdmission::Accept { announce: None };
    }
    // We are the server.
    let mut announce: Option<SetPeerIdBody> = None;
    if st.remote_peer_id == 0 {
        st.local_peer_id = 1;
        st.remote_peer_id = mint_peer_id(randomness);
        announce = Some(SetPeerIdBody { peer_id: st.remote_peer_id });
    }
    if sender_peer_id == 0 {
        let within_grace = if st.connect_time > u64::MAX - INEXISTENT_PEER_ID_GRACE_MS {
            true
        } else {
            now <= st.connect_time + INEXISTENT_PEER_ID_GRACE_MS
        };
        if !within_grace {
            return PacketAdmission::Ignore;
        }
    } else if sender_peer_id != st.remote_peer_id {
        return PacketAdmission::Ignore;
    }
    PacketAdmission::Accept { announce }
}

/// Apply a received `SetPeerId` control. Only a server may assign us an id,
/// and it may not change its mind.
pub fn apply_set_peer_id(st: &mut PeerIdState, body: SetPeerIdBody) -> (r: Result<(), PeerError>)
    ensures
        final(st).remote_is_server == old(st).remote_is_server,
        final(st).remote_peer_id == old(st).remote_peer_id,
        final(st).connect_time == old(st).connect_time,
        !old(st).remote_is_server ==> r == Result::<(), PeerError>::Err(
            PeerError::InternalPeerError,
        ) && *final(st) == *old(st),
        old(st).remote_is_server && old(st).local_peer_id == 0 ==> r is Ok && final(
            st).local_peer_id == body.peer_id,
        old(st).remote_is_server && old(st).local_peer_id != 0 ==> *final(st) == *old(st) && (
        r is Ok <==> old(st).local_peer_id == body.peer_id),
{
    if !st.remote_is_server {
        return Err(PeerError::InternalPeerError);
    }
    if st.local_peer_id == 0 {
        st.local_peer_id = body.peer_id;
        Ok(())
    } else if st.local_peer_id != body.peer_id {
        Err(PeerError::InternalPeerError)
    } else {
        Ok(())
    }
}

/// If the command is a client-bound Hello, upgrade both protocol contexts
/// to the serialization format and protocol version it names; any other
/// command leaves them unchanged. This runs at packet level, before any
/// later frame is decoded.
pub fn sniff_hello(recv_context: &mut ProtocolContext, send_context: &mut ProtocolContext,
    command: &Command)
    ensures
        ({
            match command {
                Command::ToClient(ToClientCommand::Hello(spec)) => *final(recv_context)
                    == (ProtocolContext {
                    dir: old(recv_context).dir,
                    protocol_version: spec.proto_ver,
                    ser_fmt: spec.serialization_ver,
                }) && *final(send_context) == (ProtocolContext {
                    dir: old(send_context).dir,
                    protocol_version: spec.proto_ver,
                    ser_fmt: spec.serialization_ver,
                }),
                _ => *final(recv_context) == *old(recv_context) && *final(send_context) == *old(
                    send_context,
                ),
            }
        }),
{
    match command {
        Command::ToClient(c) => match c {
            ToClientCommand::Hello(spec) => {
                recv_context.protocol_version = spec.proto_ver;
                recv_context.ser_fmt = spec.serialization_ver;
                send_context.protocol_version = spec.proto_ver;
                send_context.ser_fmt = spec.serialization_ver;
            },
            _ => {},
        },
        _ => {},
    }
}

} // verus!
