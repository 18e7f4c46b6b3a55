//! The peer-id handshake and the Hello sniff.

use minetest_protocol::peer::peer::{admit_packet, apply_set_peer_id, sniff_hello,
    PacketAdmission, PeerError, PeerIdState};
use minetest_protocol::wire::command::{Command, HelloSpec, ToClientCommand, ToServerCommand, NullSpec};
use minetest_protocol::wire::packet::{SetPeerIdBody, SEQNUM_INITIAL};
use minetest_protocol::wire::types::{AuthMechsBitset, ByteString, ProtocolContext};

#[test]
fn server_side_handshake() {
    // A server peer: first datagram arrives with sender id zero.
    let mut st = PeerIdState {
        remote_is_server: false,
        remote_peer_id: 0,
        local_peer_id: 0,
        connect_time: 1_000,
    };
    let admission = admit_packet(&mut st, 4242, 1_500, 0);
    assert_eq!(st.local_peer_id, 1);
    assert!((2..65535).contains(&st.remote_peer_id));
    match admission {
        PacketAdmission::Accept { announce: Some(body) } => {
            assert_eq!(body.peer_id, st.remote_peer_id);
        }
        other => panic!("expected an accept that announces the minted id: {:?}", other),
    }
    // The announced SetPeerId travels reliably with the initial seqnum.
    let mut sender = minetest_protocol::peer::reliable_sender::ReliableSender::new();
    sender.push(minetest_protocol::wire::packet::InnerBody::Control(
        minetest_protocol::wire::packet::ControlBody::SetPeerId(SetPeerIdBody {
            peer_id: st.remote_peer_id,
        }),
    ));
    let body = sender.pop(2_000).unwrap();
    match &*body {
        minetest_protocol::wire::packet::PacketBody::Reliable(rb) => {
            assert_eq!(rb.seqnum, SEQNUM_INITIAL);
        }
        _ => panic!("expected a reliable body"),
    }

    // Within the grace window, sender id zero stays accepted; the assigned
    // id is accepted; anything else is dropped.
    let assigned = st.remote_peer_id;
    assert!(matches!(
        admit_packet(&mut st, 1, 10_000, 0),
        PacketAdmission::Accept { announce: None }
    ));
    assert!(matches!(
        admit_packet(&mut st, 1, 22_000, 0),
        PacketAdmission::Ignore
    ));
    assert!(matches!(
        admit_packet(&mut st, 1, 22_000, assigned),
        PacketAdmission::Accept { announce: None }
    ));
    assert!(matches!(
        admit_packet(&mut st, 1, 22_000, assigned.wrapping_add(1)),
        PacketAdmission::Ignore
    ));
}

#[test]
fn client_side_set_peer_id() {
    let mut st = PeerIdState {
        remote_is_server: true,
        remote_peer_id: 1,
        local_peer_id: 0,
        connect_time: 0,
    };
    // The server sends as peer 1 and nothing else.
    assert!(matches!(admit_packet(&mut st, 0, 10, 1), PacketAdmission::Accept { announce: None }));
    assert!(matches!(admit_packet(&mut st, 0, 10, 9), PacketAdmission::Ignore));
    // The first SetPeerId assigns; a repeat must agree.
    assert!(apply_set_peer_id(&mut st, SetPeerIdBody { peer_id: 77 }).is_ok());
    assert_eq!(st.local_peer_id, 77);
    assert!(apply_set_peer_id(&mut st, SetPeerIdBody { peer_id: 77 }).is_ok());
    assert_eq!(
        apply_set_peer_id(&mut st, SetPeerIdBody { peer_id: 78 }),
        Err(PeerError::InternalPeerError)
    );
    // A client never accepts SetPeerId.
    let mut server_side = PeerIdState {
        remote_is_server: false,
        remote_peer_id: 5,
        local_peer_id: 1,
        connect_time: 0,
    };
    assert!(apply_set_peer_id(&mut server_side, SetPeerIdBody { peer_id: 9 }).is_err());
}

#[test]
fn hello_sniff_upgrades_contexts() {
    let mut recv = ProtocolContext::latest_for_receive(true);
    let mut send = ProtocolContext::latest_for_send(true);
    recv.ser_fmt = 28;
    send.ser_fmt = 28;
    let hello = Command::ToClient(ToClientCommand::Hello(HelloSpec {
        serialization_ver: 29,
        compression_mode: 0,
        proto_ver: 41,
        auth_mechs: AuthMechsBitset { legacy_password: false, srp: true, first_srp: false },
        username_legacy: ByteString(b"u".to_vec()),
    }));
    sniff_hello(&mut recv, &mut send, &hello);
    assert_eq!(recv.ser_fmt, 29);
    assert_eq!(recv.protocol_version, 41);
    assert_eq!(send.ser_fmt, 29);
    assert_eq!(send.protocol_version, 41);
    // Any other command changes nothing.
    let before = (recv, send);
    sniff_hello(&mut recv, &mut send, &Command::ToServer(ToServerCommand::Null(NullSpec {})));
    assert_eq!((recv, send), before);
}
