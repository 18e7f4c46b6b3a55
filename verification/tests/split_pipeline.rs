//! Split framing: chunk arithmetic, shuffled reassembly, and the whole
//! command pipeline over split bodies.

use minetest_protocol::peer::split_receiver::SplitReceiver;
use minetest_protocol::peer::split_sender::SplitSender;
use minetest_protocol::wire::command::{Command, PrivilegesSpec, ToClientCommand};
use minetest_protocol::wire::deser::{Deserialize, Deserializer};
use minetest_protocol::wire::packet::InnerBody;
use minetest_protocol::wire::packet::SplitBody;
use minetest_protocol::wire::ser::{Serialize, VecSerializer};
use minetest_protocol::wire::types::{Array16, ByteString, ProtocolContext};
use rand::seq::SliceRandom;

fn big_command(n: usize) -> Command {
    // A Privileges command with n ten-byte names serializes well past one
    // packet.
    let names: Vec<ByteString> = (0..n)
        .map(|i| ByteString(format!("privilege{:03}", i).into_bytes()))
        .collect();
    Command::ToClient(ToClientCommand::Privileges(PrivilegesSpec {
        privileges: Array16 { vec: names },
    }))
}

#[test]
fn small_command_stays_whole() {
    let ctx = ProtocolContext::latest_for_send(false);
    let mut sender = SplitSender::new(false);
    let cmd = big_command(10);
    let bodies = sender.push(ctx, cmd.clone()).unwrap();
    assert_eq!(bodies.len(), 1);
    match &bodies[0] {
        InnerBody::Original(ob) => assert_eq!(ob.command, cmd),
        _ => panic!("expected one original body"),
    }
}

#[test]
fn boundary_at_payload_limit() {
    // 502 encoded bytes must produce one original body; 503 must split.
    let ctx = ProtocolContext::latest_for_send(false);
    for (target, expect_chunks) in [(502usize, 0usize), (503, 2)] {
        // Privileges: opcode(2) + count(2) + k * (2 + len). Build one entry
        // with exactly the length that lands on the target size.
        let pad = target - 2 - 2 - 2;
        let names = vec![ByteString(vec![b'x'; pad])];
        let cmd = Command::ToClient(ToClientCommand::Privileges(PrivilegesSpec {
            privileges: Array16 { vec: names },
        }));
        let mut ser = VecSerializer::new(ctx, 600);
        cmd.serialize(&mut ser).unwrap();
        assert_eq!(ser.take().len(), target);
        let mut sender = SplitSender::new(false);
        let bodies = sender.push(ctx, cmd).unwrap();
        if expect_chunks == 0 {
            assert_eq!(bodies.len(), 1);
            assert!(matches!(bodies[0], InnerBody::Original(_)));
        } else {
            assert_eq!(bodies.len(), expect_chunks);
            assert!(bodies.iter().all(|b| matches!(b, InnerBody::Split(_))));
        }
    }
}

#[test]
fn split_round_trip_shuffled() {
    let ctx = ProtocolContext::latest_for_send(false);
    let cmd = big_command(400);
    let mut ser = VecSerializer::new(ctx, 8192);
    cmd.serialize(&mut ser).unwrap();
    let encoded = ser.take();
    let expected_chunks = (encoded.len() + 494) / 495;

    let mut sender = SplitSender::new(false);
    let mut bodies = sender.push(ctx, cmd.clone()).unwrap();
    assert_eq!(bodies.len(), expected_chunks);

    // Chunk numbers cover 0..n once each, counts all agree.
    let mut nums: Vec<u16> = bodies
        .iter()
        .map(|b| match b {
            InnerBody::Split(sb) => {
                assert_eq!(sb.chunk_count as usize, expected_chunks);
                sb.chunk_num
            }
            _ => panic!("expected split bodies"),
        })
        .collect();
    nums.sort();
    assert_eq!(nums, (0..expected_chunks as u16).collect::<Vec<_>>());

    // Reassemble in shuffled order.
    bodies.shuffle(&mut rand::rng());
    let mut receiver = SplitReceiver::new();
    let mut finished = None;
    for body in bodies {
        let sb = match body {
            InnerBody::Split(sb) => sb,
            _ => unreachable!(),
        };
        if let Some(data) = receiver.push(1000, sb).unwrap() {
            assert!(finished.is_none());
            finished = Some(data);
        }
    }
    let data = finished.expect("assembly completes");
    assert_eq!(data, encoded);

    // The reassembled bytes decode to the very same command.
    let mut d = Deserializer::new(ProtocolContext::latest_for_receive(true), data);
    let decoded = Command::deserialize(&mut d).unwrap();
    assert_eq!(decoded, cmd);
}

#[test]
fn split_receiver_rejects_bad_chunks() {
    let mut receiver = SplitReceiver::new();
    // chunk_num == chunk_count is a hard error.
    let bad = SplitBody { seqnum: 1, chunk_count: 3, chunk_num: 3, chunk_data: vec![1] };
    assert!(receiver.push(0, bad).is_err());
    // A mismatched chunk_count within one group is a hard error.
    let a = SplitBody { seqnum: 2, chunk_count: 3, chunk_num: 0, chunk_data: vec![1] };
    let b = SplitBody { seqnum: 2, chunk_count: 4, chunk_num: 1, chunk_data: vec![2] };
    assert!(receiver.push(0, a).is_ok());
    assert!(receiver.push(0, b).is_err());
}

#[test]
fn single_chunk_completes_at_once() {
    // A fresh receiver fed the only chunk of a one-chunk group finishes
    // immediately with exactly that data.
    let mut receiver = SplitReceiver::new();
    let body = SplitBody { seqnum: 9, chunk_count: 1, chunk_num: 0, chunk_data: vec![1, 2, 3] };
    assert_eq!(receiver.push(0, body).unwrap(), Some(vec![1, 2, 3]));
}

#[test]
fn chunk_overwrite_keeps_later_copy() {
    let mut receiver = SplitReceiver::new();
    let a = SplitBody { seqnum: 5, chunk_count: 2, chunk_num: 0, chunk_data: vec![1] };
    let a2 = SplitBody { seqnum: 5, chunk_count: 2, chunk_num: 0, chunk_data: vec![9] };
    let b = SplitBody { seqnum: 5, chunk_count: 2, chunk_num: 1, chunk_data: vec![2] };
    assert_eq!(receiver.push(0, a).unwrap(), None);
    assert_eq!(receiver.push(0, a2).unwrap(), None);
    assert_eq!(receiver.push(0, b).unwrap(), Some(vec![9, 2]));
}
