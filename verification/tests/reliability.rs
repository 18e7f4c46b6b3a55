//! The reliable receiver and sender under loss, reordering and wrap-around.

use minetest_protocol::peer::reliable_receiver::ReliableReceiver;
use minetest_protocol::peer::reliable_sender::ReliableSender;
use minetest_protocol::wire::command::{Command, HudrmSpec, ToClientCommand};
use minetest_protocol::wire::packet::{AckBody, InnerBody, OriginalBody, PacketBody, SEQNUM_INITIAL};
use rand::seq::SliceRandom;
use rand::RngExt;
use std::collections::{BTreeSet, HashMap};

fn make_inner(index: u32) -> InnerBody {
    // Hudrm is used only because it carries a u32 that identifies the body.
    let command = Command::ToClient(ToClientCommand::Hudrm(HudrmSpec { server_id: index }));
    InnerBody::Original(OriginalBody { command })
}

fn recover_index(body: &InnerBody) -> u32 {
    match body {
        InnerBody::Original(body) => match &body.command {
            Command::ToClient(ToClientCommand::Hudrm(spec)) => spec.server_id,
            _ => panic!("Unexpected body"),
        },
        _ => panic!("Unexpected body"),
    }
}

#[test]
fn reliable_receiver_test() {
    let mut r = ReliableReceiver::new();

    // 1) Feed in 30000 reliable packets in a random order.
    // 2) Pull them out as they become available.
    // 3) Do this 5 times to exercise the wrapping seqnum.
    const CHUNK_LEN: u32 = 30000u32;
    let mut offset: u32 = 0;
    for _ in 0..5 {
        let mut pkts: Vec<_> = (offset..offset + CHUNK_LEN)
            .map(|i| {
                let seqnum: u16 = SEQNUM_INITIAL.wrapping_add(i as u16);
                match make_inner(i).into_reliable(seqnum) {
                    PacketBody::Reliable(rb) => rb,
                    PacketBody::Inner(_) => panic!(),
                }
            })
            .collect();
        pkts.shuffle(&mut rand::rng());

        let mut out: Vec<u32> = Vec::new();
        for pkt in pkts.into_iter() {
            r.push(pkt);
            while let Some(body) = r.pop() {
                out.push(recover_index(&body));
            }
        }
        assert_eq!(out.len() as u32, CHUNK_LEN, "Not all packets processed");
        let expected: Vec<u32> = (offset..offset + CHUNK_LEN).collect();
        for i in 0..out.len() {
            assert_eq!(out[i], expected[i]);
        }
        offset += CHUNK_LEN;
    }
}

/// The reliable sender: buffers within the window, retransmits unacked
/// bodies after the timeout, and survives seqnum wrap.
#[test]
fn reliable_sender_test() {
    const MAX_RELIABLE_WINDOW_SIZE: u16 = 0x8000;
    const RESEND_TIMEOUT_START_MS: u64 = 500;
    let mut rng = rand::rng();
    let mut r = ReliableSender::new();
    struct Info {
        sent_time: Vec<u64>,
        ack_time: Option<u64>,
    }
    let mut next_index: usize = 0;
    let mut now: u64 = 1_000_000;
    let mut inflight: HashMap<usize, Info> = HashMap::new();
    let mut sent_but_unacked: BTreeSet<usize> = BTreeSet::new();
    let mut work_to_do = true;
    while work_to_do {
        work_to_do = false;
        if inflight.len() < 100_000 {
            work_to_do = true;
            for _ in 0..rng.random_range(0..100) {
                let inner = make_inner(next_index as u32);
                r.push(inner);
                inflight.insert(next_index, Info { sent_time: Vec::new(), ack_time: None });
                next_index += 1;
            }
        }

        let mut send_ack_now = Vec::new();
        while let Some(body) = r.pop(now) {
            let recovered_index = recover_index(match &*body {
                PacketBody::Reliable(rb) => &rb.inner,
                PacketBody::Inner(inner) => inner,
            }) as usize;
            let info = inflight.get_mut(&recovered_index).unwrap();
            info.sent_time.push(now);
            if info.ack_time.is_none() {
                sent_but_unacked.insert(recovered_index);
            }

            if let Some(oldest_unacked_index) = sent_but_unacked.first().map(|v| *v) {
                assert!(
                    recovered_index >= oldest_unacked_index,
                    "Resending already acknowledged packet"
                );
                let spread = recovered_index - oldest_unacked_index;
                assert!(spread < (MAX_RELIABLE_WINDOW_SIZE as usize));
            }

            // Ack 50% of transmissions, forcing retries for the rest.
            if info.ack_time.is_none() && rng.random_range(0..2) == 1 {
                let seqnum = match &*body {
                    PacketBody::Reliable(rb) => rb.seqnum,
                    PacketBody::Inner(_) => panic!("Unexpected body"),
                };
                send_ack_now.push(seqnum);
                info.ack_time = Some(now);
                sent_but_unacked.remove(&recovered_index);
            }
        }

        for seqnum in send_ack_now.into_iter() {
            r.process_ack(AckBody { seqnum });
        }

        match r.next_timeout() {
            Some(timeout) => {
                work_to_do = true;
                assert!(timeout >= now);
                if rng.random_range(0..2) == 1 {
                    now = timeout;
                } else {
                    now += 50;
                }
            }
            None => {
                now += 50;
            }
        }
    }

    for (_, info) in inflight.into_iter() {
        for i in 1..info.sent_time.len() {
            let resend_delay = info.sent_time[i] - info.sent_time[i - 1];
            let delta = (resend_delay as i64 - RESEND_TIMEOUT_START_MS as i64).abs();
            assert!(delta < 100, "Unexpected resend interval: {:?}", resend_delay);
        }
    }
}

/// Push one body, let its timer lapse without an ack: the body is re-sent
/// once; after the ack nothing further comes and no timer stays armed.
#[test]
fn resend_after_loss() {
    let mut r = ReliableSender::new();
    r.push(make_inner(7));
    let now: u64 = 10_000;
    let first = r.pop(now).expect("first transmission");
    let seqnum = match &*first {
        PacketBody::Reliable(rb) => rb.seqnum,
        _ => panic!("expected reliable body"),
    };
    assert_eq!(seqnum, SEQNUM_INITIAL);
    assert!(r.pop(now).is_none());
    // 500 ms later the body comes out once more.
    let later = now + 500;
    let again = r.pop(later).expect("retransmission");
    assert_eq!(recover_index(match &*again {
        PacketBody::Reliable(rb) => &rb.inner,
        _ => panic!(),
    }), 7);
    assert!(r.pop(later).is_none());
    r.process_ack(AckBody { seqnum });
    assert!(r.pop(later + 1000).is_none());
    assert!(r.next_timeout().is_none() || {
        // One stale timer may remain armed; it must drain without a resend.
        let t = r.next_timeout().unwrap();
        assert!(r.pop(t).is_none());
        r.next_timeout().is_none()
    });
}

/// A window exactly full emits no new sends until an ack arrives.
#[test]
fn window_exactly_full() {
    let mut r = ReliableSender::new();
    for i in 0..1025u32 {
        r.push(make_inner(i));
    }
    let now = 5_000u64;
    let mut sent = 0;
    let mut first_seq = None;
    while let Some(body) = r.pop(now) {
        if first_seq.is_none() {
            if let PacketBody::Reliable(rb) = &*body {
                first_seq = Some(rb.seqnum);
            }
        }
        sent += 1;
        assert!(sent <= 1024, "window overrun");
    }
    assert_eq!(sent, 1024);
    r.process_ack(AckBody { seqnum: first_seq.unwrap() });
    let extra = r.pop(now + 1).expect("ack frees one window slot");
    assert_eq!(recover_index(match &*extra {
        PacketBody::Reliable(rb) => &rb.inner,
        _ => panic!(),
    }), 1024);
}
