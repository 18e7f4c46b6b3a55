//! Round trips and error paths of the wire codec: packets, control bodies,
//! and representative commands of both catalogs.

use minetest_protocol::wire::command::{AccessDeniedSpec, Command, CommandProperties, DamageSpec,
    HelloSpec, HudSetFlagsSpec, HudchangeSpec, InitSpec, InteractSpec, NodemetaFieldsSpec,
    NullSpec, TSChatMessageSpec, TimeOfDaySpec, ToClientCommand, ToServerCommand};
use minetest_protocol::wire::deser::{Deserialize, DeserializeError, Deserializer};
use minetest_protocol::wire::packet::{AckBody, ControlBody, InnerBody, OriginalBody, Packet,
    PacketBody, ReliableBody, SetPeerIdBody, SplitBody};
use minetest_protocol::wire::ser::{Serialize, VecSerializer};
use minetest_protocol::wire::inventory::{Inventory, InventoryEntry, InventoryList, ItemStack,
    ItemStackMetadata, ItemStackUpdate};
use minetest_protocol::wire::types::{AccessDeniedCode, Array16, AuthMechsBitset, ByteString,
    CommandDirection, HudFlags, HudStat, InteractAction, LongString, Pair, PlayerPos,
    PointedThing, ProtocolContext, WString, Wrapped32, f32bits, v3f, v3s16, v3s32};

fn encode<T: Serialize>(v: &T, ctx: ProtocolContext) -> Vec<u8> {
    let mut ser = VecSerializer::new(ctx, 256);
    v.serialize(&mut ser).expect("encodable");
    ser.take()
}

fn round_trip<T: Serialize + Deserialize + PartialEq + std::fmt::Debug>(
    v: &T,
    ctx: ProtocolContext,
) {
    let bytes = encode(v, ctx);
    let mut d = Deserializer::new(ctx, bytes.clone());
    let back = T::deserialize(&mut d).expect("decodable");
    assert_eq!(&back, v);
    assert_eq!(d.remaining(), 0, "decode must consume the exact encoding");
}

#[test]
fn primitive_encodings_are_big_endian() {
    let ctx = ProtocolContext::latest_for_send(true);
    assert_eq!(encode(&0x0102u16, ctx), vec![1, 2]);
    assert_eq!(encode(&0x01020304u32, ctx), vec![1, 2, 3, 4]);
    assert_eq!(encode(&0x0102030405060708u64, ctx), vec![1, 2, 3, 4, 5, 6, 7, 8]);
    assert_eq!(encode(&(-2i16), ctx), vec![0xFF, 0xFE]);
    assert_eq!(encode(&true, ctx), vec![1]);
    assert_eq!(encode(&ByteString(b"hi".to_vec()), ctx), vec![0, 2, b'h', b'i']);
}

#[test]
fn command_round_trips() {
    let to_client = ProtocolContext::latest_for_receive(true);
    round_trip(
        &Command::ToClient(ToClientCommand::Hello(HelloSpec {
            serialization_ver: 29,
            compression_mode: 0,
            proto_ver: 41,
            auth_mechs: AuthMechsBitset { legacy_password: false, srp: true, first_srp: false },
            username_legacy: ByteString(b"player".to_vec()),
        })),
        to_client,
    );
    round_trip(
        &Command::ToClient(ToClientCommand::TimeOfDay(TimeOfDaySpec {
            time_of_day: 6000,
            time_speed: Some(f32bits { bits: 72f32.to_bits() }),
        })),
        to_client,
    );
    round_trip(
        &Command::ToClient(ToClientCommand::TimeOfDay(TimeOfDaySpec {
            time_of_day: 6000,
            time_speed: None,
        })),
        to_client,
    );
    round_trip(
        &Command::ToClient(ToClientCommand::AccessDenied(AccessDeniedSpec {
            code: AccessDeniedCode::Shutdown(ByteString(b"bye".to_vec()), true),
        })),
        to_client,
    );
    round_trip(
        &Command::ToClient(ToClientCommand::Hudchange(HudchangeSpec {
            server_id: 4,
            stat: HudStat::WorldPos(v3f {
                x: f32bits { bits: 1f32.to_bits() },
                y: f32bits { bits: 2f32.to_bits() },
                z: f32bits { bits: 3f32.to_bits() },
            }),
        })),
        to_client,
    );
    round_trip(
        &Command::ToClient(ToClientCommand::HudSetFlags(HudSetFlagsSpec {
            flags: HudFlags::from_u32(0b101010101),
            mask: HudFlags::from_u32(0b111111111),
        })),
        to_client,
    );

    let to_server = ProtocolContext::latest_for_receive(false);
    round_trip(&Command::ToServer(ToServerCommand::Null(NullSpec {})), to_server);
    round_trip(
        &Command::ToServer(ToServerCommand::Interact(InteractSpec {
            action: InteractAction::Place,
            item_index: 3,
            pointed_thing: Wrapped32 {
                value: PointedThing::Node {
                    under_surface: v3s16 { x: 1, y: -2, z: 3 },
                    above_surface: v3s16 { x: 1, y: -1, z: 3 },
                },
            },
            player_pos: PlayerPos {
                position: v3s32 { x: 100, y: 200, z: 300 },
                speed: v3s32 { x: 0, y: 0, z: 0 },
                pitch: 4500,
                yaw: 18000,
                keys_pressed: 5,
                fov: 80,
                wanted_range: 10,
            },
        })),
        to_server,
    );
    round_trip(
        &Command::ToServer(ToServerCommand::NodemetaFields(NodemetaFieldsSpec {
            p: v3s16 { x: 0, y: 1, z: 2 },
            form_name: ByteString(b"form".to_vec()),
            fields: Array16 {
                vec: vec![Pair {
                    first: ByteString(b"key".to_vec()),
                    second: LongString { string: ByteString(b"value".to_vec()) },
                }],
            },
        })),
        to_server,
    );
    round_trip(
        &Command::ToServer(ToServerCommand::TSChatMessage(TSChatMessageSpec {
            message: WString { units: "hello".encode_utf16().collect() },
        })),
        to_server,
    );
}

#[test]
fn packet_round_trips() {
    let ctx = ProtocolContext::latest_for_receive(false);
    let command = Command::ToServer(ToServerCommand::Damage(DamageSpec { damage: 3 }));
    let bodies = [
        PacketBody::Inner(InnerBody::Control(ControlBody::Ack(AckBody { seqnum: 77 }))),
        PacketBody::Inner(InnerBody::Control(ControlBody::SetPeerId(SetPeerIdBody {
            peer_id: 1000,
        }))),
        PacketBody::Inner(InnerBody::Control(ControlBody::Ping)),
        PacketBody::Inner(InnerBody::Control(ControlBody::Disconnect)),
        PacketBody::Inner(InnerBody::Original(OriginalBody { command: command.clone() })),
        PacketBody::Inner(InnerBody::Split(SplitBody {
            seqnum: 9,
            chunk_count: 4,
            chunk_num: 2,
            chunk_data: vec![1, 2, 3],
        })),
        InnerBody::Original(OriginalBody { command }).into_reliable(65500),
    ];
    for body in bodies {
        round_trip(&Packet::new(7, 1, body), ctx);
    }
}

#[test]
fn packet_decode_rejects_bad_frames() {
    let ctx = ProtocolContext::latest_for_receive(false);
    let pkt = Packet::new(
        2,
        0,
        PacketBody::Inner(InnerBody::Control(ControlBody::Ping)),
    );
    let good = encode(&pkt, ctx);

    // A wrong protocol id is rejected.
    let mut wrong_id = good.clone();
    wrong_id[0] = 0;
    let mut d = Deserializer::new(ctx, wrong_id);
    assert!(matches!(
        Packet::deserialize(&mut d),
        Err(DeserializeError::InvalidProtocolId(_))
    ));

    // A channel outside 0..=2 is rejected.
    let mut wrong_channel = good.clone();
    wrong_channel[6] = 3;
    let mut d = Deserializer::new(ctx, wrong_channel);
    assert!(matches!(
        Packet::deserialize(&mut d),
        Err(DeserializeError::InvalidChannel(3))
    ));

    // A truncated packet reports the end of input.
    let mut d = Deserializer::new(ctx, good[..5].to_vec());
    assert!(matches!(Packet::deserialize(&mut d), Err(DeserializeError::Eof)));

    // An unknown opcode reports a bad packet id.
    let mut unknown = encode(
        &Packet::new(
            2,
            0,
            PacketBody::Inner(InnerBody::Original(OriginalBody {
                command: Command::ToServer(ToServerCommand::Damage(DamageSpec { damage: 1 })),
            })),
        ),
        ctx,
    );
    let n = unknown.len();
    unknown[n - 4] = 0xEE;
    unknown[n - 3] = 0xEE;
    let mut d = Deserializer::new(ctx, unknown);
    assert!(matches!(
        Packet::deserialize(&mut d),
        Err(DeserializeError::BadPacketId(CommandDirection::ToServer, 0xEEEE))
    ));

    // An invalid body kind tag is rejected.
    let mut bad_kind = good;
    bad_kind[7] = 9;
    let mut d = Deserializer::new(ctx, bad_kind);
    assert!(matches!(
        Packet::deserialize(&mut d),
        Err(DeserializeError::InvalidPacketKind(9))
    ));
}

#[test]
fn string_decode_rejects_invalid_utf8() {
    let ctx = ProtocolContext::latest_for_send(true);
    // Length 2, bytes 0xFF 0xFE: not UTF-8.
    let mut d = Deserializer::new(ctx, vec![0, 2, 0xFF, 0xFE]);
    assert!(matches!(
        ByteString::deserialize(&mut d),
        Err(DeserializeError::InvalidValue)
    ));
}

#[test]
fn hud_flags_reject_unknown_bits() {
    let ctx = ProtocolContext::latest_for_send(true);
    let mut d = Deserializer::new(ctx, vec![0, 0, 2, 0]);
    assert!(HudFlags::deserialize(&mut d).is_err());
    let mut d = Deserializer::new(ctx, vec![0, 0, 1, 0xFF]);
    let f = HudFlags::deserialize(&mut d).unwrap();
    assert_eq!(f.to_u32(), 0x1FF);
    assert!(f.chat_visible && f.hotbar_visible);
}

#[test]
fn default_channels_and_reliability() {
    let hello = ToClientCommand::Hello(HelloSpec {
        serialization_ver: 29,
        compression_mode: 0,
        proto_ver: 41,
        auth_mechs: AuthMechsBitset { legacy_password: false, srp: false, first_srp: false },
        username_legacy: ByteString(Vec::new()),
    });
    assert_eq!(hello.default_channel(), 0);
    assert!(hello.default_reliability());
    let null = ToServerCommand::Null(NullSpec {});
    assert_eq!(null.default_channel(), 0);
    assert!(!null.default_reliability());
    let init = ToServerCommand::Init(InitSpec {
        serialization_ver_max: 29,
        supp_compr_modes: 0,
        min_net_proto_version: 37,
        max_net_proto_version: 41,
        player_name: ByteString(b"p".to_vec()),
    });
    assert_eq!(init.default_channel(), 1);
    assert!(!init.default_reliability());
    assert_eq!(Command::ToServer(null).command_name(), "Null");
}

#[test]
fn inventory_textual_round_trip() {
    let ctx = ProtocolContext::latest_for_receive(true);
    let inv = Inventory {
        entries: vec![
            InventoryEntry::KeepList(ByteString(b"hand".to_vec())),
            InventoryEntry::Update(InventoryList {
                name: ByteString(b"main".to_vec()),
                width: 4,
                items: vec![
                    ItemStackUpdate::Empty,
                    ItemStackUpdate::Keep,
                    ItemStackUpdate::Item(ItemStack {
                        name: ByteString(b"default:stone".to_vec()),
                        count: 1,
                        wear: 0,
                        metadata: ItemStackMetadata { string_vars: Vec::new() },
                    }),
                    ItemStackUpdate::Item(ItemStack {
                        name: ByteString(b"mod:pick axe".to_vec()),
                        count: 3,
                        wear: 11,
                        metadata: ItemStackMetadata {
                            string_vars: vec![(
                                ByteString(b"k".to_vec()),
                                ByteString(b"v 1".to_vec()),
                            )],
                        },
                    }),
                ],
            }),
        ],
    };
    let bytes = encode(&inv, ctx);
    let text = String::from_utf8_lossy(&bytes).to_string();
    assert!(text.starts_with("KeepList hand\nList main 4\nWidth 4\nEmpty\nKeep\nItem default:stone\n"));
    assert!(text.ends_with("EndInventoryList\nEndInventory\n"));
    let mut d = Deserializer::new(ctx, bytes);
    let back = Inventory::deserialize(&mut d).unwrap();
    assert_eq!(back, inv);
    assert_eq!(d.remaining(), 0);
}
