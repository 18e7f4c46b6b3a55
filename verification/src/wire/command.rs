//! The command catalog: every command of the dialect, with its opcode,
//! default channel, default reliability and payload schema.

use vstd::prelude::*;

use crate::wire::deser::Deserialize;
use crate::wire::deser::DeserializeError;
use crate::wire::deser::DeserializeResult;
use crate::wire::deser::Deserializer;
use crate::wire::ser::Serialize;
use crate::wire::ser::SerializeResult;
use crate::wire::ser::VecSerializer;
use crate::wire::types::aabb3f;
use crate::wire::types::AccessDeniedCode;
use crate::wire::types::Array0;
use crate::wire::types::Array16;
use crate::wire::types::Array32;
use crate::wire::types::Array8;
use crate::wire::types::AuthMechsBitset;
use crate::wire::types::AutoExposure;
use crate::wire::types::be16;
use crate::wire::types::be32;
use crate::wire::types::be64;
use crate::wire::types::BinaryData16;
use crate::wire::types::BinaryData32;
use crate::wire::types::ByteString;
use crate::wire::types::CommandDirection;
use crate::wire::types::f32bits;
use crate::wire::inventory::Inventory;
use crate::wire::types::HudFlags;
use crate::wire::types::HudSetParam;
use crate::wire::types::HudStat;
use crate::wire::types::InteractAction;
use crate::wire::types::Lighting;
use crate::wire::types::LongString;
use crate::wire::types::MapNode;
use crate::wire::types::MediaAnnouncement;
use crate::wire::types::MediaFileData;
use crate::wire::types::MinimapMode;
use crate::wire::types::MoonParams;
use crate::wire::types::Option16;
use crate::wire::types::Pair;
use crate::wire::types::PlayerPos;
use crate::wire::types::PointedThing;
use crate::wire::types::ProtocolContext;
use crate::wire::types::read_be16;
use crate::wire::types::s16;
use crate::wire::types::s32;
use crate::wire::types::SColor;
use crate::wire::types::SkyColor;
use crate::wire::types::StarParams;
use crate::wire::types::SunParams;
use crate::wire::types::v2f;
use crate::wire::types::v2s16;
use crate::wire::types::v2s32;
use crate::wire::types::v2u32;
use crate::wire::types::v3f;
use crate::wire::types::v3s16;
use crate::wire::types::v3s32;
use crate::wire::types::Wrapped16;
use crate::wire::types::Wrapped32;
use crate::wire::types::write_be16;
use crate::wire::types::WString;

verus! {

/// What every command reports about itself: its direction and the channel
/// and reliability it travels with by default.
pub trait CommandProperties {
    spec fn spec_direction(&self) -> CommandDirection;

    spec fn spec_channel(&self) -> u8;

    spec fn spec_reliable(&self) -> bool;

    fn direction(&self) -> (r: CommandDirection)
        ensures
            r == self.spec_direction(),
    ;

    fn default_channel(&self) -> (r: u8)
        ensures
            r == self.spec_channel(),
            r <= 2,
    ;

    fn default_reliability(&self) -> (r: bool)
        ensures
            r == self.spec_reliable(),
    ;

    fn command_name(&self) -> &'static str;
}

#[derive(Debug, Clone, PartialEq, Eq)]
pub struct HelloSpec {
    pub serialization_ver: u8,
    pub compression_mode: u16,
    pub proto_ver: u16,
    pub auth_mechs: AuthMechsBitset,
    pub username_legacy: ByteString,
}

impl Serialize for HelloSpec {
    open spec fn enc(&self, ctx: ProtocolContext) -> Seq<u8> {
        self.serialization_ver.enc(ctx) + self.compression_mode.enc(ctx) + self.proto_ver.enc(ctx) + self.auth_mechs.enc(ctx) + self.username_legacy.enc(ctx)
    }

    open spec fn ser_wf(&self, ctx: ProtocolContext) -> bool {
        self.serialization_ver.ser_wf(ctx) && self.compression_mode.ser_wf(ctx) && self.proto_ver.ser_wf(ctx) && self.auth_mechs.ser_wf(ctx) && self.username_legacy.ser_wf(ctx)
    }

    open spec fn eqv(&self, other: &Self) -> bool {
        self.serialization_ver.eqv(&other.serialization_ver) && self.compression_mode.eqv(&other.compression_mode) && self.proto_ver.eqv(&other.proto_ver) && self.auth_mechs.eqv(&other.auth_mechs) && self.username_legacy.eqv(&other.username_legacy)
    }

    fn serialize(&self, ser: &mut VecSerializer) -> (r: SerializeResult) {
        match self.serialization_ver.serialize(ser) {
            Ok(_) => {},
            Err(e) => {
                return Err(e);
            },
        }
        match self.compression_mode.serialize(ser) {
            Ok(_) => {},
            Err(e) => {
                return Err(e);
            },
        }
        match self.proto_ver.serialize(ser) {
            Ok(_) => {},
            Err(e) => {
                return Err(e);
            },
        }
        match self.auth_mechs.serialize(ser) {
            Ok(_) => {},
            Err(e) => {
                return Err(e);
            },
        }
        match self.username_legacy.serialize(ser) {
            Ok(_) => {},
            Err(e) => {
                return Err(e);
            },
        }
        proof {
            vstd::seq_lib::lemma_concat_associative(old(ser).out(), self.serialization_ver.enc(old(ser).ctx()), self.compression_mode.enc(old(ser).ctx()));
            vstd::seq_lib::lemma_concat_associative(old(ser).out(), self.serialization_ver.enc(old(ser).ctx()) + self.compression_mode.enc(old(ser).ctx()), self.proto_ver.enc(old(ser).ctx()));
            vstd::seq_lib::lemma_concat_associative(old(ser).out(), self.serialization_ver.enc(old(ser).ctx()) + self.compression_mode.enc(old(ser).ctx()) + self.proto_ver.enc(old(ser).ctx()), self.auth_mechs.enc(old(ser).ctx()));
            vstd::seq_lib::lemma_concat_associative(old(ser).out(), self.serialization_ver.enc(old(ser).ctx()) + self.compression_mode.enc(old(ser).ctx()) + self.proto_ver.enc(old(ser).ctx()) + self.auth_mechs.enc(old(ser).ctx()), self.username_legacy.enc(old(ser).ctx()));
        }
        Ok(())
    }
}

proof fn hellospec_reshape(ctx: ProtocolContext, input: Seq<u8>)
    ensures
        forall|v: HelloSpec, rest: Seq<u8>|
            (#[trigger] v.enc(ctx).add(rest)) == input && v.rt_wf(ctx)
                && (<HelloSpec as Deserialize>::prefix_safe() || rest.len() == 0)
                ==> v.serialization_ver.enc(ctx).add(v.compression_mode.enc(ctx).add(v.proto_ver.enc(ctx).add(v.auth_mechs.enc(ctx).add(v.username_legacy.enc(ctx).add(rest))))) == input,
{
    assert forall|v: HelloSpec, rest: Seq<u8>|
        (#[trigger] v.enc(ctx).add(rest)) == input && v.rt_wf(ctx)
        && (<HelloSpec as Deserialize>::prefix_safe() || rest.len() == 0)
        implies v.serialization_ver.enc(ctx).add(v.compression_mode.enc(ctx).add(v.proto_ver.enc(ctx).add(v.auth_mechs.enc(ctx).add(v.username_legacy.enc(ctx).add(rest))))) == input by {
        vstd::seq_lib::lemma_concat_associative(v.serialization_ver.enc(ctx) + v.compression_mode.enc(ctx) + v.proto_ver.enc(ctx) + v.auth_mechs.enc(ctx), v.username_legacy.enc(ctx), rest);
        vstd::seq_lib::lemma_concat_associative(v.serialization_ver.enc(ctx) + v.compression_mode.enc(ctx) + v.proto_ver.enc(ctx), v.auth_mechs.enc(ctx), v.username_legacy.enc(ctx).add(rest));
        vstd::seq_lib::lemma_concat_associative(v.serialization_ver.enc(ctx) + v.compression_mode.enc(ctx), v.proto_ver.enc(ctx), v.auth_mechs.enc(ctx).add(v.username_legacy.enc(ctx).add(rest)));
        vstd::seq_lib::lemma_concat_associative(v.serialization_ver.enc(ctx), v.compression_mode.enc(ctx), v.proto_ver.enc(ctx).add(v.auth_mechs.enc(ctx).add(v.username_legacy.enc(ctx).add(rest))));
    }
}

impl Deserialize for HelloSpec {
    open spec fn rt_wf(&self, ctx: ProtocolContext) -> bool {
        self.serialization_ver.rt_wf(ctx) && self.compression_mode.rt_wf(ctx) && self.proto_ver.rt_wf(ctx) && self.auth_mechs.rt_wf(ctx) && self.username_legacy.rt_wf(ctx) && <u8 as Deserialize>::prefix_safe() && <u16 as Deserialize>::prefix_safe() && <u16 as Deserialize>::prefix_safe() && <AuthMechsBitset as Deserialize>::prefix_safe()
    }

    open spec fn prefix_safe() -> bool {
        <u8 as Deserialize>::prefix_safe() && <u16 as Deserialize>::prefix_safe() && <u16 as Deserialize>::prefix_safe() && <AuthMechsBitset as Deserialize>::prefix_safe() && <ByteString as Deserialize>::prefix_safe()
    }

    fn deserialize(d: &mut Deserializer) -> (r: DeserializeResult<Self>) {
        let ghost ctx = d.ctx();
        let ghost input = d.rem();
        proof {
            hellospec_reshape(ctx, input);
        }
        let serialization_ver = match <u8 as Deserialize>::deserialize(d) {
            Ok(v) => v,
            Err(e) => {
                return Err(e);
            },
        };
        let compression_mode = match <u16 as Deserialize>::deserialize(d) {
            Ok(v) => v,
            Err(e) => {
                return Err(e);
            },
        };
        let proto_ver = match <u16 as Deserialize>::deserialize(d) {
            Ok(v) => v,
            Err(e) => {
                return Err(e);
            },
        };
        let auth_mechs = match <AuthMechsBitset as Deserialize>::deserialize(d) {
            Ok(v) => v,
            Err(e) => {
                return Err(e);
            },
        };
        let username_legacy = match <ByteString as Deserialize>::deserialize(d) {
            Ok(v) => v,
            Err(e) => {
                return Err(e);
            },
        };
        Ok(HelloSpec { serialization_ver, compression_mode, proto_ver, auth_mechs, username_legacy })
    }
}

#[derive(Debug, Clone, PartialEq, Eq)]
pub struct AuthAcceptSpec {
    pub player_pos: v3f,
    pub map_seed: u64,
    pub recommended_send_interval: f32bits,
    pub sudo_auth_methods: u32,
}

impl Serialize for AuthAcceptSpec {
    open spec fn enc(&self, ctx: ProtocolContext) -> Seq<u8> {
        self.player_pos.enc(ctx) + self.map_seed.enc(ctx) + self.recommended_send_interval.enc(ctx) + self.sudo_auth_methods.enc(ctx)
    }

    open spec fn ser_wf(&self, ctx: ProtocolContext) -> bool {
        self.player_pos.ser_wf(ctx) && self.map_seed.ser_wf(ctx) && self.recommended_send_interval.ser_wf(ctx) && self.sudo_auth_methods.ser_wf(ctx)
    }

    open spec fn eqv(&self, other: &Self) -> bool {
        self.player_pos.eqv(&other.player_pos) && self.map_seed.eqv(&other.map_seed) && self.recommended_send_interval.eqv(&other.recommended_send_interval) && self.sudo_auth_methods.eqv(&other.sudo_auth_methods)
    }

    fn serialize(&self, ser: &mut VecSerializer) -> (r: SerializeResult) {
        match self.player_pos.serialize(ser) {
            Ok(_) => {},
            Err(e) => {
                return Err(e);
            },
        }
        match self.map_seed.serialize(ser) {
            Ok(_) => {},
            Err(e) => {
                return Err(e);
            },
        }
        match self.recommended_send_interval.serialize(ser) {
            Ok(_) => {},
            Err(e) => {
                return Err(e);
            },
        }
        match self.sudo_auth_methods.serialize(ser) {
            Ok(_) => {},
            Err(e) => {
                return Err(e);
            },
        }
        proof {
            vstd::seq_lib::lemma_concat_associative(old(ser).out(), self.player_pos.enc(old(ser).ctx()), self.map_seed.enc(old(ser).ctx()));
            vstd::seq_lib::lemma_concat_associative(old(ser).out(), self.player_pos.enc(old(ser).ctx()) + self.map_seed.enc(old(ser).ctx()), self.recommended_send_interval.enc(old(ser).ctx()));
            vstd::seq_lib::lemma_concat_associative(old(ser).out(), self.player_pos.enc(old(ser).ctx()) + self.map_seed.enc(old(ser).ctx()) + self.recommended_send_interval.enc(old(ser).ctx()), self.sudo_auth_methods.enc(old(ser).ctx()));
        }
        Ok(())
    }
}

proof fn authacceptspec_reshape(ctx: ProtocolContext, input: Seq<u8>)
    ensures
        forall|v: AuthAcceptSpec, rest: Seq<u8>|
            (#[trigger] v.enc(ctx).add(rest)) == input && v.rt_wf(ctx)
                && (<AuthAcceptSpec as Deserialize>::prefix_safe() || rest.len() == 0)
                ==> v.player_pos.enc(ctx).add(v.map_seed.enc(ctx).add(v.recommended_send_interval.enc(ctx).add(v.sudo_auth_methods.enc(ctx).add(rest)))) == input,
{
    assert forall|v: AuthAcceptSpec, rest: Seq<u8>|
        (#[trigger] v.enc(ctx).add(rest)) == input && v.rt_wf(ctx)
        && (<AuthAcceptSpec as Deserialize>::prefix_safe() || rest.len() == 0)
        implies v.player_pos.enc(ctx).add(v.map_seed.enc(ctx).add(v.recommended_send_interval.enc(ctx).add(v.sudo_auth_methods.enc(ctx).add(rest)))) == input by {
        vstd::seq_lib::lemma_concat_associative(v.player_pos.enc(ctx) + v.map_seed.enc(ctx) + v.recommended_send_interval.enc(ctx), v.sudo_auth_methods.enc(ctx), rest);
        vstd::seq_lib::lemma_concat_associative(v.player_pos.enc(ctx) + v.map_seed.enc(ctx), v.recommended_send_interval.enc(ctx), v.sudo_auth_methods.enc(ctx).add(rest));
        vstd::seq_lib::lemma_concat_associative(v.player_pos.enc(ctx), v.map_seed.enc(ctx), v.recommended_send_interval.enc(ctx).add(v.sudo_auth_methods.enc(ctx).add(rest)));
    }
}

impl Deserialize for AuthAcceptSpec {
    open spec fn rt_wf(&self, ctx: ProtocolContext) -> bool {
        self.player_pos.rt_wf(ctx) && self.map_seed.rt_wf(ctx) && self.recommended_send_interval.rt_wf(ctx) && self.sudo_auth_methods.rt_wf(ctx) && <v3f as Deserialize>::prefix_safe() && <u64 as Deserialize>::prefix_safe() && <f32bits as Deserialize>::prefix_safe()
    }

    open spec fn prefix_safe() -> bool {
        <v3f as Deserialize>::prefix_safe() && <u64 as Deserialize>::prefix_safe() && <f32bits as Deserialize>::prefix_safe() && <u32 as Deserialize>::prefix_safe()
    }

    fn deserialize(d: &mut Deserializer) -> (r: DeserializeResult<Self>) {
        let ghost ctx = d.ctx();
        let ghost input = d.rem();
        proof {
            authacceptspec_reshape(ctx, input);
        }
        let player_pos = match <v3f as Deserialize>::deserialize(d) {
            Ok(v) => v,
            Err(e) => {
                return Err(e);
            },
        };
        let map_seed = match <u64 as Deserialize>::deserialize(d) {
            Ok(v) => v,
            Err(e) => {
                return Err(e);
            },
        };
        let recommended_send_interval = match <f32bits as Deserialize>::deserialize(d) {
            Ok(v) => v,
            Err(e) => {
                return Err(e);
            },
        };
        let sudo_auth_methods = match <u32 as Deserialize>::deserialize(d) {
            Ok(v) => v,
            Err(e) => {
                return Err(e);
            },
        };
        Ok(AuthAcceptSpec { player_pos, map_seed, recommended_send_interval, sudo_auth_methods })
    }
}

#[derive(Debug, Clone, PartialEq, Eq)]
pub struct AcceptSudoModeSpec {
}

impl Serialize for AcceptSudoModeSpec {
    open spec fn enc(&self, ctx: ProtocolContext) -> Seq<u8> {
        Seq::empty()
    }

    open spec fn ser_wf(&self, ctx: ProtocolContext) -> bool {
        true
    }

    open spec fn eqv(&self, other: &Self) -> bool {
        true
    }

    fn serialize(&self, ser: &mut VecSerializer) -> (r: SerializeResult) {
        assert(ser.out() =~= old(ser).out() + self.enc(old(ser).ctx()));
        Ok(())
    }
}

impl Deserialize for AcceptSudoModeSpec {
    open spec fn rt_wf(&self, ctx: ProtocolContext) -> bool {
        true
    }

    open spec fn prefix_safe() -> bool {
        true
    }

    fn deserialize(d: &mut Deserializer) -> (r: DeserializeResult<Self>) {
        let ghost ctx = d.ctx();
        let ghost input = d.rem();
        proof {
            assert forall|v: AcceptSudoModeSpec, rest: Seq<u8>|
                (#[trigger] v.enc(ctx).add(rest)) == input implies rest == input by {
                assert(v.enc(ctx).add(rest) =~= rest);
            }
        }
        Ok(AcceptSudoModeSpec {})
    }
}

#[derive(Debug, Clone, PartialEq, Eq)]
pub struct DenySudoModeSpec {
}

impl Serialize for DenySudoModeSpec {
    open spec fn enc(&self, ctx: ProtocolContext) -> Seq<u8> {
        Seq::empty()
    }

    open spec fn ser_wf(&self, ctx: ProtocolContext) -> bool {
        true
    }

    open spec fn eqv(&self, other: &Self) -> bool {
        true
    }

    fn serialize(&self, ser: &mut VecSerializer) -> (r: SerializeResult) {
        assert(ser.out() =~= old(ser).out() + self.enc(old(ser).ctx()));
        Ok(())
    }
}

impl Deserialize for DenySudoModeSpec {
    open spec fn rt_wf(&self, ctx: ProtocolContext) -> bool {
        true
    }

    open spec fn prefix_safe() -> bool {
        true
    }

    fn deserialize(d: &mut Deserializer) -> (r: DeserializeResult<Self>) {
        let ghost ctx = d.ctx();
        let ghost input = d.rem();
        proof {
            assert forall|v: DenySudoModeSpec, rest: Seq<u8>|
                (#[trigger] v.enc(ctx).add(rest)) == input implies rest == input by {
                assert(v.enc(ctx).add(rest) =~= rest);
            }
        }
        Ok(DenySudoModeSpec {})
    }
}

#[derive(Debug, Clone, PartialEq, Eq)]
pub struct AccessDeniedSpec {
    pub code: AccessDeniedCode,
}

impl Serialize for AccessDeniedSpec {
    open spec fn enc(&self, ctx: ProtocolContext) -> Seq<u8> {
        self.code.enc(ctx)
    }

    open spec fn ser_wf(&self, ctx: ProtocolContext) -> bool {
        self.code.ser_wf(ctx)
    }

    open spec fn eqv(&self, other: &Self) -> bool {
        self.code.eqv(&other.code)
    }

    fn serialize(&self, ser: &mut VecSerializer) -> (r: SerializeResult) {
        match self.code.serialize(ser) {
            Ok(_) => {},
            Err(e) => {
                return Err(e);
            },
        }
        proof {
        }
        Ok(())
    }
}

proof fn accessdeniedspec_reshape(ctx: ProtocolContext, input: Seq<u8>)
    ensures
        forall|v: AccessDeniedSpec, rest: Seq<u8>|
            (#[trigger] v.enc(ctx).add(rest)) == input && v.rt_wf(ctx)
                && (<AccessDeniedSpec as Deserialize>::prefix_safe() || rest.len() == 0)
                ==> v.code.enc(ctx).add(rest) == input,
{
    assert forall|v: AccessDeniedSpec, rest: Seq<u8>|
        (#[trigger] v.enc(ctx).add(rest)) == input && v.rt_wf(ctx)
        && (<AccessDeniedSpec as Deserialize>::prefix_safe() || rest.len() == 0)
        implies v.code.enc(ctx).add(rest) == input by {
    }
}

impl Deserialize for AccessDeniedSpec {
    open spec fn rt_wf(&self, ctx: ProtocolContext) -> bool {
        self.code.rt_wf(ctx)
    }

    open spec fn prefix_safe() -> bool {
        <AccessDeniedCode as Deserialize>::prefix_safe()
    }

    fn deserialize(d: &mut Deserializer) -> (r: DeserializeResult<Self>) {
        let ghost ctx = d.ctx();
        let ghost input = d.rem();
        proof {
            accessdeniedspec_reshape(ctx, input);
        }
        let code = match <AccessDeniedCode as Deserialize>::deserialize(d) {
            Ok(v) => v,
            Err(e) => {
                return Err(e);
            },
        };
        Ok(AccessDeniedSpec { code })
    }
}

#[derive(Debug, Clone, PartialEq, Eq)]
pub struct AddnodeSpec {
    pub pos: v3s16,
    pub node: MapNode,
    pub keep_metadata: bool,
}

impl Serialize for AddnodeSpec {
    open spec fn enc(&self, ctx: ProtocolContext) -> Seq<u8> {
        self.pos.enc(ctx) + self.node.enc(ctx) + self.keep_metadata.enc(ctx)
    }

    open spec fn ser_wf(&self, ctx: ProtocolContext) -> bool {
        self.pos.ser_wf(ctx) && self.node.ser_wf(ctx) && self.keep_metadata.ser_wf(ctx)
    }

    open spec fn eqv(&self, other: &Self) -> bool {
        self.pos.eqv(&other.pos) && self.node.eqv(&other.node) && self.keep_metadata.eqv(&other.keep_metadata)
    }

    fn serialize(&self, ser: &mut VecSerializer) -> (r: SerializeResult) {
        match self.pos.serialize(ser) {
            Ok(_) => {},
            Err(e) => {
                return Err(e);
            },
        }
        match self.node.serialize(ser) {
            Ok(_) => {},
            Err(e) => {
                return Err(e);
            },
        }
        match self.keep_metadata.serialize(ser) {
            Ok(_) => {},
            Err(e) => {
                return Err(e);
            },
        }
        proof {
            vstd::seq_lib::lemma_concat_associative(old(ser).out(), self.pos.enc(old(ser).ctx()), self.node.enc(old(ser).ctx()));
            vstd::seq_lib::lemma_concat_associative(old(ser).out(), self.pos.enc(old(ser).ctx()) + self.node.enc(old(ser).ctx()), self.keep_metadata.enc(old(ser).ctx()));
        }
        Ok(())
    }
}

proof fn addnodespec_reshape(ctx: ProtocolContext, input: Seq<u8>)
    ensures
        forall|v: AddnodeSpec, rest: Seq<u8>|
            (#[trigger] v.enc(ctx).add(rest)) == input && v.rt_wf(ctx)
                && (<AddnodeSpec as Deserialize>::prefix_safe() || rest.len() == 0)
                ==> v.pos.enc(ctx).add(v.node.enc(ctx).add(v.keep_metadata.enc(ctx).add(rest))) == input,
{
    assert forall|v: AddnodeSpec, rest: Seq<u8>|
        (#[trigger] v.enc(ctx).add(rest)) == input && v.rt_wf(ctx)
        && (<AddnodeSpec as Deserialize>::prefix_safe() || rest.len() == 0)
        implies v.pos.enc(ctx).add(v.node.enc(ctx).add(v.keep_metadata.enc(ctx).add(rest))) == input by {
        vstd::seq_lib::lemma_concat_associative(v.pos.enc(ctx) + v.node.enc(ctx), v.keep_metadata.enc(ctx), rest);
        vstd::seq_lib::lemma_concat_associative(v.pos.enc(ctx), v.node.enc(ctx), v.keep_metadata.enc(ctx).add(rest));
    }
}

impl Deserialize for AddnodeSpec {
    open spec fn rt_wf(&self, ctx: ProtocolContext) -> bool {
        self.pos.rt_wf(ctx) && self.node.rt_wf(ctx) && self.keep_metadata.rt_wf(ctx) && <v3s16 as Deserialize>::prefix_safe() && <MapNode as Deserialize>::prefix_safe()
    }

    open spec fn prefix_safe() -> bool {
        <v3s16 as Deserialize>::prefix_safe() && <MapNode as Deserialize>::prefix_safe() && <bool as Deserialize>::prefix_safe()
    }

    fn deserialize(d: &mut Deserializer) -> (r: DeserializeResult<Self>) {
        let ghost ctx = d.ctx();
        let ghost input = d.rem();
        proof {
            addnodespec_reshape(ctx, input);
        }
        let pos = match <v3s16 as Deserialize>::deserialize(d) {
            Ok(v) => v,
            Err(e) => {
                return Err(e);
            },
        };
        let node = match <MapNode as Deserialize>::deserialize(d) {
            Ok(v) => v,
            Err(e) => {
                return Err(e);
            },
        };
        let keep_metadata = match <bool as Deserialize>::deserialize(d) {
            Ok(v) => v,
            Err(e) => {
                return Err(e);
            },
        };
        Ok(AddnodeSpec { pos, node, keep_metadata })
    }
}

#[derive(Debug, Clone, PartialEq, Eq)]
pub struct RemovenodeSpec {
    pub pos: v3s16,
}

impl Serialize for RemovenodeSpec {
    open spec fn enc(&self, ctx: ProtocolContext) -> Seq<u8> {
        self.pos.enc(ctx)
    }

    open spec fn ser_wf(&self, ctx: ProtocolContext) -> bool {
        self.pos.ser_wf(ctx)
    }

    open spec fn eqv(&self, other: &Self) -> bool {
        self.pos.eqv(&other.pos)
    }

    fn serialize(&self, ser: &mut VecSerializer) -> (r: SerializeResult) {
        match self.pos.serialize(ser) {
            Ok(_) => {},
            Err(e) => {
                return Err(e);
            },
        }
        proof {
        }
        Ok(())
    }
}

proof fn removenodespec_reshape(ctx: ProtocolContext, input: Seq<u8>)
    ensures
        forall|v: RemovenodeSpec, rest: Seq<u8>|
            (#[trigger] v.enc(ctx).add(rest)) == input && v.rt_wf(ctx)
                && (<RemovenodeSpec as Deserialize>::prefix_safe() || rest.len() == 0)
                ==> v.pos.enc(ctx).add(rest) == input,
{
    assert forall|v: RemovenodeSpec, rest: Seq<u8>|
        (#[trigger] v.enc(ctx).add(rest)) == input && v.rt_wf(ctx)
        && (<RemovenodeSpec as Deserialize>::prefix_safe() || rest.len() == 0)
        implies v.pos.enc(ctx).add(rest) == input by {
    }
}

impl Deserialize for RemovenodeSpec {
    open spec fn rt_wf(&self, ctx: ProtocolContext) -> bool {
        self.pos.rt_wf(ctx)
    }

    open spec fn prefix_safe() -> bool {
        <v3s16 as Deserialize>::prefix_safe()
    }

    fn deserialize(d: &mut Deserializer) -> (r: DeserializeResult<Self>) {
        let ghost ctx = d.ctx();
        let ghost input = d.rem();
        proof {
            removenodespec_reshape(ctx, input);
        }
        let pos = match <v3s16 as Deserialize>::deserialize(d) {
            Ok(v) => v,
            Err(e) => {
                return Err(e);
            },
        };
        Ok(RemovenodeSpec { pos })
    }
}

#[derive(Debug, Clone, PartialEq, Eq)]
pub struct TimeOfDaySpec {
    pub time_of_day: u16,
    pub time_speed: Option<f32bits>,
}

impl Serialize for TimeOfDaySpec {
    open spec fn enc(&self, ctx: ProtocolContext) -> Seq<u8> {
        self.time_of_day.enc(ctx) + self.time_speed.enc(ctx)
    }

    open spec fn ser_wf(&self, ctx: ProtocolContext) -> bool {
        self.time_of_day.ser_wf(ctx) && self.time_speed.ser_wf(ctx)
    }

    open spec fn eqv(&self, other: &Self) -> bool {
        self.time_of_day.eqv(&other.time_of_day) && self.time_speed.eqv(&other.time_speed)
    }

    fn serialize(&self, ser: &mut VecSerializer) -> (r: SerializeResult) {
        match self.time_of_day.serialize(ser) {
            Ok(_) => {},
            Err(e) => {
                return Err(e);
            },
        }
        match self.time_speed.serialize(ser) {
            Ok(_) => {},
            Err(e) => {
                return Err(e);
            },
        }
        proof {
            vstd::seq_lib::lemma_concat_associative(old(ser).out(), self.time_of_day.enc(old(ser).ctx()), self.time_speed.enc(old(ser).ctx()));
        }
        Ok(())
    }
}

proof fn timeofdayspec_reshape(ctx: ProtocolContext, input: Seq<u8>)
    ensures
        forall|v: TimeOfDaySpec, rest: Seq<u8>|
            (#[trigger] v.enc(ctx).add(rest)) == input && v.rt_wf(ctx)
                && (<TimeOfDaySpec as Deserialize>::prefix_safe() || rest.len() == 0)
                ==> v.time_of_day.enc(ctx).add(v.time_speed.enc(ctx).add(rest)) == input && (v.time_speed matches Some(x) ==> x.enc(ctx).add(rest) == v.time_speed.enc(ctx).add(rest)) && (v.time_speed is None ==> v.time_speed.enc(ctx).add(rest).len() == 0),
{
    assert forall|v: TimeOfDaySpec, rest: Seq<u8>|
        (#[trigger] v.enc(ctx).add(rest)) == input && v.rt_wf(ctx)
        && (<TimeOfDaySpec as Deserialize>::prefix_safe() || rest.len() == 0)
        implies v.time_of_day.enc(ctx).add(v.time_speed.enc(ctx).add(rest)) == input && (v.time_speed matches Some(x) ==> x.enc(ctx).add(rest) == v.time_speed.enc(ctx).add(rest)) && (v.time_speed is None ==> v.time_speed.enc(ctx).add(rest).len() == 0) by {
        vstd::seq_lib::lemma_concat_associative(v.time_of_day.enc(ctx), v.time_speed.enc(ctx), rest);
        match v.time_speed {
            Some(x) => {
                assert(x.enc(ctx).add(rest) =~= v.time_speed.enc(ctx).add(rest));
            },
            None => {
                assert(v.time_speed.enc(ctx).add(rest) =~= rest);
            },
        }
    }
}

impl Deserialize for TimeOfDaySpec {
    open spec fn rt_wf(&self, ctx: ProtocolContext) -> bool {
        self.time_of_day.rt_wf(ctx) && self.time_speed.rt_wf(ctx) && <u16 as Deserialize>::prefix_safe() && <f32bits as Deserialize>::prefix_safe()
    }

    open spec fn prefix_safe() -> bool {
        <u16 as Deserialize>::prefix_safe() && <Option<f32bits> as Deserialize>::prefix_safe()
    }

    fn deserialize(d: &mut Deserializer) -> (r: DeserializeResult<Self>) {
        let ghost ctx = d.ctx();
        let ghost input = d.rem();
        proof {
            timeofdayspec_reshape(ctx, input);
        }
        let time_of_day = match <u16 as Deserialize>::deserialize(d) {
            Ok(v) => v,
            Err(e) => {
                return Err(e);
            },
        };
        let time_speed = if d.remaining() == 0 {
            None
        } else {
            match <f32bits as Deserialize>::deserialize(d) {
                Ok(v) => Some(v),
                Err(e) => {
                    return Err(e);
                },
            }
        };
        Ok(TimeOfDaySpec { time_of_day, time_speed })
    }
}

#[derive(Debug, Clone, PartialEq, Eq)]
pub struct CsmRestrictionFlagsSpec {
    pub csm_restriction_flags: u64,
    pub csm_restriction_noderange: u32,
}

impl Serialize for CsmRestrictionFlagsSpec {
    open spec fn enc(&self, ctx: ProtocolContext) -> Seq<u8> {
        self.csm_restriction_flags.enc(ctx) + self.csm_restriction_noderange.enc(ctx)
    }

    open spec fn ser_wf(&self, ctx: ProtocolContext) -> bool {
        self.csm_restriction_flags.ser_wf(ctx) && self.csm_restriction_noderange.ser_wf(ctx)
    }

    open spec fn eqv(&self, other: &Self) -> bool {
        self.csm_restriction_flags.eqv(&other.csm_restriction_flags) && self.csm_restriction_noderange.eqv(&other.csm_restriction_noderange)
    }

    fn serialize(&self, ser: &mut VecSerializer) -> (r: SerializeResult) {
        match self.csm_restriction_flags.serialize(ser) {
            Ok(_) => {},
            Err(e) => {
                return Err(e);
            },
        }
        match self.csm_restriction_noderange.serialize(ser) {
            Ok(_) => {},
            Err(e) => {
                return Err(e);
            },
        }
        proof {
            vstd::seq_lib::lemma_concat_associative(old(ser).out(), self.csm_restriction_flags.enc(old(ser).ctx()), self.csm_restriction_noderange.enc(old(ser).ctx()));
        }
        Ok(())
    }
}

proof fn csmrestrictionflagsspec_reshape(ctx: ProtocolContext, input: Seq<u8>)
    ensures
        forall|v: CsmRestrictionFlagsSpec, rest: Seq<u8>|
            (#[trigger] v.enc(ctx).add(rest)) == input && v.rt_wf(ctx)
                && (<CsmRestrictionFlagsSpec as Deserialize>::prefix_safe() || rest.len() == 0)
                ==> v.csm_restriction_flags.enc(ctx).add(v.csm_restriction_noderange.enc(ctx).add(rest)) == input,
{
    assert forall|v: CsmRestrictionFlagsSpec, rest: Seq<u8>|
        (#[trigger] v.enc(ctx).add(rest)) == input && v.rt_wf(ctx)
        && (<CsmRestrictionFlagsSpec as Deserialize>::prefix_safe() || rest.len() == 0)
        implies v.csm_restriction_flags.enc(ctx).add(v.csm_restriction_noderange.enc(ctx).add(rest)) == input by {
        vstd::seq_lib::lemma_concat_associative(v.csm_restriction_flags.enc(ctx), v.csm_restriction_noderange.enc(ctx), rest);
    }
}

impl Deserialize for CsmRestrictionFlagsSpec {
    open spec fn rt_wf(&self, ctx: ProtocolContext) -> bool {
        self.csm_restriction_flags.rt_wf(ctx) && self.csm_restriction_noderange.rt_wf(ctx) && <u64 as Deserialize>::prefix_safe()
    }

    open spec fn prefix_safe() -> bool {
        <u64 as Deserialize>::prefix_safe() && <u32 as Deserialize>::prefix_safe()
    }

    fn deserialize(d: &mut Deserializer) -> (r: DeserializeResult<Self>) {
        let ghost ctx = d.ctx();
        let ghost input = d.rem();
        proof {
            csmrestrictionflagsspec_reshape(ctx, input);
        }
        let csm_restriction_flags = match <u64 as Deserialize>::deserialize(d) {
            Ok(v) => v,
            Err(e) => {
                return Err(e);
            },
        };
        let csm_restriction_noderange = match <u32 as Deserialize>::deserialize(d) {
            Ok(v) => v,
            Err(e) => {
                return Err(e);
            },
        };
        Ok(CsmRestrictionFlagsSpec { csm_restriction_flags, csm_restriction_noderange })
    }
}

#[derive(Debug, Clone, PartialEq, Eq)]
pub struct PlayerSpeedSpec {
    pub added_vel: v3f,
}

impl Serialize for PlayerSpeedSpec {
    open spec fn enc(&self, ctx: ProtocolContext) -> Seq<u8> {
        self.added_vel.enc(ctx)
    }

    open spec fn ser_wf(&self, ctx: ProtocolContext) -> bool {
        self.added_vel.ser_wf(ctx)
    }

    open spec fn eqv(&self, other: &Self) -> bool {
        self.added_vel.eqv(&other.added_vel)
    }

    fn serialize(&self, ser: &mut VecSerializer) -> (r: SerializeResult) {
        match self.added_vel.serialize(ser) {
            Ok(_) => {},
            Err(e) => {
                return Err(e);
            },
        }
        proof {
        }
        Ok(())
    }
}

proof fn playerspeedspec_reshape(ctx: ProtocolContext, input: Seq<u8>)
    ensures
        forall|v: PlayerSpeedSpec, rest: Seq<u8>|
            (#[trigger] v.enc(ctx).add(rest)) == input && v.rt_wf(ctx)
                && (<PlayerSpeedSpec as Deserialize>::prefix_safe() || rest.len() == 0)
                ==> v.added_vel.enc(ctx).add(rest) == input,
{
    assert forall|v: PlayerSpeedSpec, rest: Seq<u8>|
        (#[trigger] v.enc(ctx).add(rest)) == input && v.rt_wf(ctx)
        && (<PlayerSpeedSpec as Deserialize>::prefix_safe() || rest.len() == 0)
        implies v.added_vel.enc(ctx).add(rest) == input by {
    }
}

impl Deserialize for PlayerSpeedSpec {
    open spec fn rt_wf(&self, ctx: ProtocolContext) -> bool {
        self.added_vel.rt_wf(ctx)
    }

    open spec fn prefix_safe() -> bool {
        <v3f as Deserialize>::prefix_safe()
    }

    fn deserialize(d: &mut Deserializer) -> (r: DeserializeResult<Self>) {
        let ghost ctx = d.ctx();
        let ghost input = d.rem();
        proof {
            playerspeedspec_reshape(ctx, input);
        }
        let added_vel = match <v3f as Deserialize>::deserialize(d) {
            Ok(v) => v,
            Err(e) => {
                return Err(e);
            },
        };
        Ok(PlayerSpeedSpec { added_vel })
    }
}

#[derive(Debug, Clone, PartialEq, Eq)]
pub struct MediaPushSpec {
    pub raw_hash: ByteString,
    pub filename: ByteString,
    pub cached: bool,
    pub token: u32,
}

impl Serialize for MediaPushSpec {
    open spec fn enc(&self, ctx: ProtocolContext) -> Seq<u8> {
        self.raw_hash.enc(ctx) + self.filename.enc(ctx) + self.cached.enc(ctx) + self.token.enc(ctx)
    }

    open spec fn ser_wf(&self, ctx: ProtocolContext) -> bool {
        self.raw_hash.ser_wf(ctx) && self.filename.ser_wf(ctx) && self.cached.ser_wf(ctx) && self.token.ser_wf(ctx)
    }

    open spec fn eqv(&self, other: &Self) -> bool {
        self.raw_hash.eqv(&other.raw_hash) && self.filename.eqv(&other.filename) && self.cached.eqv(&other.cached) && self.token.eqv(&other.token)
    }

    fn serialize(&self, ser: &mut VecSerializer) -> (r: SerializeResult) {
        match self.raw_hash.serialize(ser) {
            Ok(_) => {},
            Err(e) => {
                return Err(e);
            },
        }
        match self.filename.serialize(ser) {
            Ok(_) => {},
            Err(e) => {
                return Err(e);
            },
        }
        match self.cached.serialize(ser) {
            Ok(_) => {},
            Err(e) => {
                return Err(e);
            },
        }
        match self.token.serialize(ser) {
            Ok(_) => {},
            Err(e) => {
                return Err(e);
            },
        }
        proof {
            vstd::seq_lib::lemma_concat_associative(old(ser).out(), self.raw_hash.enc(old(ser).ctx()), self.filename.enc(old(ser).ctx()));
            vstd::seq_lib::lemma_concat_associative(old(ser).out(), self.raw_hash.enc(old(ser).ctx()) + self.filename.enc(old(ser).ctx()), self.cached.enc(old(ser).ctx()));
            vstd::seq_lib::lemma_concat_associative(old(ser).out(), self.raw_hash.enc(old(ser).ctx()) + self.filename.enc(old(ser).ctx()) + self.cached.enc(old(ser).ctx()), self.token.enc(old(ser).ctx()));
        }
        Ok(())
    }
}

proof fn mediapushspec_reshape(ctx: ProtocolContext, input: Seq<u8>)
    ensures
        forall|v: MediaPushSpec, rest: Seq<u8>|
            (#[trigger] v.enc(ctx).add(rest)) == input && v.rt_wf(ctx)
                && (<MediaPushSpec as Deserialize>::prefix_safe() || rest.len() == 0)
                ==> v.raw_hash.enc(ctx).add(v.filename.enc(ctx).add(v.cached.enc(ctx).add(v.token.enc(ctx).add(rest)))) == input,
{
    assert forall|v: MediaPushSpec, rest: Seq<u8>|
        (#[trigger] v.enc(ctx).add(rest)) == input && v.rt_wf(ctx)
        && (<MediaPushSpec as Deserialize>::prefix_safe() || rest.len() == 0)
        implies v.raw_hash.enc(ctx).add(v.filename.enc(ctx).add(v.cached.enc(ctx).add(v.token.enc(ctx).add(rest)))) == input by {
        vstd::seq_lib::lemma_concat_associative(v.raw_hash.enc(ctx) + v.filename.enc(ctx) + v.cached.enc(ctx), v.token.enc(ctx), rest);
        vstd::seq_lib::lemma_concat_associative(v.raw_hash.enc(ctx) + v.filename.enc(ctx), v.cached.enc(ctx), v.token.enc(ctx).add(rest));
        vstd::seq_lib::lemma_concat_associative(v.raw_hash.enc(ctx), v.filename.enc(ctx), v.cached.enc(ctx).add(v.token.enc(ctx).add(rest)));
    }
}

impl Deserialize for MediaPushSpec {
    open spec fn rt_wf(&self, ctx: ProtocolContext) -> bool {
        self.raw_hash.rt_wf(ctx) && self.filename.rt_wf(ctx) && self.cached.rt_wf(ctx) && self.token.rt_wf(ctx) && <ByteString as Deserialize>::prefix_safe() && <ByteString as Deserialize>::prefix_safe() && <bool as Deserialize>::prefix_safe()
    }

    open spec fn prefix_safe() -> bool {
        <ByteString as Deserialize>::prefix_safe() && <ByteString as Deserialize>::prefix_safe() && <bool as Deserialize>::prefix_safe() && <u32 as Deserialize>::prefix_safe()
    }

    fn deserialize(d: &mut Deserializer) -> (r: DeserializeResult<Self>) {
        let ghost ctx = d.ctx();
        let ghost input = d.rem();
        proof {
            mediapushspec_reshape(ctx, input);
        }
        let raw_hash = match <ByteString as Deserialize>::deserialize(d) {
            Ok(v) => v,
            Err(e) => {
                return Err(e);
            },
        };
        let filename = match <ByteString as Deserialize>::deserialize(d) {
            Ok(v) => v,
            Err(e) => {
                return Err(e);
            },
        };
        let cached = match <bool as Deserialize>::deserialize(d) {
            Ok(v) => v,
            Err(e) => {
                return Err(e);
            },
        };
        let token = match <u32 as Deserialize>::deserialize(d) {
            Ok(v) => v,
            Err(e) => {
                return Err(e);
            },
        };
        Ok(MediaPushSpec { raw_hash, filename, cached, token })
    }
}

#[derive(Debug, Clone, PartialEq, Eq)]
pub struct TCChatMessageSpec {
    pub version: u8,
    pub message_type: u8,
    pub sender: WString,
    pub message: WString,
    pub timestamp: u64,
}

impl Serialize for TCChatMessageSpec {
    open spec fn enc(&self, ctx: ProtocolContext) -> Seq<u8> {
        self.version.enc(ctx) + self.message_type.enc(ctx) + self.sender.enc(ctx) + self.message.enc(ctx) + self.timestamp.enc(ctx)
    }

    open spec fn ser_wf(&self, ctx: ProtocolContext) -> bool {
        self.version.ser_wf(ctx) && self.message_type.ser_wf(ctx) && self.sender.ser_wf(ctx) && self.message.ser_wf(ctx) && self.timestamp.ser_wf(ctx)
    }

    open spec fn eqv(&self, other: &Self) -> bool {
        self.version.eqv(&other.version) && self.message_type.eqv(&other.message_type) && self.sender.eqv(&other.sender) && self.message.eqv(&other.message) && self.timestamp.eqv(&other.timestamp)
    }

    fn serialize(&self, ser: &mut VecSerializer) -> (r: SerializeResult) {
        match self.version.serialize(ser) {
            Ok(_) => {},
            Err(e) => {
                return Err(e);
            },
        }
        match self.message_type.serialize(ser) {
            Ok(_) => {},
            Err(e) => {
                return Err(e);
            },
        }
        match self.sender.serialize(ser) {
            Ok(_) => {},
            Err(e) => {
                return Err(e);
            },
        }
        match self.message.serialize(ser) {
            Ok(_) => {},
            Err(e) => {
                return Err(e);
            },
        }
        match self.timestamp.serialize(ser) {
            Ok(_) => {},
            Err(e) => {
                return Err(e);
            },
        }
        proof {
            vstd::seq_lib::lemma_concat_associative(old(ser).out(), self.version.enc(old(ser).ctx()), self.message_type.enc(old(ser).ctx()));
            vstd::seq_lib::lemma_concat_associative(old(ser).out(), self.version.enc(old(ser).ctx()) + self.message_type.enc(old(ser).ctx()), self.sender.enc(old(ser).ctx()));
            vstd::seq_lib::lemma_concat_associative(old(ser).out(), self.version.enc(old(ser).ctx()) + self.message_type.enc(old(ser).ctx()) + self.sender.enc(old(ser).ctx()), self.message.enc(old(ser).ctx()));
            vstd::seq_lib::lemma_concat_associative(old(ser).out(), self.version.enc(old(ser).ctx()) + self.message_type.enc(old(ser).ctx()) + self.sender.enc(old(ser).ctx()) + self.message.enc(old(ser).ctx()), self.timestamp.enc(old(ser).ctx()));
        }
        Ok(())
    }
}

proof fn tcchatmessagespec_reshape(ctx: ProtocolContext, input: Seq<u8>)
    ensures
        forall|v: TCChatMessageSpec, rest: Seq<u8>|
            (#[trigger] v.enc(ctx).add(rest)) == input && v.rt_wf(ctx)
                && (<TCChatMessageSpec as Deserialize>::prefix_safe() || rest.len() == 0)
                ==> v.version.enc(ctx).add(v.message_type.enc(ctx).add(v.sender.enc(ctx).add(v.message.enc(ctx).add(v.timestamp.enc(ctx).add(rest))))) == input,
{
    assert forall|v: TCChatMessageSpec, rest: Seq<u8>|
        (#[trigger] v.enc(ctx).add(rest)) == input && v.rt_wf(ctx)
        && (<TCChatMessageSpec as Deserialize>::prefix_safe() || rest.len() == 0)
        implies v.version.enc(ctx).add(v.message_type.enc(ctx).add(v.sender.enc(ctx).add(v.message.enc(ctx).add(v.timestamp.enc(ctx).add(rest))))) == input by {
        vstd::seq_lib::lemma_concat_associative(v.version.enc(ctx) + v.message_type.enc(ctx) + v.sender.enc(ctx) + v.message.enc(ctx), v.timestamp.enc(ctx), rest);
        vstd::seq_lib::lemma_concat_associative(v.version.enc(ctx) + v.message_type.enc(ctx) + v.sender.enc(ctx), v.message.enc(ctx), v.timestamp.enc(ctx).add(rest));
        vstd::seq_lib::lemma_concat_associative(v.version.enc(ctx) + v.message_type.enc(ctx), v.sender.enc(ctx), v.message.enc(ctx).add(v.timestamp.enc(ctx).add(rest)));
        vstd::seq_lib::lemma_concat_associative(v.version.enc(ctx), v.message_type.enc(ctx), v.sender.enc(ctx).add(v.message.enc(ctx).add(v.timestamp.enc(ctx).add(rest))));
    }
}

impl Deserialize for TCChatMessageSpec {
    open spec fn rt_wf(&self, ctx: ProtocolContext) -> bool {
        self.version.rt_wf(ctx) && self.message_type.rt_wf(ctx) && self.sender.rt_wf(ctx) && self.message.rt_wf(ctx) && self.timestamp.rt_wf(ctx) && <u8 as Deserialize>::prefix_safe() && <u8 as Deserialize>::prefix_safe() && <WString as Deserialize>::prefix_safe() && <WString as Deserialize>::prefix_safe()
    }

    open spec fn prefix_safe() -> bool {
        <u8 as Deserialize>::prefix_safe() && <u8 as Deserialize>::prefix_safe() && <WString as Deserialize>::prefix_safe() && <WString as Deserialize>::prefix_safe() && <u64 as Deserialize>::prefix_safe()
    }

    fn deserialize(d: &mut Deserializer) -> (r: DeserializeResult<Self>) {
        let ghost ctx = d.ctx();
        let ghost input = d.rem();
        proof {
            tcchatmessagespec_reshape(ctx, input);
        }
        let version = match <u8 as Deserialize>::deserialize(d) {
            Ok(v) => v,
            Err(e) => {
                return Err(e);
            },
        };
        let message_type = match <u8 as Deserialize>::deserialize(d) {
            Ok(v) => v,
            Err(e) => {
                return Err(e);
            },
        };
        let sender = match <WString as Deserialize>::deserialize(d) {
            Ok(v) => v,
            Err(e) => {
                return Err(e);
            },
        };
        let message = match <WString as Deserialize>::deserialize(d) {
            Ok(v) => v,
            Err(e) => {
                return Err(e);
            },
        };
        let timestamp = match <u64 as Deserialize>::deserialize(d) {
            Ok(v) => v,
            Err(e) => {
                return Err(e);
            },
        };
        Ok(TCChatMessageSpec { version, message_type, sender, message, timestamp })
    }
}

#[derive(Debug, Clone, PartialEq, Eq)]
pub struct HpSpec {
    pub hp: u16,
    pub damage_effect: Option<bool>,
}

impl Serialize for HpSpec {
    open spec fn enc(&self, ctx: ProtocolContext) -> Seq<u8> {
        self.hp.enc(ctx) + self.damage_effect.enc(ctx)
    }

    open spec fn ser_wf(&self, ctx: ProtocolContext) -> bool {
        self.hp.ser_wf(ctx) && self.damage_effect.ser_wf(ctx)
    }

    open spec fn eqv(&self, other: &Self) -> bool {
        self.hp.eqv(&other.hp) && self.damage_effect.eqv(&other.damage_effect)
    }

    fn serialize(&self, ser: &mut VecSerializer) -> (r: SerializeResult) {
        match self.hp.serialize(ser) {
            Ok(_) => {},
            Err(e) => {
                return Err(e);
            },
        }
        match self.damage_effect.serialize(ser) {
            Ok(_) => {},
            Err(e) => {
                return Err(e);
            },
        }
        proof {
            vstd::seq_lib::lemma_concat_associative(old(ser).out(), self.hp.enc(old(ser).ctx()), self.damage_effect.enc(old(ser).ctx()));
        }
        Ok(())
    }
}

proof fn hpspec_reshape(ctx: ProtocolContext, input: Seq<u8>)
    ensures
        forall|v: HpSpec, rest: Seq<u8>|
            (#[trigger] v.enc(ctx).add(rest)) == input && v.rt_wf(ctx)
                && (<HpSpec as Deserialize>::prefix_safe() || rest.len() == 0)
                ==> v.hp.enc(ctx).add(v.damage_effect.enc(ctx).add(rest)) == input && (v.damage_effect matches Some(x) ==> x.enc(ctx).add(rest) == v.damage_effect.enc(ctx).add(rest)) && (v.damage_effect is None ==> v.damage_effect.enc(ctx).add(rest).len() == 0),
{
    assert forall|v: HpSpec, rest: Seq<u8>|
        (#[trigger] v.enc(ctx).add(rest)) == input && v.rt_wf(ctx)
        && (<HpSpec as Deserialize>::prefix_safe() || rest.len() == 0)
        implies v.hp.enc(ctx).add(v.damage_effect.enc(ctx).add(rest)) == input && (v.damage_effect matches Some(x) ==> x.enc(ctx).add(rest) == v.damage_effect.enc(ctx).add(rest)) && (v.damage_effect is None ==> v.damage_effect.enc(ctx).add(rest).len() == 0) by {
        vstd::seq_lib::lemma_concat_associative(v.hp.enc(ctx), v.damage_effect.enc(ctx), rest);
        match v.damage_effect {
            Some(x) => {
                assert(x.enc(ctx).add(rest) =~= v.damage_effect.enc(ctx).add(rest));
            },
            None => {
                assert(v.damage_effect.enc(ctx).add(rest) =~= rest);
            },
        }
    }
}

impl Deserialize for HpSpec {
    open spec fn rt_wf(&self, ctx: ProtocolContext) -> bool {
        self.hp.rt_wf(ctx) && self.damage_effect.rt_wf(ctx) && <u16 as Deserialize>::prefix_safe() && <bool as Deserialize>::prefix_safe()
    }

    open spec fn prefix_safe() -> bool {
        <u16 as Deserialize>::prefix_safe() && <Option<bool> as Deserialize>::prefix_safe()
    }

    fn deserialize(d: &mut Deserializer) -> (r: DeserializeResult<Self>) {
        let ghost ctx = d.ctx();
        let ghost input = d.rem();
        proof {
            hpspec_reshape(ctx, input);
        }
        let hp = match <u16 as Deserialize>::deserialize(d) {
            Ok(v) => v,
            Err(e) => {
                return Err(e);
            },
        };
        let damage_effect = if d.remaining() == 0 {
            None
        } else {
            match <bool as Deserialize>::deserialize(d) {
                Ok(v) => Some(v),
                Err(e) => {
                    return Err(e);
                },
            }
        };
        Ok(HpSpec { hp, damage_effect })
    }
}

#[derive(Debug, Clone, PartialEq, Eq)]
pub struct MovePlayerSpec {
    pub pos: v3f,
    pub pitch: f32bits,
    pub yaw: f32bits,
}

impl Serialize for MovePlayerSpec {
    open spec fn enc(&self, ctx: ProtocolContext) -> Seq<u8> {
        self.pos.enc(ctx) + self.pitch.enc(ctx) + self.yaw.enc(ctx)
    }

    open spec fn ser_wf(&self, ctx: ProtocolContext) -> bool {
        self.pos.ser_wf(ctx) && self.pitch.ser_wf(ctx) && self.yaw.ser_wf(ctx)
    }

    open spec fn eqv(&self, other: &Self) -> bool {
        self.pos.eqv(&other.pos) && self.pitch.eqv(&other.pitch) && self.yaw.eqv(&other.yaw)
    }

    fn serialize(&self, ser: &mut VecSerializer) -> (r: SerializeResult) {
        match self.pos.serialize(ser) {
            Ok(_) => {},
            Err(e) => {
                return Err(e);
            },
        }
        match self.pitch.serialize(ser) {
            Ok(_) => {},
            Err(e) => {
                return Err(e);
            },
        }
        match self.yaw.serialize(ser) {
            Ok(_) => {},
            Err(e) => {
                return Err(e);
            },
        }
        proof {
            vstd::seq_lib::lemma_concat_associative(old(ser).out(), self.pos.enc(old(ser).ctx()), self.pitch.enc(old(ser).ctx()));
            vstd::seq_lib::lemma_concat_associative(old(ser).out(), self.pos.enc(old(ser).ctx()) + self.pitch.enc(old(ser).ctx()), self.yaw.enc(old(ser).ctx()));
        }
        Ok(())
    }
}

proof fn moveplayerspec_reshape(ctx: ProtocolContext, input: Seq<u8>)
    ensures
        forall|v: MovePlayerSpec, rest: Seq<u8>|
            (#[trigger] v.enc(ctx).add(rest)) == input && v.rt_wf(ctx)
                && (<MovePlayerSpec as Deserialize>::prefix_safe() || rest.len() == 0)
                ==> v.pos.enc(ctx).add(v.pitch.enc(ctx).add(v.yaw.enc(ctx).add(rest))) == input,
{
    assert forall|v: MovePlayerSpec, rest: Seq<u8>|
        (#[trigger] v.enc(ctx).add(rest)) == input && v.rt_wf(ctx)
        && (<MovePlayerSpec as Deserialize>::prefix_safe() || rest.len() == 0)
        implies v.pos.enc(ctx).add(v.pitch.enc(ctx).add(v.yaw.enc(ctx).add(rest))) == input by {
        vstd::seq_lib::lemma_concat_associative(v.pos.enc(ctx) + v.pitch.enc(ctx), v.yaw.enc(ctx), rest);
        vstd::seq_lib::lemma_concat_associative(v.pos.enc(ctx), v.pitch.enc(ctx), v.yaw.enc(ctx).add(rest));
    }
}

impl Deserialize for MovePlayerSpec {
    open spec fn rt_wf(&self, ctx: ProtocolContext) -> bool {
        self.pos.rt_wf(ctx) && self.pitch.rt_wf(ctx) && self.yaw.rt_wf(ctx) && <v3f as Deserialize>::prefix_safe() && <f32bits as Deserialize>::prefix_safe()
    }

    open spec fn prefix_safe() -> bool {
        <v3f as Deserialize>::prefix_safe() && <f32bits as Deserialize>::prefix_safe() && <f32bits as Deserialize>::prefix_safe()
    }

    fn deserialize(d: &mut Deserializer) -> (r: DeserializeResult<Self>) {
        let ghost ctx = d.ctx();
        let ghost input = d.rem();
        proof {
            moveplayerspec_reshape(ctx, input);
        }
        let pos = match <v3f as Deserialize>::deserialize(d) {
            Ok(v) => v,
            Err(e) => {
                return Err(e);
            },
        };
        let pitch = match <f32bits as Deserialize>::deserialize(d) {
            Ok(v) => v,
            Err(e) => {
                return Err(e);
            },
        };
        let yaw = match <f32bits as Deserialize>::deserialize(d) {
            Ok(v) => v,
            Err(e) => {
                return Err(e);
            },
        };
        Ok(MovePlayerSpec { pos, pitch, yaw })
    }
}

#[derive(Debug, Clone, PartialEq, Eq)]
pub struct AccessDeniedLegacySpec {
    pub reason: WString,
}

impl Serialize for AccessDeniedLegacySpec {
    open spec fn enc(&self, ctx: ProtocolContext) -> Seq<u8> {
        self.reason.enc(ctx)
    }

    open spec fn ser_wf(&self, ctx: ProtocolContext) -> bool {
        self.reason.ser_wf(ctx)
    }

    open spec fn eqv(&self, other: &Self) -> bool {
        self.reason.eqv(&other.reason)
    }

    fn serialize(&self, ser: &mut VecSerializer) -> (r: SerializeResult) {
        match self.reason.serialize(ser) {
            Ok(_) => {},
            Err(e) => {
                return Err(e);
            },
        }
        proof {
        }
        Ok(())
    }
}

proof fn accessdeniedlegacyspec_reshape(ctx: ProtocolContext, input: Seq<u8>)
    ensures
        forall|v: AccessDeniedLegacySpec, rest: Seq<u8>|
            (#[trigger] v.enc(ctx).add(rest)) == input && v.rt_wf(ctx)
                && (<AccessDeniedLegacySpec as Deserialize>::prefix_safe() || rest.len() == 0)
                ==> v.reason.enc(ctx).add(rest) == input,
{
    assert forall|v: AccessDeniedLegacySpec, rest: Seq<u8>|
        (#[trigger] v.enc(ctx).add(rest)) == input && v.rt_wf(ctx)
        && (<AccessDeniedLegacySpec as Deserialize>::prefix_safe() || rest.len() == 0)
        implies v.reason.enc(ctx).add(rest) == input by {
    }
}

impl Deserialize for AccessDeniedLegacySpec {
    open spec fn rt_wf(&self, ctx: ProtocolContext) -> bool {
        self.reason.rt_wf(ctx)
    }

    open spec fn prefix_safe() -> bool {
        <WString as Deserialize>::prefix_safe()
    }

    fn deserialize(d: &mut Deserializer) -> (r: DeserializeResult<Self>) {
        let ghost ctx = d.ctx();
        let ghost input = d.rem();
        proof {
            accessdeniedlegacyspec_reshape(ctx, input);
        }
        let reason = match <WString as Deserialize>::deserialize(d) {
            Ok(v) => v,
            Err(e) => {
                return Err(e);
            },
        };
        Ok(AccessDeniedLegacySpec { reason })
    }
}

#[derive(Debug, Clone, PartialEq, Eq)]
pub struct FovSpec {
    pub fov: f32bits,
    pub is_multiplier: bool,
    pub transition_time: Option<f32bits>,
}

impl Serialize for FovSpec {
    open spec fn enc(&self, ctx: ProtocolContext) -> Seq<u8> {
        self.fov.enc(ctx) + self.is_multiplier.enc(ctx) + self.transition_time.enc(ctx)
    }

    open spec fn ser_wf(&self, ctx: ProtocolContext) -> bool {
        self.fov.ser_wf(ctx) && self.is_multiplier.ser_wf(ctx) && self.transition_time.ser_wf(ctx)
    }

    open spec fn eqv(&self, other: &Self) -> bool {
        self.fov.eqv(&other.fov) && self.is_multiplier.eqv(&other.is_multiplier) && self.transition_time.eqv(&other.transition_time)
    }

    fn serialize(&self, ser: &mut VecSerializer) -> (r: SerializeResult) {
        match self.fov.serialize(ser) {
            Ok(_) => {},
            Err(e) => {
                return Err(e);
            },
        }
        match self.is_multiplier.serialize(ser) {
            Ok(_) => {},
            Err(e) => {
                return Err(e);
            },
        }
        match self.transition_time.serialize(ser) {
            Ok(_) => {},
            Err(e) => {
                return Err(e);
            },
        }
        proof {
            vstd::seq_lib::lemma_concat_associative(old(ser).out(), self.fov.enc(old(ser).ctx()), self.is_multiplier.enc(old(ser).ctx()));
            vstd::seq_lib::lemma_concat_associative(old(ser).out(), self.fov.enc(old(ser).ctx()) + self.is_multiplier.enc(old(ser).ctx()), self.transition_time.enc(old(ser).ctx()));
        }
        Ok(())
    }
}

proof fn fovspec_reshape(ctx: ProtocolContext, input: Seq<u8>)
    ensures
        forall|v: FovSpec, rest: Seq<u8>|
            (#[trigger] v.enc(ctx).add(rest)) == input && v.rt_wf(ctx)
                && (<FovSpec as Deserialize>::prefix_safe() || rest.len() == 0)
                ==> v.fov.enc(ctx).add(v.is_multiplier.enc(ctx).add(v.transition_time.enc(ctx).add(rest))) == input && (v.transition_time matches Some(x) ==> x.enc(ctx).add(rest) == v.transition_time.enc(ctx).add(rest)) && (v.transition_time is None ==> v.transition_time.enc(ctx).add(rest).len() == 0),
{
    assert forall|v: FovSpec, rest: Seq<u8>|
        (#[trigger] v.enc(ctx).add(rest)) == input && v.rt_wf(ctx)
        && (<FovSpec as Deserialize>::prefix_safe() || rest.len() == 0)
        implies v.fov.enc(ctx).add(v.is_multiplier.enc(ctx).add(v.transition_time.enc(ctx).add(rest))) == input && (v.transition_time matches Some(x) ==> x.enc(ctx).add(rest) == v.transition_time.enc(ctx).add(rest)) && (v.transition_time is None ==> v.transition_time.enc(ctx).add(rest).len() == 0) by {
        vstd::seq_lib::lemma_concat_associative(v.fov.enc(ctx) + v.is_multiplier.enc(ctx), v.transition_time.enc(ctx), rest);
        vstd::seq_lib::lemma_concat_associative(v.fov.enc(ctx), v.is_multiplier.enc(ctx), v.transition_time.enc(ctx).add(rest));
        match v.transition_time {
            Some(x) => {
                assert(x.enc(ctx).add(rest) =~= v.transition_time.enc(ctx).add(rest));
            },
            None => {
                assert(v.transition_time.enc(ctx).add(rest) =~= rest);
            },
        }
    }
}

impl Deserialize for FovSpec {
    open spec fn rt_wf(&self, ctx: ProtocolContext) -> bool {
        self.fov.rt_wf(ctx) && self.is_multiplier.rt_wf(ctx) && self.transition_time.rt_wf(ctx) && <f32bits as Deserialize>::prefix_safe() && <bool as Deserialize>::prefix_safe() && <f32bits as Deserialize>::prefix_safe()
    }

    open spec fn prefix_safe() -> bool {
        <f32bits as Deserialize>::prefix_safe() && <bool as Deserialize>::prefix_safe() && <Option<f32bits> as Deserialize>::prefix_safe()
    }

    fn deserialize(d: &mut Deserializer) -> (r: DeserializeResult<Self>) {
        let ghost ctx = d.ctx();
        let ghost input = d.rem();
        proof {
            fovspec_reshape(ctx, input);
        }
        let fov = match <f32bits as Deserialize>::deserialize(d) {
            Ok(v) => v,
            Err(e) => {
                return Err(e);
            },
        };
        let is_multiplier = match <bool as Deserialize>::deserialize(d) {
            Ok(v) => v,
            Err(e) => {
                return Err(e);
            },
        };
        let transition_time = if d.remaining() == 0 {
            None
        } else {
            match <f32bits as Deserialize>::deserialize(d) {
                Ok(v) => Some(v),
                Err(e) => {
                    return Err(e);
                },
            }
        };
        Ok(FovSpec { fov, is_multiplier, transition_time })
    }
}

#[derive(Debug, Clone, PartialEq, Eq)]
pub struct DeathscreenSpec {
    pub set_camera_point_target: bool,
    pub camera_point_target: v3f,
}

impl Serialize for DeathscreenSpec {
    open spec fn enc(&self, ctx: ProtocolContext) -> Seq<u8> {
        self.set_camera_point_target.enc(ctx) + self.camera_point_target.enc(ctx)
    }

    open spec fn ser_wf(&self, ctx: ProtocolContext) -> bool {
        self.set_camera_point_target.ser_wf(ctx) && self.camera_point_target.ser_wf(ctx)
    }

    open spec fn eqv(&self, other: &Self) -> bool {
        self.set_camera_point_target.eqv(&other.set_camera_point_target) && self.camera_point_target.eqv(&other.camera_point_target)
    }

    fn serialize(&self, ser: &mut VecSerializer) -> (r: SerializeResult) {
        match self.set_camera_point_target.serialize(ser) {
            Ok(_) => {},
            Err(e) => {
                return Err(e);
            },
        }
        match self.camera_point_target.serialize(ser) {
            Ok(_) => {},
            Err(e) => {
                return Err(e);
            },
        }
        proof {
            vstd::seq_lib::lemma_concat_associative(old(ser).out(), self.set_camera_point_target.enc(old(ser).ctx()), self.camera_point_target.enc(old(ser).ctx()));
        }
        Ok(())
    }
}

proof fn deathscreenspec_reshape(ctx: ProtocolContext, input: Seq<u8>)
    ensures
        forall|v: DeathscreenSpec, rest: Seq<u8>|
            (#[trigger] v.enc(ctx).add(rest)) == input && v.rt_wf(ctx)
                && (<DeathscreenSpec as Deserialize>::prefix_safe() || rest.len() == 0)
                ==> v.set_camera_point_target.enc(ctx).add(v.camera_point_target.enc(ctx).add(rest)) == input,
{
    assert forall|v: DeathscreenSpec, rest: Seq<u8>|
        (#[trigger] v.enc(ctx).add(rest)) == input && v.rt_wf(ctx)
        && (<DeathscreenSpec as Deserialize>::prefix_safe() || rest.len() == 0)
        implies v.set_camera_point_target.enc(ctx).add(v.camera_point_target.enc(ctx).add(rest)) == input by {
        vstd::seq_lib::lemma_concat_associative(v.set_camera_point_target.enc(ctx), v.camera_point_target.enc(ctx), rest);
    }
}

impl Deserialize for DeathscreenSpec {
    open spec fn rt_wf(&self, ctx: ProtocolContext) -> bool {
        self.set_camera_point_target.rt_wf(ctx) && self.camera_point_target.rt_wf(ctx) && <bool as Deserialize>::prefix_safe()
    }

    open spec fn prefix_safe() -> bool {
        <bool as Deserialize>::prefix_safe() && <v3f as Deserialize>::prefix_safe()
    }

    fn deserialize(d: &mut Deserializer) -> (r: DeserializeResult<Self>) {
        let ghost ctx = d.ctx();
        let ghost input = d.rem();
        proof {
            deathscreenspec_reshape(ctx, input);
        }
        let set_camera_point_target = match <bool as Deserialize>::deserialize(d) {
            Ok(v) => v,
            Err(e) => {
                return Err(e);
            },
        };
        let camera_point_target = match <v3f as Deserialize>::deserialize(d) {
            Ok(v) => v,
            Err(e) => {
                return Err(e);
            },
        };
        Ok(DeathscreenSpec { set_camera_point_target, camera_point_target })
    }
}

#[derive(Debug, Clone, PartialEq, Eq)]
pub struct MediaSpec {
    pub num_bunches: u16,
    pub bunch_index: u16,
    pub files: Array32<MediaFileData>,
}

impl Serialize for MediaSpec {
    open spec fn enc(&self, ctx: ProtocolContext) -> Seq<u8> {
        self.num_bunches.enc(ctx) + self.bunch_index.enc(ctx) + self.files.enc(ctx)
    }

    open spec fn ser_wf(&self, ctx: ProtocolContext) -> bool {
        self.num_bunches.ser_wf(ctx) && self.bunch_index.ser_wf(ctx) && self.files.ser_wf(ctx)
    }

    open spec fn eqv(&self, other: &Self) -> bool {
        self.num_bunches.eqv(&other.num_bunches) && self.bunch_index.eqv(&other.bunch_index) && self.files.eqv(&other.files)
    }

    fn serialize(&self, ser: &mut VecSerializer) -> (r: SerializeResult) {
        match self.num_bunches.serialize(ser) {
            Ok(_) => {},
            Err(e) => {
                return Err(e);
            },
        }
        match self.bunch_index.serialize(ser) {
            Ok(_) => {},
            Err(e) => {
                return Err(e);
            },
        }
        match self.files.serialize(ser) {
            Ok(_) => {},
            Err(e) => {
                return Err(e);
            },
        }
        proof {
            vstd::seq_lib::lemma_concat_associative(old(ser).out(), self.num_bunches.enc(old(ser).ctx()), self.bunch_index.enc(old(ser).ctx()));
            vstd::seq_lib::lemma_concat_associative(old(ser).out(), self.num_bunches.enc(old(ser).ctx()) + self.bunch_index.enc(old(ser).ctx()), self.files.enc(old(ser).ctx()));
        }
        Ok(())
    }
}

proof fn mediaspec_reshape(ctx: ProtocolContext, input: Seq<u8>)
    ensures
        forall|v: MediaSpec, rest: Seq<u8>|
            (#[trigger] v.enc(ctx).add(rest)) == input && v.rt_wf(ctx)
                && (<MediaSpec as Deserialize>::prefix_safe() || rest.len() == 0)
                ==> v.num_bunches.enc(ctx).add(v.bunch_index.enc(ctx).add(v.files.enc(ctx).add(rest))) == input,
{
    assert forall|v: MediaSpec, rest: Seq<u8>|
        (#[trigger] v.enc(ctx).add(rest)) == input && v.rt_wf(ctx)
        && (<MediaSpec as Deserialize>::prefix_safe() || rest.len() == 0)
        implies v.num_bunches.enc(ctx).add(v.bunch_index.enc(ctx).add(v.files.enc(ctx).add(rest))) == input by {
        vstd::seq_lib::lemma_concat_associative(v.num_bunches.enc(ctx) + v.bunch_index.enc(ctx), v.files.enc(ctx), rest);
        vstd::seq_lib::lemma_concat_associative(v.num_bunches.enc(ctx), v.bunch_index.enc(ctx), v.files.enc(ctx).add(rest));
    }
}

impl Deserialize for MediaSpec {
    open spec fn rt_wf(&self, ctx: ProtocolContext) -> bool {
        self.num_bunches.rt_wf(ctx) && self.bunch_index.rt_wf(ctx) && self.files.rt_wf(ctx) && <u16 as Deserialize>::prefix_safe() && <u16 as Deserialize>::prefix_safe()
    }

    open spec fn prefix_safe() -> bool {
        <u16 as Deserialize>::prefix_safe() && <u16 as Deserialize>::prefix_safe() && <Array32<MediaFileData> as Deserialize>::prefix_safe()
    }

    fn deserialize(d: &mut Deserializer) -> (r: DeserializeResult<Self>) {
        let ghost ctx = d.ctx();
        let ghost input = d.rem();
        proof {
            mediaspec_reshape(ctx, input);
        }
        let num_bunches = match <u16 as Deserialize>::deserialize(d) {
            Ok(v) => v,
            Err(e) => {
                return Err(e);
            },
        };
        let bunch_index = match <u16 as Deserialize>::deserialize(d) {
            Ok(v) => v,
            Err(e) => {
                return Err(e);
            },
        };
        let files = match <Array32<MediaFileData> as Deserialize>::deserialize(d) {
            Ok(v) => v,
            Err(e) => {
                return Err(e);
            },
        };
        Ok(MediaSpec { num_bunches, bunch_index, files })
    }
}

#[derive(Debug, Clone, PartialEq, Eq)]
pub struct AnnounceMediaSpec {
    pub files: Array16<MediaAnnouncement>,
    pub remote_servers: ByteString,
}

impl Serialize for AnnounceMediaSpec {
    open spec fn enc(&self, ctx: ProtocolContext) -> Seq<u8> {
        self.files.enc(ctx) + self.remote_servers.enc(ctx)
    }

    open spec fn ser_wf(&self, ctx: ProtocolContext) -> bool {
        self.files.ser_wf(ctx) && self.remote_servers.ser_wf(ctx)
    }

    open spec fn eqv(&self, other: &Self) -> bool {
        self.files.eqv(&other.files) && self.remote_servers.eqv(&other.remote_servers)
    }

    fn serialize(&self, ser: &mut VecSerializer) -> (r: SerializeResult) {
        match self.files.serialize(ser) {
            Ok(_) => {},
            Err(e) => {
                return Err(e);
            },
        }
        match self.remote_servers.serialize(ser) {
            Ok(_) => {},
            Err(e) => {
                return Err(e);
            },
        }
        proof {
            vstd::seq_lib::lemma_concat_associative(old(ser).out(), self.files.enc(old(ser).ctx()), self.remote_servers.enc(old(ser).ctx()));
        }
        Ok(())
    }
}

proof fn announcemediaspec_reshape(ctx: ProtocolContext, input: Seq<u8>)
    ensures
        forall|v: AnnounceMediaSpec, rest: Seq<u8>|
            (#[trigger] v.enc(ctx).add(rest)) == input && v.rt_wf(ctx)
                && (<AnnounceMediaSpec as Deserialize>::prefix_safe() || rest.len() == 0)
                ==> v.files.enc(ctx).add(v.remote_servers.enc(ctx).add(rest)) == input,
{
    assert forall|v: AnnounceMediaSpec, rest: Seq<u8>|
        (#[trigger] v.enc(ctx).add(rest)) == input && v.rt_wf(ctx)
        && (<AnnounceMediaSpec as Deserialize>::prefix_safe() || rest.len() == 0)
        implies v.files.enc(ctx).add(v.remote_servers.enc(ctx).add(rest)) == input by {
        vstd::seq_lib::lemma_concat_associative(v.files.enc(ctx), v.remote_servers.enc(ctx), rest);
    }
}

impl Deserialize for AnnounceMediaSpec {
    open spec fn rt_wf(&self, ctx: ProtocolContext) -> bool {
        self.files.rt_wf(ctx) && self.remote_servers.rt_wf(ctx) && <Array16<MediaAnnouncement> as Deserialize>::prefix_safe()
    }

    open spec fn prefix_safe() -> bool {
        <Array16<MediaAnnouncement> as Deserialize>::prefix_safe() && <ByteString as Deserialize>::prefix_safe()
    }

    fn deserialize(d: &mut Deserializer) -> (r: DeserializeResult<Self>) {
        let ghost ctx = d.ctx();
        let ghost input = d.rem();
        proof {
            announcemediaspec_reshape(ctx, input);
        }
        let files = match <Array16<MediaAnnouncement> as Deserialize>::deserialize(d) {
            Ok(v) => v,
            Err(e) => {
                return Err(e);
            },
        };
        let remote_servers = match <ByteString as Deserialize>::deserialize(d) {
            Ok(v) => v,
            Err(e) => {
                return Err(e);
            },
        };
        Ok(AnnounceMediaSpec { files, remote_servers })
    }
}

#[derive(Debug, Clone, PartialEq, Eq)]
pub struct PlaySoundSpec {
    pub server_id: s32,
    pub spec_name: ByteString,
    pub spec_gain: f32bits,
    pub typ: u8,
    pub pos: v3f,
    pub object_id: u16,
    pub spec_loop: bool,
    pub spec_fade: Option<f32bits>,
    pub spec_pitch: Option<f32bits>,
    pub ephemeral: Option<bool>,
}

impl Serialize for PlaySoundSpec {
    open spec fn enc(&self, ctx: ProtocolContext) -> Seq<u8> {
        self.server_id.enc(ctx) + self.spec_name.enc(ctx) + self.spec_gain.enc(ctx) + self.typ.enc(ctx) + self.pos.enc(ctx) + self.object_id.enc(ctx) + self.spec_loop.enc(ctx) + self.spec_fade.enc(ctx) + self.spec_pitch.enc(ctx) + self.ephemeral.enc(ctx)
    }

    open spec fn ser_wf(&self, ctx: ProtocolContext) -> bool {
        self.server_id.ser_wf(ctx) && self.spec_name.ser_wf(ctx) && self.spec_gain.ser_wf(ctx) && self.typ.ser_wf(ctx) && self.pos.ser_wf(ctx) && self.object_id.ser_wf(ctx) && self.spec_loop.ser_wf(ctx) && self.spec_fade.ser_wf(ctx) && self.spec_pitch.ser_wf(ctx) && self.ephemeral.ser_wf(ctx)
    }

    open spec fn eqv(&self, other: &Self) -> bool {
        self.server_id.eqv(&other.server_id) && self.spec_name.eqv(&other.spec_name) && self.spec_gain.eqv(&other.spec_gain) && self.typ.eqv(&other.typ) && self.pos.eqv(&other.pos) && self.object_id.eqv(&other.object_id) && self.spec_loop.eqv(&other.spec_loop) && self.spec_fade.eqv(&other.spec_fade) && self.spec_pitch.eqv(&other.spec_pitch) && self.ephemeral.eqv(&other.ephemeral)
    }

    #[verifier::rlimit(100)]
    fn serialize(&self, ser: &mut VecSerializer) -> (r: SerializeResult) {
        match self.server_id.serialize(ser) {
            Ok(_) => {},
            Err(e) => {
                return Err(e);
            },
        }
        match self.spec_name.serialize(ser) {
            Ok(_) => {},
            Err(e) => {
                return Err(e);
            },
        }
        match self.spec_gain.serialize(ser) {
            Ok(_) => {},
            Err(e) => {
                return Err(e);
            },
        }
        match self.typ.serialize(ser) {
            Ok(_) => {},
            Err(e) => {
                return Err(e);
            },
        }
        match self.pos.serialize(ser) {
            Ok(_) => {},
            Err(e) => {
                return Err(e);
            },
        }
        match self.object_id.serialize(ser) {
            Ok(_) => {},
            Err(e) => {
                return Err(e);
            },
        }
        match self.spec_loop.serialize(ser) {
            Ok(_) => {},
            Err(e) => {
                return Err(e);
            },
        }
        match self.spec_fade.serialize(ser) {
            Ok(_) => {},
            Err(e) => {
                return Err(e);
            },
        }
        match self.spec_pitch.serialize(ser) {
            Ok(_) => {},
            Err(e) => {
                return Err(e);
            },
        }
        match self.ephemeral.serialize(ser) {
            Ok(_) => {},
            Err(e) => {
                return Err(e);
            },
        }
        proof {
            vstd::seq_lib::lemma_concat_associative(old(ser).out(), self.server_id.enc(old(ser).ctx()), self.spec_name.enc(old(ser).ctx()));
            vstd::seq_lib::lemma_concat_associative(old(ser).out(), self.server_id.enc(old(ser).ctx()) + self.spec_name.enc(old(ser).ctx()), self.spec_gain.enc(old(ser).ctx()));
            vstd::seq_lib::lemma_concat_associative(old(ser).out(), self.server_id.enc(old(ser).ctx()) + self.spec_name.enc(old(ser).ctx()) + self.spec_gain.enc(old(ser).ctx()), self.typ.enc(old(ser).ctx()));
            vstd::seq_lib::lemma_concat_associative(old(ser).out(), self.server_id.enc(old(ser).ctx()) + self.spec_name.enc(old(ser).ctx()) + self.spec_gain.enc(old(ser).ctx()) + self.typ.enc(old(ser).ctx()), self.pos.enc(old(ser).ctx()));
            vstd::seq_lib::lemma_concat_associative(old(ser).out(), self.server_id.enc(old(ser).ctx()) + self.spec_name.enc(old(ser).ctx()) + self.spec_gain.enc(old(ser).ctx()) + self.typ.enc(old(ser).ctx()) + self.pos.enc(old(ser).ctx()), self.object_id.enc(old(ser).ctx()));
            vstd::seq_lib::lemma_concat_associative(old(ser).out(), self.server_id.enc(old(ser).ctx()) + self.spec_name.enc(old(ser).ctx()) + self.spec_gain.enc(old(ser).ctx()) + self.typ.enc(old(ser).ctx()) + self.pos.enc(old(ser).ctx()) + self.object_id.enc(old(ser).ctx()), self.spec_loop.enc(old(ser).ctx()));
            vstd::seq_lib::lemma_concat_associative(old(ser).out(), self.server_id.enc(old(ser).ctx()) + self.spec_name.enc(old(ser).ctx()) + self.spec_gain.enc(old(ser).ctx()) + self.typ.enc(old(ser).ctx()) + self.pos.enc(old(ser).ctx()) + self.object_id.enc(old(ser).ctx()) + self.spec_loop.enc(old(ser).ctx()), self.spec_fade.enc(old(ser).ctx()));
            vstd::seq_lib::lemma_concat_associative(old(ser).out(), self.server_id.enc(old(ser).ctx()) + self.spec_name.enc(old(ser).ctx()) + self.spec_gain.enc(old(ser).ctx()) + self.typ.enc(old(ser).ctx()) + self.pos.enc(old(ser).ctx()) + self.object_id.enc(old(ser).ctx()) + self.spec_loop.enc(old(ser).ctx()) + self.spec_fade.enc(old(ser).ctx()), self.spec_pitch.enc(old(ser).ctx()));
            vstd::seq_lib::lemma_concat_associative(old(ser).out(), self.server_id.enc(old(ser).ctx()) + self.spec_name.enc(old(ser).ctx()) + self.spec_gain.enc(old(ser).ctx()) + self.typ.enc(old(ser).ctx()) + self.pos.enc(old(ser).ctx()) + self.object_id.enc(old(ser).ctx()) + self.spec_loop.enc(old(ser).ctx()) + self.spec_fade.enc(old(ser).ctx()) + self.spec_pitch.enc(old(ser).ctx()), self.ephemeral.enc(old(ser).ctx()));
        }
        Ok(())
    }
}

#[verifier::rlimit(100)]
proof fn playsoundspec_reshape(ctx: ProtocolContext, input: Seq<u8>)
    ensures
        forall|v: PlaySoundSpec, rest: Seq<u8>|
            (#[trigger] v.enc(ctx).add(rest)) == input && v.rt_wf(ctx)
                && (<PlaySoundSpec as Deserialize>::prefix_safe() || rest.len() == 0)
                ==> v.server_id.enc(ctx).add(v.spec_name.enc(ctx).add(v.spec_gain.enc(ctx).add(v.typ.enc(ctx).add(v.pos.enc(ctx).add(v.object_id.enc(ctx).add(v.spec_loop.enc(ctx).add(v.spec_fade.enc(ctx).add(v.spec_pitch.enc(ctx).add(v.ephemeral.enc(ctx).add(rest)))))))))) == input && (v.spec_fade matches Some(x) ==> x.enc(ctx).add(v.spec_pitch.enc(ctx).add(v.ephemeral.enc(ctx).add(rest))) == v.spec_fade.enc(ctx).add(v.spec_pitch.enc(ctx).add(v.ephemeral.enc(ctx).add(rest)))) && (v.spec_fade is None ==> v.spec_fade.enc(ctx).add(v.spec_pitch.enc(ctx).add(v.ephemeral.enc(ctx).add(rest))).len() == 0) && (v.spec_pitch matches Some(x) ==> x.enc(ctx).add(v.ephemeral.enc(ctx).add(rest)) == v.spec_pitch.enc(ctx).add(v.ephemeral.enc(ctx).add(rest))) && (v.spec_pitch is None ==> v.spec_pitch.enc(ctx).add(v.ephemeral.enc(ctx).add(rest)).len() == 0) && (v.ephemeral matches Some(x) ==> x.enc(ctx).add(rest) == v.ephemeral.enc(ctx).add(rest)) && (v.ephemeral is None ==> v.ephemeral.enc(ctx).add(rest).len() == 0),
{
    assert forall|v: PlaySoundSpec, rest: Seq<u8>|
        (#[trigger] v.enc(ctx).add(rest)) == input && v.rt_wf(ctx)
        && (<PlaySoundSpec as Deserialize>::prefix_safe() || rest.len() == 0)
        implies v.server_id.enc(ctx).add(v.spec_name.enc(ctx).add(v.spec_gain.enc(ctx).add(v.typ.enc(ctx).add(v.pos.enc(ctx).add(v.object_id.enc(ctx).add(v.spec_loop.enc(ctx).add(v.spec_fade.enc(ctx).add(v.spec_pitch.enc(ctx).add(v.ephemeral.enc(ctx).add(rest)))))))))) == input && (v.spec_fade matches Some(x) ==> x.enc(ctx).add(v.spec_pitch.enc(ctx).add(v.ephemeral.enc(ctx).add(rest))) == v.spec_fade.enc(ctx).add(v.spec_pitch.enc(ctx).add(v.ephemeral.enc(ctx).add(rest)))) && (v.spec_fade is None ==> v.spec_fade.enc(ctx).add(v.spec_pitch.enc(ctx).add(v.ephemeral.enc(ctx).add(rest))).len() == 0) && (v.spec_pitch matches Some(x) ==> x.enc(ctx).add(v.ephemeral.enc(ctx).add(rest)) == v.spec_pitch.enc(ctx).add(v.ephemeral.enc(ctx).add(rest))) && (v.spec_pitch is None ==> v.spec_pitch.enc(ctx).add(v.ephemeral.enc(ctx).add(rest)).len() == 0) && (v.ephemeral matches Some(x) ==> x.enc(ctx).add(rest) == v.ephemeral.enc(ctx).add(rest)) && (v.ephemeral is None ==> v.ephemeral.enc(ctx).add(rest).len() == 0) by {
        vstd::seq_lib::lemma_concat_associative(v.server_id.enc(ctx) + v.spec_name.enc(ctx) + v.spec_gain.enc(ctx) + v.typ.enc(ctx) + v.pos.enc(ctx) + v.object_id.enc(ctx) + v.spec_loop.enc(ctx) + v.spec_fade.enc(ctx) + v.spec_pitch.enc(ctx), v.ephemeral.enc(ctx), rest);
        vstd::seq_lib::lemma_concat_associative(v.server_id.enc(ctx) + v.spec_name.enc(ctx) + v.spec_gain.enc(ctx) + v.typ.enc(ctx) + v.pos.enc(ctx) + v.object_id.enc(ctx) + v.spec_loop.enc(ctx) + v.spec_fade.enc(ctx), v.spec_pitch.enc(ctx), v.ephemeral.enc(ctx).add(rest));
        vstd::seq_lib::lemma_concat_associative(v.server_id.enc(ctx) + v.spec_name.enc(ctx) + v.spec_gain.enc(ctx) + v.typ.enc(ctx) + v.pos.enc(ctx) + v.object_id.enc(ctx) + v.spec_loop.enc(ctx), v.spec_fade.enc(ctx), v.spec_pitch.enc(ctx).add(v.ephemeral.enc(ctx).add(rest)));
        vstd::seq_lib::lemma_concat_associative(v.server_id.enc(ctx) + v.spec_name.enc(ctx) + v.spec_gain.enc(ctx) + v.typ.enc(ctx) + v.pos.enc(ctx) + v.object_id.enc(ctx), v.spec_loop.enc(ctx), v.spec_fade.enc(ctx).add(v.spec_pitch.enc(ctx).add(v.ephemeral.enc(ctx).add(rest))));
        vstd::seq_lib::lemma_concat_associative(v.server_id.enc(ctx) + v.spec_name.enc(ctx) + v.spec_gain.enc(ctx) + v.typ.enc(ctx) + v.pos.enc(ctx), v.object_id.enc(ctx), v.spec_loop.enc(ctx).add(v.spec_fade.enc(ctx).add(v.spec_pitch.enc(ctx).add(v.ephemeral.enc(ctx).add(rest)))));
        vstd::seq_lib::lemma_concat_associative(v.server_id.enc(ctx) + v.spec_name.enc(ctx) + v.spec_gain.enc(ctx) + v.typ.enc(ctx), v.pos.enc(ctx), v.object_id.enc(ctx).add(v.spec_loop.enc(ctx).add(v.spec_fade.enc(ctx).add(v.spec_pitch.enc(ctx).add(v.ephemeral.enc(ctx).add(rest))))));
        vstd::seq_lib::lemma_concat_associative(v.server_id.enc(ctx) + v.spec_name.enc(ctx) + v.spec_gain.enc(ctx), v.typ.enc(ctx), v.pos.enc(ctx).add(v.object_id.enc(ctx).add(v.spec_loop.enc(ctx).add(v.spec_fade.enc(ctx).add(v.spec_pitch.enc(ctx).add(v.ephemeral.enc(ctx).add(rest)))))));
        vstd::seq_lib::lemma_concat_associative(v.server_id.enc(ctx) + v.spec_name.enc(ctx), v.spec_gain.enc(ctx), v.typ.enc(ctx).add(v.pos.enc(ctx).add(v.object_id.enc(ctx).add(v.spec_loop.enc(ctx).add(v.spec_fade.enc(ctx).add(v.spec_pitch.enc(ctx).add(v.ephemeral.enc(ctx).add(rest))))))));
        vstd::seq_lib::lemma_concat_associative(v.server_id.enc(ctx), v.spec_name.enc(ctx), v.spec_gain.enc(ctx).add(v.typ.enc(ctx).add(v.pos.enc(ctx).add(v.object_id.enc(ctx).add(v.spec_loop.enc(ctx).add(v.spec_fade.enc(ctx).add(v.spec_pitch.enc(ctx).add(v.ephemeral.enc(ctx).add(rest)))))))));
        match v.spec_fade {
            Some(x) => {
                assert(x.enc(ctx).add(v.spec_pitch.enc(ctx).add(v.ephemeral.enc(ctx).add(rest))) =~= v.spec_fade.enc(ctx).add(v.spec_pitch.enc(ctx).add(v.ephemeral.enc(ctx).add(rest))));
            },
            None => {
                assert(v.spec_fade.enc(ctx).add(v.spec_pitch.enc(ctx).add(v.ephemeral.enc(ctx).add(rest))) =~= v.spec_pitch.enc(ctx).add(v.ephemeral.enc(ctx).add(rest)));
            },
        }
        match v.spec_pitch {
            Some(x) => {
                assert(x.enc(ctx).add(v.ephemeral.enc(ctx).add(rest)) =~= v.spec_pitch.enc(ctx).add(v.ephemeral.enc(ctx).add(rest)));
            },
            None => {
                assert(v.spec_pitch.enc(ctx).add(v.ephemeral.enc(ctx).add(rest)) =~= v.ephemeral.enc(ctx).add(rest));
            },
        }
        match v.ephemeral {
            Some(x) => {
                assert(x.enc(ctx).add(rest) =~= v.ephemeral.enc(ctx).add(rest));
            },
            None => {
                assert(v.ephemeral.enc(ctx).add(rest) =~= rest);
            },
        }
    }
}

impl Deserialize for PlaySoundSpec {
    open spec fn rt_wf(&self, ctx: ProtocolContext) -> bool {
        self.server_id.rt_wf(ctx) && self.spec_name.rt_wf(ctx) && self.spec_gain.rt_wf(ctx) && self.typ.rt_wf(ctx) && self.pos.rt_wf(ctx) && self.object_id.rt_wf(ctx) && self.spec_loop.rt_wf(ctx) && self.spec_fade.rt_wf(ctx) && self.spec_pitch.rt_wf(ctx) && self.ephemeral.rt_wf(ctx) && <s32 as Deserialize>::prefix_safe() && <ByteString as Deserialize>::prefix_safe() && <f32bits as Deserialize>::prefix_safe() && <u8 as Deserialize>::prefix_safe() && <v3f as Deserialize>::prefix_safe() && <u16 as Deserialize>::prefix_safe() && <bool as Deserialize>::prefix_safe() && <f32bits as Deserialize>::prefix_safe() && <f32bits as Deserialize>::prefix_safe() && <bool as Deserialize>::prefix_safe() && (self.spec_pitch is Some ==> self.spec_fade is Some) && (self.ephemeral is Some ==> self.spec_pitch is Some)
    }

    open spec fn prefix_safe() -> bool {
        <s32 as Deserialize>::prefix_safe() && <ByteString as Deserialize>::prefix_safe() && <f32bits as Deserialize>::prefix_safe() && <u8 as Deserialize>::prefix_safe() && <v3f as Deserialize>::prefix_safe() && <u16 as Deserialize>::prefix_safe() && <bool as Deserialize>::prefix_safe() && <Option<f32bits> as Deserialize>::prefix_safe() && <Option<f32bits> as Deserialize>::prefix_safe() && <Option<bool> as Deserialize>::prefix_safe()
    }

    fn deserialize(d: &mut Deserializer) -> (r: DeserializeResult<Self>) {
        let ghost ctx = d.ctx();
        let ghost input = d.rem();
        proof {
            playsoundspec_reshape(ctx, input);
        }
        let server_id = match <s32 as Deserialize>::deserialize(d) {
            Ok(v) => v,
            Err(e) => {
                return Err(e);
            },
        };
        let spec_name = match <ByteString as Deserialize>::deserialize(d) {
            Ok(v) => v,
            Err(e) => {
                return Err(e);
            },
        };
        let spec_gain = match <f32bits as Deserialize>::deserialize(d) {
            Ok(v) => v,
            Err(e) => {
                return Err(e);
            },
        };
        let typ = match <u8 as Deserialize>::deserialize(d) {
            Ok(v) => v,
            Err(e) => {
                return Err(e);
            },
        };
        let pos = match <v3f as Deserialize>::deserialize(d) {
            Ok(v) => v,
            Err(e) => {
                return Err(e);
            },
        };
        let object_id = match <u16 as Deserialize>::deserialize(d) {
            Ok(v) => v,
            Err(e) => {
                return Err(e);
            },
        };
        let spec_loop = match <bool as Deserialize>::deserialize(d) {
            Ok(v) => v,
            Err(e) => {
                return Err(e);
            },
        };
        let spec_fade = if d.remaining() == 0 {
            None
        } else {
            match <f32bits as Deserialize>::deserialize(d) {
                Ok(v) => Some(v),
                Err(e) => {
                    return Err(e);
                },
            }
        };
        let spec_pitch = if d.remaining() == 0 {
            None
        } else {
            match <f32bits as Deserialize>::deserialize(d) {
                Ok(v) => Some(v),
                Err(e) => {
                    return Err(e);
                },
            }
        };
        let ephemeral = if d.remaining() == 0 {
            None
        } else {
            match <bool as Deserialize>::deserialize(d) {
                Ok(v) => Some(v),
                Err(e) => {
                    return Err(e);
                },
            }
        };
        Ok(PlaySoundSpec { server_id, spec_name, spec_gain, typ, pos, object_id, spec_loop, spec_fade, spec_pitch, ephemeral })
    }
}

#[derive(Debug, Clone, PartialEq, Eq)]
pub struct StopSoundSpec {
    pub server_id: s32,
}

impl Serialize for StopSoundSpec {
    open spec fn enc(&self, ctx: ProtocolContext) -> Seq<u8> {
        self.server_id.enc(ctx)
    }

    open spec fn ser_wf(&self, ctx: ProtocolContext) -> bool {
        self.server_id.ser_wf(ctx)
    }

    open spec fn eqv(&self, other: &Self) -> bool {
        self.server_id.eqv(&other.server_id)
    }

    fn serialize(&self, ser: &mut VecSerializer) -> (r: SerializeResult) {
        match self.server_id.serialize(ser) {
            Ok(_) => {},
            Err(e) => {
                return Err(e);
            },
        }
        proof {
        }
        Ok(())
    }
}

proof fn stopsoundspec_reshape(ctx: ProtocolContext, input: Seq<u8>)
    ensures
        forall|v: StopSoundSpec, rest: Seq<u8>|
            (#[trigger] v.enc(ctx).add(rest)) == input && v.rt_wf(ctx)
                && (<StopSoundSpec as Deserialize>::prefix_safe() || rest.len() == 0)
                ==> v.server_id.enc(ctx).add(rest) == input,
{
    assert forall|v: StopSoundSpec, rest: Seq<u8>|
        (#[trigger] v.enc(ctx).add(rest)) == input && v.rt_wf(ctx)
        && (<StopSoundSpec as Deserialize>::prefix_safe() || rest.len() == 0)
        implies v.server_id.enc(ctx).add(rest) == input by {
    }
}

impl Deserialize for StopSoundSpec {
    open spec fn rt_wf(&self, ctx: ProtocolContext) -> bool {
        self.server_id.rt_wf(ctx)
    }

    open spec fn prefix_safe() -> bool {
        <s32 as Deserialize>::prefix_safe()
    }

    fn deserialize(d: &mut Deserializer) -> (r: DeserializeResult<Self>) {
        let ghost ctx = d.ctx();
        let ghost input = d.rem();
        proof {
            stopsoundspec_reshape(ctx, input);
        }
        let server_id = match <s32 as Deserialize>::deserialize(d) {
            Ok(v) => v,
            Err(e) => {
                return Err(e);
            },
        };
        Ok(StopSoundSpec { server_id })
    }
}

#[derive(Debug, Clone, PartialEq, Eq)]
pub struct InventorySpec {
    pub inventory: Inventory,
}

impl Serialize for InventorySpec {
    open spec fn enc(&self, ctx: ProtocolContext) -> Seq<u8> {
        self.inventory.enc(ctx)
    }

    open spec fn ser_wf(&self, ctx: ProtocolContext) -> bool {
        self.inventory.ser_wf(ctx)
    }

    open spec fn eqv(&self, other: &Self) -> bool {
        self.inventory.eqv(&other.inventory)
    }

    fn serialize(&self, ser: &mut VecSerializer) -> (r: SerializeResult) {
        match self.inventory.serialize(ser) {
            Ok(_) => {},
            Err(e) => {
                return Err(e);
            },
        }
        proof {
        }
        Ok(())
    }
}

proof fn inventoryspec_reshape(ctx: ProtocolContext, input: Seq<u8>)
    ensures
        forall|v: InventorySpec, rest: Seq<u8>|
            (#[trigger] v.enc(ctx).add(rest)) == input && v.rt_wf(ctx)
                && (<InventorySpec as Deserialize>::prefix_safe() || rest.len() == 0)
                ==> v.inventory.enc(ctx).add(rest) == input,
{
    assert forall|v: InventorySpec, rest: Seq<u8>|
        (#[trigger] v.enc(ctx).add(rest)) == input && v.rt_wf(ctx)
        && (<InventorySpec as Deserialize>::prefix_safe() || rest.len() == 0)
        implies v.inventory.enc(ctx).add(rest) == input by {
    }
}

impl Deserialize for InventorySpec {
    open spec fn rt_wf(&self, ctx: ProtocolContext) -> bool {
        self.inventory.rt_wf(ctx)
    }

    open spec fn prefix_safe() -> bool {
        <Inventory as Deserialize>::prefix_safe()
    }

    fn deserialize(d: &mut Deserializer) -> (r: DeserializeResult<Self>) {
        let ghost ctx = d.ctx();
        let ghost input = d.rem();
        proof {
            inventoryspec_reshape(ctx, input);
        }
        let inventory = match <Inventory as Deserialize>::deserialize(d) {
            Ok(v) => v,
            Err(e) => {
                return Err(e);
            },
        };
        Ok(InventorySpec { inventory })
    }
}

#[derive(Debug, Clone, PartialEq, Eq)]
pub struct DetachedInventorySpec {
    pub name: ByteString,
    pub keep_inv: bool,
    pub ignore: Option<u16>,
    pub contents: Option<Inventory>,
}

impl Serialize for DetachedInventorySpec {
    open spec fn enc(&self, ctx: ProtocolContext) -> Seq<u8> {
        self.name.enc(ctx) + self.keep_inv.enc(ctx) + self.ignore.enc(ctx) + self.contents.enc(ctx)
    }

    open spec fn ser_wf(&self, ctx: ProtocolContext) -> bool {
        self.name.ser_wf(ctx) && self.keep_inv.ser_wf(ctx) && self.ignore.ser_wf(ctx) && self.contents.ser_wf(ctx)
    }

    open spec fn eqv(&self, other: &Self) -> bool {
        self.name.eqv(&other.name) && self.keep_inv.eqv(&other.keep_inv) && self.ignore.eqv(&other.ignore) && self.contents.eqv(&other.contents)
    }

    fn serialize(&self, ser: &mut VecSerializer) -> (r: SerializeResult) {
        match self.name.serialize(ser) {
            Ok(_) => {},
            Err(e) => {
                return Err(e);
            },
        }
        match self.keep_inv.serialize(ser) {
            Ok(_) => {},
            Err(e) => {
                return Err(e);
            },
        }
        match self.ignore.serialize(ser) {
            Ok(_) => {},
            Err(e) => {
                return Err(e);
            },
        }
        match self.contents.serialize(ser) {
            Ok(_) => {},
            Err(e) => {
                return Err(e);
            },
        }
        proof {
            vstd::seq_lib::lemma_concat_associative(old(ser).out(), self.name.enc(old(ser).ctx()), self.keep_inv.enc(old(ser).ctx()));
            vstd::seq_lib::lemma_concat_associative(old(ser).out(), self.name.enc(old(ser).ctx()) + self.keep_inv.enc(old(ser).ctx()), self.ignore.enc(old(ser).ctx()));
            vstd::seq_lib::lemma_concat_associative(old(ser).out(), self.name.enc(old(ser).ctx()) + self.keep_inv.enc(old(ser).ctx()) + self.ignore.enc(old(ser).ctx()), self.contents.enc(old(ser).ctx()));
        }
        Ok(())
    }
}

proof fn detachedinventoryspec_reshape(ctx: ProtocolContext, input: Seq<u8>)
    ensures
        forall|v: DetachedInventorySpec, rest: Seq<u8>|
            (#[trigger] v.enc(ctx).add(rest)) == input && v.rt_wf(ctx)
                && (<DetachedInventorySpec as Deserialize>::prefix_safe() || rest.len() == 0)
                ==> v.name.enc(ctx).add(v.keep_inv.enc(ctx).add(v.ignore.enc(ctx).add(v.contents.enc(ctx).add(rest)))) == input && (v.ignore matches Some(x) ==> x.enc(ctx).add(v.contents.enc(ctx).add(rest)) == v.ignore.enc(ctx).add(v.contents.enc(ctx).add(rest))) && (v.ignore is None ==> v.ignore.enc(ctx).add(v.contents.enc(ctx).add(rest)).len() == 0) && (v.contents matches Some(x) ==> x.enc(ctx).add(rest) == v.contents.enc(ctx).add(rest)) && (v.contents is None ==> v.contents.enc(ctx).add(rest).len() == 0),
{
    assert forall|v: DetachedInventorySpec, rest: Seq<u8>|
        (#[trigger] v.enc(ctx).add(rest)) == input && v.rt_wf(ctx)
        && (<DetachedInventorySpec as Deserialize>::prefix_safe() || rest.len() == 0)
        implies v.name.enc(ctx).add(v.keep_inv.enc(ctx).add(v.ignore.enc(ctx).add(v.contents.enc(ctx).add(rest)))) == input && (v.ignore matches Some(x) ==> x.enc(ctx).add(v.contents.enc(ctx).add(rest)) == v.ignore.enc(ctx).add(v.contents.enc(ctx).add(rest))) && (v.ignore is None ==> v.ignore.enc(ctx).add(v.contents.enc(ctx).add(rest)).len() == 0) && (v.contents matches Some(x) ==> x.enc(ctx).add(rest) == v.contents.enc(ctx).add(rest)) && (v.contents is None ==> v.contents.enc(ctx).add(rest).len() == 0) by {
        vstd::seq_lib::lemma_concat_associative(v.name.enc(ctx) + v.keep_inv.enc(ctx) + v.ignore.enc(ctx), v.contents.enc(ctx), rest);
        vstd::seq_lib::lemma_concat_associative(v.name.enc(ctx) + v.keep_inv.enc(ctx), v.ignore.enc(ctx), v.contents.enc(ctx).add(rest));
        vstd::seq_lib::lemma_concat_associative(v.name.enc(ctx), v.keep_inv.enc(ctx), v.ignore.enc(ctx).add(v.contents.enc(ctx).add(rest)));
        match v.ignore {
            Some(x) => {
                assert(x.enc(ctx).add(v.contents.enc(ctx).add(rest)) =~= v.ignore.enc(ctx).add(v.contents.enc(ctx).add(rest)));
            },
            None => {
                assert(v.ignore.enc(ctx).add(v.contents.enc(ctx).add(rest)) =~= v.contents.enc(ctx).add(rest));
            },
        }
        match v.contents {
            Some(x) => {
                assert(x.enc(ctx).add(rest) =~= v.contents.enc(ctx).add(rest));
            },
            None => {
                assert(v.contents.enc(ctx).add(rest) =~= rest);
            },
        }
    }
}

impl Deserialize for DetachedInventorySpec {
    open spec fn rt_wf(&self, ctx: ProtocolContext) -> bool {
        self.name.rt_wf(ctx) && self.keep_inv.rt_wf(ctx) && self.ignore.rt_wf(ctx) && self.contents.rt_wf(ctx) && <ByteString as Deserialize>::prefix_safe() && <bool as Deserialize>::prefix_safe() && <u16 as Deserialize>::prefix_safe() && <Inventory as Deserialize>::prefix_safe() && (self.contents is Some ==> self.ignore is Some)
    }

    open spec fn prefix_safe() -> bool {
        <ByteString as Deserialize>::prefix_safe() && <bool as Deserialize>::prefix_safe() && <Option<u16> as Deserialize>::prefix_safe() && <Option<Inventory> as Deserialize>::prefix_safe()
    }

    fn deserialize(d: &mut Deserializer) -> (r: DeserializeResult<Self>) {
        let ghost ctx = d.ctx();
        let ghost input = d.rem();
        proof {
            detachedinventoryspec_reshape(ctx, input);
        }
        let name = match <ByteString as Deserialize>::deserialize(d) {
            Ok(v) => v,
            Err(e) => {
                return Err(e);
            },
        };
        let keep_inv = match <bool as Deserialize>::deserialize(d) {
            Ok(v) => v,
            Err(e) => {
                return Err(e);
            },
        };
        let ignore = if d.remaining() == 0 {
            None
        } else {
            match <u16 as Deserialize>::deserialize(d) {
                Ok(v) => Some(v),
                Err(e) => {
                    return Err(e);
                },
            }
        };
        let contents = if d.remaining() == 0 {
            None
        } else {
            match <Inventory as Deserialize>::deserialize(d) {
                Ok(v) => Some(v),
                Err(e) => {
                    return Err(e);
                },
            }
        };
        Ok(DetachedInventorySpec { name, keep_inv, ignore, contents })
    }
}

#[derive(Debug, Clone, PartialEq, Eq)]
pub struct PrivilegesSpec {
    pub privileges: Array16<ByteString>,
}

impl Serialize for PrivilegesSpec {
    open spec fn enc(&self, ctx: ProtocolContext) -> Seq<u8> {
        self.privileges.enc(ctx)
    }

    open spec fn ser_wf(&self, ctx: ProtocolContext) -> bool {
        self.privileges.ser_wf(ctx)
    }

    open spec fn eqv(&self, other: &Self) -> bool {
        self.privileges.eqv(&other.privileges)
    }

    fn serialize(&self, ser: &mut VecSerializer) -> (r: SerializeResult) {
        match self.privileges.serialize(ser) {
            Ok(_) => {},
            Err(e) => {
                return Err(e);
            },
        }
        proof {
        }
        Ok(())
    }
}

proof fn privilegesspec_reshape(ctx: ProtocolContext, input: Seq<u8>)
    ensures
        forall|v: PrivilegesSpec, rest: Seq<u8>|
            (#[trigger] v.enc(ctx).add(rest)) == input && v.rt_wf(ctx)
                && (<PrivilegesSpec as Deserialize>::prefix_safe() || rest.len() == 0)
                ==> v.privileges.enc(ctx).add(rest) == input,
{
    assert forall|v: PrivilegesSpec, rest: Seq<u8>|
        (#[trigger] v.enc(ctx).add(rest)) == input && v.rt_wf(ctx)
        && (<PrivilegesSpec as Deserialize>::prefix_safe() || rest.len() == 0)
        implies v.privileges.enc(ctx).add(rest) == input by {
    }
}

impl Deserialize for PrivilegesSpec {
    open spec fn rt_wf(&self, ctx: ProtocolContext) -> bool {
        self.privileges.rt_wf(ctx)
    }

    open spec fn prefix_safe() -> bool {
        <Array16<ByteString> as Deserialize>::prefix_safe()
    }

    fn deserialize(d: &mut Deserializer) -> (r: DeserializeResult<Self>) {
        let ghost ctx = d.ctx();
        let ghost input = d.rem();
        proof {
            privilegesspec_reshape(ctx, input);
        }
        let privileges = match <Array16<ByteString> as Deserialize>::deserialize(d) {
            Ok(v) => v,
            Err(e) => {
                return Err(e);
            },
        };
        Ok(PrivilegesSpec { privileges })
    }
}

#[derive(Debug, Clone, PartialEq, Eq)]
pub struct InventoryFormspecSpec {
    pub formspec: LongString,
}

impl Serialize for InventoryFormspecSpec {
    open spec fn enc(&self, ctx: ProtocolContext) -> Seq<u8> {
        self.formspec.enc(ctx)
    }

    open spec fn ser_wf(&self, ctx: ProtocolContext) -> bool {
        self.formspec.ser_wf(ctx)
    }

    open spec fn eqv(&self, other: &Self) -> bool {
        self.formspec.eqv(&other.formspec)
    }

    fn serialize(&self, ser: &mut VecSerializer) -> (r: SerializeResult) {
        match self.formspec.serialize(ser) {
            Ok(_) => {},
            Err(e) => {
                return Err(e);
            },
        }
        proof {
        }
        Ok(())
    }
}

proof fn inventoryformspecspec_reshape(ctx: ProtocolContext, input: Seq<u8>)
    ensures
        forall|v: InventoryFormspecSpec, rest: Seq<u8>|
            (#[trigger] v.enc(ctx).add(rest)) == input && v.rt_wf(ctx)
                && (<InventoryFormspecSpec as Deserialize>::prefix_safe() || rest.len() == 0)
                ==> v.formspec.enc(ctx).add(rest) == input,
{
    assert forall|v: InventoryFormspecSpec, rest: Seq<u8>|
        (#[trigger] v.enc(ctx).add(rest)) == input && v.rt_wf(ctx)
        && (<InventoryFormspecSpec as Deserialize>::prefix_safe() || rest.len() == 0)
        implies v.formspec.enc(ctx).add(rest) == input by {
    }
}

impl Deserialize for InventoryFormspecSpec {
    open spec fn rt_wf(&self, ctx: ProtocolContext) -> bool {
        self.formspec.rt_wf(ctx)
    }

    open spec fn prefix_safe() -> bool {
        <LongString as Deserialize>::prefix_safe()
    }

    fn deserialize(d: &mut Deserializer) -> (r: DeserializeResult<Self>) {
        let ghost ctx = d.ctx();
        let ghost input = d.rem();
        proof {
            inventoryformspecspec_reshape(ctx, input);
        }
        let formspec = match <LongString as Deserialize>::deserialize(d) {
            Ok(v) => v,
            Err(e) => {
                return Err(e);
            },
        };
        Ok(InventoryFormspecSpec { formspec })
    }
}

#[derive(Debug, Clone, PartialEq, Eq)]
pub struct ShowFormspecSpec {
    pub form_spec: LongString,
    pub form_name: ByteString,
}

impl Serialize for ShowFormspecSpec {
    open spec fn enc(&self, ctx: ProtocolContext) -> Seq<u8> {
        self.form_spec.enc(ctx) + self.form_name.enc(ctx)
    }

    open spec fn ser_wf(&self, ctx: ProtocolContext) -> bool {
        self.form_spec.ser_wf(ctx) && self.form_name.ser_wf(ctx)
    }

    open spec fn eqv(&self, other: &Self) -> bool {
        self.form_spec.eqv(&other.form_spec) && self.form_name.eqv(&other.form_name)
    }

    fn serialize(&self, ser: &mut VecSerializer) -> (r: SerializeResult) {
        match self.form_spec.serialize(ser) {
            Ok(_) => {},
            Err(e) => {
                return Err(e);
            },
        }
        match self.form_name.serialize(ser) {
            Ok(_) => {},
            Err(e) => {
                return Err(e);
            },
        }
        proof {
            vstd::seq_lib::lemma_concat_associative(old(ser).out(), self.form_spec.enc(old(ser).ctx()), self.form_name.enc(old(ser).ctx()));
        }
        Ok(())
    }
}

proof fn showformspecspec_reshape(ctx: ProtocolContext, input: Seq<u8>)
    ensures
        forall|v: ShowFormspecSpec, rest: Seq<u8>|
            (#[trigger] v.enc(ctx).add(rest)) == input && v.rt_wf(ctx)
                && (<ShowFormspecSpec as Deserialize>::prefix_safe() || rest.len() == 0)
                ==> v.form_spec.enc(ctx).add(v.form_name.enc(ctx).add(rest)) == input,
{
    assert forall|v: ShowFormspecSpec, rest: Seq<u8>|
        (#[trigger] v.enc(ctx).add(rest)) == input && v.rt_wf(ctx)
        && (<ShowFormspecSpec as Deserialize>::prefix_safe() || rest.len() == 0)
        implies v.form_spec.enc(ctx).add(v.form_name.enc(ctx).add(rest)) == input by {
        vstd::seq_lib::lemma_concat_associative(v.form_spec.enc(ctx), v.form_name.enc(ctx), rest);
    }
}

impl Deserialize for ShowFormspecSpec {
    open spec fn rt_wf(&self, ctx: ProtocolContext) -> bool {
        self.form_spec.rt_wf(ctx) && self.form_name.rt_wf(ctx) && <LongString as Deserialize>::prefix_safe()
    }

    open spec fn prefix_safe() -> bool {
        <LongString as Deserialize>::prefix_safe() && <ByteString as Deserialize>::prefix_safe()
    }

    fn deserialize(d: &mut Deserializer) -> (r: DeserializeResult<Self>) {
        let ghost ctx = d.ctx();
        let ghost input = d.rem();
        proof {
            showformspecspec_reshape(ctx, input);
        }
        let form_spec = match <LongString as Deserialize>::deserialize(d) {
            Ok(v) => v,
            Err(e) => {
                return Err(e);
            },
        };
        let form_name = match <ByteString as Deserialize>::deserialize(d) {
            Ok(v) => v,
            Err(e) => {
                return Err(e);
            },
        };
        Ok(ShowFormspecSpec { form_spec, form_name })
    }
}

#[derive(Debug, Clone, PartialEq, Eq)]
pub struct MovementSpec {
    pub acceleration_default: f32bits,
    pub acceleration_air: f32bits,
    pub acceleration_fast: f32bits,
    pub speed_walk: f32bits,
    pub speed_crouch: f32bits,
    pub speed_fast: f32bits,
    pub speed_climb: f32bits,
    pub speed_jump: f32bits,
    pub liquid_fluidity: f32bits,
    pub liquid_fluidity_smooth: f32bits,
    pub liquid_sink: f32bits,
    pub gravity: f32bits,
}

impl Serialize for MovementSpec {
    open spec fn enc(&self, ctx: ProtocolContext) -> Seq<u8> {
        self.acceleration_default.enc(ctx) + self.acceleration_air.enc(ctx) + self.acceleration_fast.enc(ctx) + self.speed_walk.enc(ctx) + self.speed_crouch.enc(ctx) + self.speed_fast.enc(ctx) + self.speed_climb.enc(ctx) + self.speed_jump.enc(ctx) + self.liquid_fluidity.enc(ctx) + self.liquid_fluidity_smooth.enc(ctx) + self.liquid_sink.enc(ctx) + self.gravity.enc(ctx)
    }

    open spec fn ser_wf(&self, ctx: ProtocolContext) -> bool {
        self.acceleration_default.ser_wf(ctx) && self.acceleration_air.ser_wf(ctx) && self.acceleration_fast.ser_wf(ctx) && self.speed_walk.ser_wf(ctx) && self.speed_crouch.ser_wf(ctx) && self.speed_fast.ser_wf(ctx) && self.speed_climb.ser_wf(ctx) && self.speed_jump.ser_wf(ctx) && self.liquid_fluidity.ser_wf(ctx) && self.liquid_fluidity_smooth.ser_wf(ctx) && self.liquid_sink.ser_wf(ctx) && self.gravity.ser_wf(ctx)
    }

    open spec fn eqv(&self, other: &Self) -> bool {
        self.acceleration_default.eqv(&other.acceleration_default) && self.acceleration_air.eqv(&other.acceleration_air) && self.acceleration_fast.eqv(&other.acceleration_fast) && self.speed_walk.eqv(&other.speed_walk) && self.speed_crouch.eqv(&other.speed_crouch) && self.speed_fast.eqv(&other.speed_fast) && self.speed_climb.eqv(&other.speed_climb) && self.speed_jump.eqv(&other.speed_jump) && self.liquid_fluidity.eqv(&other.liquid_fluidity) && self.liquid_fluidity_smooth.eqv(&other.liquid_fluidity_smooth) && self.liquid_sink.eqv(&other.liquid_sink) && self.gravity.eqv(&other.gravity)
    }

    #[verifier::rlimit(100)]
    fn serialize(&self, ser: &mut VecSerializer) -> (r: SerializeResult) {
        match self.acceleration_default.serialize(ser) {
            Ok(_) => {},
            Err(e) => {
                return Err(e);
            },
        }
        match self.acceleration_air.serialize(ser) {
            Ok(_) => {},
            Err(e) => {
                return Err(e);
            },
        }
        match self.acceleration_fast.serialize(ser) {
            Ok(_) => {},
            Err(e) => {
                return Err(e);
            },
        }
        match self.speed_walk.serialize(ser) {
            Ok(_) => {},
            Err(e) => {
                return Err(e);
            },
        }
        match self.speed_crouch.serialize(ser) {
            Ok(_) => {},
            Err(e) => {
                return Err(e);
            },
        }
        match self.speed_fast.serialize(ser) {
            Ok(_) => {},
            Err(e) => {
                return Err(e);
            },
        }
        match self.speed_climb.serialize(ser) {
            Ok(_) => {},
            Err(e) => {
                return Err(e);
            },
        }
        match self.speed_jump.serialize(ser) {
            Ok(_) => {},
            Err(e) => {
                return Err(e);
            },
        }
        match self.liquid_fluidity.serialize(ser) {
            Ok(_) => {},
            Err(e) => {
                return Err(e);
            },
        }
        match self.liquid_fluidity_smooth.serialize(ser) {
            Ok(_) => {},
            Err(e) => {
                return Err(e);
            },
        }
        match self.liquid_sink.serialize(ser) {
            Ok(_) => {},
            Err(e) => {
                return Err(e);
            },
        }
        match self.gravity.serialize(ser) {
            Ok(_) => {},
            Err(e) => {
                return Err(e);
            },
        }
        proof {
            vstd::seq_lib::lemma_concat_associative(old(ser).out(), self.acceleration_default.enc(old(ser).ctx()), self.acceleration_air.enc(old(ser).ctx()));
            vstd::seq_lib::lemma_concat_associative(old(ser).out(), self.acceleration_default.enc(old(ser).ctx()) + self.acceleration_air.enc(old(ser).ctx()), self.acceleration_fast.enc(old(ser).ctx()));
            vstd::seq_lib::lemma_concat_associative(old(ser).out(), self.acceleration_default.enc(old(ser).ctx()) + self.acceleration_air.enc(old(ser).ctx()) + self.acceleration_fast.enc(old(ser).ctx()), self.speed_walk.enc(old(ser).ctx()));
            vstd::seq_lib::lemma_concat_associative(old(ser).out(), self.acceleration_default.enc(old(ser).ctx()) + self.acceleration_air.enc(old(ser).ctx()) + self.acceleration_fast.enc(old(ser).ctx()) + self.speed_walk.enc(old(ser).ctx()), self.speed_crouch.enc(old(ser).ctx()));
            vstd::seq_lib::lemma_concat_associative(old(ser).out(), self.acceleration_default.enc(old(ser).ctx()) + self.acceleration_air.enc(old(ser).ctx()) + self.acceleration_fast.enc(old(ser).ctx()) + self.speed_walk.enc(old(ser).ctx()) + self.speed_crouch.enc(old(ser).ctx()), self.speed_fast.enc(old(ser).ctx()));
            vstd::seq_lib::lemma_concat_associative(old(ser).out(), self.acceleration_default.enc(old(ser).ctx()) + self.acceleration_air.enc(old(ser).ctx()) + self.acceleration_fast.enc(old(ser).ctx()) + self.speed_walk.enc(old(ser).ctx()) + self.speed_crouch.enc(old(ser).ctx()) + self.speed_fast.enc(old(ser).ctx()), self.speed_climb.enc(old(ser).ctx()));
            vstd::seq_lib::lemma_concat_associative(old(ser).out(), self.acceleration_default.enc(old(ser).ctx()) + self.acceleration_air.enc(old(ser).ctx()) + self.acceleration_fast.enc(old(ser).ctx()) + self.speed_walk.enc(old(ser).ctx()) + self.speed_crouch.enc(old(ser).ctx()) + self.speed_fast.enc(old(ser).ctx()) + self.speed_climb.enc(old(ser).ctx()), self.speed_jump.enc(old(ser).ctx()));
            vstd::seq_lib::lemma_concat_associative(old(ser).out(), self.acceleration_default.enc(old(ser).ctx()) + self.acceleration_air.enc(old(ser).ctx()) + self.acceleration_fast.enc(old(ser).ctx()) + self.speed_walk.enc(old(ser).ctx()) + self.speed_crouch.enc(old(ser).ctx()) + self.speed_fast.enc(old(ser).ctx()) + self.speed_climb.enc(old(ser).ctx()) + self.speed_jump.enc(old(ser).ctx()), self.liquid_fluidity.enc(old(ser).ctx()));
            vstd::seq_lib::lemma_concat_associative(old(ser).out(), self.acceleration_default.enc(old(ser).ctx()) + self.acceleration_air.enc(old(ser).ctx()) + self.acceleration_fast.enc(old(ser).ctx()) + self.speed_walk.enc(old(ser).ctx()) + self.speed_crouch.enc(old(ser).ctx()) + self.speed_fast.enc(old(ser).ctx()) + self.speed_climb.enc(old(ser).ctx()) + self.speed_jump.enc(old(ser).ctx()) + self.liquid_fluidity.enc(old(ser).ctx()), self.liquid_fluidity_smooth.enc(old(ser).ctx()));
            vstd::seq_lib::lemma_concat_associative(old(ser).out(), self.acceleration_default.enc(old(ser).ctx()) + self.acceleration_air.enc(old(ser).ctx()) + self.acceleration_fast.enc(old(ser).ctx()) + self.speed_walk.enc(old(ser).ctx()) + self.speed_crouch.enc(old(ser).ctx()) + self.speed_fast.enc(old(ser).ctx()) + self.speed_climb.enc(old(ser).ctx()) + self.speed_jump.enc(old(ser).ctx()) + self.liquid_fluidity.enc(old(ser).ctx()) + self.liquid_fluidity_smooth.enc(old(ser).ctx()), self.liquid_sink.enc(old(ser).ctx()));
            vstd::seq_lib::lemma_concat_associative(old(ser).out(), self.acceleration_default.enc(old(ser).ctx()) + self.acceleration_air.enc(old(ser).ctx()) + self.acceleration_fast.enc(old(ser).ctx()) + self.speed_walk.enc(old(ser).ctx()) + self.speed_crouch.enc(old(ser).ctx()) + self.speed_fast.enc(old(ser).ctx()) + self.speed_climb.enc(old(ser).ctx()) + self.speed_jump.enc(old(ser).ctx()) + self.liquid_fluidity.enc(old(ser).ctx()) + self.liquid_fluidity_smooth.enc(old(ser).ctx()) + self.liquid_sink.enc(old(ser).ctx()), self.gravity.enc(old(ser).ctx()));
        }
        Ok(())
    }
}

#[verifier::rlimit(100)]
proof fn movementspec_reshape(ctx: ProtocolContext, input: Seq<u8>)
    ensures
        forall|v: MovementSpec, rest: Seq<u8>|
            (#[trigger] v.enc(ctx).add(rest)) == input && v.rt_wf(ctx)
                && (<MovementSpec as Deserialize>::prefix_safe() || rest.len() == 0)
                ==> v.acceleration_default.enc(ctx).add(v.acceleration_air.enc(ctx).add(v.acceleration_fast.enc(ctx).add(v.speed_walk.enc(ctx).add(v.speed_crouch.enc(ctx).add(v.speed_fast.enc(ctx).add(v.speed_climb.enc(ctx).add(v.speed_jump.enc(ctx).add(v.liquid_fluidity.enc(ctx).add(v.liquid_fluidity_smooth.enc(ctx).add(v.liquid_sink.enc(ctx).add(v.gravity.enc(ctx).add(rest)))))))))))) == input,
{
    assert forall|v: MovementSpec, rest: Seq<u8>|
        (#[trigger] v.enc(ctx).add(rest)) == input && v.rt_wf(ctx)
        && (<MovementSpec as Deserialize>::prefix_safe() || rest.len() == 0)
        implies v.acceleration_default.enc(ctx).add(v.acceleration_air.enc(ctx).add(v.acceleration_fast.enc(ctx).add(v.speed_walk.enc(ctx).add(v.speed_crouch.enc(ctx).add(v.speed_fast.enc(ctx).add(v.speed_climb.enc(ctx).add(v.speed_jump.enc(ctx).add(v.liquid_fluidity.enc(ctx).add(v.liquid_fluidity_smooth.enc(ctx).add(v.liquid_sink.enc(ctx).add(v.gravity.enc(ctx).add(rest)))))))))))) == input by {
        vstd::seq_lib::lemma_concat_associative(v.acceleration_default.enc(ctx) + v.acceleration_air.enc(ctx) + v.acceleration_fast.enc(ctx) + v.speed_walk.enc(ctx) + v.speed_crouch.enc(ctx) + v.speed_fast.enc(ctx) + v.speed_climb.enc(ctx) + v.speed_jump.enc(ctx) + v.liquid_fluidity.enc(ctx) + v.liquid_fluidity_smooth.enc(ctx) + v.liquid_sink.enc(ctx), v.gravity.enc(ctx), rest);
        vstd::seq_lib::lemma_concat_associative(v.acceleration_default.enc(ctx) + v.acceleration_air.enc(ctx) + v.acceleration_fast.enc(ctx) + v.speed_walk.enc(ctx) + v.speed_crouch.enc(ctx) + v.speed_fast.enc(ctx) + v.speed_climb.enc(ctx) + v.speed_jump.enc(ctx) + v.liquid_fluidity.enc(ctx) + v.liquid_fluidity_smooth.enc(ctx), v.liquid_sink.enc(ctx), v.gravity.enc(ctx).add(rest));
        vstd::seq_lib::lemma_concat_associative(v.acceleration_default.enc(ctx) + v.acceleration_air.enc(ctx) + v.acceleration_fast.enc(ctx) + v.speed_walk.enc(ctx) + v.speed_crouch.enc(ctx) + v.speed_fast.enc(ctx) + v.speed_climb.enc(ctx) + v.speed_jump.enc(ctx) + v.liquid_fluidity.enc(ctx), v.liquid_fluidity_smooth.enc(ctx), v.liquid_sink.enc(ctx).add(v.gravity.enc(ctx).add(rest)));
        vstd::seq_lib::lemma_concat_associative(v.acceleration_default.enc(ctx) + v.acceleration_air.enc(ctx) + v.acceleration_fast.enc(ctx) + v.speed_walk.enc(ctx) + v.speed_crouch.enc(ctx) + v.speed_fast.enc(ctx) + v.speed_climb.enc(ctx) + v.speed_jump.enc(ctx), v.liquid_fluidity.enc(ctx), v.liquid_fluidity_smooth.enc(ctx).add(v.liquid_sink.enc(ctx).add(v.gravity.enc(ctx).add(rest))));
        vstd::seq_lib::lemma_concat_associative(v.acceleration_default.enc(ctx) + v.acceleration_air.enc(ctx) + v.acceleration_fast.enc(ctx) + v.speed_walk.enc(ctx) + v.speed_crouch.enc(ctx) + v.speed_fast.enc(ctx) + v.speed_climb.enc(ctx), v.speed_jump.enc(ctx), v.liquid_fluidity.enc(ctx).add(v.liquid_fluidity_smooth.enc(ctx).add(v.liquid_sink.enc(ctx).add(v.gravity.enc(ctx).add(rest)))));
        vstd::seq_lib::lemma_concat_associative(v.acceleration_default.enc(ctx) + v.acceleration_air.enc(ctx) + v.acceleration_fast.enc(ctx) + v.speed_walk.enc(ctx) + v.speed_crouch.enc(ctx) + v.speed_fast.enc(ctx), v.speed_climb.enc(ctx), v.speed_jump.enc(ctx).add(v.liquid_fluidity.enc(ctx).add(v.liquid_fluidity_smooth.enc(ctx).add(v.liquid_sink.enc(ctx).add(v.gravity.enc(ctx).add(rest))))));
        vstd::seq_lib::lemma_concat_associative(v.acceleration_default.enc(ctx) + v.acceleration_air.enc(ctx) + v.acceleration_fast.enc(ctx) + v.speed_walk.enc(ctx) + v.speed_crouch.enc(ctx), v.speed_fast.enc(ctx), v.speed_climb.enc(ctx).add(v.speed_jump.enc(ctx).add(v.liquid_fluidity.enc(ctx).add(v.liquid_fluidity_smooth.enc(ctx).add(v.liquid_sink.enc(ctx).add(v.gravity.enc(ctx).add(rest)))))));
        vstd::seq_lib::lemma_concat_associative(v.acceleration_default.enc(ctx) + v.acceleration_air.enc(ctx) + v.acceleration_fast.enc(ctx) + v.speed_walk.enc(ctx), v.speed_crouch.enc(ctx), v.speed_fast.enc(ctx).add(v.speed_climb.enc(ctx).add(v.speed_jump.enc(ctx).add(v.liquid_fluidity.enc(ctx).add(v.liquid_fluidity_smooth.enc(ctx).add(v.liquid_sink.enc(ctx).add(v.gravity.enc(ctx).add(rest))))))));
        vstd::seq_lib::lemma_concat_associative(v.acceleration_default.enc(ctx) + v.acceleration_air.enc(ctx) + v.acceleration_fast.enc(ctx), v.speed_walk.enc(ctx), v.speed_crouch.enc(ctx).add(v.speed_fast.enc(ctx).add(v.speed_climb.enc(ctx).add(v.speed_jump.enc(ctx).add(v.liquid_fluidity.enc(ctx).add(v.liquid_fluidity_smooth.enc(ctx).add(v.liquid_sink.enc(ctx).add(v.gravity.enc(ctx).add(rest)))))))));
        vstd::seq_lib::lemma_concat_associative(v.acceleration_default.enc(ctx) + v.acceleration_air.enc(ctx), v.acceleration_fast.enc(ctx), v.speed_walk.enc(ctx).add(v.speed_crouch.enc(ctx).add(v.speed_fast.enc(ctx).add(v.speed_climb.enc(ctx).add(v.speed_jump.enc(ctx).add(v.liquid_fluidity.enc(ctx).add(v.liquid_fluidity_smooth.enc(ctx).add(v.liquid_sink.enc(ctx).add(v.gravity.enc(ctx).add(rest))))))))));
        vstd::seq_lib::lemma_concat_associative(v.acceleration_default.enc(ctx), v.acceleration_air.enc(ctx), v.acceleration_fast.enc(ctx).add(v.speed_walk.enc(ctx).add(v.speed_crouch.enc(ctx).add(v.speed_fast.enc(ctx).add(v.speed_climb.enc(ctx).add(v.speed_jump.enc(ctx).add(v.liquid_fluidity.enc(ctx).add(v.liquid_fluidity_smooth.enc(ctx).add(v.liquid_sink.enc(ctx).add(v.gravity.enc(ctx).add(rest)))))))))));
    }
}

impl Deserialize for MovementSpec {
    open spec fn rt_wf(&self, ctx: ProtocolContext) -> bool {
        self.acceleration_default.rt_wf(ctx) && self.acceleration_air.rt_wf(ctx) && self.acceleration_fast.rt_wf(ctx) && self.speed_walk.rt_wf(ctx) && self.speed_crouch.rt_wf(ctx) && self.speed_fast.rt_wf(ctx) && self.speed_climb.rt_wf(ctx) && self.speed_jump.rt_wf(ctx) && self.liquid_fluidity.rt_wf(ctx) && self.liquid_fluidity_smooth.rt_wf(ctx) && self.liquid_sink.rt_wf(ctx) && self.gravity.rt_wf(ctx) && <f32bits as Deserialize>::prefix_safe() && <f32bits as Deserialize>::prefix_safe() && <f32bits as Deserialize>::prefix_safe() && <f32bits as Deserialize>::prefix_safe() && <f32bits as Deserialize>::prefix_safe() && <f32bits as Deserialize>::prefix_safe() && <f32bits as Deserialize>::prefix_safe() && <f32bits as Deserialize>::prefix_safe() && <f32bits as Deserialize>::prefix_safe() && <f32bits as Deserialize>::prefix_safe() && <f32bits as Deserialize>::prefix_safe()
    }

    open spec fn prefix_safe() -> bool {
        <f32bits as Deserialize>::prefix_safe() && <f32bits as Deserialize>::prefix_safe() && <f32bits as Deserialize>::prefix_safe() && <f32bits as Deserialize>::prefix_safe() && <f32bits as Deserialize>::prefix_safe() && <f32bits as Deserialize>::prefix_safe() && <f32bits as Deserialize>::prefix_safe() && <f32bits as Deserialize>::prefix_safe() && <f32bits as Deserialize>::prefix_safe() && <f32bits as Deserialize>::prefix_safe() && <f32bits as Deserialize>::prefix_safe() && <f32bits as Deserialize>::prefix_safe()
    }

    fn deserialize(d: &mut Deserializer) -> (r: DeserializeResult<Self>) {
        let ghost ctx = d.ctx();
        let ghost input = d.rem();
        proof {
            movementspec_reshape(ctx, input);
        }
        let acceleration_default = match <f32bits as Deserialize>::deserialize(d) {
            Ok(v) => v,
            Err(e) => {
                return Err(e);
            },
        };
        let acceleration_air = match <f32bits as Deserialize>::deserialize(d) {
            Ok(v) => v,
            Err(e) => {
                return Err(e);
            },
        };
        let acceleration_fast = match <f32bits as Deserialize>::deserialize(d) {
            Ok(v) => v,
            Err(e) => {
                return Err(e);
            },
        };
        let speed_walk = match <f32bits as Deserialize>::deserialize(d) {
            Ok(v) => v,
            Err(e) => {
                return Err(e);
            },
        };
        let speed_crouch = match <f32bits as Deserialize>::deserialize(d) {
            Ok(v) => v,
            Err(e) => {
                return Err(e);
            },
        };
        let speed_fast = match <f32bits as Deserialize>::deserialize(d) {
            Ok(v) => v,
            Err(e) => {
                return Err(e);
            },
        };
        let speed_climb = match <f32bits as Deserialize>::deserialize(d) {
            Ok(v) => v,
            Err(e) => {
                return Err(e);
            },
        };
        let speed_jump = match <f32bits as Deserialize>::deserialize(d) {
            Ok(v) => v,
            Err(e) => {
                return Err(e);
            },
        };
        let liquid_fluidity = match <f32bits as Deserialize>::deserialize(d) {
            Ok(v) => v,
            Err(e) => {
                return Err(e);
            },
        };
        let liquid_fluidity_smooth = match <f32bits as Deserialize>::deserialize(d) {
            Ok(v) => v,
            Err(e) => {
                return Err(e);
            },
        };
        let liquid_sink = match <f32bits as Deserialize>::deserialize(d) {
            Ok(v) => v,
            Err(e) => {
                return Err(e);
            },
        };
        let gravity = match <f32bits as Deserialize>::deserialize(d) {
            Ok(v) => v,
            Err(e) => {
                return Err(e);
            },
        };
        Ok(MovementSpec { acceleration_default, acceleration_air, acceleration_fast, speed_walk, speed_crouch, speed_fast, speed_climb, speed_jump, liquid_fluidity, liquid_fluidity_smooth, liquid_sink, gravity })
    }
}

#[derive(Debug, Clone, PartialEq, Eq)]
pub struct HudaddSpec {
    pub server_id: u32,
    pub typ: u8,
    pub pos: v2f,
    pub name: ByteString,
    pub scale: v2f,
    pub text: ByteString,
    pub number: u32,
    pub item: u32,
    pub dir: u32,
    pub align: v2f,
    pub offset: v2f,
    pub world_pos: Option<v3f>,
    pub size: Option<v2s32>,
    pub z_index: Option<s16>,
    pub text2: Option<ByteString>,
    pub style: Option<u32>,
}

impl Serialize for HudaddSpec {
    open spec fn enc(&self, ctx: ProtocolContext) -> Seq<u8> {
        self.server_id.enc(ctx) + self.typ.enc(ctx) + self.pos.enc(ctx) + self.name.enc(ctx) + self.scale.enc(ctx) + self.text.enc(ctx) + self.number.enc(ctx) + self.item.enc(ctx) + self.dir.enc(ctx) + self.align.enc(ctx) + self.offset.enc(ctx) + self.world_pos.enc(ctx) + self.size.enc(ctx) + self.z_index.enc(ctx) + self.text2.enc(ctx) + self.style.enc(ctx)
    }

    open spec fn ser_wf(&self, ctx: ProtocolContext) -> bool {
        self.server_id.ser_wf(ctx) && self.typ.ser_wf(ctx) && self.pos.ser_wf(ctx) && self.name.ser_wf(ctx) && self.scale.ser_wf(ctx) && self.text.ser_wf(ctx) && self.number.ser_wf(ctx) && self.item.ser_wf(ctx) && self.dir.ser_wf(ctx) && self.align.ser_wf(ctx) && self.offset.ser_wf(ctx) && self.world_pos.ser_wf(ctx) && self.size.ser_wf(ctx) && self.z_index.ser_wf(ctx) && self.text2.ser_wf(ctx) && self.style.ser_wf(ctx)
    }

    open spec fn eqv(&self, other: &Self) -> bool {
        self.server_id.eqv(&other.server_id) && self.typ.eqv(&other.typ) && self.pos.eqv(&other.pos) && self.name.eqv(&other.name) && self.scale.eqv(&other.scale) && self.text.eqv(&other.text) && self.number.eqv(&other.number) && self.item.eqv(&other.item) && self.dir.eqv(&other.dir) && self.align.eqv(&other.align) && self.offset.eqv(&other.offset) && self.world_pos.eqv(&other.world_pos) && self.size.eqv(&other.size) && self.z_index.eqv(&other.z_index) && self.text2.eqv(&other.text2) && self.style.eqv(&other.style)
    }

    #[verifier::rlimit(100)]
    fn serialize(&self, ser: &mut VecSerializer) -> (r: SerializeResult) {
        match self.server_id.serialize(ser) {
            Ok(_) => {},
            Err(e) => {
                return Err(e);
            },
        }
        match self.typ.serialize(ser) {
            Ok(_) => {},
            Err(e) => {
                return Err(e);
            },
        }
        match self.pos.serialize(ser) {
            Ok(_) => {},
            Err(e) => {
                return Err(e);
            },
        }
        match self.name.serialize(ser) {
            Ok(_) => {},
            Err(e) => {
                return Err(e);
            },
        }
        match self.scale.serialize(ser) {
            Ok(_) => {},
            Err(e) => {
                return Err(e);
            },
        }
        match self.text.serialize(ser) {
            Ok(_) => {},
            Err(e) => {
                return Err(e);
            },
        }
        match self.number.serialize(ser) {
            Ok(_) => {},
            Err(e) => {
                return Err(e);
            },
        }
        match self.item.serialize(ser) {
            Ok(_) => {},
            Err(e) => {
                return Err(e);
            },
        }
        match self.dir.serialize(ser) {
            Ok(_) => {},
            Err(e) => {
                return Err(e);
            },
        }
        match self.align.serialize(ser) {
            Ok(_) => {},
            Err(e) => {
                return Err(e);
            },
        }
        match self.offset.serialize(ser) {
            Ok(_) => {},
            Err(e) => {
                return Err(e);
            },
        }
        match self.world_pos.serialize(ser) {
            Ok(_) => {},
            Err(e) => {
                return Err(e);
            },
        }
        match self.size.serialize(ser) {
            Ok(_) => {},
            Err(e) => {
                return Err(e);
            },
        }
        match self.z_index.serialize(ser) {
            Ok(_) => {},
            Err(e) => {
                return Err(e);
            },
        }
        match self.text2.serialize(ser) {
            Ok(_) => {},
            Err(e) => {
                return Err(e);
            },
        }
        match self.style.serialize(ser) {
            Ok(_) => {},
            Err(e) => {
                return Err(e);
            },
        }
        proof {
            vstd::seq_lib::lemma_concat_associative(old(ser).out(), self.server_id.enc(old(ser).ctx()), self.typ.enc(old(ser).ctx()));
            vstd::seq_lib::lemma_concat_associative(old(ser).out(), self.server_id.enc(old(ser).ctx()) + self.typ.enc(old(ser).ctx()), self.pos.enc(old(ser).ctx()));
            vstd::seq_lib::lemma_concat_associative(old(ser).out(), self.server_id.enc(old(ser).ctx()) + self.typ.enc(old(ser).ctx()) + self.pos.enc(old(ser).ctx()), self.name.enc(old(ser).ctx()));
            vstd::seq_lib::lemma_concat_associative(old(ser).out(), self.server_id.enc(old(ser).ctx()) + self.typ.enc(old(ser).ctx()) + self.pos.enc(old(ser).ctx()) + self.name.enc(old(ser).ctx()), self.scale.enc(old(ser).ctx()));
            vstd::seq_lib::lemma_concat_associative(old(ser).out(), self.server_id.enc(old(ser).ctx()) + self.typ.enc(old(ser).ctx()) + self.pos.enc(old(ser).ctx()) + self.name.enc(old(ser).ctx()) + self.scale.enc(old(ser).ctx()), self.text.enc(old(ser).ctx()));
            vstd::seq_lib::lemma_concat_associative(old(ser).out(), self.server_id.enc(old(ser).ctx()) + self.typ.enc(old(ser).ctx()) + self.pos.enc(old(ser).ctx()) + self.name.enc(old(ser).ctx()) + self.scale.enc(old(ser).ctx()) + self.text.enc(old(ser).ctx()), self.number.enc(old(ser).ctx()));
            vstd::seq_lib::lemma_concat_associative(old(ser).out(), self.server_id.enc(old(ser).ctx()) + self.typ.enc(old(ser).ctx()) + self.pos.enc(old(ser).ctx()) + self.name.enc(old(ser).ctx()) + self.scale.enc(old(ser).ctx()) + self.text.enc(old(ser).ctx()) + self.number.enc(old(ser).ctx()), self.item.enc(old(ser).ctx()));
            vstd::seq_lib::lemma_concat_associative(old(ser).out(), self.server_id.enc(old(ser).ctx()) + self.typ.enc(old(ser).ctx()) + self.pos.enc(old(ser).ctx()) + self.name.enc(old(ser).ctx()) + self.scale.enc(old(ser).ctx()) + self.text.enc(old(ser).ctx()) + self.number.enc(old(ser).ctx()) + self.item.enc(old(ser).ctx()), self.dir.enc(old(ser).ctx()));
            vstd::seq_lib::lemma_concat_associative(old(ser).out(), self.server_id.enc(old(ser).ctx()) + self.typ.enc(old(ser).ctx()) + self.pos.enc(old(ser).ctx()) + self.name.enc(old(ser).ctx()) + self.scale.enc(old(ser).ctx()) + self.text.enc(old(ser).ctx()) + self.number.enc(old(ser).ctx()) + self.item.enc(old(ser).ctx()) + self.dir.enc(old(ser).ctx()), self.align.enc(old(ser).ctx()));
            vstd::seq_lib::lemma_concat_associative(old(ser).out(), self.server_id.enc(old(ser).ctx()) + self.typ.enc(old(ser).ctx()) + self.pos.enc(old(ser).ctx()) + self.name.enc(old(ser).ctx()) + self.scale.enc(old(ser).ctx()) + self.text.enc(old(ser).ctx()) + self.number.enc(old(ser).ctx()) + self.item.enc(old(ser).ctx()) + self.dir.enc(old(ser).ctx()) + self.align.enc(old(ser).ctx()), self.offset.enc(old(ser).ctx()));
            vstd::seq_lib::lemma_concat_associative(old(ser).out(), self.server_id.enc(old(ser).ctx()) + self.typ.enc(old(ser).ctx()) + self.pos.enc(old(ser).ctx()) + self.name.enc(old(ser).ctx()) + self.scale.enc(old(ser).ctx()) + self.text.enc(old(ser).ctx()) + self.number.enc(old(ser).ctx()) + self.item.enc(old(ser).ctx()) + self.dir.enc(old(ser).ctx()) + self.align.enc(old(ser).ctx()) + self.offset.enc(old(ser).ctx()), self.world_pos.enc(old(ser).ctx()));
            vstd::seq_lib::lemma_concat_associative(old(ser).out(), self.server_id.enc(old(ser).ctx()) + self.typ.enc(old(ser).ctx()) + self.pos.enc(old(ser).ctx()) + self.name.enc(old(ser).ctx()) + self.scale.enc(old(ser).ctx()) + self.text.enc(old(ser).ctx()) + self.number.enc(old(ser).ctx()) + self.item.enc(old(ser).ctx()) + self.dir.enc(old(ser).ctx()) + self.align.enc(old(ser).ctx()) + self.offset.enc(old(ser).ctx()) + self.world_pos.enc(old(ser).ctx()), self.size.enc(old(ser).ctx()));
            vstd::seq_lib::lemma_concat_associative(old(ser).out(), self.server_id.enc(old(ser).ctx()) + self.typ.enc(old(ser).ctx()) + self.pos.enc(old(ser).ctx()) + self.name.enc(old(ser).ctx()) + self.scale.enc(old(ser).ctx()) + self.text.enc(old(ser).ctx()) + self.number.enc(old(ser).ctx()) + self.item.enc(old(ser).ctx()) + self.dir.enc(old(ser).ctx()) + self.align.enc(old(ser).ctx()) + self.offset.enc(old(ser).ctx()) + self.world_pos.enc(old(ser).ctx()) + self.size.enc(old(ser).ctx()), self.z_index.enc(old(ser).ctx()));
            vstd::seq_lib::lemma_concat_associative(old(ser).out(), self.server_id.enc(old(ser).ctx()) + self.typ.enc(old(ser).ctx()) + self.pos.enc(old(ser).ctx()) + self.name.enc(old(ser).ctx()) + self.scale.enc(old(ser).ctx()) + self.text.enc(old(ser).ctx()) + self.number.enc(old(ser).ctx()) + self.item.enc(old(ser).ctx()) + self.dir.enc(old(ser).ctx()) + self.align.enc(old(ser).ctx()) + self.offset.enc(old(ser).ctx()) + self.world_pos.enc(old(ser).ctx()) + self.size.enc(old(ser).ctx()) + self.z_index.enc(old(ser).ctx()), self.text2.enc(old(ser).ctx()));
            vstd::seq_lib::lemma_concat_associative(old(ser).out(), self.server_id.enc(old(ser).ctx()) + self.typ.enc(old(ser).ctx()) + self.pos.enc(old(ser).ctx()) + self.name.enc(old(ser).ctx()) + self.scale.enc(old(ser).ctx()) + self.text.enc(old(ser).ctx()) + self.number.enc(old(ser).ctx()) + self.item.enc(old(ser).ctx()) + self.dir.enc(old(ser).ctx()) + self.align.enc(old(ser).ctx()) + self.offset.enc(old(ser).ctx()) + self.world_pos.enc(old(ser).ctx()) + self.size.enc(old(ser).ctx()) + self.z_index.enc(old(ser).ctx()) + self.text2.enc(old(ser).ctx()), self.style.enc(old(ser).ctx()));
        }
        Ok(())
    }
}

#[verifier::rlimit(100)]
proof fn hudaddspec_reshape(ctx: ProtocolContext, input: Seq<u8>)
    ensures
        forall|v: HudaddSpec, rest: Seq<u8>|
            (#[trigger] v.enc(ctx).add(rest)) == input && v.rt_wf(ctx)
                && (<HudaddSpec as Deserialize>::prefix_safe() || rest.len() == 0)
                ==> v.server_id.enc(ctx).add(v.typ.enc(ctx).add(v.pos.enc(ctx).add(v.name.enc(ctx).add(v.scale.enc(ctx).add(v.text.enc(ctx).add(v.number.enc(ctx).add(v.item.enc(ctx).add(v.dir.enc(ctx).add(v.align.enc(ctx).add(v.offset.enc(ctx).add(v.world_pos.enc(ctx).add(v.size.enc(ctx).add(v.z_index.enc(ctx).add(v.text2.enc(ctx).add(v.style.enc(ctx).add(rest)))))))))))))))) == input && (v.world_pos matches Some(x) ==> x.enc(ctx).add(v.size.enc(ctx).add(v.z_index.enc(ctx).add(v.text2.enc(ctx).add(v.style.enc(ctx).add(rest))))) == v.world_pos.enc(ctx).add(v.size.enc(ctx).add(v.z_index.enc(ctx).add(v.text2.enc(ctx).add(v.style.enc(ctx).add(rest)))))) && (v.world_pos is None ==> v.world_pos.enc(ctx).add(v.size.enc(ctx).add(v.z_index.enc(ctx).add(v.text2.enc(ctx).add(v.style.enc(ctx).add(rest))))).len() == 0) && (v.size matches Some(x) ==> x.enc(ctx).add(v.z_index.enc(ctx).add(v.text2.enc(ctx).add(v.style.enc(ctx).add(rest)))) == v.size.enc(ctx).add(v.z_index.enc(ctx).add(v.text2.enc(ctx).add(v.style.enc(ctx).add(rest))))) && (v.size is None ==> v.size.enc(ctx).add(v.z_index.enc(ctx).add(v.text2.enc(ctx).add(v.style.enc(ctx).add(rest)))).len() == 0) && (v.z_index matches Some(x) ==> x.enc(ctx).add(v.text2.enc(ctx).add(v.style.enc(ctx).add(rest))) == v.z_index.enc(ctx).add(v.text2.enc(ctx).add(v.style.enc(ctx).add(rest)))) && (v.z_index is None ==> v.z_index.enc(ctx).add(v.text2.enc(ctx).add(v.style.enc(ctx).add(rest))).len() == 0) && (v.text2 matches Some(x) ==> x.enc(ctx).add(v.style.enc(ctx).add(rest)) == v.text2.enc(ctx).add(v.style.enc(ctx).add(rest))) && (v.text2 is None ==> v.text2.enc(ctx).add(v.style.enc(ctx).add(rest)).len() == 0) && (v.style matches Some(x) ==> x.enc(ctx).add(rest) == v.style.enc(ctx).add(rest)) && (v.style is None ==> v.style.enc(ctx).add(rest).len() == 0),
{
    assert forall|v: HudaddSpec, rest: Seq<u8>|
        (#[trigger] v.enc(ctx).add(rest)) == input && v.rt_wf(ctx)
        && (<HudaddSpec as Deserialize>::prefix_safe() || rest.len() == 0)
        implies v.server_id.enc(ctx).add(v.typ.enc(ctx).add(v.pos.enc(ctx).add(v.name.enc(ctx).add(v.scale.enc(ctx).add(v.text.enc(ctx).add(v.number.enc(ctx).add(v.item.enc(ctx).add(v.dir.enc(ctx).add(v.align.enc(ctx).add(v.offset.enc(ctx).add(v.world_pos.enc(ctx).add(v.size.enc(ctx).add(v.z_index.enc(ctx).add(v.text2.enc(ctx).add(v.style.enc(ctx).add(rest)))))))))))))))) == input && (v.world_pos matches Some(x) ==> x.enc(ctx).add(v.size.enc(ctx).add(v.z_index.enc(ctx).add(v.text2.enc(ctx).add(v.style.enc(ctx).add(rest))))) == v.world_pos.enc(ctx).add(v.size.enc(ctx).add(v.z_index.enc(ctx).add(v.text2.enc(ctx).add(v.style.enc(ctx).add(rest)))))) && (v.world_pos is None ==> v.world_pos.enc(ctx).add(v.size.enc(ctx).add(v.z_index.enc(ctx).add(v.text2.enc(ctx).add(v.style.enc(ctx).add(rest))))).len() == 0) && (v.size matches Some(x) ==> x.enc(ctx).add(v.z_index.enc(ctx).add(v.text2.enc(ctx).add(v.style.enc(ctx).add(rest)))) == v.size.enc(ctx).add(v.z_index.enc(ctx).add(v.text2.enc(ctx).add(v.style.enc(ctx).add(rest))))) && (v.size is None ==> v.size.enc(ctx).add(v.z_index.enc(ctx).add(v.text2.enc(ctx).add(v.style.enc(ctx).add(rest)))).len() == 0) && (v.z_index matches Some(x) ==> x.enc(ctx).add(v.text2.enc(ctx).add(v.style.enc(ctx).add(rest))) == v.z_index.enc(ctx).add(v.text2.enc(ctx).add(v.style.enc(ctx).add(rest)))) && (v.z_index is None ==> v.z_index.enc(ctx).add(v.text2.enc(ctx).add(v.style.enc(ctx).add(rest))).len() == 0) && (v.text2 matches Some(x) ==> x.enc(ctx).add(v.style.enc(ctx).add(rest)) == v.text2.enc(ctx).add(v.style.enc(ctx).add(rest))) && (v.text2 is None ==> v.text2.enc(ctx).add(v.style.enc(ctx).add(rest)).len() == 0) && (v.style matches Some(x) ==> x.enc(ctx).add(rest) == v.style.enc(ctx).add(rest)) && (v.style is None ==> v.style.enc(ctx).add(rest).len() == 0) by {
        vstd::seq_lib::lemma_concat_associative(v.server_id.enc(ctx) + v.typ.enc(ctx) + v.pos.enc(ctx) + v.name.enc(ctx) + v.scale.enc(ctx) + v.text.enc(ctx) + v.number.enc(ctx) + v.item.enc(ctx) + v.dir.enc(ctx) + v.align.enc(ctx) + v.offset.enc(ctx) + v.world_pos.enc(ctx) + v.size.enc(ctx) + v.z_index.enc(ctx) + v.text2.enc(ctx), v.style.enc(ctx), rest);
        vstd::seq_lib::lemma_concat_associative(v.server_id.enc(ctx) + v.typ.enc(ctx) + v.pos.enc(ctx) + v.name.enc(ctx) + v.scale.enc(ctx) + v.text.enc(ctx) + v.number.enc(ctx) + v.item.enc(ctx) + v.dir.enc(ctx) + v.align.enc(ctx) + v.offset.enc(ctx) + v.world_pos.enc(ctx) + v.size.enc(ctx) + v.z_index.enc(ctx), v.text2.enc(ctx), v.style.enc(ctx).add(rest));
        vstd::seq_lib::lemma_concat_associative(v.server_id.enc(ctx) + v.typ.enc(ctx) + v.pos.enc(ctx) + v.name.enc(ctx) + v.scale.enc(ctx) + v.text.enc(ctx) + v.number.enc(ctx) + v.item.enc(ctx) + v.dir.enc(ctx) + v.align.enc(ctx) + v.offset.enc(ctx) + v.world_pos.enc(ctx) + v.size.enc(ctx), v.z_index.enc(ctx), v.text2.enc(ctx).add(v.style.enc(ctx).add(rest)));
        vstd::seq_lib::lemma_concat_associative(v.server_id.enc(ctx) + v.typ.enc(ctx) + v.pos.enc(ctx) + v.name.enc(ctx) + v.scale.enc(ctx) + v.text.enc(ctx) + v.number.enc(ctx) + v.item.enc(ctx) + v.dir.enc(ctx) + v.align.enc(ctx) + v.offset.enc(ctx) + v.world_pos.enc(ctx), v.size.enc(ctx), v.z_index.enc(ctx).add(v.text2.enc(ctx).add(v.style.enc(ctx).add(rest))));
        vstd::seq_lib::lemma_concat_associative(v.server_id.enc(ctx) + v.typ.enc(ctx) + v.pos.enc(ctx) + v.name.enc(ctx) + v.scale.enc(ctx) + v.text.enc(ctx) + v.number.enc(ctx) + v.item.enc(ctx) + v.dir.enc(ctx) + v.align.enc(ctx) + v.offset.enc(ctx), v.world_pos.enc(ctx), v.size.enc(ctx).add(v.z_index.enc(ctx).add(v.text2.enc(ctx).add(v.style.enc(ctx).add(rest)))));
        vstd::seq_lib::lemma_concat_associative(v.server_id.enc(ctx) + v.typ.enc(ctx) + v.pos.enc(ctx) + v.name.enc(ctx) + v.scale.enc(ctx) + v.text.enc(ctx) + v.number.enc(ctx) + v.item.enc(ctx) + v.dir.enc(ctx) + v.align.enc(ctx), v.offset.enc(ctx), v.world_pos.enc(ctx).add(v.size.enc(ctx).add(v.z_index.enc(ctx).add(v.text2.enc(ctx).add(v.style.enc(ctx).add(rest))))));
        vstd::seq_lib::lemma_concat_associative(v.server_id.enc(ctx) + v.typ.enc(ctx) + v.pos.enc(ctx) + v.name.enc(ctx) + v.scale.enc(ctx) + v.text.enc(ctx) + v.number.enc(ctx) + v.item.enc(ctx) + v.dir.enc(ctx), v.align.enc(ctx), v.offset.enc(ctx).add(v.world_pos.enc(ctx).add(v.size.enc(ctx).add(v.z_index.enc(ctx).add(v.text2.enc(ctx).add(v.style.enc(ctx).add(rest)))))));
        vstd::seq_lib::lemma_concat_associative(v.server_id.enc(ctx) + v.typ.enc(ctx) + v.pos.enc(ctx) + v.name.enc(ctx) + v.scale.enc(ctx) + v.text.enc(ctx) + v.number.enc(ctx) + v.item.enc(ctx), v.dir.enc(ctx), v.align.enc(ctx).add(v.offset.enc(ctx).add(v.world_pos.enc(ctx).add(v.size.enc(ctx).add(v.z_index.enc(ctx).add(v.text2.enc(ctx).add(v.style.enc(ctx).add(rest))))))));
        vstd::seq_lib::lemma_concat_associative(v.server_id.enc(ctx) + v.typ.enc(ctx) + v.pos.enc(ctx) + v.name.enc(ctx) + v.scale.enc(ctx) + v.text.enc(ctx) + v.number.enc(ctx), v.item.enc(ctx), v.dir.enc(ctx).add(v.align.enc(ctx).add(v.offset.enc(ctx).add(v.world_pos.enc(ctx).add(v.size.enc(ctx).add(v.z_index.enc(ctx).add(v.text2.enc(ctx).add(v.style.enc(ctx).add(rest)))))))));
        vstd::seq_lib::lemma_concat_associative(v.server_id.enc(ctx) + v.typ.enc(ctx) + v.pos.enc(ctx) + v.name.enc(ctx) + v.scale.enc(ctx) + v.text.enc(ctx), v.number.enc(ctx), v.item.enc(ctx).add(v.dir.enc(ctx).add(v.align.enc(ctx).add(v.offset.enc(ctx).add(v.world_pos.enc(ctx).add(v.size.enc(ctx).add(v.z_index.enc(ctx).add(v.text2.enc(ctx).add(v.style.enc(ctx).add(rest))))))))));
        vstd::seq_lib::lemma_concat_associative(v.server_id.enc(ctx) + v.typ.enc(ctx) + v.pos.enc(ctx) + v.name.enc(ctx) + v.scale.enc(ctx), v.text.enc(ctx), v.number.enc(ctx).add(v.item.enc(ctx).add(v.dir.enc(ctx).add(v.align.enc(ctx).add(v.offset.enc(ctx).add(v.world_pos.enc(ctx).add(v.size.enc(ctx).add(v.z_index.enc(ctx).add(v.text2.enc(ctx).add(v.style.enc(ctx).add(rest)))))))))));
        vstd::seq_lib::lemma_concat_associative(v.server_id.enc(ctx) + v.typ.enc(ctx) + v.pos.enc(ctx) + v.name.enc(ctx), v.scale.enc(ctx), v.text.enc(ctx).add(v.number.enc(ctx).add(v.item.enc(ctx).add(v.dir.enc(ctx).add(v.align.enc(ctx).add(v.offset.enc(ctx).add(v.world_pos.enc(ctx).add(v.size.enc(ctx).add(v.z_index.enc(ctx).add(v.text2.enc(ctx).add(v.style.enc(ctx).add(rest))))))))))));
        vstd::seq_lib::lemma_concat_associative(v.server_id.enc(ctx) + v.typ.enc(ctx) + v.pos.enc(ctx), v.name.enc(ctx), v.scale.enc(ctx).add(v.text.enc(ctx).add(v.number.enc(ctx).add(v.item.enc(ctx).add(v.dir.enc(ctx).add(v.align.enc(ctx).add(v.offset.enc(ctx).add(v.world_pos.enc(ctx).add(v.size.enc(ctx).add(v.z_index.enc(ctx).add(v.text2.enc(ctx).add(v.style.enc(ctx).add(rest)))))))))))));
        vstd::seq_lib::lemma_concat_associative(v.server_id.enc(ctx) + v.typ.enc(ctx), v.pos.enc(ctx), v.name.enc(ctx).add(v.scale.enc(ctx).add(v.text.enc(ctx).add(v.number.enc(ctx).add(v.item.enc(ctx).add(v.dir.enc(ctx).add(v.align.enc(ctx).add(v.offset.enc(ctx).add(v.world_pos.enc(ctx).add(v.size.enc(ctx).add(v.z_index.enc(ctx).add(v.text2.enc(ctx).add(v.style.enc(ctx).add(rest))))))))))))));
        vstd::seq_lib::lemma_concat_associative(v.server_id.enc(ctx), v.typ.enc(ctx), v.pos.enc(ctx).add(v.name.enc(ctx).add(v.scale.enc(ctx).add(v.text.enc(ctx).add(v.number.enc(ctx).add(v.item.enc(ctx).add(v.dir.enc(ctx).add(v.align.enc(ctx).add(v.offset.enc(ctx).add(v.world_pos.enc(ctx).add(v.size.enc(ctx).add(v.z_index.enc(ctx).add(v.text2.enc(ctx).add(v.style.enc(ctx).add(rest)))))))))))))));
        match v.world_pos {
            Some(x) => {
                assert(x.enc(ctx).add(v.size.enc(ctx).add(v.z_index.enc(ctx).add(v.text2.enc(ctx).add(v.style.enc(ctx).add(rest))))) =~= v.world_pos.enc(ctx).add(v.size.enc(ctx).add(v.z_index.enc(ctx).add(v.text2.enc(ctx).add(v.style.enc(ctx).add(rest))))));
            },
            None => {
                assert(v.world_pos.enc(ctx).add(v.size.enc(ctx).add(v.z_index.enc(ctx).add(v.text2.enc(ctx).add(v.style.enc(ctx).add(rest))))) =~= v.size.enc(ctx).add(v.z_index.enc(ctx).add(v.text2.enc(ctx).add(v.style.enc(ctx).add(rest)))));
            },
        }
        match v.size {
            Some(x) => {
                assert(x.enc(ctx).add(v.z_index.enc(ctx).add(v.text2.enc(ctx).add(v.style.enc(ctx).add(rest)))) =~= v.size.enc(ctx).add(v.z_index.enc(ctx).add(v.text2.enc(ctx).add(v.style.enc(ctx).add(rest)))));
            },
            None => {
                assert(v.size.enc(ctx).add(v.z_index.enc(ctx).add(v.text2.enc(ctx).add(v.style.enc(ctx).add(rest)))) =~= v.z_index.enc(ctx).add(v.text2.enc(ctx).add(v.style.enc(ctx).add(rest))));
            },
        }
        match v.z_index {
            Some(x) => {
                assert(x.enc(ctx).add(v.text2.enc(ctx).add(v.style.enc(ctx).add(rest))) =~= v.z_index.enc(ctx).add(v.text2.enc(ctx).add(v.style.enc(ctx).add(rest))));
            },
            None => {
                assert(v.z_index.enc(ctx).add(v.text2.enc(ctx).add(v.style.enc(ctx).add(rest))) =~= v.text2.enc(ctx).add(v.style.enc(ctx).add(rest)));
            },
        }
        match v.text2 {
            Some(x) => {
                assert(x.enc(ctx).add(v.style.enc(ctx).add(rest)) =~= v.text2.enc(ctx).add(v.style.enc(ctx).add(rest)));
            },
            None => {
                assert(v.text2.enc(ctx).add(v.style.enc(ctx).add(rest)) =~= v.style.enc(ctx).add(rest));
            },
        }
        match v.style {
            Some(x) => {
                assert(x.enc(ctx).add(rest) =~= v.style.enc(ctx).add(rest));
            },
            None => {
                assert(v.style.enc(ctx).add(rest) =~= rest);
            },
        }
    }
}

impl Deserialize for HudaddSpec {
    open spec fn rt_wf(&self, ctx: ProtocolContext) -> bool {
        self.server_id.rt_wf(ctx) && self.typ.rt_wf(ctx) && self.pos.rt_wf(ctx) && self.name.rt_wf(ctx) && self.scale.rt_wf(ctx) && self.text.rt_wf(ctx) && self.number.rt_wf(ctx) && self.item.rt_wf(ctx) && self.dir.rt_wf(ctx) && self.align.rt_wf(ctx) && self.offset.rt_wf(ctx) && self.world_pos.rt_wf(ctx) && self.size.rt_wf(ctx) && self.z_index.rt_wf(ctx) && self.text2.rt_wf(ctx) && self.style.rt_wf(ctx) && <u32 as Deserialize>::prefix_safe() && <u8 as Deserialize>::prefix_safe() && <v2f as Deserialize>::prefix_safe() && <ByteString as Deserialize>::prefix_safe() && <v2f as Deserialize>::prefix_safe() && <ByteString as Deserialize>::prefix_safe() && <u32 as Deserialize>::prefix_safe() && <u32 as Deserialize>::prefix_safe() && <u32 as Deserialize>::prefix_safe() && <v2f as Deserialize>::prefix_safe() && <v2f as Deserialize>::prefix_safe() && <v3f as Deserialize>::prefix_safe() && <v2s32 as Deserialize>::prefix_safe() && <s16 as Deserialize>::prefix_safe() && <ByteString as Deserialize>::prefix_safe() && <u32 as Deserialize>::prefix_safe() && (self.size is Some ==> self.world_pos is Some) && (self.z_index is Some ==> self.size is Some) && (self.text2 is Some ==> self.z_index is Some) && (self.style is Some ==> self.text2 is Some)
    }

    open spec fn prefix_safe() -> bool {
        <u32 as Deserialize>::prefix_safe() && <u8 as Deserialize>::prefix_safe() && <v2f as Deserialize>::prefix_safe() && <ByteString as Deserialize>::prefix_safe() && <v2f as Deserialize>::prefix_safe() && <ByteString as Deserialize>::prefix_safe() && <u32 as Deserialize>::prefix_safe() && <u32 as Deserialize>::prefix_safe() && <u32 as Deserialize>::prefix_safe() && <v2f as Deserialize>::prefix_safe() && <v2f as Deserialize>::prefix_safe() && <Option<v3f> as Deserialize>::prefix_safe() && <Option<v2s32> as Deserialize>::prefix_safe() && <Option<s16> as Deserialize>::prefix_safe() && <Option<ByteString> as Deserialize>::prefix_safe() && <Option<u32> as Deserialize>::prefix_safe()
    }

    fn deserialize(d: &mut Deserializer) -> (r: DeserializeResult<Self>) {
        let ghost ctx = d.ctx();
        let ghost input = d.rem();
        proof {
            hudaddspec_reshape(ctx, input);
        }
        let server_id = match <u32 as Deserialize>::deserialize(d) {
            Ok(v) => v,
            Err(e) => {
                return Err(e);
            },
        };
        let typ = match <u8 as Deserialize>::deserialize(d) {
            Ok(v) => v,
            Err(e) => {
                return Err(e);
            },
        };
        let pos = match <v2f as Deserialize>::deserialize(d) {
            Ok(v) => v,
            Err(e) => {
                return Err(e);
            },
        };
        let name = match <ByteString as Deserialize>::deserialize(d) {
            Ok(v) => v,
            Err(e) => {
                return Err(e);
            },
        };
        let scale = match <v2f as Deserialize>::deserialize(d) {
            Ok(v) => v,
            Err(e) => {
                return Err(e);
            },
        };
        let text = match <ByteString as Deserialize>::deserialize(d) {
            Ok(v) => v,
            Err(e) => {
                return Err(e);
            },
        };
        let number = match <u32 as Deserialize>::deserialize(d) {
            Ok(v) => v,
            Err(e) => {
                return Err(e);
            },
        };
        let item = match <u32 as Deserialize>::deserialize(d) {
            Ok(v) => v,
            Err(e) => {
                return Err(e);
            },
        };
        let dir = match <u32 as Deserialize>::deserialize(d) {
            Ok(v) => v,
            Err(e) => {
                return Err(e);
            },
        };
        let align = match <v2f as Deserialize>::deserialize(d) {
            Ok(v) => v,
            Err(e) => {
                return Err(e);
            },
        };
        let offset = match <v2f as Deserialize>::deserialize(d) {
            Ok(v) => v,
            Err(e) => {
                return Err(e);
            },
        };
        let world_pos = if d.remaining() == 0 {
            None
        } else {
            match <v3f as Deserialize>::deserialize(d) {
                Ok(v) => Some(v),
                Err(e) => {
                    return Err(e);
                },
            }
        };
        let size = if d.remaining() == 0 {
            None
        } else {
            match <v2s32 as Deserialize>::deserialize(d) {
                Ok(v) => Some(v),
                Err(e) => {
                    return Err(e);
                },
            }
        };
        let z_index = if d.remaining() == 0 {
            None
        } else {
            match <s16 as Deserialize>::deserialize(d) {
                Ok(v) => Some(v),
                Err(e) => {
                    return Err(e);
                },
            }
        };
        let text2 = if d.remaining() == 0 {
            None
        } else {
            match <ByteString as Deserialize>::deserialize(d) {
                Ok(v) => Some(v),
                Err(e) => {
                    return Err(e);
                },
            }
        };
        let style = if d.remaining() == 0 {
            None
        } else {
            match <u32 as Deserialize>::deserialize(d) {
                Ok(v) => Some(v),
                Err(e) => {
                    return Err(e);
                },
            }
        };
        Ok(HudaddSpec { server_id, typ, pos, name, scale, text, number, item, dir, align, offset, world_pos, size, z_index, text2, style })
    }
}

#[derive(Debug, Clone, PartialEq, Eq)]
pub struct HudrmSpec {
    pub server_id: u32,
}

impl Serialize for HudrmSpec {
    open spec fn enc(&self, ctx: ProtocolContext) -> Seq<u8> {
        self.server_id.enc(ctx)
    }

    open spec fn ser_wf(&self, ctx: ProtocolContext) -> bool {
        self.server_id.ser_wf(ctx)
    }

    open spec fn eqv(&self, other: &Self) -> bool {
        self.server_id.eqv(&other.server_id)
    }

    fn serialize(&self, ser: &mut VecSerializer) -> (r: SerializeResult) {
        match self.server_id.serialize(ser) {
            Ok(_) => {},
            Err(e) => {
                return Err(e);
            },
        }
        proof {
        }
        Ok(())
    }
}

proof fn hudrmspec_reshape(ctx: ProtocolContext, input: Seq<u8>)
    ensures
        forall|v: HudrmSpec, rest: Seq<u8>|
            (#[trigger] v.enc(ctx).add(rest)) == input && v.rt_wf(ctx)
                && (<HudrmSpec as Deserialize>::prefix_safe() || rest.len() == 0)
                ==> v.server_id.enc(ctx).add(rest) == input,
{
    assert forall|v: HudrmSpec, rest: Seq<u8>|
        (#[trigger] v.enc(ctx).add(rest)) == input && v.rt_wf(ctx)
        && (<HudrmSpec as Deserialize>::prefix_safe() || rest.len() == 0)
        implies v.server_id.enc(ctx).add(rest) == input by {
    }
}

impl Deserialize for HudrmSpec {
    open spec fn rt_wf(&self, ctx: ProtocolContext) -> bool {
        self.server_id.rt_wf(ctx)
    }

    open spec fn prefix_safe() -> bool {
        <u32 as Deserialize>::prefix_safe()
    }

    fn deserialize(d: &mut Deserializer) -> (r: DeserializeResult<Self>) {
        let ghost ctx = d.ctx();
        let ghost input = d.rem();
        proof {
            hudrmspec_reshape(ctx, input);
        }
        let server_id = match <u32 as Deserialize>::deserialize(d) {
            Ok(v) => v,
            Err(e) => {
                return Err(e);
            },
        };
        Ok(HudrmSpec { server_id })
    }
}

#[derive(Debug, Clone, PartialEq, Eq)]
pub struct HudchangeSpec {
    pub server_id: u32,
    pub stat: HudStat,
}

impl Serialize for HudchangeSpec {
    open spec fn enc(&self, ctx: ProtocolContext) -> Seq<u8> {
        self.server_id.enc(ctx) + self.stat.enc(ctx)
    }

    open spec fn ser_wf(&self, ctx: ProtocolContext) -> bool {
        self.server_id.ser_wf(ctx) && self.stat.ser_wf(ctx)
    }

    open spec fn eqv(&self, other: &Self) -> bool {
        self.server_id.eqv(&other.server_id) && self.stat.eqv(&other.stat)
    }

    fn serialize(&self, ser: &mut VecSerializer) -> (r: SerializeResult) {
        match self.server_id.serialize(ser) {
            Ok(_) => {},
            Err(e) => {
                return Err(e);
            },
        }
        match self.stat.serialize(ser) {
            Ok(_) => {},
            Err(e) => {
                return Err(e);
            },
        }
        proof {
            vstd::seq_lib::lemma_concat_associative(old(ser).out(), self.server_id.enc(old(ser).ctx()), self.stat.enc(old(ser).ctx()));
        }
        Ok(())
    }
}

proof fn hudchangespec_reshape(ctx: ProtocolContext, input: Seq<u8>)
    ensures
        forall|v: HudchangeSpec, rest: Seq<u8>|
            (#[trigger] v.enc(ctx).add(rest)) == input && v.rt_wf(ctx)
                && (<HudchangeSpec as Deserialize>::prefix_safe() || rest.len() == 0)
                ==> v.server_id.enc(ctx).add(v.stat.enc(ctx).add(rest)) == input,
{
    assert forall|v: HudchangeSpec, rest: Seq<u8>|
        (#[trigger] v.enc(ctx).add(rest)) == input && v.rt_wf(ctx)
        && (<HudchangeSpec as Deserialize>::prefix_safe() || rest.len() == 0)
        implies v.server_id.enc(ctx).add(v.stat.enc(ctx).add(rest)) == input by {
        vstd::seq_lib::lemma_concat_associative(v.server_id.enc(ctx), v.stat.enc(ctx), rest);
    }
}

impl Deserialize for HudchangeSpec {
    open spec fn rt_wf(&self, ctx: ProtocolContext) -> bool {
        self.server_id.rt_wf(ctx) && self.stat.rt_wf(ctx) && <u32 as Deserialize>::prefix_safe()
    }

    open spec fn prefix_safe() -> bool {
        <u32 as Deserialize>::prefix_safe() && <HudStat as Deserialize>::prefix_safe()
    }

    fn deserialize(d: &mut Deserializer) -> (r: DeserializeResult<Self>) {
        let ghost ctx = d.ctx();
        let ghost input = d.rem();
        proof {
            hudchangespec_reshape(ctx, input);
        }
        let server_id = match <u32 as Deserialize>::deserialize(d) {
            Ok(v) => v,
            Err(e) => {
                return Err(e);
            },
        };
        let stat = match <HudStat as Deserialize>::deserialize(d) {
            Ok(v) => v,
            Err(e) => {
                return Err(e);
            },
        };
        Ok(HudchangeSpec { server_id, stat })
    }
}

#[derive(Debug, Clone, PartialEq, Eq)]
pub struct HudSetFlagsSpec {
    pub flags: HudFlags,
    pub mask: HudFlags,
}

impl Serialize for HudSetFlagsSpec {
    open spec fn enc(&self, ctx: ProtocolContext) -> Seq<u8> {
        self.flags.enc(ctx) + self.mask.enc(ctx)
    }

    open spec fn ser_wf(&self, ctx: ProtocolContext) -> bool {
        self.flags.ser_wf(ctx) && self.mask.ser_wf(ctx)
    }

    open spec fn eqv(&self, other: &Self) -> bool {
        self.flags.eqv(&other.flags) && self.mask.eqv(&other.mask)
    }

    fn serialize(&self, ser: &mut VecSerializer) -> (r: SerializeResult) {
        match self.flags.serialize(ser) {
            Ok(_) => {},
            Err(e) => {
                return Err(e);
            },
        }
        match self.mask.serialize(ser) {
            Ok(_) => {},
            Err(e) => {
                return Err(e);
            },
        }
        proof {
            vstd::seq_lib::lemma_concat_associative(old(ser).out(), self.flags.enc(old(ser).ctx()), self.mask.enc(old(ser).ctx()));
        }
        Ok(())
    }
}

proof fn hudsetflagsspec_reshape(ctx: ProtocolContext, input: Seq<u8>)
    ensures
        forall|v: HudSetFlagsSpec, rest: Seq<u8>|
            (#[trigger] v.enc(ctx).add(rest)) == input && v.rt_wf(ctx)
                && (<HudSetFlagsSpec as Deserialize>::prefix_safe() || rest.len() == 0)
                ==> v.flags.enc(ctx).add(v.mask.enc(ctx).add(rest)) == input,
{
    assert forall|v: HudSetFlagsSpec, rest: Seq<u8>|
        (#[trigger] v.enc(ctx).add(rest)) == input && v.rt_wf(ctx)
        && (<HudSetFlagsSpec as Deserialize>::prefix_safe() || rest.len() == 0)
        implies v.flags.enc(ctx).add(v.mask.enc(ctx).add(rest)) == input by {
        vstd::seq_lib::lemma_concat_associative(v.flags.enc(ctx), v.mask.enc(ctx), rest);
    }
}

impl Deserialize for HudSetFlagsSpec {
    open spec fn rt_wf(&self, ctx: ProtocolContext) -> bool {
        self.flags.rt_wf(ctx) && self.mask.rt_wf(ctx) && <HudFlags as Deserialize>::prefix_safe()
    }

    open spec fn prefix_safe() -> bool {
        <HudFlags as Deserialize>::prefix_safe() && <HudFlags as Deserialize>::prefix_safe()
    }

    fn deserialize(d: &mut Deserializer) -> (r: DeserializeResult<Self>) {
        let ghost ctx = d.ctx();
        let ghost input = d.rem();
        proof {
            hudsetflagsspec_reshape(ctx, input);
        }
        let flags = match <HudFlags as Deserialize>::deserialize(d) {
            Ok(v) => v,
            Err(e) => {
                return Err(e);
            },
        };
        let mask = match <HudFlags as Deserialize>::deserialize(d) {
            Ok(v) => v,
            Err(e) => {
                return Err(e);
            },
        };
        Ok(HudSetFlagsSpec { flags, mask })
    }
}

#[derive(Debug, Clone, PartialEq, Eq)]
pub struct HudSetParamSpec {
    pub value: HudSetParam,
}

impl Serialize for HudSetParamSpec {
    open spec fn enc(&self, ctx: ProtocolContext) -> Seq<u8> {
        self.value.enc(ctx)
    }

    open spec fn ser_wf(&self, ctx: ProtocolContext) -> bool {
        self.value.ser_wf(ctx)
    }

    open spec fn eqv(&self, other: &Self) -> bool {
        self.value.eqv(&other.value)
    }

    fn serialize(&self, ser: &mut VecSerializer) -> (r: SerializeResult) {
        match self.value.serialize(ser) {
            Ok(_) => {},
            Err(e) => {
                return Err(e);
            },
        }
        proof {
        }
        Ok(())
    }
}

proof fn hudsetparamspec_reshape(ctx: ProtocolContext, input: Seq<u8>)
    ensures
        forall|v: HudSetParamSpec, rest: Seq<u8>|
            (#[trigger] v.enc(ctx).add(rest)) == input && v.rt_wf(ctx)
                && (<HudSetParamSpec as Deserialize>::prefix_safe() || rest.len() == 0)
                ==> v.value.enc(ctx).add(rest) == input,
{
    assert forall|v: HudSetParamSpec, rest: Seq<u8>|
        (#[trigger] v.enc(ctx).add(rest)) == input && v.rt_wf(ctx)
        && (<HudSetParamSpec as Deserialize>::prefix_safe() || rest.len() == 0)
        implies v.value.enc(ctx).add(rest) == input by {
    }
}

impl Deserialize for HudSetParamSpec {
    open spec fn rt_wf(&self, ctx: ProtocolContext) -> bool {
        self.value.rt_wf(ctx)
    }

    open spec fn prefix_safe() -> bool {
        <HudSetParam as Deserialize>::prefix_safe()
    }

    fn deserialize(d: &mut Deserializer) -> (r: DeserializeResult<Self>) {
        let ghost ctx = d.ctx();
        let ghost input = d.rem();
        proof {
            hudsetparamspec_reshape(ctx, input);
        }
        let value = match <HudSetParam as Deserialize>::deserialize(d) {
            Ok(v) => v,
            Err(e) => {
                return Err(e);
            },
        };
        Ok(HudSetParamSpec { value })
    }
}

#[derive(Debug, Clone, PartialEq, Eq)]
pub struct BreathSpec {
    pub breath: u16,
}

impl Serialize for BreathSpec {
    open spec fn enc(&self, ctx: ProtocolContext) -> Seq<u8> {
        self.breath.enc(ctx)
    }

    open spec fn ser_wf(&self, ctx: ProtocolContext) -> bool {
        self.breath.ser_wf(ctx)
    }

    open spec fn eqv(&self, other: &Self) -> bool {
        self.breath.eqv(&other.breath)
    }

    fn serialize(&self, ser: &mut VecSerializer) -> (r: SerializeResult) {
        match self.breath.serialize(ser) {
            Ok(_) => {},
            Err(e) => {
                return Err(e);
            },
        }
        proof {
        }
        Ok(())
    }
}

proof fn breathspec_reshape(ctx: ProtocolContext, input: Seq<u8>)
    ensures
        forall|v: BreathSpec, rest: Seq<u8>|
            (#[trigger] v.enc(ctx).add(rest)) == input && v.rt_wf(ctx)
                && (<BreathSpec as Deserialize>::prefix_safe() || rest.len() == 0)
                ==> v.breath.enc(ctx).add(rest) == input,
{
    assert forall|v: BreathSpec, rest: Seq<u8>|
        (#[trigger] v.enc(ctx).add(rest)) == input && v.rt_wf(ctx)
        && (<BreathSpec as Deserialize>::prefix_safe() || rest.len() == 0)
        implies v.breath.enc(ctx).add(rest) == input by {
    }
}

impl Deserialize for BreathSpec {
    open spec fn rt_wf(&self, ctx: ProtocolContext) -> bool {
        self.breath.rt_wf(ctx)
    }

    open spec fn prefix_safe() -> bool {
        <u16 as Deserialize>::prefix_safe()
    }

    fn deserialize(d: &mut Deserializer) -> (r: DeserializeResult<Self>) {
        let ghost ctx = d.ctx();
        let ghost input = d.rem();
        proof {
            breathspec_reshape(ctx, input);
        }
        let breath = match <u16 as Deserialize>::deserialize(d) {
            Ok(v) => v,
            Err(e) => {
                return Err(e);
            },
        };
        Ok(BreathSpec { breath })
    }
}

#[derive(Debug, Clone, PartialEq, Eq)]
pub struct OverrideDayNightRatioSpec {
    pub do_override: bool,
    pub day_night_ratio: u16,
}

impl Serialize for OverrideDayNightRatioSpec {
    open spec fn enc(&self, ctx: ProtocolContext) -> Seq<u8> {
        self.do_override.enc(ctx) + self.day_night_ratio.enc(ctx)
    }

    open spec fn ser_wf(&self, ctx: ProtocolContext) -> bool {
        self.do_override.ser_wf(ctx) && self.day_night_ratio.ser_wf(ctx)
    }

    open spec fn eqv(&self, other: &Self) -> bool {
        self.do_override.eqv(&other.do_override) && self.day_night_ratio.eqv(&other.day_night_ratio)
    }

    fn serialize(&self, ser: &mut VecSerializer) -> (r: SerializeResult) {
        match self.do_override.serialize(ser) {
            Ok(_) => {},
            Err(e) => {
                return Err(e);
            },
        }
        match self.day_night_ratio.serialize(ser) {
            Ok(_) => {},
            Err(e) => {
                return Err(e);
            },
        }
        proof {
            vstd::seq_lib::lemma_concat_associative(old(ser).out(), self.do_override.enc(old(ser).ctx()), self.day_night_ratio.enc(old(ser).ctx()));
        }
        Ok(())
    }
}

proof fn overridedaynightratiospec_reshape(ctx: ProtocolContext, input: Seq<u8>)
    ensures
        forall|v: OverrideDayNightRatioSpec, rest: Seq<u8>|
            (#[trigger] v.enc(ctx).add(rest)) == input && v.rt_wf(ctx)
                && (<OverrideDayNightRatioSpec as Deserialize>::prefix_safe() || rest.len() == 0)
                ==> v.do_override.enc(ctx).add(v.day_night_ratio.enc(ctx).add(rest)) == input,
{
    assert forall|v: OverrideDayNightRatioSpec, rest: Seq<u8>|
        (#[trigger] v.enc(ctx).add(rest)) == input && v.rt_wf(ctx)
        && (<OverrideDayNightRatioSpec as Deserialize>::prefix_safe() || rest.len() == 0)
        implies v.do_override.enc(ctx).add(v.day_night_ratio.enc(ctx).add(rest)) == input by {
        vstd::seq_lib::lemma_concat_associative(v.do_override.enc(ctx), v.day_night_ratio.enc(ctx), rest);
    }
}

impl Deserialize for OverrideDayNightRatioSpec {
    open spec fn rt_wf(&self, ctx: ProtocolContext) -> bool {
        self.do_override.rt_wf(ctx) && self.day_night_ratio.rt_wf(ctx) && <bool as Deserialize>::prefix_safe()
    }

    open spec fn prefix_safe() -> bool {
        <bool as Deserialize>::prefix_safe() && <u16 as Deserialize>::prefix_safe()
    }

    fn deserialize(d: &mut Deserializer) -> (r: DeserializeResult<Self>) {
        let ghost ctx = d.ctx();
        let ghost input = d.rem();
        proof {
            overridedaynightratiospec_reshape(ctx, input);
        }
        let do_override = match <bool as Deserialize>::deserialize(d) {
            Ok(v) => v,
            Err(e) => {
                return Err(e);
            },
        };
        let day_night_ratio = match <u16 as Deserialize>::deserialize(d) {
            Ok(v) => v,
            Err(e) => {
                return Err(e);
            },
        };
        Ok(OverrideDayNightRatioSpec { do_override, day_night_ratio })
    }
}

#[derive(Debug, Clone, PartialEq, Eq)]
pub struct LocalPlayerAnimationsSpec {
    pub idle: v2s32,
    pub walk: v2s32,
    pub dig: v2s32,
    pub walk_dig: v2s32,
    pub frame_speed: f32bits,
}

impl Serialize for LocalPlayerAnimationsSpec {
    open spec fn enc(&self, ctx: ProtocolContext) -> Seq<u8> {
        self.idle.enc(ctx) + self.walk.enc(ctx) + self.dig.enc(ctx) + self.walk_dig.enc(ctx) + self.frame_speed.enc(ctx)
    }

    open spec fn ser_wf(&self, ctx: ProtocolContext) -> bool {
        self.idle.ser_wf(ctx) && self.walk.ser_wf(ctx) && self.dig.ser_wf(ctx) && self.walk_dig.ser_wf(ctx) && self.frame_speed.ser_wf(ctx)
    }

    open spec fn eqv(&self, other: &Self) -> bool {
        self.idle.eqv(&other.idle) && self.walk.eqv(&other.walk) && self.dig.eqv(&other.dig) && self.walk_dig.eqv(&other.walk_dig) && self.frame_speed.eqv(&other.frame_speed)
    }

    fn serialize(&self, ser: &mut VecSerializer) -> (r: SerializeResult) {
        match self.idle.serialize(ser) {
            Ok(_) => {},
            Err(e) => {
                return Err(e);
            },
        }
        match self.walk.serialize(ser) {
            Ok(_) => {},
            Err(e) => {
                return Err(e);
            },
        }
        match self.dig.serialize(ser) {
            Ok(_) => {},
            Err(e) => {
                return Err(e);
            },
        }
        match self.walk_dig.serialize(ser) {
            Ok(_) => {},
            Err(e) => {
                return Err(e);
            },
        }
        match self.frame_speed.serialize(ser) {
            Ok(_) => {},
            Err(e) => {
                return Err(e);
            },
        }
        proof {
            vstd::seq_lib::lemma_concat_associative(old(ser).out(), self.idle.enc(old(ser).ctx()), self.walk.enc(old(ser).ctx()));
            vstd::seq_lib::lemma_concat_associative(old(ser).out(), self.idle.enc(old(ser).ctx()) + self.walk.enc(old(ser).ctx()), self.dig.enc(old(ser).ctx()));
            vstd::seq_lib::lemma_concat_associative(old(ser).out(), self.idle.enc(old(ser).ctx()) + self.walk.enc(old(ser).ctx()) + self.dig.enc(old(ser).ctx()), self.walk_dig.enc(old(ser).ctx()));
            vstd::seq_lib::lemma_concat_associative(old(ser).out(), self.idle.enc(old(ser).ctx()) + self.walk.enc(old(ser).ctx()) + self.dig.enc(old(ser).ctx()) + self.walk_dig.enc(old(ser).ctx()), self.frame_speed.enc(old(ser).ctx()));
        }
        Ok(())
    }
}

proof fn localplayeranimationsspec_reshape(ctx: ProtocolContext, input: Seq<u8>)
    ensures
        forall|v: LocalPlayerAnimationsSpec, rest: Seq<u8>|
            (#[trigger] v.enc(ctx).add(rest)) == input && v.rt_wf(ctx)
                && (<LocalPlayerAnimationsSpec as Deserialize>::prefix_safe() || rest.len() == 0)
                ==> v.idle.enc(ctx).add(v.walk.enc(ctx).add(v.dig.enc(ctx).add(v.walk_dig.enc(ctx).add(v.frame_speed.enc(ctx).add(rest))))) == input,
{
    assert forall|v: LocalPlayerAnimationsSpec, rest: Seq<u8>|
        (#[trigger] v.enc(ctx).add(rest)) == input && v.rt_wf(ctx)
        && (<LocalPlayerAnimationsSpec as Deserialize>::prefix_safe() || rest.len() == 0)
        implies v.idle.enc(ctx).add(v.walk.enc(ctx).add(v.dig.enc(ctx).add(v.walk_dig.enc(ctx).add(v.frame_speed.enc(ctx).add(rest))))) == input by {
        vstd::seq_lib::lemma_concat_associative(v.idle.enc(ctx) + v.walk.enc(ctx) + v.dig.enc(ctx) + v.walk_dig.enc(ctx), v.frame_speed.enc(ctx), rest);
        vstd::seq_lib::lemma_concat_associative(v.idle.enc(ctx) + v.walk.enc(ctx) + v.dig.enc(ctx), v.walk_dig.enc(ctx), v.frame_speed.enc(ctx).add(rest));
        vstd::seq_lib::lemma_concat_associative(v.idle.enc(ctx) + v.walk.enc(ctx), v.dig.enc(ctx), v.walk_dig.enc(ctx).add(v.frame_speed.enc(ctx).add(rest)));
        vstd::seq_lib::lemma_concat_associative(v.idle.enc(ctx), v.walk.enc(ctx), v.dig.enc(ctx).add(v.walk_dig.enc(ctx).add(v.frame_speed.enc(ctx).add(rest))));
    }
}

impl Deserialize for LocalPlayerAnimationsSpec {
    open spec fn rt_wf(&self, ctx: ProtocolContext) -> bool {
        self.idle.rt_wf(ctx) && self.walk.rt_wf(ctx) && self.dig.rt_wf(ctx) && self.walk_dig.rt_wf(ctx) && self.frame_speed.rt_wf(ctx) && <v2s32 as Deserialize>::prefix_safe() && <v2s32 as Deserialize>::prefix_safe() && <v2s32 as Deserialize>::prefix_safe() && <v2s32 as Deserialize>::prefix_safe()
    }

    open spec fn prefix_safe() -> bool {
        <v2s32 as Deserialize>::prefix_safe() && <v2s32 as Deserialize>::prefix_safe() && <v2s32 as Deserialize>::prefix_safe() && <v2s32 as Deserialize>::prefix_safe() && <f32bits as Deserialize>::prefix_safe()
    }

    fn deserialize(d: &mut Deserializer) -> (r: DeserializeResult<Self>) {
        let ghost ctx = d.ctx();
        let ghost input = d.rem();
        proof {
            localplayeranimationsspec_reshape(ctx, input);
        }
        let idle = match <v2s32 as Deserialize>::deserialize(d) {
            Ok(v) => v,
            Err(e) => {
                return Err(e);
            },
        };
        let walk = match <v2s32 as Deserialize>::deserialize(d) {
            Ok(v) => v,
            Err(e) => {
                return Err(e);
            },
        };
        let dig = match <v2s32 as Deserialize>::deserialize(d) {
            Ok(v) => v,
            Err(e) => {
                return Err(e);
            },
        };
        let walk_dig = match <v2s32 as Deserialize>::deserialize(d) {
            Ok(v) => v,
            Err(e) => {
                return Err(e);
            },
        };
        let frame_speed = match <f32bits as Deserialize>::deserialize(d) {
            Ok(v) => v,
            Err(e) => {
                return Err(e);
            },
        };
        Ok(LocalPlayerAnimationsSpec { idle, walk, dig, walk_dig, frame_speed })
    }
}

#[derive(Debug, Clone, PartialEq, Eq)]
pub struct EyeOffsetSpec {
    pub eye_offset_first: v3f,
    pub eye_offset_third: v3f,
}

impl Serialize for EyeOffsetSpec {
    open spec fn enc(&self, ctx: ProtocolContext) -> Seq<u8> {
        self.eye_offset_first.enc(ctx) + self.eye_offset_third.enc(ctx)
    }

    open spec fn ser_wf(&self, ctx: ProtocolContext) -> bool {
        self.eye_offset_first.ser_wf(ctx) && self.eye_offset_third.ser_wf(ctx)
    }

    open spec fn eqv(&self, other: &Self) -> bool {
        self.eye_offset_first.eqv(&other.eye_offset_first) && self.eye_offset_third.eqv(&other.eye_offset_third)
    }

    fn serialize(&self, ser: &mut VecSerializer) -> (r: SerializeResult) {
        match self.eye_offset_first.serialize(ser) {
            Ok(_) => {},
            Err(e) => {
                return Err(e);
            },
        }
        match self.eye_offset_third.serialize(ser) {
            Ok(_) => {},
            Err(e) => {
                return Err(e);
            },
        }
        proof {
            vstd::seq_lib::lemma_concat_associative(old(ser).out(), self.eye_offset_first.enc(old(ser).ctx()), self.eye_offset_third.enc(old(ser).ctx()));
        }
        Ok(())
    }
}

proof fn eyeoffsetspec_reshape(ctx: ProtocolContext, input: Seq<u8>)
    ensures
        forall|v: EyeOffsetSpec, rest: Seq<u8>|
            (#[trigger] v.enc(ctx).add(rest)) == input && v.rt_wf(ctx)
                && (<EyeOffsetSpec as Deserialize>::prefix_safe() || rest.len() == 0)
                ==> v.eye_offset_first.enc(ctx).add(v.eye_offset_third.enc(ctx).add(rest)) == input,
{
    assert forall|v: EyeOffsetSpec, rest: Seq<u8>|
        (#[trigger] v.enc(ctx).add(rest)) == input && v.rt_wf(ctx)
        && (<EyeOffsetSpec as Deserialize>::prefix_safe() || rest.len() == 0)
        implies v.eye_offset_first.enc(ctx).add(v.eye_offset_third.enc(ctx).add(rest)) == input by {
        vstd::seq_lib::lemma_concat_associative(v.eye_offset_first.enc(ctx), v.eye_offset_third.enc(ctx), rest);
    }
}

impl Deserialize for EyeOffsetSpec {
    open spec fn rt_wf(&self, ctx: ProtocolContext) -> bool {
        self.eye_offset_first.rt_wf(ctx) && self.eye_offset_third.rt_wf(ctx) && <v3f as Deserialize>::prefix_safe()
    }

    open spec fn prefix_safe() -> bool {
        <v3f as Deserialize>::prefix_safe() && <v3f as Deserialize>::prefix_safe()
    }

    fn deserialize(d: &mut Deserializer) -> (r: DeserializeResult<Self>) {
        let ghost ctx = d.ctx();
        let ghost input = d.rem();
        proof {
            eyeoffsetspec_reshape(ctx, input);
        }
        let eye_offset_first = match <v3f as Deserialize>::deserialize(d) {
            Ok(v) => v,
            Err(e) => {
                return Err(e);
            },
        };
        let eye_offset_third = match <v3f as Deserialize>::deserialize(d) {
            Ok(v) => v,
            Err(e) => {
                return Err(e);
            },
        };
        Ok(EyeOffsetSpec { eye_offset_first, eye_offset_third })
    }
}

#[derive(Debug, Clone, PartialEq, Eq)]
pub struct DeleteParticlespawnerSpec {
    pub server_id: u32,
}

impl Serialize for DeleteParticlespawnerSpec {
    open spec fn enc(&self, ctx: ProtocolContext) -> Seq<u8> {
        self.server_id.enc(ctx)
    }

    open spec fn ser_wf(&self, ctx: ProtocolContext) -> bool {
        self.server_id.ser_wf(ctx)
    }

    open spec fn eqv(&self, other: &Self) -> bool {
        self.server_id.eqv(&other.server_id)
    }

    fn serialize(&self, ser: &mut VecSerializer) -> (r: SerializeResult) {
        match self.server_id.serialize(ser) {
            Ok(_) => {},
            Err(e) => {
                return Err(e);
            },
        }
        proof {
        }
        Ok(())
    }
}

proof fn deleteparticlespawnerspec_reshape(ctx: ProtocolContext, input: Seq<u8>)
    ensures
        forall|v: DeleteParticlespawnerSpec, rest: Seq<u8>|
            (#[trigger] v.enc(ctx).add(rest)) == input && v.rt_wf(ctx)
                && (<DeleteParticlespawnerSpec as Deserialize>::prefix_safe() || rest.len() == 0)
                ==> v.server_id.enc(ctx).add(rest) == input,
{
    assert forall|v: DeleteParticlespawnerSpec, rest: Seq<u8>|
        (#[trigger] v.enc(ctx).add(rest)) == input && v.rt_wf(ctx)
        && (<DeleteParticlespawnerSpec as Deserialize>::prefix_safe() || rest.len() == 0)
        implies v.server_id.enc(ctx).add(rest) == input by {
    }
}

impl Deserialize for DeleteParticlespawnerSpec {
    open spec fn rt_wf(&self, ctx: ProtocolContext) -> bool {
        self.server_id.rt_wf(ctx)
    }

    open spec fn prefix_safe() -> bool {
        <u32 as Deserialize>::prefix_safe()
    }

    fn deserialize(d: &mut Deserializer) -> (r: DeserializeResult<Self>) {
        let ghost ctx = d.ctx();
        let ghost input = d.rem();
        proof {
            deleteparticlespawnerspec_reshape(ctx, input);
        }
        let server_id = match <u32 as Deserialize>::deserialize(d) {
            Ok(v) => v,
            Err(e) => {
                return Err(e);
            },
        };
        Ok(DeleteParticlespawnerSpec { server_id })
    }
}

#[derive(Debug, Clone, PartialEq, Eq)]
pub struct CloudParamsSpec {
    pub density: f32bits,
    pub color_bright: SColor,
    pub color_ambient: SColor,
    pub height: f32bits,
    pub thickness: f32bits,
    pub speed: v2f,
}

impl Serialize for CloudParamsSpec {
    open spec fn enc(&self, ctx: ProtocolContext) -> Seq<u8> {
        self.density.enc(ctx) + self.color_bright.enc(ctx) + self.color_ambient.enc(ctx) + self.height.enc(ctx) + self.thickness.enc(ctx) + self.speed.enc(ctx)
    }

    open spec fn ser_wf(&self, ctx: ProtocolContext) -> bool {
        self.density.ser_wf(ctx) && self.color_bright.ser_wf(ctx) && self.color_ambient.ser_wf(ctx) && self.height.ser_wf(ctx) && self.thickness.ser_wf(ctx) && self.speed.ser_wf(ctx)
    }

    open spec fn eqv(&self, other: &Self) -> bool {
        self.density.eqv(&other.density) && self.color_bright.eqv(&other.color_bright) && self.color_ambient.eqv(&other.color_ambient) && self.height.eqv(&other.height) && self.thickness.eqv(&other.thickness) && self.speed.eqv(&other.speed)
    }

    fn serialize(&self, ser: &mut VecSerializer) -> (r: SerializeResult) {
        match self.density.serialize(ser) {
            Ok(_) => {},
            Err(e) => {
                return Err(e);
            },
        }
        match self.color_bright.serialize(ser) {
            Ok(_) => {},
            Err(e) => {
                return Err(e);
            },
        }
        match self.color_ambient.serialize(ser) {
            Ok(_) => {},
            Err(e) => {
                return Err(e);
            },
        }
        match self.height.serialize(ser) {
            Ok(_) => {},
            Err(e) => {
                return Err(e);
            },
        }
        match self.thickness.serialize(ser) {
            Ok(_) => {},
            Err(e) => {
                return Err(e);
            },
        }
        match self.speed.serialize(ser) {
            Ok(_) => {},
            Err(e) => {
                return Err(e);
            },
        }
        proof {
            vstd::seq_lib::lemma_concat_associative(old(ser).out(), self.density.enc(old(ser).ctx()), self.color_bright.enc(old(ser).ctx()));
            vstd::seq_lib::lemma_concat_associative(old(ser).out(), self.density.enc(old(ser).ctx()) + self.color_bright.enc(old(ser).ctx()), self.color_ambient.enc(old(ser).ctx()));
            vstd::seq_lib::lemma_concat_associative(old(ser).out(), self.density.enc(old(ser).ctx()) + self.color_bright.enc(old(ser).ctx()) + self.color_ambient.enc(old(ser).ctx()), self.height.enc(old(ser).ctx()));
            vstd::seq_lib::lemma_concat_associative(old(ser).out(), self.density.enc(old(ser).ctx()) + self.color_bright.enc(old(ser).ctx()) + self.color_ambient.enc(old(ser).ctx()) + self.height.enc(old(ser).ctx()), self.thickness.enc(old(ser).ctx()));
            vstd::seq_lib::lemma_concat_associative(old(ser).out(), self.density.enc(old(ser).ctx()) + self.color_bright.enc(old(ser).ctx()) + self.color_ambient.enc(old(ser).ctx()) + self.height.enc(old(ser).ctx()) + self.thickness.enc(old(ser).ctx()), self.speed.enc(old(ser).ctx()));
        }
        Ok(())
    }
}

proof fn cloudparamsspec_reshape(ctx: ProtocolContext, input: Seq<u8>)
    ensures
        forall|v: CloudParamsSpec, rest: Seq<u8>|
            (#[trigger] v.enc(ctx).add(rest)) == input && v.rt_wf(ctx)
                && (<CloudParamsSpec as Deserialize>::prefix_safe() || rest.len() == 0)
                ==> v.density.enc(ctx).add(v.color_bright.enc(ctx).add(v.color_ambient.enc(ctx).add(v.height.enc(ctx).add(v.thickness.enc(ctx).add(v.speed.enc(ctx).add(rest)))))) == input,
{
    assert forall|v: CloudParamsSpec, rest: Seq<u8>|
        (#[trigger] v.enc(ctx).add(rest)) == input && v.rt_wf(ctx)
        && (<CloudParamsSpec as Deserialize>::prefix_safe() || rest.len() == 0)
        implies v.density.enc(ctx).add(v.color_bright.enc(ctx).add(v.color_ambient.enc(ctx).add(v.height.enc(ctx).add(v.thickness.enc(ctx).add(v.speed.enc(ctx).add(rest)))))) == input by {
        vstd::seq_lib::lemma_concat_associative(v.density.enc(ctx) + v.color_bright.enc(ctx) + v.color_ambient.enc(ctx) + v.height.enc(ctx) + v.thickness.enc(ctx), v.speed.enc(ctx), rest);
        vstd::seq_lib::lemma_concat_associative(v.density.enc(ctx) + v.color_bright.enc(ctx) + v.color_ambient.enc(ctx) + v.height.enc(ctx), v.thickness.enc(ctx), v.speed.enc(ctx).add(rest));
        vstd::seq_lib::lemma_concat_associative(v.density.enc(ctx) + v.color_bright.enc(ctx) + v.color_ambient.enc(ctx), v.height.enc(ctx), v.thickness.enc(ctx).add(v.speed.enc(ctx).add(rest)));
        vstd::seq_lib::lemma_concat_associative(v.density.enc(ctx) + v.color_bright.enc(ctx), v.color_ambient.enc(ctx), v.height.enc(ctx).add(v.thickness.enc(ctx).add(v.speed.enc(ctx).add(rest))));
        vstd::seq_lib::lemma_concat_associative(v.density.enc(ctx), v.color_bright.enc(ctx), v.color_ambient.enc(ctx).add(v.height.enc(ctx).add(v.thickness.enc(ctx).add(v.speed.enc(ctx).add(rest)))));
    }
}

impl Deserialize for CloudParamsSpec {
    open spec fn rt_wf(&self, ctx: ProtocolContext) -> bool {
        self.density.rt_wf(ctx) && self.color_bright.rt_wf(ctx) && self.color_ambient.rt_wf(ctx) && self.height.rt_wf(ctx) && self.thickness.rt_wf(ctx) && self.speed.rt_wf(ctx) && <f32bits as Deserialize>::prefix_safe() && <SColor as Deserialize>::prefix_safe() && <SColor as Deserialize>::prefix_safe() && <f32bits as Deserialize>::prefix_safe() && <f32bits as Deserialize>::prefix_safe()
    }

    open spec fn prefix_safe() -> bool {
        <f32bits as Deserialize>::prefix_safe() && <SColor as Deserialize>::prefix_safe() && <SColor as Deserialize>::prefix_safe() && <f32bits as Deserialize>::prefix_safe() && <f32bits as Deserialize>::prefix_safe() && <v2f as Deserialize>::prefix_safe()
    }

    fn deserialize(d: &mut Deserializer) -> (r: DeserializeResult<Self>) {
        let ghost ctx = d.ctx();
        let ghost input = d.rem();
        proof {
            cloudparamsspec_reshape(ctx, input);
        }
        let density = match <f32bits as Deserialize>::deserialize(d) {
            Ok(v) => v,
            Err(e) => {
                return Err(e);
            },
        };
        let color_bright = match <SColor as Deserialize>::deserialize(d) {
            Ok(v) => v,
            Err(e) => {
                return Err(e);
            },
        };
        let color_ambient = match <SColor as Deserialize>::deserialize(d) {
            Ok(v) => v,
            Err(e) => {
                return Err(e);
            },
        };
        let height = match <f32bits as Deserialize>::deserialize(d) {
            Ok(v) => v,
            Err(e) => {
                return Err(e);
            },
        };
        let thickness = match <f32bits as Deserialize>::deserialize(d) {
            Ok(v) => v,
            Err(e) => {
                return Err(e);
            },
        };
        let speed = match <v2f as Deserialize>::deserialize(d) {
            Ok(v) => v,
            Err(e) => {
                return Err(e);
            },
        };
        Ok(CloudParamsSpec { density, color_bright, color_ambient, height, thickness, speed })
    }
}

#[derive(Debug, Clone, PartialEq, Eq)]
pub struct FadeSoundSpec {
    pub sound_id: s32,
    pub step: f32bits,
    pub gain: f32bits,
}

impl Serialize for FadeSoundSpec {
    open spec fn enc(&self, ctx: ProtocolContext) -> Seq<u8> {
        self.sound_id.enc(ctx) + self.step.enc(ctx) + self.gain.enc(ctx)
    }

    open spec fn ser_wf(&self, ctx: ProtocolContext) -> bool {
        self.sound_id.ser_wf(ctx) && self.step.ser_wf(ctx) && self.gain.ser_wf(ctx)
    }

    open spec fn eqv(&self, other: &Self) -> bool {
        self.sound_id.eqv(&other.sound_id) && self.step.eqv(&other.step) && self.gain.eqv(&other.gain)
    }

    fn serialize(&self, ser: &mut VecSerializer) -> (r: SerializeResult) {
        match self.sound_id.serialize(ser) {
            Ok(_) => {},
            Err(e) => {
                return Err(e);
            },
        }
        match self.step.serialize(ser) {
            Ok(_) => {},
            Err(e) => {
                return Err(e);
            },
        }
        match self.gain.serialize(ser) {
            Ok(_) => {},
            Err(e) => {
                return Err(e);
            },
        }
        proof {
            vstd::seq_lib::lemma_concat_associative(old(ser).out(), self.sound_id.enc(old(ser).ctx()), self.step.enc(old(ser).ctx()));
            vstd::seq_lib::lemma_concat_associative(old(ser).out(), self.sound_id.enc(old(ser).ctx()) + self.step.enc(old(ser).ctx()), self.gain.enc(old(ser).ctx()));
        }
        Ok(())
    }
}

proof fn fadesoundspec_reshape(ctx: ProtocolContext, input: Seq<u8>)
    ensures
        forall|v: FadeSoundSpec, rest: Seq<u8>|
            (#[trigger] v.enc(ctx).add(rest)) == input && v.rt_wf(ctx)
                && (<FadeSoundSpec as Deserialize>::prefix_safe() || rest.len() == 0)
                ==> v.sound_id.enc(ctx).add(v.step.enc(ctx).add(v.gain.enc(ctx).add(rest))) == input,
{
    assert forall|v: FadeSoundSpec, rest: Seq<u8>|
        (#[trigger] v.enc(ctx).add(rest)) == input && v.rt_wf(ctx)
        && (<FadeSoundSpec as Deserialize>::prefix_safe() || rest.len() == 0)
        implies v.sound_id.enc(ctx).add(v.step.enc(ctx).add(v.gain.enc(ctx).add(rest))) == input by {
        vstd::seq_lib::lemma_concat_associative(v.sound_id.enc(ctx) + v.step.enc(ctx), v.gain.enc(ctx), rest);
        vstd::seq_lib::lemma_concat_associative(v.sound_id.enc(ctx), v.step.enc(ctx), v.gain.enc(ctx).add(rest));
    }
}

impl Deserialize for FadeSoundSpec {
    open spec fn rt_wf(&self, ctx: ProtocolContext) -> bool {
        self.sound_id.rt_wf(ctx) && self.step.rt_wf(ctx) && self.gain.rt_wf(ctx) && <s32 as Deserialize>::prefix_safe() && <f32bits as Deserialize>::prefix_safe()
    }

    open spec fn prefix_safe() -> bool {
        <s32 as Deserialize>::prefix_safe() && <f32bits as Deserialize>::prefix_safe() && <f32bits as Deserialize>::prefix_safe()
    }

    fn deserialize(d: &mut Deserializer) -> (r: DeserializeResult<Self>) {
        let ghost ctx = d.ctx();
        let ghost input = d.rem();
        proof {
            fadesoundspec_reshape(ctx, input);
        }
        let sound_id = match <s32 as Deserialize>::deserialize(d) {
            Ok(v) => v,
            Err(e) => {
                return Err(e);
            },
        };
        let step = match <f32bits as Deserialize>::deserialize(d) {
            Ok(v) => v,
            Err(e) => {
                return Err(e);
            },
        };
        let gain = match <f32bits as Deserialize>::deserialize(d) {
            Ok(v) => v,
            Err(e) => {
                return Err(e);
            },
        };
        Ok(FadeSoundSpec { sound_id, step, gain })
    }
}

#[derive(Debug, Clone, PartialEq, Eq)]
pub struct UpdatePlayerListSpec {
    pub typ: u8,
    pub players: Array16<ByteString>,
}

impl Serialize for UpdatePlayerListSpec {
    open spec fn enc(&self, ctx: ProtocolContext) -> Seq<u8> {
        self.typ.enc(ctx) + self.players.enc(ctx)
    }

    open spec fn ser_wf(&self, ctx: ProtocolContext) -> bool {
        self.typ.ser_wf(ctx) && self.players.ser_wf(ctx)
    }

    open spec fn eqv(&self, other: &Self) -> bool {
        self.typ.eqv(&other.typ) && self.players.eqv(&other.players)
    }

    fn serialize(&self, ser: &mut VecSerializer) -> (r: SerializeResult) {
        match self.typ.serialize(ser) {
            Ok(_) => {},
            Err(e) => {
                return Err(e);
            },
        }
        match self.players.serialize(ser) {
            Ok(_) => {},
            Err(e) => {
                return Err(e);
            },
        }
        proof {
            vstd::seq_lib::lemma_concat_associative(old(ser).out(), self.typ.enc(old(ser).ctx()), self.players.enc(old(ser).ctx()));
        }
        Ok(())
    }
}

proof fn updateplayerlistspec_reshape(ctx: ProtocolContext, input: Seq<u8>)
    ensures
        forall|v: UpdatePlayerListSpec, rest: Seq<u8>|
            (#[trigger] v.enc(ctx).add(rest)) == input && v.rt_wf(ctx)
                && (<UpdatePlayerListSpec as Deserialize>::prefix_safe() || rest.len() == 0)
                ==> v.typ.enc(ctx).add(v.players.enc(ctx).add(rest)) == input,
{
    assert forall|v: UpdatePlayerListSpec, rest: Seq<u8>|
        (#[trigger] v.enc(ctx).add(rest)) == input && v.rt_wf(ctx)
        && (<UpdatePlayerListSpec as Deserialize>::prefix_safe() || rest.len() == 0)
        implies v.typ.enc(ctx).add(v.players.enc(ctx).add(rest)) == input by {
        vstd::seq_lib::lemma_concat_associative(v.typ.enc(ctx), v.players.enc(ctx), rest);
    }
}

impl Deserialize for UpdatePlayerListSpec {
    open spec fn rt_wf(&self, ctx: ProtocolContext) -> bool {
        self.typ.rt_wf(ctx) && self.players.rt_wf(ctx) && <u8 as Deserialize>::prefix_safe()
    }

    open spec fn prefix_safe() -> bool {
        <u8 as Deserialize>::prefix_safe() && <Array16<ByteString> as Deserialize>::prefix_safe()
    }

    fn deserialize(d: &mut Deserializer) -> (r: DeserializeResult<Self>) {
        let ghost ctx = d.ctx();
        let ghost input = d.rem();
        proof {
            updateplayerlistspec_reshape(ctx, input);
        }
        let typ = match <u8 as Deserialize>::deserialize(d) {
            Ok(v) => v,
            Err(e) => {
                return Err(e);
            },
        };
        let players = match <Array16<ByteString> as Deserialize>::deserialize(d) {
            Ok(v) => v,
            Err(e) => {
                return Err(e);
            },
        };
        Ok(UpdatePlayerListSpec { typ, players })
    }
}

#[derive(Debug, Clone, PartialEq, Eq)]
pub struct TCModchannelMsgSpec {
    pub channel_name: ByteString,
    pub sender: ByteString,
    pub channel_msg: ByteString,
}

impl Serialize for TCModchannelMsgSpec {
    open spec fn enc(&self, ctx: ProtocolContext) -> Seq<u8> {
        self.channel_name.enc(ctx) + self.sender.enc(ctx) + self.channel_msg.enc(ctx)
    }

    open spec fn ser_wf(&self, ctx: ProtocolContext) -> bool {
        self.channel_name.ser_wf(ctx) && self.sender.ser_wf(ctx) && self.channel_msg.ser_wf(ctx)
    }

    open spec fn eqv(&self, other: &Self) -> bool {
        self.channel_name.eqv(&other.channel_name) && self.sender.eqv(&other.sender) && self.channel_msg.eqv(&other.channel_msg)
    }

    fn serialize(&self, ser: &mut VecSerializer) -> (r: SerializeResult) {
        match self.channel_name.serialize(ser) {
            Ok(_) => {},
            Err(e) => {
                return Err(e);
            },
        }
        match self.sender.serialize(ser) {
            Ok(_) => {},
            Err(e) => {
                return Err(e);
            },
        }
        match self.channel_msg.serialize(ser) {
            Ok(_) => {},
            Err(e) => {
                return Err(e);
            },
        }
        proof {
            vstd::seq_lib::lemma_concat_associative(old(ser).out(), self.channel_name.enc(old(ser).ctx()), self.sender.enc(old(ser).ctx()));
            vstd::seq_lib::lemma_concat_associative(old(ser).out(), self.channel_name.enc(old(ser).ctx()) + self.sender.enc(old(ser).ctx()), self.channel_msg.enc(old(ser).ctx()));
        }
        Ok(())
    }
}

proof fn tcmodchannelmsgspec_reshape(ctx: ProtocolContext, input: Seq<u8>)
    ensures
        forall|v: TCModchannelMsgSpec, rest: Seq<u8>|
            (#[trigger] v.enc(ctx).add(rest)) == input && v.rt_wf(ctx)
                && (<TCModchannelMsgSpec as Deserialize>::prefix_safe() || rest.len() == 0)
                ==> v.channel_name.enc(ctx).add(v.sender.enc(ctx).add(v.channel_msg.enc(ctx).add(rest))) == input,
{
    assert forall|v: TCModchannelMsgSpec, rest: Seq<u8>|
        (#[trigger] v.enc(ctx).add(rest)) == input && v.rt_wf(ctx)
        && (<TCModchannelMsgSpec as Deserialize>::prefix_safe() || rest.len() == 0)
        implies v.channel_name.enc(ctx).add(v.sender.enc(ctx).add(v.channel_msg.enc(ctx).add(rest))) == input by {
        vstd::seq_lib::lemma_concat_associative(v.channel_name.enc(ctx) + v.sender.enc(ctx), v.channel_msg.enc(ctx), rest);
        vstd::seq_lib::lemma_concat_associative(v.channel_name.enc(ctx), v.sender.enc(ctx), v.channel_msg.enc(ctx).add(rest));
    }
}

impl Deserialize for TCModchannelMsgSpec {
    open spec fn rt_wf(&self, ctx: ProtocolContext) -> bool {
        self.channel_name.rt_wf(ctx) && self.sender.rt_wf(ctx) && self.channel_msg.rt_wf(ctx) && <ByteString as Deserialize>::prefix_safe() && <ByteString as Deserialize>::prefix_safe()
    }

    open spec fn prefix_safe() -> bool {
        <ByteString as Deserialize>::prefix_safe() && <ByteString as Deserialize>::prefix_safe() && <ByteString as Deserialize>::prefix_safe()
    }

    fn deserialize(d: &mut Deserializer) -> (r: DeserializeResult<Self>) {
        let ghost ctx = d.ctx();
        let ghost input = d.rem();
        proof {
            tcmodchannelmsgspec_reshape(ctx, input);
        }
        let channel_name = match <ByteString as Deserialize>::deserialize(d) {
            Ok(v) => v,
            Err(e) => {
                return Err(e);
            },
        };
        let sender = match <ByteString as Deserialize>::deserialize(d) {
            Ok(v) => v,
            Err(e) => {
                return Err(e);
            },
        };
        let channel_msg = match <ByteString as Deserialize>::deserialize(d) {
            Ok(v) => v,
            Err(e) => {
                return Err(e);
            },
        };
        Ok(TCModchannelMsgSpec { channel_name, sender, channel_msg })
    }
}

#[derive(Debug, Clone, PartialEq, Eq)]
pub struct ModchannelSignalSpec {
    pub signal_tmp: u8,
    pub channel: ByteString,
    pub state: Option<u8>,
}

impl Serialize for ModchannelSignalSpec {
    open spec fn enc(&self, ctx: ProtocolContext) -> Seq<u8> {
        self.signal_tmp.enc(ctx) + self.channel.enc(ctx) + self.state.enc(ctx)
    }

    open spec fn ser_wf(&self, ctx: ProtocolContext) -> bool {
        self.signal_tmp.ser_wf(ctx) && self.channel.ser_wf(ctx) && self.state.ser_wf(ctx)
    }

    open spec fn eqv(&self, other: &Self) -> bool {
        self.signal_tmp.eqv(&other.signal_tmp) && self.channel.eqv(&other.channel) && self.state.eqv(&other.state)
    }

    fn serialize(&self, ser: &mut VecSerializer) -> (r: SerializeResult) {
        match self.signal_tmp.serialize(ser) {
            Ok(_) => {},
            Err(e) => {
                return Err(e);
            },
        }
        match self.channel.serialize(ser) {
            Ok(_) => {},
            Err(e) => {
                return Err(e);
            },
        }
        match self.state.serialize(ser) {
            Ok(_) => {},
            Err(e) => {
                return Err(e);
            },
        }
        proof {
            vstd::seq_lib::lemma_concat_associative(old(ser).out(), self.signal_tmp.enc(old(ser).ctx()), self.channel.enc(old(ser).ctx()));
            vstd::seq_lib::lemma_concat_associative(old(ser).out(), self.signal_tmp.enc(old(ser).ctx()) + self.channel.enc(old(ser).ctx()), self.state.enc(old(ser).ctx()));
        }
        Ok(())
    }
}

proof fn modchannelsignalspec_reshape(ctx: ProtocolContext, input: Seq<u8>)
    ensures
        forall|v: ModchannelSignalSpec, rest: Seq<u8>|
            (#[trigger] v.enc(ctx).add(rest)) == input && v.rt_wf(ctx)
                && (<ModchannelSignalSpec as Deserialize>::prefix_safe() || rest.len() == 0)
                ==> v.signal_tmp.enc(ctx).add(v.channel.enc(ctx).add(v.state.enc(ctx).add(rest))) == input && (v.state matches Some(x) ==> x.enc(ctx).add(rest) == v.state.enc(ctx).add(rest)) && (v.state is None ==> v.state.enc(ctx).add(rest).len() == 0),
{
    assert forall|v: ModchannelSignalSpec, rest: Seq<u8>|
        (#[trigger] v.enc(ctx).add(rest)) == input && v.rt_wf(ctx)
        && (<ModchannelSignalSpec as Deserialize>::prefix_safe() || rest.len() == 0)
        implies v.signal_tmp.enc(ctx).add(v.channel.enc(ctx).add(v.state.enc(ctx).add(rest))) == input && (v.state matches Some(x) ==> x.enc(ctx).add(rest) == v.state.enc(ctx).add(rest)) && (v.state is None ==> v.state.enc(ctx).add(rest).len() == 0) by {
        vstd::seq_lib::lemma_concat_associative(v.signal_tmp.enc(ctx) + v.channel.enc(ctx), v.state.enc(ctx), rest);
        vstd::seq_lib::lemma_concat_associative(v.signal_tmp.enc(ctx), v.channel.enc(ctx), v.state.enc(ctx).add(rest));
        match v.state {
            Some(x) => {
                assert(x.enc(ctx).add(rest) =~= v.state.enc(ctx).add(rest));
            },
            None => {
                assert(v.state.enc(ctx).add(rest) =~= rest);
            },
        }
    }
}

impl Deserialize for ModchannelSignalSpec {
    open spec fn rt_wf(&self, ctx: ProtocolContext) -> bool {
        self.signal_tmp.rt_wf(ctx) && self.channel.rt_wf(ctx) && self.state.rt_wf(ctx) && <u8 as Deserialize>::prefix_safe() && <ByteString as Deserialize>::prefix_safe() && <u8 as Deserialize>::prefix_safe()
    }

    open spec fn prefix_safe() -> bool {
        <u8 as Deserialize>::prefix_safe() && <ByteString as Deserialize>::prefix_safe() && <Option<u8> as Deserialize>::prefix_safe()
    }

    fn deserialize(d: &mut Deserializer) -> (r: DeserializeResult<Self>) {
        let ghost ctx = d.ctx();
        let ghost input = d.rem();
        proof {
            modchannelsignalspec_reshape(ctx, input);
        }
        let signal_tmp = match <u8 as Deserialize>::deserialize(d) {
            Ok(v) => v,
            Err(e) => {
                return Err(e);
            },
        };
        let channel = match <ByteString as Deserialize>::deserialize(d) {
            Ok(v) => v,
            Err(e) => {
                return Err(e);
            },
        };
        let state = if d.remaining() == 0 {
            None
        } else {
            match <u8 as Deserialize>::deserialize(d) {
                Ok(v) => Some(v),
                Err(e) => {
                    return Err(e);
                },
            }
        };
        Ok(ModchannelSignalSpec { signal_tmp, channel, state })
    }
}

#[derive(Debug, Clone, PartialEq, Eq)]
pub struct SetSunSpec {
    pub sun: SunParams,
}

impl Serialize for SetSunSpec {
    open spec fn enc(&self, ctx: ProtocolContext) -> Seq<u8> {
        self.sun.enc(ctx)
    }

    open spec fn ser_wf(&self, ctx: ProtocolContext) -> bool {
        self.sun.ser_wf(ctx)
    }

    open spec fn eqv(&self, other: &Self) -> bool {
        self.sun.eqv(&other.sun)
    }

    fn serialize(&self, ser: &mut VecSerializer) -> (r: SerializeResult) {
        match self.sun.serialize(ser) {
            Ok(_) => {},
            Err(e) => {
                return Err(e);
            },
        }
        proof {
        }
        Ok(())
    }
}

proof fn setsunspec_reshape(ctx: ProtocolContext, input: Seq<u8>)
    ensures
        forall|v: SetSunSpec, rest: Seq<u8>|
            (#[trigger] v.enc(ctx).add(rest)) == input && v.rt_wf(ctx)
                && (<SetSunSpec as Deserialize>::prefix_safe() || rest.len() == 0)
                ==> v.sun.enc(ctx).add(rest) == input,
{
    assert forall|v: SetSunSpec, rest: Seq<u8>|
        (#[trigger] v.enc(ctx).add(rest)) == input && v.rt_wf(ctx)
        && (<SetSunSpec as Deserialize>::prefix_safe() || rest.len() == 0)
        implies v.sun.enc(ctx).add(rest) == input by {
    }
}

impl Deserialize for SetSunSpec {
    open spec fn rt_wf(&self, ctx: ProtocolContext) -> bool {
        self.sun.rt_wf(ctx)
    }

    open spec fn prefix_safe() -> bool {
        <SunParams as Deserialize>::prefix_safe()
    }

    fn deserialize(d: &mut Deserializer) -> (r: DeserializeResult<Self>) {
        let ghost ctx = d.ctx();
        let ghost input = d.rem();
        proof {
            setsunspec_reshape(ctx, input);
        }
        let sun = match <SunParams as Deserialize>::deserialize(d) {
            Ok(v) => v,
            Err(e) => {
                return Err(e);
            },
        };
        Ok(SetSunSpec { sun })
    }
}

#[derive(Debug, Clone, PartialEq, Eq)]
pub struct SetMoonSpec {
    pub moon: MoonParams,
}

impl Serialize for SetMoonSpec {
    open spec fn enc(&self, ctx: ProtocolContext) -> Seq<u8> {
        self.moon.enc(ctx)
    }

    open spec fn ser_wf(&self, ctx: ProtocolContext) -> bool {
        self.moon.ser_wf(ctx)
    }

    open spec fn eqv(&self, other: &Self) -> bool {
        self.moon.eqv(&other.moon)
    }

    fn serialize(&self, ser: &mut VecSerializer) -> (r: SerializeResult) {
        match self.moon.serialize(ser) {
            Ok(_) => {},
            Err(e) => {
                return Err(e);
            },
        }
        proof {
        }
        Ok(())
    }
}

proof fn setmoonspec_reshape(ctx: ProtocolContext, input: Seq<u8>)
    ensures
        forall|v: SetMoonSpec, rest: Seq<u8>|
            (#[trigger] v.enc(ctx).add(rest)) == input && v.rt_wf(ctx)
                && (<SetMoonSpec as Deserialize>::prefix_safe() || rest.len() == 0)
                ==> v.moon.enc(ctx).add(rest) == input,
{
    assert forall|v: SetMoonSpec, rest: Seq<u8>|
        (#[trigger] v.enc(ctx).add(rest)) == input && v.rt_wf(ctx)
        && (<SetMoonSpec as Deserialize>::prefix_safe() || rest.len() == 0)
        implies v.moon.enc(ctx).add(rest) == input by {
    }
}

impl Deserialize for SetMoonSpec {
    open spec fn rt_wf(&self, ctx: ProtocolContext) -> bool {
        self.moon.rt_wf(ctx)
    }

    open spec fn prefix_safe() -> bool {
        <MoonParams as Deserialize>::prefix_safe()
    }

    fn deserialize(d: &mut Deserializer) -> (r: DeserializeResult<Self>) {
        let ghost ctx = d.ctx();
        let ghost input = d.rem();
        proof {
            setmoonspec_reshape(ctx, input);
        }
        let moon = match <MoonParams as Deserialize>::deserialize(d) {
            Ok(v) => v,
            Err(e) => {
                return Err(e);
            },
        };
        Ok(SetMoonSpec { moon })
    }
}

#[derive(Debug, Clone, PartialEq, Eq)]
pub struct SetStarsSpec {
    pub stars: StarParams,
}

impl Serialize for SetStarsSpec {
    open spec fn enc(&self, ctx: ProtocolContext) -> Seq<u8> {
        self.stars.enc(ctx)
    }

    open spec fn ser_wf(&self, ctx: ProtocolContext) -> bool {
        self.stars.ser_wf(ctx)
    }

    open spec fn eqv(&self, other: &Self) -> bool {
        self.stars.eqv(&other.stars)
    }

    fn serialize(&self, ser: &mut VecSerializer) -> (r: SerializeResult) {
        match self.stars.serialize(ser) {
            Ok(_) => {},
            Err(e) => {
                return Err(e);
            },
        }
        proof {
        }
        Ok(())
    }
}

proof fn setstarsspec_reshape(ctx: ProtocolContext, input: Seq<u8>)
    ensures
        forall|v: SetStarsSpec, rest: Seq<u8>|
            (#[trigger] v.enc(ctx).add(rest)) == input && v.rt_wf(ctx)
                && (<SetStarsSpec as Deserialize>::prefix_safe() || rest.len() == 0)
                ==> v.stars.enc(ctx).add(rest) == input,
{
    assert forall|v: SetStarsSpec, rest: Seq<u8>|
        (#[trigger] v.enc(ctx).add(rest)) == input && v.rt_wf(ctx)
        && (<SetStarsSpec as Deserialize>::prefix_safe() || rest.len() == 0)
        implies v.stars.enc(ctx).add(rest) == input by {
    }
}

impl Deserialize for SetStarsSpec {
    open spec fn rt_wf(&self, ctx: ProtocolContext) -> bool {
        self.stars.rt_wf(ctx)
    }

    open spec fn prefix_safe() -> bool {
        <StarParams as Deserialize>::prefix_safe()
    }

    fn deserialize(d: &mut Deserializer) -> (r: DeserializeResult<Self>) {
        let ghost ctx = d.ctx();
        let ghost input = d.rem();
        proof {
            setstarsspec_reshape(ctx, input);
        }
        let stars = match <StarParams as Deserialize>::deserialize(d) {
            Ok(v) => v,
            Err(e) => {
                return Err(e);
            },
        };
        Ok(SetStarsSpec { stars })
    }
}

#[derive(Debug, Clone, PartialEq, Eq)]
pub struct SrpBytesSBSpec {
    pub s: BinaryData16,
    pub b: BinaryData16,
}

impl Serialize for SrpBytesSBSpec {
    open spec fn enc(&self, ctx: ProtocolContext) -> Seq<u8> {
        self.s.enc(ctx) + self.b.enc(ctx)
    }

    open spec fn ser_wf(&self, ctx: ProtocolContext) -> bool {
        self.s.ser_wf(ctx) && self.b.ser_wf(ctx)
    }

    open spec fn eqv(&self, other: &Self) -> bool {
        self.s.eqv(&other.s) && self.b.eqv(&other.b)
    }

    fn serialize(&self, ser: &mut VecSerializer) -> (r: SerializeResult) {
        match self.s.serialize(ser) {
            Ok(_) => {},
            Err(e) => {
                return Err(e);
            },
        }
        match self.b.serialize(ser) {
            Ok(_) => {},
            Err(e) => {
                return Err(e);
            },
        }
        proof {
            vstd::seq_lib::lemma_concat_associative(old(ser).out(), self.s.enc(old(ser).ctx()), self.b.enc(old(ser).ctx()));
        }
        Ok(())
    }
}

proof fn srpbytessbspec_reshape(ctx: ProtocolContext, input: Seq<u8>)
    ensures
        forall|v: SrpBytesSBSpec, rest: Seq<u8>|
            (#[trigger] v.enc(ctx).add(rest)) == input && v.rt_wf(ctx)
                && (<SrpBytesSBSpec as Deserialize>::prefix_safe() || rest.len() == 0)
                ==> v.s.enc(ctx).add(v.b.enc(ctx).add(rest)) == input,
{
    assert forall|v: SrpBytesSBSpec, rest: Seq<u8>|
        (#[trigger] v.enc(ctx).add(rest)) == input && v.rt_wf(ctx)
        && (<SrpBytesSBSpec as Deserialize>::prefix_safe() || rest.len() == 0)
        implies v.s.enc(ctx).add(v.b.enc(ctx).add(rest)) == input by {
        vstd::seq_lib::lemma_concat_associative(v.s.enc(ctx), v.b.enc(ctx), rest);
    }
}

impl Deserialize for SrpBytesSBSpec {
    open spec fn rt_wf(&self, ctx: ProtocolContext) -> bool {
        self.s.rt_wf(ctx) && self.b.rt_wf(ctx) && <BinaryData16 as Deserialize>::prefix_safe()
    }

    open spec fn prefix_safe() -> bool {
        <BinaryData16 as Deserialize>::prefix_safe() && <BinaryData16 as Deserialize>::prefix_safe()
    }

    fn deserialize(d: &mut Deserializer) -> (r: DeserializeResult<Self>) {
        let ghost ctx = d.ctx();
        let ghost input = d.rem();
        proof {
            srpbytessbspec_reshape(ctx, input);
        }
        let s = match <BinaryData16 as Deserialize>::deserialize(d) {
            Ok(v) => v,
            Err(e) => {
                return Err(e);
            },
        };
        let b = match <BinaryData16 as Deserialize>::deserialize(d) {
            Ok(v) => v,
            Err(e) => {
                return Err(e);
            },
        };
        Ok(SrpBytesSBSpec { s, b })
    }
}

#[derive(Debug, Clone, PartialEq, Eq)]
pub struct FormspecPrependSpec {
    pub formspec_prepend: ByteString,
}

impl Serialize for FormspecPrependSpec {
    open spec fn enc(&self, ctx: ProtocolContext) -> Seq<u8> {
        self.formspec_prepend.enc(ctx)
    }

    open spec fn ser_wf(&self, ctx: ProtocolContext) -> bool {
        self.formspec_prepend.ser_wf(ctx)
    }

    open spec fn eqv(&self, other: &Self) -> bool {
        self.formspec_prepend.eqv(&other.formspec_prepend)
    }

    fn serialize(&self, ser: &mut VecSerializer) -> (r: SerializeResult) {
        match self.formspec_prepend.serialize(ser) {
            Ok(_) => {},
            Err(e) => {
                return Err(e);
            },
        }
        proof {
        }
        Ok(())
    }
}

proof fn formspecprependspec_reshape(ctx: ProtocolContext, input: Seq<u8>)
    ensures
        forall|v: FormspecPrependSpec, rest: Seq<u8>|
            (#[trigger] v.enc(ctx).add(rest)) == input && v.rt_wf(ctx)
                && (<FormspecPrependSpec as Deserialize>::prefix_safe() || rest.len() == 0)
                ==> v.formspec_prepend.enc(ctx).add(rest) == input,
{
    assert forall|v: FormspecPrependSpec, rest: Seq<u8>|
        (#[trigger] v.enc(ctx).add(rest)) == input && v.rt_wf(ctx)
        && (<FormspecPrependSpec as Deserialize>::prefix_safe() || rest.len() == 0)
        implies v.formspec_prepend.enc(ctx).add(rest) == input by {
    }
}

impl Deserialize for FormspecPrependSpec {
    open spec fn rt_wf(&self, ctx: ProtocolContext) -> bool {
        self.formspec_prepend.rt_wf(ctx)
    }

    open spec fn prefix_safe() -> bool {
        <ByteString as Deserialize>::prefix_safe()
    }

    fn deserialize(d: &mut Deserializer) -> (r: DeserializeResult<Self>) {
        let ghost ctx = d.ctx();
        let ghost input = d.rem();
        proof {
            formspecprependspec_reshape(ctx, input);
        }
        let formspec_prepend = match <ByteString as Deserialize>::deserialize(d) {
            Ok(v) => v,
            Err(e) => {
                return Err(e);
            },
        };
        Ok(FormspecPrependSpec { formspec_prepend })
    }
}

#[derive(Debug, Clone, PartialEq, Eq)]
pub struct SetLightingSpec {
    pub lighting: Lighting,
}

impl Serialize for SetLightingSpec {
    open spec fn enc(&self, ctx: ProtocolContext) -> Seq<u8> {
        self.lighting.enc(ctx)
    }

    open spec fn ser_wf(&self, ctx: ProtocolContext) -> bool {
        self.lighting.ser_wf(ctx)
    }

    open spec fn eqv(&self, other: &Self) -> bool {
        self.lighting.eqv(&other.lighting)
    }

    fn serialize(&self, ser: &mut VecSerializer) -> (r: SerializeResult) {
        match self.lighting.serialize(ser) {
            Ok(_) => {},
            Err(e) => {
                return Err(e);
            },
        }
        proof {
        }
        Ok(())
    }
}

proof fn setlightingspec_reshape(ctx: ProtocolContext, input: Seq<u8>)
    ensures
        forall|v: SetLightingSpec, rest: Seq<u8>|
            (#[trigger] v.enc(ctx).add(rest)) == input && v.rt_wf(ctx)
                && (<SetLightingSpec as Deserialize>::prefix_safe() || rest.len() == 0)
                ==> v.lighting.enc(ctx).add(rest) == input,
{
    assert forall|v: SetLightingSpec, rest: Seq<u8>|
        (#[trigger] v.enc(ctx).add(rest)) == input && v.rt_wf(ctx)
        && (<SetLightingSpec as Deserialize>::prefix_safe() || rest.len() == 0)
        implies v.lighting.enc(ctx).add(rest) == input by {
    }
}

impl Deserialize for SetLightingSpec {
    open spec fn rt_wf(&self, ctx: ProtocolContext) -> bool {
        self.lighting.rt_wf(ctx)
    }

    open spec fn prefix_safe() -> bool {
        <Lighting as Deserialize>::prefix_safe()
    }

    fn deserialize(d: &mut Deserializer) -> (r: DeserializeResult<Self>) {
        let ghost ctx = d.ctx();
        let ghost input = d.rem();
        proof {
            setlightingspec_reshape(ctx, input);
        }
        let lighting = match <Lighting as Deserialize>::deserialize(d) {
            Ok(v) => v,
            Err(e) => {
                return Err(e);
            },
        };
        Ok(SetLightingSpec { lighting })
    }
}

#[derive(Debug, Clone, PartialEq, Eq)]
pub struct NullSpec {
}

impl Serialize for NullSpec {
    open spec fn enc(&self, ctx: ProtocolContext) -> Seq<u8> {
        Seq::empty()
    }

    open spec fn ser_wf(&self, ctx: ProtocolContext) -> bool {
        true
    }

    open spec fn eqv(&self, other: &Self) -> bool {
        true
    }

    fn serialize(&self, ser: &mut VecSerializer) -> (r: SerializeResult) {
        assert(ser.out() =~= old(ser).out() + self.enc(old(ser).ctx()));
        Ok(())
    }
}

impl Deserialize for NullSpec {
    open spec fn rt_wf(&self, ctx: ProtocolContext) -> bool {
        true
    }

    open spec fn prefix_safe() -> bool {
        true
    }

    fn deserialize(d: &mut Deserializer) -> (r: DeserializeResult<Self>) {
        let ghost ctx = d.ctx();
        let ghost input = d.rem();
        proof {
            assert forall|v: NullSpec, rest: Seq<u8>|
                (#[trigger] v.enc(ctx).add(rest)) == input implies rest == input by {
                assert(v.enc(ctx).add(rest) =~= rest);
            }
        }
        Ok(NullSpec {})
    }
}

#[derive(Debug, Clone, PartialEq, Eq)]
pub struct InitSpec {
    pub serialization_ver_max: u8,
    pub supp_compr_modes: u16,
    pub min_net_proto_version: u16,
    pub max_net_proto_version: u16,
    pub player_name: ByteString,
}

impl Serialize for InitSpec {
    open spec fn enc(&self, ctx: ProtocolContext) -> Seq<u8> {
        self.serialization_ver_max.enc(ctx) + self.supp_compr_modes.enc(ctx) + self.min_net_proto_version.enc(ctx) + self.max_net_proto_version.enc(ctx) + self.player_name.enc(ctx)
    }

    open spec fn ser_wf(&self, ctx: ProtocolContext) -> bool {
        self.serialization_ver_max.ser_wf(ctx) && self.supp_compr_modes.ser_wf(ctx) && self.min_net_proto_version.ser_wf(ctx) && self.max_net_proto_version.ser_wf(ctx) && self.player_name.ser_wf(ctx)
    }

    open spec fn eqv(&self, other: &Self) -> bool {
        self.serialization_ver_max.eqv(&other.serialization_ver_max) && self.supp_compr_modes.eqv(&other.supp_compr_modes) && self.min_net_proto_version.eqv(&other.min_net_proto_version) && self.max_net_proto_version.eqv(&other.max_net_proto_version) && self.player_name.eqv(&other.player_name)
    }

    fn serialize(&self, ser: &mut VecSerializer) -> (r: SerializeResult) {
        match self.serialization_ver_max.serialize(ser) {
            Ok(_) => {},
            Err(e) => {
                return Err(e);
            },
        }
        match self.supp_compr_modes.serialize(ser) {
            Ok(_) => {},
            Err(e) => {
                return Err(e);
            },
        }
        match self.min_net_proto_version.serialize(ser) {
            Ok(_) => {},
            Err(e) => {
                return Err(e);
            },
        }
        match self.max_net_proto_version.serialize(ser) {
            Ok(_) => {},
            Err(e) => {
                return Err(e);
            },
        }
        match self.player_name.serialize(ser) {
            Ok(_) => {},
            Err(e) => {
                return Err(e);
            },
        }
        proof {
            vstd::seq_lib::lemma_concat_associative(old(ser).out(), self.serialization_ver_max.enc(old(ser).ctx()), self.supp_compr_modes.enc(old(ser).ctx()));
            vstd::seq_lib::lemma_concat_associative(old(ser).out(), self.serialization_ver_max.enc(old(ser).ctx()) + self.supp_compr_modes.enc(old(ser).ctx()), self.min_net_proto_version.enc(old(ser).ctx()));
            vstd::seq_lib::lemma_concat_associative(old(ser).out(), self.serialization_ver_max.enc(old(ser).ctx()) + self.supp_compr_modes.enc(old(ser).ctx()) + self.min_net_proto_version.enc(old(ser).ctx()), self.max_net_proto_version.enc(old(ser).ctx()));
            vstd::seq_lib::lemma_concat_associative(old(ser).out(), self.serialization_ver_max.enc(old(ser).ctx()) + self.supp_compr_modes.enc(old(ser).ctx()) + self.min_net_proto_version.enc(old(ser).ctx()) + self.max_net_proto_version.enc(old(ser).ctx()), self.player_name.enc(old(ser).ctx()));
        }
        Ok(())
    }
}

proof fn initspec_reshape(ctx: ProtocolContext, input: Seq<u8>)
    ensures
        forall|v: InitSpec, rest: Seq<u8>|
            (#[trigger] v.enc(ctx).add(rest)) == input && v.rt_wf(ctx)
                && (<InitSpec as Deserialize>::prefix_safe() || rest.len() == 0)
                ==> v.serialization_ver_max.enc(ctx).add(v.supp_compr_modes.enc(ctx).add(v.min_net_proto_version.enc(ctx).add(v.max_net_proto_version.enc(ctx).add(v.player_name.enc(ctx).add(rest))))) == input,
{
    assert forall|v: InitSpec, rest: Seq<u8>|
        (#[trigger] v.enc(ctx).add(rest)) == input && v.rt_wf(ctx)
        && (<InitSpec as Deserialize>::prefix_safe() || rest.len() == 0)
        implies v.serialization_ver_max.enc(ctx).add(v.supp_compr_modes.enc(ctx).add(v.min_net_proto_version.enc(ctx).add(v.max_net_proto_version.enc(ctx).add(v.player_name.enc(ctx).add(rest))))) == input by {
        vstd::seq_lib::lemma_concat_associative(v.serialization_ver_max.enc(ctx) + v.supp_compr_modes.enc(ctx) + v.min_net_proto_version.enc(ctx) + v.max_net_proto_version.enc(ctx), v.player_name.enc(ctx), rest);
        vstd::seq_lib::lemma_concat_associative(v.serialization_ver_max.enc(ctx) + v.supp_compr_modes.enc(ctx) + v.min_net_proto_version.enc(ctx), v.max_net_proto_version.enc(ctx), v.player_name.enc(ctx).add(rest));
        vstd::seq_lib::lemma_concat_associative(v.serialization_ver_max.enc(ctx) + v.supp_compr_modes.enc(ctx), v.min_net_proto_version.enc(ctx), v.max_net_proto_version.enc(ctx).add(v.player_name.enc(ctx).add(rest)));
        vstd::seq_lib::lemma_concat_associative(v.serialization_ver_max.enc(ctx), v.supp_compr_modes.enc(ctx), v.min_net_proto_version.enc(ctx).add(v.max_net_proto_version.enc(ctx).add(v.player_name.enc(ctx).add(rest))));
    }
}

impl Deserialize for InitSpec {
    open spec fn rt_wf(&self, ctx: ProtocolContext) -> bool {
        self.serialization_ver_max.rt_wf(ctx) && self.supp_compr_modes.rt_wf(ctx) && self.min_net_proto_version.rt_wf(ctx) && self.max_net_proto_version.rt_wf(ctx) && self.player_name.rt_wf(ctx) && <u8 as Deserialize>::prefix_safe() && <u16 as Deserialize>::prefix_safe() && <u16 as Deserialize>::prefix_safe() && <u16 as Deserialize>::prefix_safe()
    }

    open spec fn prefix_safe() -> bool {
        <u8 as Deserialize>::prefix_safe() && <u16 as Deserialize>::prefix_safe() && <u16 as Deserialize>::prefix_safe() && <u16 as Deserialize>::prefix_safe() && <ByteString as Deserialize>::prefix_safe()
    }

    fn deserialize(d: &mut Deserializer) -> (r: DeserializeResult<Self>) {
        let ghost ctx = d.ctx();
        let ghost input = d.rem();
        proof {
            initspec_reshape(ctx, input);
        }
        let serialization_ver_max = match <u8 as Deserialize>::deserialize(d) {
            Ok(v) => v,
            Err(e) => {
                return Err(e);
            },
        };
        let supp_compr_modes = match <u16 as Deserialize>::deserialize(d) {
            Ok(v) => v,
            Err(e) => {
                return Err(e);
            },
        };
        let min_net_proto_version = match <u16 as Deserialize>::deserialize(d) {
            Ok(v) => v,
            Err(e) => {
                return Err(e);
            },
        };
        let max_net_proto_version = match <u16 as Deserialize>::deserialize(d) {
            Ok(v) => v,
            Err(e) => {
                return Err(e);
            },
        };
        let player_name = match <ByteString as Deserialize>::deserialize(d) {
            Ok(v) => v,
            Err(e) => {
                return Err(e);
            },
        };
        Ok(InitSpec { serialization_ver_max, supp_compr_modes, min_net_proto_version, max_net_proto_version, player_name })
    }
}

#[derive(Debug, Clone, PartialEq, Eq)]
pub struct Init2Spec {
    pub lang: Option<ByteString>,
}

impl Serialize for Init2Spec {
    open spec fn enc(&self, ctx: ProtocolContext) -> Seq<u8> {
        self.lang.enc(ctx)
    }

    open spec fn ser_wf(&self, ctx: ProtocolContext) -> bool {
        self.lang.ser_wf(ctx)
    }

    open spec fn eqv(&self, other: &Self) -> bool {
        self.lang.eqv(&other.lang)
    }

    fn serialize(&self, ser: &mut VecSerializer) -> (r: SerializeResult) {
        match self.lang.serialize(ser) {
            Ok(_) => {},
            Err(e) => {
                return Err(e);
            },
        }
        proof {
        }
        Ok(())
    }
}

proof fn init2spec_reshape(ctx: ProtocolContext, input: Seq<u8>)
    ensures
        forall|v: Init2Spec, rest: Seq<u8>|
            (#[trigger] v.enc(ctx).add(rest)) == input && v.rt_wf(ctx)
                && (<Init2Spec as Deserialize>::prefix_safe() || rest.len() == 0)
                ==> v.lang.enc(ctx).add(rest) == input && (v.lang matches Some(x) ==> x.enc(ctx).add(rest) == v.lang.enc(ctx).add(rest)) && (v.lang is None ==> v.lang.enc(ctx).add(rest).len() == 0),
{
    assert forall|v: Init2Spec, rest: Seq<u8>|
        (#[trigger] v.enc(ctx).add(rest)) == input && v.rt_wf(ctx)
        && (<Init2Spec as Deserialize>::prefix_safe() || rest.len() == 0)
        implies v.lang.enc(ctx).add(rest) == input && (v.lang matches Some(x) ==> x.enc(ctx).add(rest) == v.lang.enc(ctx).add(rest)) && (v.lang is None ==> v.lang.enc(ctx).add(rest).len() == 0) by {
        match v.lang {
            Some(x) => {
                assert(x.enc(ctx).add(rest) =~= v.lang.enc(ctx).add(rest));
            },
            None => {
                assert(v.lang.enc(ctx).add(rest) =~= rest);
            },
        }
    }
}

impl Deserialize for Init2Spec {
    open spec fn rt_wf(&self, ctx: ProtocolContext) -> bool {
        self.lang.rt_wf(ctx) && <ByteString as Deserialize>::prefix_safe()
    }

    open spec fn prefix_safe() -> bool {
        <Option<ByteString> as Deserialize>::prefix_safe()
    }

    fn deserialize(d: &mut Deserializer) -> (r: DeserializeResult<Self>) {
        let ghost ctx = d.ctx();
        let ghost input = d.rem();
        proof {
            init2spec_reshape(ctx, input);
        }
        let lang = if d.remaining() == 0 {
            None
        } else {
            match <ByteString as Deserialize>::deserialize(d) {
                Ok(v) => Some(v),
                Err(e) => {
                    return Err(e);
                },
            }
        };
        Ok(Init2Spec { lang })
    }
}

#[derive(Debug, Clone, PartialEq, Eq)]
pub struct ModchannelJoinSpec {
    pub channel_name: ByteString,
}

impl Serialize for ModchannelJoinSpec {
    open spec fn enc(&self, ctx: ProtocolContext) -> Seq<u8> {
        self.channel_name.enc(ctx)
    }

    open spec fn ser_wf(&self, ctx: ProtocolContext) -> bool {
        self.channel_name.ser_wf(ctx)
    }

    open spec fn eqv(&self, other: &Self) -> bool {
        self.channel_name.eqv(&other.channel_name)
    }

    fn serialize(&self, ser: &mut VecSerializer) -> (r: SerializeResult) {
        match self.channel_name.serialize(ser) {
            Ok(_) => {},
            Err(e) => {
                return Err(e);
            },
        }
        proof {
        }
        Ok(())
    }
}

proof fn modchanneljoinspec_reshape(ctx: ProtocolContext, input: Seq<u8>)
    ensures
        forall|v: ModchannelJoinSpec, rest: Seq<u8>|
            (#[trigger] v.enc(ctx).add(rest)) == input && v.rt_wf(ctx)
                && (<ModchannelJoinSpec as Deserialize>::prefix_safe() || rest.len() == 0)
                ==> v.channel_name.enc(ctx).add(rest) == input,
{
    assert forall|v: ModchannelJoinSpec, rest: Seq<u8>|
        (#[trigger] v.enc(ctx).add(rest)) == input && v.rt_wf(ctx)
        && (<ModchannelJoinSpec as Deserialize>::prefix_safe() || rest.len() == 0)
        implies v.channel_name.enc(ctx).add(rest) == input by {
    }
}

impl Deserialize for ModchannelJoinSpec {
    open spec fn rt_wf(&self, ctx: ProtocolContext) -> bool {
        self.channel_name.rt_wf(ctx)
    }

    open spec fn prefix_safe() -> bool {
        <ByteString as Deserialize>::prefix_safe()
    }

    fn deserialize(d: &mut Deserializer) -> (r: DeserializeResult<Self>) {
        let ghost ctx = d.ctx();
        let ghost input = d.rem();
        proof {
            modchanneljoinspec_reshape(ctx, input);
        }
        let channel_name = match <ByteString as Deserialize>::deserialize(d) {
            Ok(v) => v,
            Err(e) => {
                return Err(e);
            },
        };
        Ok(ModchannelJoinSpec { channel_name })
    }
}

#[derive(Debug, Clone, PartialEq, Eq)]
pub struct ModchannelLeaveSpec {
    pub channel_name: ByteString,
}

impl Serialize for ModchannelLeaveSpec {
    open spec fn enc(&self, ctx: ProtocolContext) -> Seq<u8> {
        self.channel_name.enc(ctx)
    }

    open spec fn ser_wf(&self, ctx: ProtocolContext) -> bool {
        self.channel_name.ser_wf(ctx)
    }

    open spec fn eqv(&self, other: &Self) -> bool {
        self.channel_name.eqv(&other.channel_name)
    }

    fn serialize(&self, ser: &mut VecSerializer) -> (r: SerializeResult) {
        match self.channel_name.serialize(ser) {
            Ok(_) => {},
            Err(e) => {
                return Err(e);
            },
        }
        proof {
        }
        Ok(())
    }
}

proof fn modchannelleavespec_reshape(ctx: ProtocolContext, input: Seq<u8>)
    ensures
        forall|v: ModchannelLeaveSpec, rest: Seq<u8>|
            (#[trigger] v.enc(ctx).add(rest)) == input && v.rt_wf(ctx)
                && (<ModchannelLeaveSpec as Deserialize>::prefix_safe() || rest.len() == 0)
                ==> v.channel_name.enc(ctx).add(rest) == input,
{
    assert forall|v: ModchannelLeaveSpec, rest: Seq<u8>|
        (#[trigger] v.enc(ctx).add(rest)) == input && v.rt_wf(ctx)
        && (<ModchannelLeaveSpec as Deserialize>::prefix_safe() || rest.len() == 0)
        implies v.channel_name.enc(ctx).add(rest) == input by {
    }
}

impl Deserialize for ModchannelLeaveSpec {
    open spec fn rt_wf(&self, ctx: ProtocolContext) -> bool {
        self.channel_name.rt_wf(ctx)
    }

    open spec fn prefix_safe() -> bool {
        <ByteString as Deserialize>::prefix_safe()
    }

    fn deserialize(d: &mut Deserializer) -> (r: DeserializeResult<Self>) {
        let ghost ctx = d.ctx();
        let ghost input = d.rem();
        proof {
            modchannelleavespec_reshape(ctx, input);
        }
        let channel_name = match <ByteString as Deserialize>::deserialize(d) {
            Ok(v) => v,
            Err(e) => {
                return Err(e);
            },
        };
        Ok(ModchannelLeaveSpec { channel_name })
    }
}

#[derive(Debug, Clone, PartialEq, Eq)]
pub struct TSModchannelMsgSpec {
    pub channel_name: ByteString,
    pub channel_msg: ByteString,
}

impl Serialize for TSModchannelMsgSpec {
    open spec fn enc(&self, ctx: ProtocolContext) -> Seq<u8> {
        self.channel_name.enc(ctx) + self.channel_msg.enc(ctx)
    }

    open spec fn ser_wf(&self, ctx: ProtocolContext) -> bool {
        self.channel_name.ser_wf(ctx) && self.channel_msg.ser_wf(ctx)
    }

    open spec fn eqv(&self, other: &Self) -> bool {
        self.channel_name.eqv(&other.channel_name) && self.channel_msg.eqv(&other.channel_msg)
    }

    fn serialize(&self, ser: &mut VecSerializer) -> (r: SerializeResult) {
        match self.channel_name.serialize(ser) {
            Ok(_) => {},
            Err(e) => {
                return Err(e);
            },
        }
        match self.channel_msg.serialize(ser) {
            Ok(_) => {},
            Err(e) => {
                return Err(e);
            },
        }
        proof {
            vstd::seq_lib::lemma_concat_associative(old(ser).out(), self.channel_name.enc(old(ser).ctx()), self.channel_msg.enc(old(ser).ctx()));
        }
        Ok(())
    }
}

proof fn tsmodchannelmsgspec_reshape(ctx: ProtocolContext, input: Seq<u8>)
    ensures
        forall|v: TSModchannelMsgSpec, rest: Seq<u8>|
            (#[trigger] v.enc(ctx).add(rest)) == input && v.rt_wf(ctx)
                && (<TSModchannelMsgSpec as Deserialize>::prefix_safe() || rest.len() == 0)
                ==> v.channel_name.enc(ctx).add(v.channel_msg.enc(ctx).add(rest)) == input,
{
    assert forall|v: TSModchannelMsgSpec, rest: Seq<u8>|
        (#[trigger] v.enc(ctx).add(rest)) == input && v.rt_wf(ctx)
        && (<TSModchannelMsgSpec as Deserialize>::prefix_safe() || rest.len() == 0)
        implies v.channel_name.enc(ctx).add(v.channel_msg.enc(ctx).add(rest)) == input by {
        vstd::seq_lib::lemma_concat_associative(v.channel_name.enc(ctx), v.channel_msg.enc(ctx), rest);
    }
}

impl Deserialize for TSModchannelMsgSpec {
    open spec fn rt_wf(&self, ctx: ProtocolContext) -> bool {
        self.channel_name.rt_wf(ctx) && self.channel_msg.rt_wf(ctx) && <ByteString as Deserialize>::prefix_safe()
    }

    open spec fn prefix_safe() -> bool {
        <ByteString as Deserialize>::prefix_safe() && <ByteString as Deserialize>::prefix_safe()
    }

    fn deserialize(d: &mut Deserializer) -> (r: DeserializeResult<Self>) {
        let ghost ctx = d.ctx();
        let ghost input = d.rem();
        proof {
            tsmodchannelmsgspec_reshape(ctx, input);
        }
        let channel_name = match <ByteString as Deserialize>::deserialize(d) {
            Ok(v) => v,
            Err(e) => {
                return Err(e);
            },
        };
        let channel_msg = match <ByteString as Deserialize>::deserialize(d) {
            Ok(v) => v,
            Err(e) => {
                return Err(e);
            },
        };
        Ok(TSModchannelMsgSpec { channel_name, channel_msg })
    }
}

#[derive(Debug, Clone, PartialEq, Eq)]
pub struct PlayerposSpec {
    pub player_pos: PlayerPos,
}

impl Serialize for PlayerposSpec {
    open spec fn enc(&self, ctx: ProtocolContext) -> Seq<u8> {
        self.player_pos.enc(ctx)
    }

    open spec fn ser_wf(&self, ctx: ProtocolContext) -> bool {
        self.player_pos.ser_wf(ctx)
    }

    open spec fn eqv(&self, other: &Self) -> bool {
        self.player_pos.eqv(&other.player_pos)
    }

    fn serialize(&self, ser: &mut VecSerializer) -> (r: SerializeResult) {
        match self.player_pos.serialize(ser) {
            Ok(_) => {},
            Err(e) => {
                return Err(e);
            },
        }
        proof {
        }
        Ok(())
    }
}

proof fn playerposspec_reshape(ctx: ProtocolContext, input: Seq<u8>)
    ensures
        forall|v: PlayerposSpec, rest: Seq<u8>|
            (#[trigger] v.enc(ctx).add(rest)) == input && v.rt_wf(ctx)
                && (<PlayerposSpec as Deserialize>::prefix_safe() || rest.len() == 0)
                ==> v.player_pos.enc(ctx).add(rest) == input,
{
    assert forall|v: PlayerposSpec, rest: Seq<u8>|
        (#[trigger] v.enc(ctx).add(rest)) == input && v.rt_wf(ctx)
        && (<PlayerposSpec as Deserialize>::prefix_safe() || rest.len() == 0)
        implies v.player_pos.enc(ctx).add(rest) == input by {
    }
}

impl Deserialize for PlayerposSpec {
    open spec fn rt_wf(&self, ctx: ProtocolContext) -> bool {
        self.player_pos.rt_wf(ctx)
    }

    open spec fn prefix_safe() -> bool {
        <PlayerPos as Deserialize>::prefix_safe()
    }

    fn deserialize(d: &mut Deserializer) -> (r: DeserializeResult<Self>) {
        let ghost ctx = d.ctx();
        let ghost input = d.rem();
        proof {
            playerposspec_reshape(ctx, input);
        }
        let player_pos = match <PlayerPos as Deserialize>::deserialize(d) {
            Ok(v) => v,
            Err(e) => {
                return Err(e);
            },
        };
        Ok(PlayerposSpec { player_pos })
    }
}

#[derive(Debug, Clone, PartialEq, Eq)]
pub struct GotblocksSpec {
    pub blocks: Array8<v3s16>,
}

impl Serialize for GotblocksSpec {
    open spec fn enc(&self, ctx: ProtocolContext) -> Seq<u8> {
        self.blocks.enc(ctx)
    }

    open spec fn ser_wf(&self, ctx: ProtocolContext) -> bool {
        self.blocks.ser_wf(ctx)
    }

    open spec fn eqv(&self, other: &Self) -> bool {
        self.blocks.eqv(&other.blocks)
    }

    fn serialize(&self, ser: &mut VecSerializer) -> (r: SerializeResult) {
        match self.blocks.serialize(ser) {
            Ok(_) => {},
            Err(e) => {
                return Err(e);
            },
        }
        proof {
        }
        Ok(())
    }
}

proof fn gotblocksspec_reshape(ctx: ProtocolContext, input: Seq<u8>)
    ensures
        forall|v: GotblocksSpec, rest: Seq<u8>|
            (#[trigger] v.enc(ctx).add(rest)) == input && v.rt_wf(ctx)
                && (<GotblocksSpec as Deserialize>::prefix_safe() || rest.len() == 0)
                ==> v.blocks.enc(ctx).add(rest) == input,
{
    assert forall|v: GotblocksSpec, rest: Seq<u8>|
        (#[trigger] v.enc(ctx).add(rest)) == input && v.rt_wf(ctx)
        && (<GotblocksSpec as Deserialize>::prefix_safe() || rest.len() == 0)
        implies v.blocks.enc(ctx).add(rest) == input by {
    }
}

impl Deserialize for GotblocksSpec {
    open spec fn rt_wf(&self, ctx: ProtocolContext) -> bool {
        self.blocks.rt_wf(ctx)
    }

    open spec fn prefix_safe() -> bool {
        <Array8<v3s16> as Deserialize>::prefix_safe()
    }

    fn deserialize(d: &mut Deserializer) -> (r: DeserializeResult<Self>) {
        let ghost ctx = d.ctx();
        let ghost input = d.rem();
        proof {
            gotblocksspec_reshape(ctx, input);
        }
        let blocks = match <Array8<v3s16> as Deserialize>::deserialize(d) {
            Ok(v) => v,
            Err(e) => {
                return Err(e);
            },
        };
        Ok(GotblocksSpec { blocks })
    }
}

#[derive(Debug, Clone, PartialEq, Eq)]
pub struct DeletedblocksSpec {
    pub blocks: Array8<v3s16>,
}

impl Serialize for DeletedblocksSpec {
    open spec fn enc(&self, ctx: ProtocolContext) -> Seq<u8> {
        self.blocks.enc(ctx)
    }

    open spec fn ser_wf(&self, ctx: ProtocolContext) -> bool {
        self.blocks.ser_wf(ctx)
    }

    open spec fn eqv(&self, other: &Self) -> bool {
        self.blocks.eqv(&other.blocks)
    }

    fn serialize(&self, ser: &mut VecSerializer) -> (r: SerializeResult) {
        match self.blocks.serialize(ser) {
            Ok(_) => {},
            Err(e) => {
                return Err(e);
            },
        }
        proof {
        }
        Ok(())
    }
}

proof fn deletedblocksspec_reshape(ctx: ProtocolContext, input: Seq<u8>)
    ensures
        forall|v: DeletedblocksSpec, rest: Seq<u8>|
            (#[trigger] v.enc(ctx).add(rest)) == input && v.rt_wf(ctx)
                && (<DeletedblocksSpec as Deserialize>::prefix_safe() || rest.len() == 0)
                ==> v.blocks.enc(ctx).add(rest) == input,
{
    assert forall|v: DeletedblocksSpec, rest: Seq<u8>|
        (#[trigger] v.enc(ctx).add(rest)) == input && v.rt_wf(ctx)
        && (<DeletedblocksSpec as Deserialize>::prefix_safe() || rest.len() == 0)
        implies v.blocks.enc(ctx).add(rest) == input by {
    }
}

impl Deserialize for DeletedblocksSpec {
    open spec fn rt_wf(&self, ctx: ProtocolContext) -> bool {
        self.blocks.rt_wf(ctx)
    }

    open spec fn prefix_safe() -> bool {
        <Array8<v3s16> as Deserialize>::prefix_safe()
    }

    fn deserialize(d: &mut Deserializer) -> (r: DeserializeResult<Self>) {
        let ghost ctx = d.ctx();
        let ghost input = d.rem();
        proof {
            deletedblocksspec_reshape(ctx, input);
        }
        let blocks = match <Array8<v3s16> as Deserialize>::deserialize(d) {
            Ok(v) => v,
            Err(e) => {
                return Err(e);
            },
        };
        Ok(DeletedblocksSpec { blocks })
    }
}

#[derive(Debug, Clone, PartialEq, Eq)]
pub struct TSChatMessageSpec {
    pub message: WString,
}

impl Serialize for TSChatMessageSpec {
    open spec fn enc(&self, ctx: ProtocolContext) -> Seq<u8> {
        self.message.enc(ctx)
    }

    open spec fn ser_wf(&self, ctx: ProtocolContext) -> bool {
        self.message.ser_wf(ctx)
    }

    open spec fn eqv(&self, other: &Self) -> bool {
        self.message.eqv(&other.message)
    }

    fn serialize(&self, ser: &mut VecSerializer) -> (r: SerializeResult) {
        match self.message.serialize(ser) {
            Ok(_) => {},
            Err(e) => {
                return Err(e);
            },
        }
        proof {
        }
        Ok(())
    }
}

proof fn tschatmessagespec_reshape(ctx: ProtocolContext, input: Seq<u8>)
    ensures
        forall|v: TSChatMessageSpec, rest: Seq<u8>|
            (#[trigger] v.enc(ctx).add(rest)) == input && v.rt_wf(ctx)
                && (<TSChatMessageSpec as Deserialize>::prefix_safe() || rest.len() == 0)
                ==> v.message.enc(ctx).add(rest) == input,
{
    assert forall|v: TSChatMessageSpec, rest: Seq<u8>|
        (#[trigger] v.enc(ctx).add(rest)) == input && v.rt_wf(ctx)
        && (<TSChatMessageSpec as Deserialize>::prefix_safe() || rest.len() == 0)
        implies v.message.enc(ctx).add(rest) == input by {
    }
}

impl Deserialize for TSChatMessageSpec {
    open spec fn rt_wf(&self, ctx: ProtocolContext) -> bool {
        self.message.rt_wf(ctx)
    }

    open spec fn prefix_safe() -> bool {
        <WString as Deserialize>::prefix_safe()
    }

    fn deserialize(d: &mut Deserializer) -> (r: DeserializeResult<Self>) {
        let ghost ctx = d.ctx();
        let ghost input = d.rem();
        proof {
            tschatmessagespec_reshape(ctx, input);
        }
        let message = match <WString as Deserialize>::deserialize(d) {
            Ok(v) => v,
            Err(e) => {
                return Err(e);
            },
        };
        Ok(TSChatMessageSpec { message })
    }
}

#[derive(Debug, Clone, PartialEq, Eq)]
pub struct DamageSpec {
    pub damage: u16,
}

impl Serialize for DamageSpec {
    open spec fn enc(&self, ctx: ProtocolContext) -> Seq<u8> {
        self.damage.enc(ctx)
    }

    open spec fn ser_wf(&self, ctx: ProtocolContext) -> bool {
        self.damage.ser_wf(ctx)
    }

    open spec fn eqv(&self, other: &Self) -> bool {
        self.damage.eqv(&other.damage)
    }

    fn serialize(&self, ser: &mut VecSerializer) -> (r: SerializeResult) {
        match self.damage.serialize(ser) {
            Ok(_) => {},
            Err(e) => {
                return Err(e);
            },
        }
        proof {
        }
        Ok(())
    }
}

proof fn damagespec_reshape(ctx: ProtocolContext, input: Seq<u8>)
    ensures
        forall|v: DamageSpec, rest: Seq<u8>|
            (#[trigger] v.enc(ctx).add(rest)) == input && v.rt_wf(ctx)
                && (<DamageSpec as Deserialize>::prefix_safe() || rest.len() == 0)
                ==> v.damage.enc(ctx).add(rest) == input,
{
    assert forall|v: DamageSpec, rest: Seq<u8>|
        (#[trigger] v.enc(ctx).add(rest)) == input && v.rt_wf(ctx)
        && (<DamageSpec as Deserialize>::prefix_safe() || rest.len() == 0)
        implies v.damage.enc(ctx).add(rest) == input by {
    }
}

impl Deserialize for DamageSpec {
    open spec fn rt_wf(&self, ctx: ProtocolContext) -> bool {
        self.damage.rt_wf(ctx)
    }

    open spec fn prefix_safe() -> bool {
        <u16 as Deserialize>::prefix_safe()
    }

    fn deserialize(d: &mut Deserializer) -> (r: DeserializeResult<Self>) {
        let ghost ctx = d.ctx();
        let ghost input = d.rem();
        proof {
            damagespec_reshape(ctx, input);
        }
        let damage = match <u16 as Deserialize>::deserialize(d) {
            Ok(v) => v,
            Err(e) => {
                return Err(e);
            },
        };
        Ok(DamageSpec { damage })
    }
}

#[derive(Debug, Clone, PartialEq, Eq)]
pub struct PlayeritemSpec {
    pub item: u16,
}

impl Serialize for PlayeritemSpec {
    open spec fn enc(&self, ctx: ProtocolContext) -> Seq<u8> {
        self.item.enc(ctx)
    }

    open spec fn ser_wf(&self, ctx: ProtocolContext) -> bool {
        self.item.ser_wf(ctx)
    }

    open spec fn eqv(&self, other: &Self) -> bool {
        self.item.eqv(&other.item)
    }

    fn serialize(&self, ser: &mut VecSerializer) -> (r: SerializeResult) {
        match self.item.serialize(ser) {
            Ok(_) => {},
            Err(e) => {
                return Err(e);
            },
        }
        proof {
        }
        Ok(())
    }
}

proof fn playeritemspec_reshape(ctx: ProtocolContext, input: Seq<u8>)
    ensures
        forall|v: PlayeritemSpec, rest: Seq<u8>|
            (#[trigger] v.enc(ctx).add(rest)) == input && v.rt_wf(ctx)
                && (<PlayeritemSpec as Deserialize>::prefix_safe() || rest.len() == 0)
                ==> v.item.enc(ctx).add(rest) == input,
{
    assert forall|v: PlayeritemSpec, rest: Seq<u8>|
        (#[trigger] v.enc(ctx).add(rest)) == input && v.rt_wf(ctx)
        && (<PlayeritemSpec as Deserialize>::prefix_safe() || rest.len() == 0)
        implies v.item.enc(ctx).add(rest) == input by {
    }
}

impl Deserialize for PlayeritemSpec {
    open spec fn rt_wf(&self, ctx: ProtocolContext) -> bool {
        self.item.rt_wf(ctx)
    }

    open spec fn prefix_safe() -> bool {
        <u16 as Deserialize>::prefix_safe()
    }

    fn deserialize(d: &mut Deserializer) -> (r: DeserializeResult<Self>) {
        let ghost ctx = d.ctx();
        let ghost input = d.rem();
        proof {
            playeritemspec_reshape(ctx, input);
        }
        let item = match <u16 as Deserialize>::deserialize(d) {
            Ok(v) => v,
            Err(e) => {
                return Err(e);
            },
        };
        Ok(PlayeritemSpec { item })
    }
}

#[derive(Debug, Clone, PartialEq, Eq)]
pub struct RespawnSpec {
}

impl Serialize for RespawnSpec {
    open spec fn enc(&self, ctx: ProtocolContext) -> Seq<u8> {
        Seq::empty()
    }

    open spec fn ser_wf(&self, ctx: ProtocolContext) -> bool {
        true
    }

    open spec fn eqv(&self, other: &Self) -> bool {
        true
    }

    fn serialize(&self, ser: &mut VecSerializer) -> (r: SerializeResult) {
        assert(ser.out() =~= old(ser).out() + self.enc(old(ser).ctx()));
        Ok(())
    }
}

impl Deserialize for RespawnSpec {
    open spec fn rt_wf(&self, ctx: ProtocolContext) -> bool {
        true
    }

    open spec fn prefix_safe() -> bool {
        true
    }

    fn deserialize(d: &mut Deserializer) -> (r: DeserializeResult<Self>) {
        let ghost ctx = d.ctx();
        let ghost input = d.rem();
        proof {
            assert forall|v: RespawnSpec, rest: Seq<u8>|
                (#[trigger] v.enc(ctx).add(rest)) == input implies rest == input by {
                assert(v.enc(ctx).add(rest) =~= rest);
            }
        }
        Ok(RespawnSpec {})
    }
}

#[derive(Debug, Clone, PartialEq, Eq)]
pub struct InteractSpec {
    pub action: InteractAction,
    pub item_index: u16,
    pub pointed_thing: Wrapped32<PointedThing>,
    pub player_pos: PlayerPos,
}

impl Serialize for InteractSpec {
    open spec fn enc(&self, ctx: ProtocolContext) -> Seq<u8> {
        self.action.enc(ctx) + self.item_index.enc(ctx) + self.pointed_thing.enc(ctx) + self.player_pos.enc(ctx)
    }

    open spec fn ser_wf(&self, ctx: ProtocolContext) -> bool {
        self.action.ser_wf(ctx) && self.item_index.ser_wf(ctx) && self.pointed_thing.ser_wf(ctx) && self.player_pos.ser_wf(ctx)
    }

    open spec fn eqv(&self, other: &Self) -> bool {
        self.action.eqv(&other.action) && self.item_index.eqv(&other.item_index) && self.pointed_thing.eqv(&other.pointed_thing) && self.player_pos.eqv(&other.player_pos)
    }

    fn serialize(&self, ser: &mut VecSerializer) -> (r: SerializeResult) {
        match self.action.serialize(ser) {
            Ok(_) => {},
            Err(e) => {
                return Err(e);
            },
        }
        match self.item_index.serialize(ser) {
            Ok(_) => {},
            Err(e) => {
                return Err(e);
            },
        }
        match self.pointed_thing.serialize(ser) {
            Ok(_) => {},
            Err(e) => {
                return Err(e);
            },
        }
        match self.player_pos.serialize(ser) {
            Ok(_) => {},
            Err(e) => {
                return Err(e);
            },
        }
        proof {
            vstd::seq_lib::lemma_concat_associative(old(ser).out(), self.action.enc(old(ser).ctx()), self.item_index.enc(old(ser).ctx()));
            vstd::seq_lib::lemma_concat_associative(old(ser).out(), self.action.enc(old(ser).ctx()) + self.item_index.enc(old(ser).ctx()), self.pointed_thing.enc(old(ser).ctx()));
            vstd::seq_lib::lemma_concat_associative(old(ser).out(), self.action.enc(old(ser).ctx()) + self.item_index.enc(old(ser).ctx()) + self.pointed_thing.enc(old(ser).ctx()), self.player_pos.enc(old(ser).ctx()));
        }
        Ok(())
    }
}

proof fn interactspec_reshape(ctx: ProtocolContext, input: Seq<u8>)
    ensures
        forall|v: InteractSpec, rest: Seq<u8>|
            (#[trigger] v.enc(ctx).add(rest)) == input && v.rt_wf(ctx)
                && (<InteractSpec as Deserialize>::prefix_safe() || rest.len() == 0)
                ==> v.action.enc(ctx).add(v.item_index.enc(ctx).add(v.pointed_thing.enc(ctx).add(v.player_pos.enc(ctx).add(rest)))) == input,
{
    assert forall|v: InteractSpec, rest: Seq<u8>|
        (#[trigger] v.enc(ctx).add(rest)) == input && v.rt_wf(ctx)
        && (<InteractSpec as Deserialize>::prefix_safe() || rest.len() == 0)
        implies v.action.enc(ctx).add(v.item_index.enc(ctx).add(v.pointed_thing.enc(ctx).add(v.player_pos.enc(ctx).add(rest)))) == input by {
        vstd::seq_lib::lemma_concat_associative(v.action.enc(ctx) + v.item_index.enc(ctx) + v.pointed_thing.enc(ctx), v.player_pos.enc(ctx), rest);
        vstd::seq_lib::lemma_concat_associative(v.action.enc(ctx) + v.item_index.enc(ctx), v.pointed_thing.enc(ctx), v.player_pos.enc(ctx).add(rest));
        vstd::seq_lib::lemma_concat_associative(v.action.enc(ctx), v.item_index.enc(ctx), v.pointed_thing.enc(ctx).add(v.player_pos.enc(ctx).add(rest)));
    }
}

impl Deserialize for InteractSpec {
    open spec fn rt_wf(&self, ctx: ProtocolContext) -> bool {
        self.action.rt_wf(ctx) && self.item_index.rt_wf(ctx) && self.pointed_thing.rt_wf(ctx) && self.player_pos.rt_wf(ctx) && <InteractAction as Deserialize>::prefix_safe() && <u16 as Deserialize>::prefix_safe() && <Wrapped32<PointedThing> as Deserialize>::prefix_safe()
    }

    open spec fn prefix_safe() -> bool {
        <InteractAction as Deserialize>::prefix_safe() && <u16 as Deserialize>::prefix_safe() && <Wrapped32<PointedThing> as Deserialize>::prefix_safe() && <PlayerPos as Deserialize>::prefix_safe()
    }

    fn deserialize(d: &mut Deserializer) -> (r: DeserializeResult<Self>) {
        let ghost ctx = d.ctx();
        let ghost input = d.rem();
        proof {
            interactspec_reshape(ctx, input);
        }
        let action = match <InteractAction as Deserialize>::deserialize(d) {
            Ok(v) => v,
            Err(e) => {
                return Err(e);
            },
        };
        let item_index = match <u16 as Deserialize>::deserialize(d) {
            Ok(v) => v,
            Err(e) => {
                return Err(e);
            },
        };
        let pointed_thing = match <Wrapped32<PointedThing> as Deserialize>::deserialize(d) {
            Ok(v) => v,
            Err(e) => {
                return Err(e);
            },
        };
        let player_pos = match <PlayerPos as Deserialize>::deserialize(d) {
            Ok(v) => v,
            Err(e) => {
                return Err(e);
            },
        };
        Ok(InteractSpec { action, item_index, pointed_thing, player_pos })
    }
}

#[derive(Debug, Clone, PartialEq, Eq)]
pub struct RemovedSoundsSpec {
    pub ids: Array16<s32>,
}

impl Serialize for RemovedSoundsSpec {
    open spec fn enc(&self, ctx: ProtocolContext) -> Seq<u8> {
        self.ids.enc(ctx)
    }

    open spec fn ser_wf(&self, ctx: ProtocolContext) -> bool {
        self.ids.ser_wf(ctx)
    }

    open spec fn eqv(&self, other: &Self) -> bool {
        self.ids.eqv(&other.ids)
    }

    fn serialize(&self, ser: &mut VecSerializer) -> (r: SerializeResult) {
        match self.ids.serialize(ser) {
            Ok(_) => {},
            Err(e) => {
                return Err(e);
            },
        }
        proof {
        }
        Ok(())
    }
}

proof fn removedsoundsspec_reshape(ctx: ProtocolContext, input: Seq<u8>)
    ensures
        forall|v: RemovedSoundsSpec, rest: Seq<u8>|
            (#[trigger] v.enc(ctx).add(rest)) == input && v.rt_wf(ctx)
                && (<RemovedSoundsSpec as Deserialize>::prefix_safe() || rest.len() == 0)
                ==> v.ids.enc(ctx).add(rest) == input,
{
    assert forall|v: RemovedSoundsSpec, rest: Seq<u8>|
        (#[trigger] v.enc(ctx).add(rest)) == input && v.rt_wf(ctx)
        && (<RemovedSoundsSpec as Deserialize>::prefix_safe() || rest.len() == 0)
        implies v.ids.enc(ctx).add(rest) == input by {
    }
}

impl Deserialize for RemovedSoundsSpec {
    open spec fn rt_wf(&self, ctx: ProtocolContext) -> bool {
        self.ids.rt_wf(ctx)
    }

    open spec fn prefix_safe() -> bool {
        <Array16<s32> as Deserialize>::prefix_safe()
    }

    fn deserialize(d: &mut Deserializer) -> (r: DeserializeResult<Self>) {
        let ghost ctx = d.ctx();
        let ghost input = d.rem();
        proof {
            removedsoundsspec_reshape(ctx, input);
        }
        let ids = match <Array16<s32> as Deserialize>::deserialize(d) {
            Ok(v) => v,
            Err(e) => {
                return Err(e);
            },
        };
        Ok(RemovedSoundsSpec { ids })
    }
}

#[derive(Debug, Clone, PartialEq, Eq)]
pub struct NodemetaFieldsSpec {
    pub p: v3s16,
    pub form_name: ByteString,
    pub fields: Array16<Pair<ByteString, LongString>>,
}

impl Serialize for NodemetaFieldsSpec {
    open spec fn enc(&self, ctx: ProtocolContext) -> Seq<u8> {
        self.p.enc(ctx) + self.form_name.enc(ctx) + self.fields.enc(ctx)
    }

    open spec fn ser_wf(&self, ctx: ProtocolContext) -> bool {
        self.p.ser_wf(ctx) && self.form_name.ser_wf(ctx) && self.fields.ser_wf(ctx)
    }

    open spec fn eqv(&self, other: &Self) -> bool {
        self.p.eqv(&other.p) && self.form_name.eqv(&other.form_name) && self.fields.eqv(&other.fields)
    }

    fn serialize(&self, ser: &mut VecSerializer) -> (r: SerializeResult) {
        match self.p.serialize(ser) {
            Ok(_) => {},
            Err(e) => {
                return Err(e);
            },
        }
        match self.form_name.serialize(ser) {
            Ok(_) => {},
            Err(e) => {
                return Err(e);
            },
        }
        match self.fields.serialize(ser) {
            Ok(_) => {},
            Err(e) => {
                return Err(e);
            },
        }
        proof {
            vstd::seq_lib::lemma_concat_associative(old(ser).out(), self.p.enc(old(ser).ctx()), self.form_name.enc(old(ser).ctx()));
            vstd::seq_lib::lemma_concat_associative(old(ser).out(), self.p.enc(old(ser).ctx()) + self.form_name.enc(old(ser).ctx()), self.fields.enc(old(ser).ctx()));
        }
        Ok(())
    }
}

proof fn nodemetafieldsspec_reshape(ctx: ProtocolContext, input: Seq<u8>)
    ensures
        forall|v: NodemetaFieldsSpec, rest: Seq<u8>|
            (#[trigger] v.enc(ctx).add(rest)) == input && v.rt_wf(ctx)
                && (<NodemetaFieldsSpec as Deserialize>::prefix_safe() || rest.len() == 0)
                ==> v.p.enc(ctx).add(v.form_name.enc(ctx).add(v.fields.enc(ctx).add(rest))) == input,
{
    assert forall|v: NodemetaFieldsSpec, rest: Seq<u8>|
        (#[trigger] v.enc(ctx).add(rest)) == input && v.rt_wf(ctx)
        && (<NodemetaFieldsSpec as Deserialize>::prefix_safe() || rest.len() == 0)
        implies v.p.enc(ctx).add(v.form_name.enc(ctx).add(v.fields.enc(ctx).add(rest))) == input by {
        vstd::seq_lib::lemma_concat_associative(v.p.enc(ctx) + v.form_name.enc(ctx), v.fields.enc(ctx), rest);
        vstd::seq_lib::lemma_concat_associative(v.p.enc(ctx), v.form_name.enc(ctx), v.fields.enc(ctx).add(rest));
    }
}

impl Deserialize for NodemetaFieldsSpec {
    open spec fn rt_wf(&self, ctx: ProtocolContext) -> bool {
        self.p.rt_wf(ctx) && self.form_name.rt_wf(ctx) && self.fields.rt_wf(ctx) && <v3s16 as Deserialize>::prefix_safe() && <ByteString as Deserialize>::prefix_safe()
    }

    open spec fn prefix_safe() -> bool {
        <v3s16 as Deserialize>::prefix_safe() && <ByteString as Deserialize>::prefix_safe() && <Array16<Pair<ByteString, LongString>> as Deserialize>::prefix_safe()
    }

    fn deserialize(d: &mut Deserializer) -> (r: DeserializeResult<Self>) {
        let ghost ctx = d.ctx();
        let ghost input = d.rem();
        proof {
            nodemetafieldsspec_reshape(ctx, input);
        }
        let p = match <v3s16 as Deserialize>::deserialize(d) {
            Ok(v) => v,
            Err(e) => {
                return Err(e);
            },
        };
        let form_name = match <ByteString as Deserialize>::deserialize(d) {
            Ok(v) => v,
            Err(e) => {
                return Err(e);
            },
        };
        let fields = match <Array16<Pair<ByteString, LongString>> as Deserialize>::deserialize(d) {
            Ok(v) => v,
            Err(e) => {
                return Err(e);
            },
        };
        Ok(NodemetaFieldsSpec { p, form_name, fields })
    }
}

#[derive(Debug, Clone, PartialEq, Eq)]
pub struct InventoryFieldsSpec {
    pub client_formspec_name: ByteString,
    pub fields: Array16<Pair<ByteString, LongString>>,
}

impl Serialize for InventoryFieldsSpec {
    open spec fn enc(&self, ctx: ProtocolContext) -> Seq<u8> {
        self.client_formspec_name.enc(ctx) + self.fields.enc(ctx)
    }

    open spec fn ser_wf(&self, ctx: ProtocolContext) -> bool {
        self.client_formspec_name.ser_wf(ctx) && self.fields.ser_wf(ctx)
    }

    open spec fn eqv(&self, other: &Self) -> bool {
        self.client_formspec_name.eqv(&other.client_formspec_name) && self.fields.eqv(&other.fields)
    }

    fn serialize(&self, ser: &mut VecSerializer) -> (r: SerializeResult) {
        match self.client_formspec_name.serialize(ser) {
            Ok(_) => {},
            Err(e) => {
                return Err(e);
            },
        }
        match self.fields.serialize(ser) {
            Ok(_) => {},
            Err(e) => {
                return Err(e);
            },
        }
        proof {
            vstd::seq_lib::lemma_concat_associative(old(ser).out(), self.client_formspec_name.enc(old(ser).ctx()), self.fields.enc(old(ser).ctx()));
        }
        Ok(())
    }
}

proof fn inventoryfieldsspec_reshape(ctx: ProtocolContext, input: Seq<u8>)
    ensures
        forall|v: InventoryFieldsSpec, rest: Seq<u8>|
            (#[trigger] v.enc(ctx).add(rest)) == input && v.rt_wf(ctx)
                && (<InventoryFieldsSpec as Deserialize>::prefix_safe() || rest.len() == 0)
                ==> v.client_formspec_name.enc(ctx).add(v.fields.enc(ctx).add(rest)) == input,
{
    assert forall|v: InventoryFieldsSpec, rest: Seq<u8>|
        (#[trigger] v.enc(ctx).add(rest)) == input && v.rt_wf(ctx)
        && (<InventoryFieldsSpec as Deserialize>::prefix_safe() || rest.len() == 0)
        implies v.client_formspec_name.enc(ctx).add(v.fields.enc(ctx).add(rest)) == input by {
        vstd::seq_lib::lemma_concat_associative(v.client_formspec_name.enc(ctx), v.fields.enc(ctx), rest);
    }
}

impl Deserialize for InventoryFieldsSpec {
    open spec fn rt_wf(&self, ctx: ProtocolContext) -> bool {
        self.client_formspec_name.rt_wf(ctx) && self.fields.rt_wf(ctx) && <ByteString as Deserialize>::prefix_safe()
    }

    open spec fn prefix_safe() -> bool {
        <ByteString as Deserialize>::prefix_safe() && <Array16<Pair<ByteString, LongString>> as Deserialize>::prefix_safe()
    }

    fn deserialize(d: &mut Deserializer) -> (r: DeserializeResult<Self>) {
        let ghost ctx = d.ctx();
        let ghost input = d.rem();
        proof {
            inventoryfieldsspec_reshape(ctx, input);
        }
        let client_formspec_name = match <ByteString as Deserialize>::deserialize(d) {
            Ok(v) => v,
            Err(e) => {
                return Err(e);
            },
        };
        let fields = match <Array16<Pair<ByteString, LongString>> as Deserialize>::deserialize(d) {
            Ok(v) => v,
            Err(e) => {
                return Err(e);
            },
        };
        Ok(InventoryFieldsSpec { client_formspec_name, fields })
    }
}

#[derive(Debug, Clone, PartialEq, Eq)]
pub struct RequestMediaSpec {
    pub files: Array16<ByteString>,
}

impl Serialize for RequestMediaSpec {
    open spec fn enc(&self, ctx: ProtocolContext) -> Seq<u8> {
        self.files.enc(ctx)
    }

    open spec fn ser_wf(&self, ctx: ProtocolContext) -> bool {
        self.files.ser_wf(ctx)
    }

    open spec fn eqv(&self, other: &Self) -> bool {
        self.files.eqv(&other.files)
    }

    fn serialize(&self, ser: &mut VecSerializer) -> (r: SerializeResult) {
        match self.files.serialize(ser) {
            Ok(_) => {},
            Err(e) => {
                return Err(e);
            },
        }
        proof {
        }
        Ok(())
    }
}

proof fn requestmediaspec_reshape(ctx: ProtocolContext, input: Seq<u8>)
    ensures
        forall|v: RequestMediaSpec, rest: Seq<u8>|
            (#[trigger] v.enc(ctx).add(rest)) == input && v.rt_wf(ctx)
                && (<RequestMediaSpec as Deserialize>::prefix_safe() || rest.len() == 0)
                ==> v.files.enc(ctx).add(rest) == input,
{
    assert forall|v: RequestMediaSpec, rest: Seq<u8>|
        (#[trigger] v.enc(ctx).add(rest)) == input && v.rt_wf(ctx)
        && (<RequestMediaSpec as Deserialize>::prefix_safe() || rest.len() == 0)
        implies v.files.enc(ctx).add(rest) == input by {
    }
}

impl Deserialize for RequestMediaSpec {
    open spec fn rt_wf(&self, ctx: ProtocolContext) -> bool {
        self.files.rt_wf(ctx)
    }

    open spec fn prefix_safe() -> bool {
        <Array16<ByteString> as Deserialize>::prefix_safe()
    }

    fn deserialize(d: &mut Deserializer) -> (r: DeserializeResult<Self>) {
        let ghost ctx = d.ctx();
        let ghost input = d.rem();
        proof {
            requestmediaspec_reshape(ctx, input);
        }
        let files = match <Array16<ByteString> as Deserialize>::deserialize(d) {
            Ok(v) => v,
            Err(e) => {
                return Err(e);
            },
        };
        Ok(RequestMediaSpec { files })
    }
}

#[derive(Debug, Clone, PartialEq, Eq)]
pub struct HaveMediaSpec {
    pub tokens: Array8<u32>,
}

impl Serialize for HaveMediaSpec {
    open spec fn enc(&self, ctx: ProtocolContext) -> Seq<u8> {
        self.tokens.enc(ctx)
    }

    open spec fn ser_wf(&self, ctx: ProtocolContext) -> bool {
        self.tokens.ser_wf(ctx)
    }

    open spec fn eqv(&self, other: &Self) -> bool {
        self.tokens.eqv(&other.tokens)
    }

    fn serialize(&self, ser: &mut VecSerializer) -> (r: SerializeResult) {
        match self.tokens.serialize(ser) {
            Ok(_) => {},
            Err(e) => {
                return Err(e);
            },
        }
        proof {
        }
        Ok(())
    }
}

proof fn havemediaspec_reshape(ctx: ProtocolContext, input: Seq<u8>)
    ensures
        forall|v: HaveMediaSpec, rest: Seq<u8>|
            (#[trigger] v.enc(ctx).add(rest)) == input && v.rt_wf(ctx)
                && (<HaveMediaSpec as Deserialize>::prefix_safe() || rest.len() == 0)
                ==> v.tokens.enc(ctx).add(rest) == input,
{
    assert forall|v: HaveMediaSpec, rest: Seq<u8>|
        (#[trigger] v.enc(ctx).add(rest)) == input && v.rt_wf(ctx)
        && (<HaveMediaSpec as Deserialize>::prefix_safe() || rest.len() == 0)
        implies v.tokens.enc(ctx).add(rest) == input by {
    }
}

impl Deserialize for HaveMediaSpec {
    open spec fn rt_wf(&self, ctx: ProtocolContext) -> bool {
        self.tokens.rt_wf(ctx)
    }

    open spec fn prefix_safe() -> bool {
        <Array8<u32> as Deserialize>::prefix_safe()
    }

    fn deserialize(d: &mut Deserializer) -> (r: DeserializeResult<Self>) {
        let ghost ctx = d.ctx();
        let ghost input = d.rem();
        proof {
            havemediaspec_reshape(ctx, input);
        }
        let tokens = match <Array8<u32> as Deserialize>::deserialize(d) {
            Ok(v) => v,
            Err(e) => {
                return Err(e);
            },
        };
        Ok(HaveMediaSpec { tokens })
    }
}

#[derive(Debug, Clone, PartialEq, Eq)]
pub struct ClientReadySpec {
    pub major_ver: u8,
    pub minor_ver: u8,
    pub patch_ver: u8,
    pub reserved: u8,
    pub full_ver: ByteString,
    pub formspec_ver: Option<u16>,
}

impl Serialize for ClientReadySpec {
    open spec fn enc(&self, ctx: ProtocolContext) -> Seq<u8> {
        self.major_ver.enc(ctx) + self.minor_ver.enc(ctx) + self.patch_ver.enc(ctx) + self.reserved.enc(ctx) + self.full_ver.enc(ctx) + self.formspec_ver.enc(ctx)
    }

    open spec fn ser_wf(&self, ctx: ProtocolContext) -> bool {
        self.major_ver.ser_wf(ctx) && self.minor_ver.ser_wf(ctx) && self.patch_ver.ser_wf(ctx) && self.reserved.ser_wf(ctx) && self.full_ver.ser_wf(ctx) && self.formspec_ver.ser_wf(ctx)
    }

    open spec fn eqv(&self, other: &Self) -> bool {
        self.major_ver.eqv(&other.major_ver) && self.minor_ver.eqv(&other.minor_ver) && self.patch_ver.eqv(&other.patch_ver) && self.reserved.eqv(&other.reserved) && self.full_ver.eqv(&other.full_ver) && self.formspec_ver.eqv(&other.formspec_ver)
    }

    fn serialize(&self, ser: &mut VecSerializer) -> (r: SerializeResult) {
        match self.major_ver.serialize(ser) {
            Ok(_) => {},
            Err(e) => {
                return Err(e);
            },
        }
        match self.minor_ver.serialize(ser) {
            Ok(_) => {},
            Err(e) => {
                return Err(e);
            },
        }
        match self.patch_ver.serialize(ser) {
            Ok(_) => {},
            Err(e) => {
                return Err(e);
            },
        }
        match self.reserved.serialize(ser) {
            Ok(_) => {},
            Err(e) => {
                return Err(e);
            },
        }
        match self.full_ver.serialize(ser) {
            Ok(_) => {},
            Err(e) => {
                return Err(e);
            },
        }
        match self.formspec_ver.serialize(ser) {
            Ok(_) => {},
            Err(e) => {
                return Err(e);
            },
        }
        proof {
            vstd::seq_lib::lemma_concat_associative(old(ser).out(), self.major_ver.enc(old(ser).ctx()), self.minor_ver.enc(old(ser).ctx()));
            vstd::seq_lib::lemma_concat_associative(old(ser).out(), self.major_ver.enc(old(ser).ctx()) + self.minor_ver.enc(old(ser).ctx()), self.patch_ver.enc(old(ser).ctx()));
            vstd::seq_lib::lemma_concat_associative(old(ser).out(), self.major_ver.enc(old(ser).ctx()) + self.minor_ver.enc(old(ser).ctx()) + self.patch_ver.enc(old(ser).ctx()), self.reserved.enc(old(ser).ctx()));
            vstd::seq_lib::lemma_concat_associative(old(ser).out(), self.major_ver.enc(old(ser).ctx()) + self.minor_ver.enc(old(ser).ctx()) + self.patch_ver.enc(old(ser).ctx()) + self.reserved.enc(old(ser).ctx()), self.full_ver.enc(old(ser).ctx()));
            vstd::seq_lib::lemma_concat_associative(old(ser).out(), self.major_ver.enc(old(ser).ctx()) + self.minor_ver.enc(old(ser).ctx()) + self.patch_ver.enc(old(ser).ctx()) + self.reserved.enc(old(ser).ctx()) + self.full_ver.enc(old(ser).ctx()), self.formspec_ver.enc(old(ser).ctx()));
        }
        Ok(())
    }
}

proof fn clientreadyspec_reshape(ctx: ProtocolContext, input: Seq<u8>)
    ensures
        forall|v: ClientReadySpec, rest: Seq<u8>|
            (#[trigger] v.enc(ctx).add(rest)) == input && v.rt_wf(ctx)
                && (<ClientReadySpec as Deserialize>::prefix_safe() || rest.len() == 0)
                ==> v.major_ver.enc(ctx).add(v.minor_ver.enc(ctx).add(v.patch_ver.enc(ctx).add(v.reserved.enc(ctx).add(v.full_ver.enc(ctx).add(v.formspec_ver.enc(ctx).add(rest)))))) == input && (v.formspec_ver matches Some(x) ==> x.enc(ctx).add(rest) == v.formspec_ver.enc(ctx).add(rest)) && (v.formspec_ver is None ==> v.formspec_ver.enc(ctx).add(rest).len() == 0),
{
    assert forall|v: ClientReadySpec, rest: Seq<u8>|
        (#[trigger] v.enc(ctx).add(rest)) == input && v.rt_wf(ctx)
        && (<ClientReadySpec as Deserialize>::prefix_safe() || rest.len() == 0)
        implies v.major_ver.enc(ctx).add(v.minor_ver.enc(ctx).add(v.patch_ver.enc(ctx).add(v.reserved.enc(ctx).add(v.full_ver.enc(ctx).add(v.formspec_ver.enc(ctx).add(rest)))))) == input && (v.formspec_ver matches Some(x) ==> x.enc(ctx).add(rest) == v.formspec_ver.enc(ctx).add(rest)) && (v.formspec_ver is None ==> v.formspec_ver.enc(ctx).add(rest).len() == 0) by {
        vstd::seq_lib::lemma_concat_associative(v.major_ver.enc(ctx) + v.minor_ver.enc(ctx) + v.patch_ver.enc(ctx) + v.reserved.enc(ctx) + v.full_ver.enc(ctx), v.formspec_ver.enc(ctx), rest);
        vstd::seq_lib::lemma_concat_associative(v.major_ver.enc(ctx) + v.minor_ver.enc(ctx) + v.patch_ver.enc(ctx) + v.reserved.enc(ctx), v.full_ver.enc(ctx), v.formspec_ver.enc(ctx).add(rest));
        vstd::seq_lib::lemma_concat_associative(v.major_ver.enc(ctx) + v.minor_ver.enc(ctx) + v.patch_ver.enc(ctx), v.reserved.enc(ctx), v.full_ver.enc(ctx).add(v.formspec_ver.enc(ctx).add(rest)));
        vstd::seq_lib::lemma_concat_associative(v.major_ver.enc(ctx) + v.minor_ver.enc(ctx), v.patch_ver.enc(ctx), v.reserved.enc(ctx).add(v.full_ver.enc(ctx).add(v.formspec_ver.enc(ctx).add(rest))));
        vstd::seq_lib::lemma_concat_associative(v.major_ver.enc(ctx), v.minor_ver.enc(ctx), v.patch_ver.enc(ctx).add(v.reserved.enc(ctx).add(v.full_ver.enc(ctx).add(v.formspec_ver.enc(ctx).add(rest)))));
        match v.formspec_ver {
            Some(x) => {
                assert(x.enc(ctx).add(rest) =~= v.formspec_ver.enc(ctx).add(rest));
            },
            None => {
                assert(v.formspec_ver.enc(ctx).add(rest) =~= rest);
            },
        }
    }
}

impl Deserialize for ClientReadySpec {
    open spec fn rt_wf(&self, ctx: ProtocolContext) -> bool {
        self.major_ver.rt_wf(ctx) && self.minor_ver.rt_wf(ctx) && self.patch_ver.rt_wf(ctx) && self.reserved.rt_wf(ctx) && self.full_ver.rt_wf(ctx) && self.formspec_ver.rt_wf(ctx) && <u8 as Deserialize>::prefix_safe() && <u8 as Deserialize>::prefix_safe() && <u8 as Deserialize>::prefix_safe() && <u8 as Deserialize>::prefix_safe() && <ByteString as Deserialize>::prefix_safe() && <u16 as Deserialize>::prefix_safe()
    }

    open spec fn prefix_safe() -> bool {
        <u8 as Deserialize>::prefix_safe() && <u8 as Deserialize>::prefix_safe() && <u8 as Deserialize>::prefix_safe() && <u8 as Deserialize>::prefix_safe() && <ByteString as Deserialize>::prefix_safe() && <Option<u16> as Deserialize>::prefix_safe()
    }

    fn deserialize(d: &mut Deserializer) -> (r: DeserializeResult<Self>) {
        let ghost ctx = d.ctx();
        let ghost input = d.rem();
        proof {
            clientreadyspec_reshape(ctx, input);
        }
        let major_ver = match <u8 as Deserialize>::deserialize(d) {
            Ok(v) => v,
            Err(e) => {
                return Err(e);
            },
        };
        let minor_ver = match <u8 as Deserialize>::deserialize(d) {
            Ok(v) => v,
            Err(e) => {
                return Err(e);
            },
        };
        let patch_ver = match <u8 as Deserialize>::deserialize(d) {
            Ok(v) => v,
            Err(e) => {
                return Err(e);
            },
        };
        let reserved = match <u8 as Deserialize>::deserialize(d) {
            Ok(v) => v,
            Err(e) => {
                return Err(e);
            },
        };
        let full_ver = match <ByteString as Deserialize>::deserialize(d) {
            Ok(v) => v,
            Err(e) => {
                return Err(e);
            },
        };
        let formspec_ver = if d.remaining() == 0 {
            None
        } else {
            match <u16 as Deserialize>::deserialize(d) {
                Ok(v) => Some(v),
                Err(e) => {
                    return Err(e);
                },
            }
        };
        Ok(ClientReadySpec { major_ver, minor_ver, patch_ver, reserved, full_ver, formspec_ver })
    }
}

#[derive(Debug, Clone, PartialEq, Eq)]
pub struct FirstSrpSpec {
    pub salt: BinaryData16,
    pub verification_key: BinaryData16,
    pub is_empty: bool,
}

impl Serialize for FirstSrpSpec {
    open spec fn enc(&self, ctx: ProtocolContext) -> Seq<u8> {
        self.salt.enc(ctx) + self.verification_key.enc(ctx) + self.is_empty.enc(ctx)
    }

    open spec fn ser_wf(&self, ctx: ProtocolContext) -> bool {
        self.salt.ser_wf(ctx) && self.verification_key.ser_wf(ctx) && self.is_empty.ser_wf(ctx)
    }

    open spec fn eqv(&self, other: &Self) -> bool {
        self.salt.eqv(&other.salt) && self.verification_key.eqv(&other.verification_key) && self.is_empty.eqv(&other.is_empty)
    }

    fn serialize(&self, ser: &mut VecSerializer) -> (r: SerializeResult) {
        match self.salt.serialize(ser) {
            Ok(_) => {},
            Err(e) => {
                return Err(e);
            },
        }
        match self.verification_key.serialize(ser) {
            Ok(_) => {},
            Err(e) => {
                return Err(e);
            },
        }
        match self.is_empty.serialize(ser) {
            Ok(_) => {},
            Err(e) => {
                return Err(e);
            },
        }
        proof {
            vstd::seq_lib::lemma_concat_associative(old(ser).out(), self.salt.enc(old(ser).ctx()), self.verification_key.enc(old(ser).ctx()));
            vstd::seq_lib::lemma_concat_associative(old(ser).out(), self.salt.enc(old(ser).ctx()) + self.verification_key.enc(old(ser).ctx()), self.is_empty.enc(old(ser).ctx()));
        }
        Ok(())
    }
}

proof fn firstsrpspec_reshape(ctx: ProtocolContext, input: Seq<u8>)
    ensures
        forall|v: FirstSrpSpec, rest: Seq<u8>|
            (#[trigger] v.enc(ctx).add(rest)) == input && v.rt_wf(ctx)
                && (<FirstSrpSpec as Deserialize>::prefix_safe() || rest.len() == 0)
                ==> v.salt.enc(ctx).add(v.verification_key.enc(ctx).add(v.is_empty.enc(ctx).add(rest))) == input,
{
    assert forall|v: FirstSrpSpec, rest: Seq<u8>|
        (#[trigger] v.enc(ctx).add(rest)) == input && v.rt_wf(ctx)
        && (<FirstSrpSpec as Deserialize>::prefix_safe() || rest.len() == 0)
        implies v.salt.enc(ctx).add(v.verification_key.enc(ctx).add(v.is_empty.enc(ctx).add(rest))) == input by {
        vstd::seq_lib::lemma_concat_associative(v.salt.enc(ctx) + v.verification_key.enc(ctx), v.is_empty.enc(ctx), rest);
        vstd::seq_lib::lemma_concat_associative(v.salt.enc(ctx), v.verification_key.enc(ctx), v.is_empty.enc(ctx).add(rest));
    }
}

impl Deserialize for FirstSrpSpec {
    open spec fn rt_wf(&self, ctx: ProtocolContext) -> bool {
        self.salt.rt_wf(ctx) && self.verification_key.rt_wf(ctx) && self.is_empty.rt_wf(ctx) && <BinaryData16 as Deserialize>::prefix_safe() && <BinaryData16 as Deserialize>::prefix_safe()
    }

    open spec fn prefix_safe() -> bool {
        <BinaryData16 as Deserialize>::prefix_safe() && <BinaryData16 as Deserialize>::prefix_safe() && <bool as Deserialize>::prefix_safe()
    }

    fn deserialize(d: &mut Deserializer) -> (r: DeserializeResult<Self>) {
        let ghost ctx = d.ctx();
        let ghost input = d.rem();
        proof {
            firstsrpspec_reshape(ctx, input);
        }
        let salt = match <BinaryData16 as Deserialize>::deserialize(d) {
            Ok(v) => v,
            Err(e) => {
                return Err(e);
            },
        };
        let verification_key = match <BinaryData16 as Deserialize>::deserialize(d) {
            Ok(v) => v,
            Err(e) => {
                return Err(e);
            },
        };
        let is_empty = match <bool as Deserialize>::deserialize(d) {
            Ok(v) => v,
            Err(e) => {
                return Err(e);
            },
        };
        Ok(FirstSrpSpec { salt, verification_key, is_empty })
    }
}

#[derive(Debug, Clone, PartialEq, Eq)]
pub struct SrpBytesASpec {
    pub bytes_a: BinaryData16,
    pub based_on: u8,
}

impl Serialize for SrpBytesASpec {
    open spec fn enc(&self, ctx: ProtocolContext) -> Seq<u8> {
        self.bytes_a.enc(ctx) + self.based_on.enc(ctx)
    }

    open spec fn ser_wf(&self, ctx: ProtocolContext) -> bool {
        self.bytes_a.ser_wf(ctx) && self.based_on.ser_wf(ctx)
    }

    open spec fn eqv(&self, other: &Self) -> bool {
        self.bytes_a.eqv(&other.bytes_a) && self.based_on.eqv(&other.based_on)
    }

    fn serialize(&self, ser: &mut VecSerializer) -> (r: SerializeResult) {
        match self.bytes_a.serialize(ser) {
            Ok(_) => {},
            Err(e) => {
                return Err(e);
            },
        }
        match self.based_on.serialize(ser) {
            Ok(_) => {},
            Err(e) => {
                return Err(e);
            },
        }
        proof {
            vstd::seq_lib::lemma_concat_associative(old(ser).out(), self.bytes_a.enc(old(ser).ctx()), self.based_on.enc(old(ser).ctx()));
        }
        Ok(())
    }
}

proof fn srpbytesaspec_reshape(ctx: ProtocolContext, input: Seq<u8>)
    ensures
        forall|v: SrpBytesASpec, rest: Seq<u8>|
            (#[trigger] v.enc(ctx).add(rest)) == input && v.rt_wf(ctx)
                && (<SrpBytesASpec as Deserialize>::prefix_safe() || rest.len() == 0)
                ==> v.bytes_a.enc(ctx).add(v.based_on.enc(ctx).add(rest)) == input,
{
    assert forall|v: SrpBytesASpec, rest: Seq<u8>|
        (#[trigger] v.enc(ctx).add(rest)) == input && v.rt_wf(ctx)
        && (<SrpBytesASpec as Deserialize>::prefix_safe() || rest.len() == 0)
        implies v.bytes_a.enc(ctx).add(v.based_on.enc(ctx).add(rest)) == input by {
        vstd::seq_lib::lemma_concat_associative(v.bytes_a.enc(ctx), v.based_on.enc(ctx), rest);
    }
}

impl Deserialize for SrpBytesASpec {
    open spec fn rt_wf(&self, ctx: ProtocolContext) -> bool {
        self.bytes_a.rt_wf(ctx) && self.based_on.rt_wf(ctx) && <BinaryData16 as Deserialize>::prefix_safe()
    }

    open spec fn prefix_safe() -> bool {
        <BinaryData16 as Deserialize>::prefix_safe() && <u8 as Deserialize>::prefix_safe()
    }

    fn deserialize(d: &mut Deserializer) -> (r: DeserializeResult<Self>) {
        let ghost ctx = d.ctx();
        let ghost input = d.rem();
        proof {
            srpbytesaspec_reshape(ctx, input);
        }
        let bytes_a = match <BinaryData16 as Deserialize>::deserialize(d) {
            Ok(v) => v,
            Err(e) => {
                return Err(e);
            },
        };
        let based_on = match <u8 as Deserialize>::deserialize(d) {
            Ok(v) => v,
            Err(e) => {
                return Err(e);
            },
        };
        Ok(SrpBytesASpec { bytes_a, based_on })
    }
}

#[derive(Debug, Clone, PartialEq, Eq)]
pub struct SrpBytesMSpec {
    pub bytes_m: BinaryData16,
}

impl Serialize for SrpBytesMSpec {
    open spec fn enc(&self, ctx: ProtocolContext) -> Seq<u8> {
        self.bytes_m.enc(ctx)
    }

    open spec fn ser_wf(&self, ctx: ProtocolContext) -> bool {
        self.bytes_m.ser_wf(ctx)
    }

    open spec fn eqv(&self, other: &Self) -> bool {
        self.bytes_m.eqv(&other.bytes_m)
    }

    fn serialize(&self, ser: &mut VecSerializer) -> (r: SerializeResult) {
        match self.bytes_m.serialize(ser) {
            Ok(_) => {},
            Err(e) => {
                return Err(e);
            },
        }
        proof {
        }
        Ok(())
    }
}

proof fn srpbytesmspec_reshape(ctx: ProtocolContext, input: Seq<u8>)
    ensures
        forall|v: SrpBytesMSpec, rest: Seq<u8>|
            (#[trigger] v.enc(ctx).add(rest)) == input && v.rt_wf(ctx)
                && (<SrpBytesMSpec as Deserialize>::prefix_safe() || rest.len() == 0)
                ==> v.bytes_m.enc(ctx).add(rest) == input,
{
    assert forall|v: SrpBytesMSpec, rest: Seq<u8>|
        (#[trigger] v.enc(ctx).add(rest)) == input && v.rt_wf(ctx)
        && (<SrpBytesMSpec as Deserialize>::prefix_safe() || rest.len() == 0)
        implies v.bytes_m.enc(ctx).add(rest) == input by {
    }
}

impl Deserialize for SrpBytesMSpec {
    open spec fn rt_wf(&self, ctx: ProtocolContext) -> bool {
        self.bytes_m.rt_wf(ctx)
    }

    open spec fn prefix_safe() -> bool {
        <BinaryData16 as Deserialize>::prefix_safe()
    }

    fn deserialize(d: &mut Deserializer) -> (r: DeserializeResult<Self>) {
        let ghost ctx = d.ctx();
        let ghost input = d.rem();
        proof {
            srpbytesmspec_reshape(ctx, input);
        }
        let bytes_m = match <BinaryData16 as Deserialize>::deserialize(d) {
            Ok(v) => v,
            Err(e) => {
                return Err(e);
            },
        };
        Ok(SrpBytesMSpec { bytes_m })
    }
}

#[derive(Debug, Clone, PartialEq, Eq)]
pub struct UpdateClientInfoSpec {
    pub render_target_size: v2u32,
    pub real_gui_scaling: f32bits,
    pub real_hud_scaling: f32bits,
    pub max_fs_size: v2f,
}

impl Serialize for UpdateClientInfoSpec {
    open spec fn enc(&self, ctx: ProtocolContext) -> Seq<u8> {
        self.render_target_size.enc(ctx) + self.real_gui_scaling.enc(ctx) + self.real_hud_scaling.enc(ctx) + self.max_fs_size.enc(ctx)
    }

    open spec fn ser_wf(&self, ctx: ProtocolContext) -> bool {
        self.render_target_size.ser_wf(ctx) && self.real_gui_scaling.ser_wf(ctx) && self.real_hud_scaling.ser_wf(ctx) && self.max_fs_size.ser_wf(ctx)
    }

    open spec fn eqv(&self, other: &Self) -> bool {
        self.render_target_size.eqv(&other.render_target_size) && self.real_gui_scaling.eqv(&other.real_gui_scaling) && self.real_hud_scaling.eqv(&other.real_hud_scaling) && self.max_fs_size.eqv(&other.max_fs_size)
    }

    fn serialize(&self, ser: &mut VecSerializer) -> (r: SerializeResult) {
        match self.render_target_size.serialize(ser) {
            Ok(_) => {},
            Err(e) => {
                return Err(e);
            },
        }
        match self.real_gui_scaling.serialize(ser) {
            Ok(_) => {},
            Err(e) => {
                return Err(e);
            },
        }
        match self.real_hud_scaling.serialize(ser) {
            Ok(_) => {},
            Err(e) => {
                return Err(e);
            },
        }
        match self.max_fs_size.serialize(ser) {
            Ok(_) => {},
            Err(e) => {
                return Err(e);
            },
        }
        proof {
            vstd::seq_lib::lemma_concat_associative(old(ser).out(), self.render_target_size.enc(old(ser).ctx()), self.real_gui_scaling.enc(old(ser).ctx()));
            vstd::seq_lib::lemma_concat_associative(old(ser).out(), self.render_target_size.enc(old(ser).ctx()) + self.real_gui_scaling.enc(old(ser).ctx()), self.real_hud_scaling.enc(old(ser).ctx()));
            vstd::seq_lib::lemma_concat_associative(old(ser).out(), self.render_target_size.enc(old(ser).ctx()) + self.real_gui_scaling.enc(old(ser).ctx()) + self.real_hud_scaling.enc(old(ser).ctx()), self.max_fs_size.enc(old(ser).ctx()));
        }
        Ok(())
    }
}

proof fn updateclientinfospec_reshape(ctx: ProtocolContext, input: Seq<u8>)
    ensures
        forall|v: UpdateClientInfoSpec, rest: Seq<u8>|
            (#[trigger] v.enc(ctx).add(rest)) == input && v.rt_wf(ctx)
                && (<UpdateClientInfoSpec as Deserialize>::prefix_safe() || rest.len() == 0)
                ==> v.render_target_size.enc(ctx).add(v.real_gui_scaling.enc(ctx).add(v.real_hud_scaling.enc(ctx).add(v.max_fs_size.enc(ctx).add(rest)))) == input,
{
    assert forall|v: UpdateClientInfoSpec, rest: Seq<u8>|
        (#[trigger] v.enc(ctx).add(rest)) == input && v.rt_wf(ctx)
        && (<UpdateClientInfoSpec as Deserialize>::prefix_safe() || rest.len() == 0)
        implies v.render_target_size.enc(ctx).add(v.real_gui_scaling.enc(ctx).add(v.real_hud_scaling.enc(ctx).add(v.max_fs_size.enc(ctx).add(rest)))) == input by {
        vstd::seq_lib::lemma_concat_associative(v.render_target_size.enc(ctx) + v.real_gui_scaling.enc(ctx) + v.real_hud_scaling.enc(ctx), v.max_fs_size.enc(ctx), rest);
        vstd::seq_lib::lemma_concat_associative(v.render_target_size.enc(ctx) + v.real_gui_scaling.enc(ctx), v.real_hud_scaling.enc(ctx), v.max_fs_size.enc(ctx).add(rest));
        vstd::seq_lib::lemma_concat_associative(v.render_target_size.enc(ctx), v.real_gui_scaling.enc(ctx), v.real_hud_scaling.enc(ctx).add(v.max_fs_size.enc(ctx).add(rest)));
    }
}

impl Deserialize for UpdateClientInfoSpec {
    open spec fn rt_wf(&self, ctx: ProtocolContext) -> bool {
        self.render_target_size.rt_wf(ctx) && self.real_gui_scaling.rt_wf(ctx) && self.real_hud_scaling.rt_wf(ctx) && self.max_fs_size.rt_wf(ctx) && <v2u32 as Deserialize>::prefix_safe() && <f32bits as Deserialize>::prefix_safe() && <f32bits as Deserialize>::prefix_safe()
    }

    open spec fn prefix_safe() -> bool {
        <v2u32 as Deserialize>::prefix_safe() && <f32bits as Deserialize>::prefix_safe() && <f32bits as Deserialize>::prefix_safe() && <v2f as Deserialize>::prefix_safe()
    }

    fn deserialize(d: &mut Deserializer) -> (r: DeserializeResult<Self>) {
        let ghost ctx = d.ctx();
        let ghost input = d.rem();
        proof {
            updateclientinfospec_reshape(ctx, input);
        }
        let render_target_size = match <v2u32 as Deserialize>::deserialize(d) {
            Ok(v) => v,
            Err(e) => {
                return Err(e);
            },
        };
        let real_gui_scaling = match <f32bits as Deserialize>::deserialize(d) {
            Ok(v) => v,
            Err(e) => {
                return Err(e);
            },
        };
        let real_hud_scaling = match <f32bits as Deserialize>::deserialize(d) {
            Ok(v) => v,
            Err(e) => {
                return Err(e);
            },
        };
        let max_fs_size = match <v2f as Deserialize>::deserialize(d) {
            Ok(v) => v,
            Err(e) => {
                return Err(e);
            },
        };
        Ok(UpdateClientInfoSpec { render_target_size, real_gui_scaling, real_hud_scaling, max_fs_size })
    }
}

/// The toclient-bound command catalog for protocol version 41: each
/// entry has its 16-bit opcode, a default channel and a default reliability.
#[derive(Debug, Clone, PartialEq, Eq)]
pub enum ToClientCommand {
    Hello(HelloSpec),
    AuthAccept(AuthAcceptSpec),
    AcceptSudoMode(AcceptSudoModeSpec),
    DenySudoMode(DenySudoModeSpec),
    AccessDenied(AccessDeniedSpec),
    Addnode(AddnodeSpec),
    Removenode(RemovenodeSpec),
    Inventory(InventorySpec),
    TimeOfDay(TimeOfDaySpec),
    CsmRestrictionFlags(CsmRestrictionFlagsSpec),
    PlayerSpeed(PlayerSpeedSpec),
    MediaPush(MediaPushSpec),
    TCChatMessage(TCChatMessageSpec),
    Hp(HpSpec),
    MovePlayer(MovePlayerSpec),
    AccessDeniedLegacy(AccessDeniedLegacySpec),
    Fov(FovSpec),
    Deathscreen(DeathscreenSpec),
    Media(MediaSpec),
    AnnounceMedia(AnnounceMediaSpec),
    PlaySound(PlaySoundSpec),
    StopSound(StopSoundSpec),
    Privileges(PrivilegesSpec),
    InventoryFormspec(InventoryFormspecSpec),
    DetachedInventory(DetachedInventorySpec),
    ShowFormspec(ShowFormspecSpec),
    Movement(MovementSpec),
    Hudadd(HudaddSpec),
    Hudrm(HudrmSpec),
    Hudchange(HudchangeSpec),
    HudSetFlags(HudSetFlagsSpec),
    HudSetParam(HudSetParamSpec),
    Breath(BreathSpec),
    OverrideDayNightRatio(OverrideDayNightRatioSpec),
    LocalPlayerAnimations(LocalPlayerAnimationsSpec),
    EyeOffset(EyeOffsetSpec),
    DeleteParticlespawner(DeleteParticlespawnerSpec),
    CloudParams(CloudParamsSpec),
    FadeSound(FadeSoundSpec),
    UpdatePlayerList(UpdatePlayerListSpec),
    TCModchannelMsg(TCModchannelMsgSpec),
    ModchannelSignal(ModchannelSignalSpec),
    SetSun(SetSunSpec),
    SetMoon(SetMoonSpec),
    SetStars(SetStarsSpec),
    SrpBytesSB(SrpBytesSBSpec),
    FormspecPrepend(FormspecPrependSpec),
    SetLighting(SetLightingSpec),
}

impl CommandProperties for ToClientCommand {
    open spec fn spec_direction(&self) -> CommandDirection {
        CommandDirection::ToClient
    }

    open spec fn spec_channel(&self) -> u8 {
        match self {
            ToClientCommand::Hello(_) => 0,
            ToClientCommand::AuthAccept(_) => 0,
            ToClientCommand::AcceptSudoMode(_) => 0,
            ToClientCommand::DenySudoMode(_) => 0,
            ToClientCommand::AccessDenied(_) => 0,
            ToClientCommand::Addnode(_) => 0,
            ToClientCommand::Removenode(_) => 0,
            ToClientCommand::Inventory(_) => 0,
            ToClientCommand::TimeOfDay(_) => 0,
            ToClientCommand::CsmRestrictionFlags(_) => 0,
            ToClientCommand::PlayerSpeed(_) => 0,
            ToClientCommand::MediaPush(_) => 0,
            ToClientCommand::TCChatMessage(_) => 0,
            ToClientCommand::Hp(_) => 0,
            ToClientCommand::MovePlayer(_) => 0,
            ToClientCommand::AccessDeniedLegacy(_) => 0,
            ToClientCommand::Fov(_) => 0,
            ToClientCommand::Deathscreen(_) => 0,
            ToClientCommand::Media(_) => 2,
            ToClientCommand::AnnounceMedia(_) => 0,
            ToClientCommand::PlaySound(_) => 0,
            ToClientCommand::StopSound(_) => 0,
            ToClientCommand::Privileges(_) => 0,
            ToClientCommand::InventoryFormspec(_) => 0,
            ToClientCommand::DetachedInventory(_) => 0,
            ToClientCommand::ShowFormspec(_) => 0,
            ToClientCommand::Movement(_) => 0,
            ToClientCommand::Hudadd(_) => 1,
            ToClientCommand::Hudrm(_) => 1,
            ToClientCommand::Hudchange(_) => 1,
            ToClientCommand::HudSetFlags(_) => 1,
            ToClientCommand::HudSetParam(_) => 1,
            ToClientCommand::Breath(_) => 0,
            ToClientCommand::OverrideDayNightRatio(_) => 0,
            ToClientCommand::LocalPlayerAnimations(_) => 0,
            ToClientCommand::EyeOffset(_) => 0,
            ToClientCommand::DeleteParticlespawner(_) => 0,
            ToClientCommand::CloudParams(_) => 0,
            ToClientCommand::FadeSound(_) => 0,
            ToClientCommand::UpdatePlayerList(_) => 0,
            ToClientCommand::TCModchannelMsg(_) => 0,
            ToClientCommand::ModchannelSignal(_) => 0,
            ToClientCommand::SetSun(_) => 0,
            ToClientCommand::SetMoon(_) => 0,
            ToClientCommand::SetStars(_) => 0,
            ToClientCommand::SrpBytesSB(_) => 0,
            ToClientCommand::FormspecPrepend(_) => 0,
            ToClientCommand::SetLighting(_) => 0,
        }
    }

    open spec fn spec_reliable(&self) -> bool {
        match self {
            ToClientCommand::Hello(_) => true,
            ToClientCommand::AuthAccept(_) => true,
            ToClientCommand::AcceptSudoMode(_) => true,
            ToClientCommand::DenySudoMode(_) => true,
            ToClientCommand::AccessDenied(_) => true,
            ToClientCommand::Addnode(_) => true,
            ToClientCommand::Removenode(_) => true,
            ToClientCommand::Inventory(_) => true,
            ToClientCommand::TimeOfDay(_) => true,
            ToClientCommand::CsmRestrictionFlags(_) => true,
            ToClientCommand::PlayerSpeed(_) => true,
            ToClientCommand::MediaPush(_) => true,
            ToClientCommand::TCChatMessage(_) => true,
            ToClientCommand::Hp(_) => true,
            ToClientCommand::MovePlayer(_) => true,
            ToClientCommand::AccessDeniedLegacy(_) => true,
            ToClientCommand::Fov(_) => true,
            ToClientCommand::Deathscreen(_) => true,
            ToClientCommand::Media(_) => true,
            ToClientCommand::AnnounceMedia(_) => true,
            ToClientCommand::PlaySound(_) => true,
            ToClientCommand::StopSound(_) => true,
            ToClientCommand::Privileges(_) => true,
            ToClientCommand::InventoryFormspec(_) => true,
            ToClientCommand::DetachedInventory(_) => true,
            ToClientCommand::ShowFormspec(_) => true,
            ToClientCommand::Movement(_) => true,
            ToClientCommand::Hudadd(_) => true,
            ToClientCommand::Hudrm(_) => true,
            ToClientCommand::Hudchange(_) => true,
            ToClientCommand::HudSetFlags(_) => true,
            ToClientCommand::HudSetParam(_) => true,
            ToClientCommand::Breath(_) => true,
            ToClientCommand::OverrideDayNightRatio(_) => true,
            ToClientCommand::LocalPlayerAnimations(_) => true,
            ToClientCommand::EyeOffset(_) => true,
            ToClientCommand::DeleteParticlespawner(_) => true,
            ToClientCommand::CloudParams(_) => true,
            ToClientCommand::FadeSound(_) => true,
            ToClientCommand::UpdatePlayerList(_) => true,
            ToClientCommand::TCModchannelMsg(_) => true,
            ToClientCommand::ModchannelSignal(_) => true,
            ToClientCommand::SetSun(_) => true,
            ToClientCommand::SetMoon(_) => true,
            ToClientCommand::SetStars(_) => true,
            ToClientCommand::SrpBytesSB(_) => true,
            ToClientCommand::FormspecPrepend(_) => true,
            ToClientCommand::SetLighting(_) => true,
        }
    }

    fn direction(&self) -> (r: CommandDirection) {
        CommandDirection::ToClient
    }

    fn default_channel(&self) -> (r: u8) {
        match self {
            ToClientCommand::Hello(_) => 0,
            ToClientCommand::AuthAccept(_) => 0,
            ToClientCommand::AcceptSudoMode(_) => 0,
            ToClientCommand::DenySudoMode(_) => 0,
            ToClientCommand::AccessDenied(_) => 0,
            ToClientCommand::Addnode(_) => 0,
            ToClientCommand::Removenode(_) => 0,
            ToClientCommand::Inventory(_) => 0,
            ToClientCommand::TimeOfDay(_) => 0,
            ToClientCommand::CsmRestrictionFlags(_) => 0,
            ToClientCommand::PlayerSpeed(_) => 0,
            ToClientCommand::MediaPush(_) => 0,
            ToClientCommand::TCChatMessage(_) => 0,
            ToClientCommand::Hp(_) => 0,
            ToClientCommand::MovePlayer(_) => 0,
            ToClientCommand::AccessDeniedLegacy(_) => 0,
            ToClientCommand::Fov(_) => 0,
            ToClientCommand::Deathscreen(_) => 0,
            ToClientCommand::Media(_) => 2,
            ToClientCommand::AnnounceMedia(_) => 0,
            ToClientCommand::PlaySound(_) => 0,
            ToClientCommand::StopSound(_) => 0,
            ToClientCommand::Privileges(_) => 0,
            ToClientCommand::InventoryFormspec(_) => 0,
            ToClientCommand::DetachedInventory(_) => 0,
            ToClientCommand::ShowFormspec(_) => 0,
            ToClientCommand::Movement(_) => 0,
            ToClientCommand::Hudadd(_) => 1,
            ToClientCommand::Hudrm(_) => 1,
            ToClientCommand::Hudchange(_) => 1,
            ToClientCommand::HudSetFlags(_) => 1,
            ToClientCommand::HudSetParam(_) => 1,
            ToClientCommand::Breath(_) => 0,
            ToClientCommand::OverrideDayNightRatio(_) => 0,
            ToClientCommand::LocalPlayerAnimations(_) => 0,
            ToClientCommand::EyeOffset(_) => 0,
            ToClientCommand::DeleteParticlespawner(_) => 0,
            ToClientCommand::CloudParams(_) => 0,
            ToClientCommand::FadeSound(_) => 0,
            ToClientCommand::UpdatePlayerList(_) => 0,
            ToClientCommand::TCModchannelMsg(_) => 0,
            ToClientCommand::ModchannelSignal(_) => 0,
            ToClientCommand::SetSun(_) => 0,
            ToClientCommand::SetMoon(_) => 0,
            ToClientCommand::SetStars(_) => 0,
            ToClientCommand::SrpBytesSB(_) => 0,
            ToClientCommand::FormspecPrepend(_) => 0,
            ToClientCommand::SetLighting(_) => 0,
        }
    }

    fn default_reliability(&self) -> (r: bool) {
        match self {
            ToClientCommand::Hello(_) => true,
            ToClientCommand::AuthAccept(_) => true,
            ToClientCommand::AcceptSudoMode(_) => true,
            ToClientCommand::DenySudoMode(_) => true,
            ToClientCommand::AccessDenied(_) => true,
            ToClientCommand::Addnode(_) => true,
            ToClientCommand::Removenode(_) => true,
            ToClientCommand::Inventory(_) => true,
            ToClientCommand::TimeOfDay(_) => true,
            ToClientCommand::CsmRestrictionFlags(_) => true,
            ToClientCommand::PlayerSpeed(_) => true,
            ToClientCommand::MediaPush(_) => true,
            ToClientCommand::TCChatMessage(_) => true,
            ToClientCommand::Hp(_) => true,
            ToClientCommand::MovePlayer(_) => true,
            ToClientCommand::AccessDeniedLegacy(_) => true,
            ToClientCommand::Fov(_) => true,
            ToClientCommand::Deathscreen(_) => true,
            ToClientCommand::Media(_) => true,
            ToClientCommand::AnnounceMedia(_) => true,
            ToClientCommand::PlaySound(_) => true,
            ToClientCommand::StopSound(_) => true,
            ToClientCommand::Privileges(_) => true,
            ToClientCommand::InventoryFormspec(_) => true,
            ToClientCommand::DetachedInventory(_) => true,
            ToClientCommand::ShowFormspec(_) => true,
            ToClientCommand::Movement(_) => true,
            ToClientCommand::Hudadd(_) => true,
            ToClientCommand::Hudrm(_) => true,
            ToClientCommand::Hudchange(_) => true,
            ToClientCommand::HudSetFlags(_) => true,
            ToClientCommand::HudSetParam(_) => true,
            ToClientCommand::Breath(_) => true,
            ToClientCommand::OverrideDayNightRatio(_) => true,
            ToClientCommand::LocalPlayerAnimations(_) => true,
            ToClientCommand::EyeOffset(_) => true,
            ToClientCommand::DeleteParticlespawner(_) => true,
            ToClientCommand::CloudParams(_) => true,
            ToClientCommand::FadeSound(_) => true,
            ToClientCommand::UpdatePlayerList(_) => true,
            ToClientCommand::TCModchannelMsg(_) => true,
            ToClientCommand::ModchannelSignal(_) => true,
            ToClientCommand::SetSun(_) => true,
            ToClientCommand::SetMoon(_) => true,
            ToClientCommand::SetStars(_) => true,
            ToClientCommand::SrpBytesSB(_) => true,
            ToClientCommand::FormspecPrepend(_) => true,
            ToClientCommand::SetLighting(_) => true,
        }
    }

    fn command_name(&self) -> (r: &'static str) {
        match self {
            ToClientCommand::Hello(_) => "Hello",
            ToClientCommand::AuthAccept(_) => "AuthAccept",
            ToClientCommand::AcceptSudoMode(_) => "AcceptSudoMode",
            ToClientCommand::DenySudoMode(_) => "DenySudoMode",
            ToClientCommand::AccessDenied(_) => "AccessDenied",
            ToClientCommand::Addnode(_) => "Addnode",
            ToClientCommand::Removenode(_) => "Removenode",
            ToClientCommand::Inventory(_) => "Inventory",
            ToClientCommand::TimeOfDay(_) => "TimeOfDay",
            ToClientCommand::CsmRestrictionFlags(_) => "CsmRestrictionFlags",
            ToClientCommand::PlayerSpeed(_) => "PlayerSpeed",
            ToClientCommand::MediaPush(_) => "MediaPush",
            ToClientCommand::TCChatMessage(_) => "TCChatMessage",
            ToClientCommand::Hp(_) => "Hp",
            ToClientCommand::MovePlayer(_) => "MovePlayer",
            ToClientCommand::AccessDeniedLegacy(_) => "AccessDeniedLegacy",
            ToClientCommand::Fov(_) => "Fov",
            ToClientCommand::Deathscreen(_) => "Deathscreen",
            ToClientCommand::Media(_) => "Media",
            ToClientCommand::AnnounceMedia(_) => "AnnounceMedia",
            ToClientCommand::PlaySound(_) => "PlaySound",
            ToClientCommand::StopSound(_) => "StopSound",
            ToClientCommand::Privileges(_) => "Privileges",
            ToClientCommand::InventoryFormspec(_) => "InventoryFormspec",
            ToClientCommand::DetachedInventory(_) => "DetachedInventory",
            ToClientCommand::ShowFormspec(_) => "ShowFormspec",
            ToClientCommand::Movement(_) => "Movement",
            ToClientCommand::Hudadd(_) => "Hudadd",
            ToClientCommand::Hudrm(_) => "Hudrm",
            ToClientCommand::Hudchange(_) => "Hudchange",
            ToClientCommand::HudSetFlags(_) => "HudSetFlags",
            ToClientCommand::HudSetParam(_) => "HudSetParam",
            ToClientCommand::Breath(_) => "Breath",
            ToClientCommand::OverrideDayNightRatio(_) => "OverrideDayNightRatio",
            ToClientCommand::LocalPlayerAnimations(_) => "LocalPlayerAnimations",
            ToClientCommand::EyeOffset(_) => "EyeOffset",
            ToClientCommand::DeleteParticlespawner(_) => "DeleteParticlespawner",
            ToClientCommand::CloudParams(_) => "CloudParams",
            ToClientCommand::FadeSound(_) => "FadeSound",
            ToClientCommand::UpdatePlayerList(_) => "UpdatePlayerList",
            ToClientCommand::TCModchannelMsg(_) => "TCModchannelMsg",
            ToClientCommand::ModchannelSignal(_) => "ModchannelSignal",
            ToClientCommand::SetSun(_) => "SetSun",
            ToClientCommand::SetMoon(_) => "SetMoon",
            ToClientCommand::SetStars(_) => "SetStars",
            ToClientCommand::SrpBytesSB(_) => "SrpBytesSB",
            ToClientCommand::FormspecPrepend(_) => "FormspecPrepend",
            ToClientCommand::SetLighting(_) => "SetLighting",
        }
    }
}

impl ToClientCommand {
    /// The 16-bit opcode that names this command on the wire.
    pub open spec fn spec_opcode(&self) -> u16 {
        match self {
            ToClientCommand::Hello(_) => 0x2,
            ToClientCommand::AuthAccept(_) => 0x3,
            ToClientCommand::AcceptSudoMode(_) => 0x4,
            ToClientCommand::DenySudoMode(_) => 0x5,
            ToClientCommand::AccessDenied(_) => 0xa,
            ToClientCommand::Addnode(_) => 0x21,
            ToClientCommand::Removenode(_) => 0x22,
            ToClientCommand::Inventory(_) => 0x27,
            ToClientCommand::TimeOfDay(_) => 0x29,
            ToClientCommand::CsmRestrictionFlags(_) => 0x2a,
            ToClientCommand::PlayerSpeed(_) => 0x2b,
            ToClientCommand::MediaPush(_) => 0x2c,
            ToClientCommand::TCChatMessage(_) => 0x2f,
            ToClientCommand::Hp(_) => 0x33,
            ToClientCommand::MovePlayer(_) => 0x34,
            ToClientCommand::AccessDeniedLegacy(_) => 0x35,
            ToClientCommand::Fov(_) => 0x36,
            ToClientCommand::Deathscreen(_) => 0x37,
            ToClientCommand::Media(_) => 0x38,
            ToClientCommand::AnnounceMedia(_) => 0x3c,
            ToClientCommand::PlaySound(_) => 0x3f,
            ToClientCommand::StopSound(_) => 0x40,
            ToClientCommand::Privileges(_) => 0x41,
            ToClientCommand::InventoryFormspec(_) => 0x42,
            ToClientCommand::DetachedInventory(_) => 0x43,
            ToClientCommand::ShowFormspec(_) => 0x44,
            ToClientCommand::Movement(_) => 0x45,
            ToClientCommand::Hudadd(_) => 0x49,
            ToClientCommand::Hudrm(_) => 0x4a,
            ToClientCommand::Hudchange(_) => 0x4b,
            ToClientCommand::HudSetFlags(_) => 0x4c,
            ToClientCommand::HudSetParam(_) => 0x4d,
            ToClientCommand::Breath(_) => 0x4e,
            ToClientCommand::OverrideDayNightRatio(_) => 0x50,
            ToClientCommand::LocalPlayerAnimations(_) => 0x51,
            ToClientCommand::EyeOffset(_) => 0x52,
            ToClientCommand::DeleteParticlespawner(_) => 0x53,
            ToClientCommand::CloudParams(_) => 0x54,
            ToClientCommand::FadeSound(_) => 0x55,
            ToClientCommand::UpdatePlayerList(_) => 0x56,
            ToClientCommand::TCModchannelMsg(_) => 0x57,
            ToClientCommand::ModchannelSignal(_) => 0x58,
            ToClientCommand::SetSun(_) => 0x5a,
            ToClientCommand::SetMoon(_) => 0x5b,
            ToClientCommand::SetStars(_) => 0x5c,
            ToClientCommand::SrpBytesSB(_) => 0x60,
            ToClientCommand::FormspecPrepend(_) => 0x61,
            ToClientCommand::SetLighting(_) => 0x63,
        }
    }

    /// The encoding of the payload alone, after the opcode.
    pub open spec fn payload_enc(&self, ctx: ProtocolContext) -> Seq<u8> {
        match self {
            ToClientCommand::Hello(x) => x.enc(ctx),
            ToClientCommand::AuthAccept(x) => x.enc(ctx),
            ToClientCommand::AcceptSudoMode(x) => x.enc(ctx),
            ToClientCommand::DenySudoMode(x) => x.enc(ctx),
            ToClientCommand::AccessDenied(x) => x.enc(ctx),
            ToClientCommand::Addnode(x) => x.enc(ctx),
            ToClientCommand::Removenode(x) => x.enc(ctx),
            ToClientCommand::Inventory(x) => x.enc(ctx),
            ToClientCommand::TimeOfDay(x) => x.enc(ctx),
            ToClientCommand::CsmRestrictionFlags(x) => x.enc(ctx),
            ToClientCommand::PlayerSpeed(x) => x.enc(ctx),
            ToClientCommand::MediaPush(x) => x.enc(ctx),
            ToClientCommand::TCChatMessage(x) => x.enc(ctx),
            ToClientCommand::Hp(x) => x.enc(ctx),
            ToClientCommand::MovePlayer(x) => x.enc(ctx),
            ToClientCommand::AccessDeniedLegacy(x) => x.enc(ctx),
            ToClientCommand::Fov(x) => x.enc(ctx),
            ToClientCommand::Deathscreen(x) => x.enc(ctx),
            ToClientCommand::Media(x) => x.enc(ctx),
            ToClientCommand::AnnounceMedia(x) => x.enc(ctx),
            ToClientCommand::PlaySound(x) => x.enc(ctx),
            ToClientCommand::StopSound(x) => x.enc(ctx),
            ToClientCommand::Privileges(x) => x.enc(ctx),
            ToClientCommand::InventoryFormspec(x) => x.enc(ctx),
            ToClientCommand::DetachedInventory(x) => x.enc(ctx),
            ToClientCommand::ShowFormspec(x) => x.enc(ctx),
            ToClientCommand::Movement(x) => x.enc(ctx),
            ToClientCommand::Hudadd(x) => x.enc(ctx),
            ToClientCommand::Hudrm(x) => x.enc(ctx),
            ToClientCommand::Hudchange(x) => x.enc(ctx),
            ToClientCommand::HudSetFlags(x) => x.enc(ctx),
            ToClientCommand::HudSetParam(x) => x.enc(ctx),
            ToClientCommand::Breath(x) => x.enc(ctx),
            ToClientCommand::OverrideDayNightRatio(x) => x.enc(ctx),
            ToClientCommand::LocalPlayerAnimations(x) => x.enc(ctx),
            ToClientCommand::EyeOffset(x) => x.enc(ctx),
            ToClientCommand::DeleteParticlespawner(x) => x.enc(ctx),
            ToClientCommand::CloudParams(x) => x.enc(ctx),
            ToClientCommand::FadeSound(x) => x.enc(ctx),
            ToClientCommand::UpdatePlayerList(x) => x.enc(ctx),
            ToClientCommand::TCModchannelMsg(x) => x.enc(ctx),
            ToClientCommand::ModchannelSignal(x) => x.enc(ctx),
            ToClientCommand::SetSun(x) => x.enc(ctx),
            ToClientCommand::SetMoon(x) => x.enc(ctx),
            ToClientCommand::SetStars(x) => x.enc(ctx),
            ToClientCommand::SrpBytesSB(x) => x.enc(ctx),
            ToClientCommand::FormspecPrepend(x) => x.enc(ctx),
            ToClientCommand::SetLighting(x) => x.enc(ctx),
        }
    }

    fn opcode(&self) -> (r: u16)
        ensures
            r == self.spec_opcode(),
    {
        match self {
            ToClientCommand::Hello(_) => 0x2,
            ToClientCommand::AuthAccept(_) => 0x3,
            ToClientCommand::AcceptSudoMode(_) => 0x4,
            ToClientCommand::DenySudoMode(_) => 0x5,
            ToClientCommand::AccessDenied(_) => 0xa,
            ToClientCommand::Addnode(_) => 0x21,
            ToClientCommand::Removenode(_) => 0x22,
            ToClientCommand::Inventory(_) => 0x27,
            ToClientCommand::TimeOfDay(_) => 0x29,
            ToClientCommand::CsmRestrictionFlags(_) => 0x2a,
            ToClientCommand::PlayerSpeed(_) => 0x2b,
            ToClientCommand::MediaPush(_) => 0x2c,
            ToClientCommand::TCChatMessage(_) => 0x2f,
            ToClientCommand::Hp(_) => 0x33,
            ToClientCommand::MovePlayer(_) => 0x34,
            ToClientCommand::AccessDeniedLegacy(_) => 0x35,
            ToClientCommand::Fov(_) => 0x36,
            ToClientCommand::Deathscreen(_) => 0x37,
            ToClientCommand::Media(_) => 0x38,
            ToClientCommand::AnnounceMedia(_) => 0x3c,
            ToClientCommand::PlaySound(_) => 0x3f,
            ToClientCommand::StopSound(_) => 0x40,
            ToClientCommand::Privileges(_) => 0x41,
            ToClientCommand::InventoryFormspec(_) => 0x42,
            ToClientCommand::DetachedInventory(_) => 0x43,
            ToClientCommand::ShowFormspec(_) => 0x44,
            ToClientCommand::Movement(_) => 0x45,
            ToClientCommand::Hudadd(_) => 0x49,
            ToClientCommand::Hudrm(_) => 0x4a,
            ToClientCommand::Hudchange(_) => 0x4b,
            ToClientCommand::HudSetFlags(_) => 0x4c,
            ToClientCommand::HudSetParam(_) => 0x4d,
            ToClientCommand::Breath(_) => 0x4e,
            ToClientCommand::OverrideDayNightRatio(_) => 0x50,
            ToClientCommand::LocalPlayerAnimations(_) => 0x51,
            ToClientCommand::EyeOffset(_) => 0x52,
            ToClientCommand::DeleteParticlespawner(_) => 0x53,
            ToClientCommand::CloudParams(_) => 0x54,
            ToClientCommand::FadeSound(_) => 0x55,
            ToClientCommand::UpdatePlayerList(_) => 0x56,
            ToClientCommand::TCModchannelMsg(_) => 0x57,
            ToClientCommand::ModchannelSignal(_) => 0x58,
            ToClientCommand::SetSun(_) => 0x5a,
            ToClientCommand::SetMoon(_) => 0x5b,
            ToClientCommand::SetStars(_) => 0x5c,
            ToClientCommand::SrpBytesSB(_) => 0x60,
            ToClientCommand::FormspecPrepend(_) => 0x61,
            ToClientCommand::SetLighting(_) => 0x63,
        }
    }

    #[verifier::rlimit(100)]
    fn serialize_payload(&self, ser: &mut VecSerializer) -> (r: SerializeResult)
        ensures
            final(ser).ctx() == old(ser).ctx(),
            r is Ok <==> self.ser_wf(old(ser).ctx()),
            r is Ok ==> final(ser).out() == old(ser).out() + self.payload_enc(old(ser).ctx()),
    {
        match self {
            ToClientCommand::Hello(x) => x.serialize(ser),
            ToClientCommand::AuthAccept(x) => x.serialize(ser),
            ToClientCommand::AcceptSudoMode(x) => x.serialize(ser),
            ToClientCommand::DenySudoMode(x) => x.serialize(ser),
            ToClientCommand::AccessDenied(x) => x.serialize(ser),
            ToClientCommand::Addnode(x) => x.serialize(ser),
            ToClientCommand::Removenode(x) => x.serialize(ser),
            ToClientCommand::Inventory(x) => x.serialize(ser),
            ToClientCommand::TimeOfDay(x) => x.serialize(ser),
            ToClientCommand::CsmRestrictionFlags(x) => x.serialize(ser),
            ToClientCommand::PlayerSpeed(x) => x.serialize(ser),
            ToClientCommand::MediaPush(x) => x.serialize(ser),
            ToClientCommand::TCChatMessage(x) => x.serialize(ser),
            ToClientCommand::Hp(x) => x.serialize(ser),
            ToClientCommand::MovePlayer(x) => x.serialize(ser),
            ToClientCommand::AccessDeniedLegacy(x) => x.serialize(ser),
            ToClientCommand::Fov(x) => x.serialize(ser),
            ToClientCommand::Deathscreen(x) => x.serialize(ser),
            ToClientCommand::Media(x) => x.serialize(ser),
            ToClientCommand::AnnounceMedia(x) => x.serialize(ser),
            ToClientCommand::PlaySound(x) => x.serialize(ser),
            ToClientCommand::StopSound(x) => x.serialize(ser),
            ToClientCommand::Privileges(x) => x.serialize(ser),
            ToClientCommand::InventoryFormspec(x) => x.serialize(ser),
            ToClientCommand::DetachedInventory(x) => x.serialize(ser),
            ToClientCommand::ShowFormspec(x) => x.serialize(ser),
            ToClientCommand::Movement(x) => x.serialize(ser),
            ToClientCommand::Hudadd(x) => x.serialize(ser),
            ToClientCommand::Hudrm(x) => x.serialize(ser),
            ToClientCommand::Hudchange(x) => x.serialize(ser),
            ToClientCommand::HudSetFlags(x) => x.serialize(ser),
            ToClientCommand::HudSetParam(x) => x.serialize(ser),
            ToClientCommand::Breath(x) => x.serialize(ser),
            ToClientCommand::OverrideDayNightRatio(x) => x.serialize(ser),
            ToClientCommand::LocalPlayerAnimations(x) => x.serialize(ser),
            ToClientCommand::EyeOffset(x) => x.serialize(ser),
            ToClientCommand::DeleteParticlespawner(x) => x.serialize(ser),
            ToClientCommand::CloudParams(x) => x.serialize(ser),
            ToClientCommand::FadeSound(x) => x.serialize(ser),
            ToClientCommand::UpdatePlayerList(x) => x.serialize(ser),
            ToClientCommand::TCModchannelMsg(x) => x.serialize(ser),
            ToClientCommand::ModchannelSignal(x) => x.serialize(ser),
            ToClientCommand::SetSun(x) => x.serialize(ser),
            ToClientCommand::SetMoon(x) => x.serialize(ser),
            ToClientCommand::SetStars(x) => x.serialize(ser),
            ToClientCommand::SrpBytesSB(x) => x.serialize(ser),
            ToClientCommand::FormspecPrepend(x) => x.serialize(ser),
            ToClientCommand::SetLighting(x) => x.serialize(ser),
        }
    }
}

impl Serialize for ToClientCommand {
    open spec fn enc(&self, ctx: ProtocolContext) -> Seq<u8> {
        be16(self.spec_opcode()) + self.payload_enc(ctx)
    }

    open spec fn ser_wf(&self, ctx: ProtocolContext) -> bool {
        match self {
            ToClientCommand::Hello(x) => x.ser_wf(ctx),
            ToClientCommand::AuthAccept(x) => x.ser_wf(ctx),
            ToClientCommand::AcceptSudoMode(x) => x.ser_wf(ctx),
            ToClientCommand::DenySudoMode(x) => x.ser_wf(ctx),
            ToClientCommand::AccessDenied(x) => x.ser_wf(ctx),
            ToClientCommand::Addnode(x) => x.ser_wf(ctx),
            ToClientCommand::Removenode(x) => x.ser_wf(ctx),
            ToClientCommand::Inventory(x) => x.ser_wf(ctx),
            ToClientCommand::TimeOfDay(x) => x.ser_wf(ctx),
            ToClientCommand::CsmRestrictionFlags(x) => x.ser_wf(ctx),
            ToClientCommand::PlayerSpeed(x) => x.ser_wf(ctx),
            ToClientCommand::MediaPush(x) => x.ser_wf(ctx),
            ToClientCommand::TCChatMessage(x) => x.ser_wf(ctx),
            ToClientCommand::Hp(x) => x.ser_wf(ctx),
            ToClientCommand::MovePlayer(x) => x.ser_wf(ctx),
            ToClientCommand::AccessDeniedLegacy(x) => x.ser_wf(ctx),
            ToClientCommand::Fov(x) => x.ser_wf(ctx),
            ToClientCommand::Deathscreen(x) => x.ser_wf(ctx),
            ToClientCommand::Media(x) => x.ser_wf(ctx),
            ToClientCommand::AnnounceMedia(x) => x.ser_wf(ctx),
            ToClientCommand::PlaySound(x) => x.ser_wf(ctx),
            ToClientCommand::StopSound(x) => x.ser_wf(ctx),
            ToClientCommand::Privileges(x) => x.ser_wf(ctx),
            ToClientCommand::InventoryFormspec(x) => x.ser_wf(ctx),
            ToClientCommand::DetachedInventory(x) => x.ser_wf(ctx),
            ToClientCommand::ShowFormspec(x) => x.ser_wf(ctx),
            ToClientCommand::Movement(x) => x.ser_wf(ctx),
            ToClientCommand::Hudadd(x) => x.ser_wf(ctx),
            ToClientCommand::Hudrm(x) => x.ser_wf(ctx),
            ToClientCommand::Hudchange(x) => x.ser_wf(ctx),
            ToClientCommand::HudSetFlags(x) => x.ser_wf(ctx),
            ToClientCommand::HudSetParam(x) => x.ser_wf(ctx),
            ToClientCommand::Breath(x) => x.ser_wf(ctx),
            ToClientCommand::OverrideDayNightRatio(x) => x.ser_wf(ctx),
            ToClientCommand::LocalPlayerAnimations(x) => x.ser_wf(ctx),
            ToClientCommand::EyeOffset(x) => x.ser_wf(ctx),
            ToClientCommand::DeleteParticlespawner(x) => x.ser_wf(ctx),
            ToClientCommand::CloudParams(x) => x.ser_wf(ctx),
            ToClientCommand::FadeSound(x) => x.ser_wf(ctx),
            ToClientCommand::UpdatePlayerList(x) => x.ser_wf(ctx),
            ToClientCommand::TCModchannelMsg(x) => x.ser_wf(ctx),
            ToClientCommand::ModchannelSignal(x) => x.ser_wf(ctx),
            ToClientCommand::SetSun(x) => x.ser_wf(ctx),
            ToClientCommand::SetMoon(x) => x.ser_wf(ctx),
            ToClientCommand::SetStars(x) => x.ser_wf(ctx),
            ToClientCommand::SrpBytesSB(x) => x.ser_wf(ctx),
            ToClientCommand::FormspecPrepend(x) => x.ser_wf(ctx),
            ToClientCommand::SetLighting(x) => x.ser_wf(ctx),
        }
    }

    open spec fn eqv(&self, other: &Self) -> bool {
        match (self, other) {
            (ToClientCommand::Hello(x), ToClientCommand::Hello(y)) => x.eqv(y),
            (ToClientCommand::AuthAccept(x), ToClientCommand::AuthAccept(y)) => x.eqv(y),
            (ToClientCommand::AcceptSudoMode(x), ToClientCommand::AcceptSudoMode(y)) => x.eqv(y),
            (ToClientCommand::DenySudoMode(x), ToClientCommand::DenySudoMode(y)) => x.eqv(y),
            (ToClientCommand::AccessDenied(x), ToClientCommand::AccessDenied(y)) => x.eqv(y),
            (ToClientCommand::Addnode(x), ToClientCommand::Addnode(y)) => x.eqv(y),
            (ToClientCommand::Removenode(x), ToClientCommand::Removenode(y)) => x.eqv(y),
            (ToClientCommand::Inventory(x), ToClientCommand::Inventory(y)) => x.eqv(y),
            (ToClientCommand::TimeOfDay(x), ToClientCommand::TimeOfDay(y)) => x.eqv(y),
            (ToClientCommand::CsmRestrictionFlags(x), ToClientCommand::CsmRestrictionFlags(y)) => x.eqv(y),
            (ToClientCommand::PlayerSpeed(x), ToClientCommand::PlayerSpeed(y)) => x.eqv(y),
            (ToClientCommand::MediaPush(x), ToClientCommand::MediaPush(y)) => x.eqv(y),
            (ToClientCommand::TCChatMessage(x), ToClientCommand::TCChatMessage(y)) => x.eqv(y),
            (ToClientCommand::Hp(x), ToClientCommand::Hp(y)) => x.eqv(y),
            (ToClientCommand::MovePlayer(x), ToClientCommand::MovePlayer(y)) => x.eqv(y),
            (ToClientCommand::AccessDeniedLegacy(x), ToClientCommand::AccessDeniedLegacy(y)) => x.eqv(y),
            (ToClientCommand::Fov(x), ToClientCommand::Fov(y)) => x.eqv(y),
            (ToClientCommand::Deathscreen(x), ToClientCommand::Deathscreen(y)) => x.eqv(y),
            (ToClientCommand::Media(x), ToClientCommand::Media(y)) => x.eqv(y),
            (ToClientCommand::AnnounceMedia(x), ToClientCommand::AnnounceMedia(y)) => x.eqv(y),
            (ToClientCommand::PlaySound(x), ToClientCommand::PlaySound(y)) => x.eqv(y),
            (ToClientCommand::StopSound(x), ToClientCommand::StopSound(y)) => x.eqv(y),
            (ToClientCommand::Privileges(x), ToClientCommand::Privileges(y)) => x.eqv(y),
            (ToClientCommand::InventoryFormspec(x), ToClientCommand::InventoryFormspec(y)) => x.eqv(y),
            (ToClientCommand::DetachedInventory(x), ToClientCommand::DetachedInventory(y)) => x.eqv(y),
            (ToClientCommand::ShowFormspec(x), ToClientCommand::ShowFormspec(y)) => x.eqv(y),
            (ToClientCommand::Movement(x), ToClientCommand::Movement(y)) => x.eqv(y),
            (ToClientCommand::Hudadd(x), ToClientCommand::Hudadd(y)) => x.eqv(y),
            (ToClientCommand::Hudrm(x), ToClientCommand::Hudrm(y)) => x.eqv(y),
            (ToClientCommand::Hudchange(x), ToClientCommand::Hudchange(y)) => x.eqv(y),
            (ToClientCommand::HudSetFlags(x), ToClientCommand::HudSetFlags(y)) => x.eqv(y),
            (ToClientCommand::HudSetParam(x), ToClientCommand::HudSetParam(y)) => x.eqv(y),
            (ToClientCommand::Breath(x), ToClientCommand::Breath(y)) => x.eqv(y),
            (ToClientCommand::OverrideDayNightRatio(x), ToClientCommand::OverrideDayNightRatio(y)) => x.eqv(y),
            (ToClientCommand::LocalPlayerAnimations(x), ToClientCommand::LocalPlayerAnimations(y)) => x.eqv(y),
            (ToClientCommand::EyeOffset(x), ToClientCommand::EyeOffset(y)) => x.eqv(y),
            (ToClientCommand::DeleteParticlespawner(x), ToClientCommand::DeleteParticlespawner(y)) => x.eqv(y),
            (ToClientCommand::CloudParams(x), ToClientCommand::CloudParams(y)) => x.eqv(y),
            (ToClientCommand::FadeSound(x), ToClientCommand::FadeSound(y)) => x.eqv(y),
            (ToClientCommand::UpdatePlayerList(x), ToClientCommand::UpdatePlayerList(y)) => x.eqv(y),
            (ToClientCommand::TCModchannelMsg(x), ToClientCommand::TCModchannelMsg(y)) => x.eqv(y),
            (ToClientCommand::ModchannelSignal(x), ToClientCommand::ModchannelSignal(y)) => x.eqv(y),
            (ToClientCommand::SetSun(x), ToClientCommand::SetSun(y)) => x.eqv(y),
            (ToClientCommand::SetMoon(x), ToClientCommand::SetMoon(y)) => x.eqv(y),
            (ToClientCommand::SetStars(x), ToClientCommand::SetStars(y)) => x.eqv(y),
            (ToClientCommand::SrpBytesSB(x), ToClientCommand::SrpBytesSB(y)) => x.eqv(y),
            (ToClientCommand::FormspecPrepend(x), ToClientCommand::FormspecPrepend(y)) => x.eqv(y),
            (ToClientCommand::SetLighting(x), ToClientCommand::SetLighting(y)) => x.eqv(y),
            _ => false,
        }
    }

    fn serialize(&self, ser: &mut VecSerializer) -> (r: SerializeResult) {
        let op = self.opcode();
        write_be16(ser, op);
        let result = self.serialize_payload(ser);
        proof {
            vstd::seq_lib::lemma_concat_associative(old(ser).out(), be16(self.spec_opcode()), self.payload_enc(old(ser).ctx()));
        }
        result
    }
}

proof fn toclientcommand_reshape(ctx: ProtocolContext, input: Seq<u8>)
    ensures
        forall|v: ToClientCommand, rest: Seq<u8>|
            (#[trigger] v.enc(ctx).add(rest)) == input && v.rt_wf(ctx) && rest.len() == 0
                ==> match v {
                ToClientCommand::Hello(x) => (0x2u16).enc(ctx).add(x.enc(ctx).add(rest)) == input,
                ToClientCommand::AuthAccept(x) => (0x3u16).enc(ctx).add(x.enc(ctx).add(rest)) == input,
                ToClientCommand::AcceptSudoMode(x) => (0x4u16).enc(ctx).add(x.enc(ctx).add(rest)) == input,
                ToClientCommand::DenySudoMode(x) => (0x5u16).enc(ctx).add(x.enc(ctx).add(rest)) == input,
                ToClientCommand::AccessDenied(x) => (0xau16).enc(ctx).add(x.enc(ctx).add(rest)) == input,
                ToClientCommand::Addnode(x) => (0x21u16).enc(ctx).add(x.enc(ctx).add(rest)) == input,
                ToClientCommand::Removenode(x) => (0x22u16).enc(ctx).add(x.enc(ctx).add(rest)) == input,
                ToClientCommand::Inventory(x) => (0x27u16).enc(ctx).add(x.enc(ctx).add(rest)) == input,
                ToClientCommand::TimeOfDay(x) => (0x29u16).enc(ctx).add(x.enc(ctx).add(rest)) == input,
                ToClientCommand::CsmRestrictionFlags(x) => (0x2au16).enc(ctx).add(x.enc(ctx).add(rest)) == input,
                ToClientCommand::PlayerSpeed(x) => (0x2bu16).enc(ctx).add(x.enc(ctx).add(rest)) == input,
                ToClientCommand::MediaPush(x) => (0x2cu16).enc(ctx).add(x.enc(ctx).add(rest)) == input,
                ToClientCommand::TCChatMessage(x) => (0x2fu16).enc(ctx).add(x.enc(ctx).add(rest)) == input,
                ToClientCommand::Hp(x) => (0x33u16).enc(ctx).add(x.enc(ctx).add(rest)) == input,
                ToClientCommand::MovePlayer(x) => (0x34u16).enc(ctx).add(x.enc(ctx).add(rest)) == input,
                ToClientCommand::AccessDeniedLegacy(x) => (0x35u16).enc(ctx).add(x.enc(ctx).add(rest)) == input,
                ToClientCommand::Fov(x) => (0x36u16).enc(ctx).add(x.enc(ctx).add(rest)) == input,
                ToClientCommand::Deathscreen(x) => (0x37u16).enc(ctx).add(x.enc(ctx).add(rest)) == input,
                ToClientCommand::Media(x) => (0x38u16).enc(ctx).add(x.enc(ctx).add(rest)) == input,
                ToClientCommand::AnnounceMedia(x) => (0x3cu16).enc(ctx).add(x.enc(ctx).add(rest)) == input,
                ToClientCommand::PlaySound(x) => (0x3fu16).enc(ctx).add(x.enc(ctx).add(rest)) == input,
                ToClientCommand::StopSound(x) => (0x40u16).enc(ctx).add(x.enc(ctx).add(rest)) == input,
                ToClientCommand::Privileges(x) => (0x41u16).enc(ctx).add(x.enc(ctx).add(rest)) == input,
                ToClientCommand::InventoryFormspec(x) => (0x42u16).enc(ctx).add(x.enc(ctx).add(rest)) == input,
                ToClientCommand::DetachedInventory(x) => (0x43u16).enc(ctx).add(x.enc(ctx).add(rest)) == input,
                ToClientCommand::ShowFormspec(x) => (0x44u16).enc(ctx).add(x.enc(ctx).add(rest)) == input,
                ToClientCommand::Movement(x) => (0x45u16).enc(ctx).add(x.enc(ctx).add(rest)) == input,
                ToClientCommand::Hudadd(x) => (0x49u16).enc(ctx).add(x.enc(ctx).add(rest)) == input,
                ToClientCommand::Hudrm(x) => (0x4au16).enc(ctx).add(x.enc(ctx).add(rest)) == input,
                ToClientCommand::Hudchange(x) => (0x4bu16).enc(ctx).add(x.enc(ctx).add(rest)) == input,
                ToClientCommand::HudSetFlags(x) => (0x4cu16).enc(ctx).add(x.enc(ctx).add(rest)) == input,
                ToClientCommand::HudSetParam(x) => (0x4du16).enc(ctx).add(x.enc(ctx).add(rest)) == input,
                ToClientCommand::Breath(x) => (0x4eu16).enc(ctx).add(x.enc(ctx).add(rest)) == input,
                ToClientCommand::OverrideDayNightRatio(x) => (0x50u16).enc(ctx).add(x.enc(ctx).add(rest)) == input,
                ToClientCommand::LocalPlayerAnimations(x) => (0x51u16).enc(ctx).add(x.enc(ctx).add(rest)) == input,
                ToClientCommand::EyeOffset(x) => (0x52u16).enc(ctx).add(x.enc(ctx).add(rest)) == input,
                ToClientCommand::DeleteParticlespawner(x) => (0x53u16).enc(ctx).add(x.enc(ctx).add(rest)) == input,
                ToClientCommand::CloudParams(x) => (0x54u16).enc(ctx).add(x.enc(ctx).add(rest)) == input,
                ToClientCommand::FadeSound(x) => (0x55u16).enc(ctx).add(x.enc(ctx).add(rest)) == input,
                ToClientCommand::UpdatePlayerList(x) => (0x56u16).enc(ctx).add(x.enc(ctx).add(rest)) == input,
                ToClientCommand::TCModchannelMsg(x) => (0x57u16).enc(ctx).add(x.enc(ctx).add(rest)) == input,
                ToClientCommand::ModchannelSignal(x) => (0x58u16).enc(ctx).add(x.enc(ctx).add(rest)) == input,
                ToClientCommand::SetSun(x) => (0x5au16).enc(ctx).add(x.enc(ctx).add(rest)) == input,
                ToClientCommand::SetMoon(x) => (0x5bu16).enc(ctx).add(x.enc(ctx).add(rest)) == input,
                ToClientCommand::SetStars(x) => (0x5cu16).enc(ctx).add(x.enc(ctx).add(rest)) == input,
                ToClientCommand::SrpBytesSB(x) => (0x60u16).enc(ctx).add(x.enc(ctx).add(rest)) == input,
                ToClientCommand::FormspecPrepend(x) => (0x61u16).enc(ctx).add(x.enc(ctx).add(rest)) == input,
                ToClientCommand::SetLighting(x) => (0x63u16).enc(ctx).add(x.enc(ctx).add(rest)) == input,
            },
{
    assert forall|v: ToClientCommand, rest: Seq<u8>|
        (#[trigger] v.enc(ctx).add(rest)) == input && v.rt_wf(ctx) && rest.len() == 0
        implies match v {
        ToClientCommand::Hello(x) => (0x2u16).enc(ctx).add(x.enc(ctx).add(rest)) == input,
        ToClientCommand::AuthAccept(x) => (0x3u16).enc(ctx).add(x.enc(ctx).add(rest)) == input,
        ToClientCommand::AcceptSudoMode(x) => (0x4u16).enc(ctx).add(x.enc(ctx).add(rest)) == input,
        ToClientCommand::DenySudoMode(x) => (0x5u16).enc(ctx).add(x.enc(ctx).add(rest)) == input,
        ToClientCommand::AccessDenied(x) => (0xau16).enc(ctx).add(x.enc(ctx).add(rest)) == input,
        ToClientCommand::Addnode(x) => (0x21u16).enc(ctx).add(x.enc(ctx).add(rest)) == input,
        ToClientCommand::Removenode(x) => (0x22u16).enc(ctx).add(x.enc(ctx).add(rest)) == input,
        ToClientCommand::Inventory(x) => (0x27u16).enc(ctx).add(x.enc(ctx).add(rest)) == input,
        ToClientCommand::TimeOfDay(x) => (0x29u16).enc(ctx).add(x.enc(ctx).add(rest)) == input,
        ToClientCommand::CsmRestrictionFlags(x) => (0x2au16).enc(ctx).add(x.enc(ctx).add(rest)) == input,
        ToClientCommand::PlayerSpeed(x) => (0x2bu16).enc(ctx).add(x.enc(ctx).add(rest)) == input,
        ToClientCommand::MediaPush(x) => (0x2cu16).enc(ctx).add(x.enc(ctx).add(rest)) == input,
        ToClientCommand::TCChatMessage(x) => (0x2fu16).enc(ctx).add(x.enc(ctx).add(rest)) == input,
        ToClientCommand::Hp(x) => (0x33u16).enc(ctx).add(x.enc(ctx).add(rest)) == input,
        ToClientCommand::MovePlayer(x) => (0x34u16).enc(ctx).add(x.enc(ctx).add(rest)) == input,
        ToClientCommand::AccessDeniedLegacy(x) => (0x35u16).enc(ctx).add(x.enc(ctx).add(rest)) == input,
        ToClientCommand::Fov(x) => (0x36u16).enc(ctx).add(x.enc(ctx).add(rest)) == input,
        ToClientCommand::Deathscreen(x) => (0x37u16).enc(ctx).add(x.enc(ctx).add(rest)) == input,
        ToClientCommand::Media(x) => (0x38u16).enc(ctx).add(x.enc(ctx).add(rest)) == input,
        ToClientCommand::AnnounceMedia(x) => (0x3cu16).enc(ctx).add(x.enc(ctx).add(rest)) == input,
        ToClientCommand::PlaySound(x) => (0x3fu16).enc(ctx).add(x.enc(ctx).add(rest)) == input,
        ToClientCommand::StopSound(x) => (0x40u16).enc(ctx).add(x.enc(ctx).add(rest)) == input,
        ToClientCommand::Privileges(x) => (0x41u16).enc(ctx).add(x.enc(ctx).add(rest)) == input,
        ToClientCommand::InventoryFormspec(x) => (0x42u16).enc(ctx).add(x.enc(ctx).add(rest)) == input,
        ToClientCommand::DetachedInventory(x) => (0x43u16).enc(ctx).add(x.enc(ctx).add(rest)) == input,
        ToClientCommand::ShowFormspec(x) => (0x44u16).enc(ctx).add(x.enc(ctx).add(rest)) == input,
        ToClientCommand::Movement(x) => (0x45u16).enc(ctx).add(x.enc(ctx).add(rest)) == input,
        ToClientCommand::Hudadd(x) => (0x49u16).enc(ctx).add(x.enc(ctx).add(rest)) == input,
        ToClientCommand::Hudrm(x) => (0x4au16).enc(ctx).add(x.enc(ctx).add(rest)) == input,
        ToClientCommand::Hudchange(x) => (0x4bu16).enc(ctx).add(x.enc(ctx).add(rest)) == input,
        ToClientCommand::HudSetFlags(x) => (0x4cu16).enc(ctx).add(x.enc(ctx).add(rest)) == input,
        ToClientCommand::HudSetParam(x) => (0x4du16).enc(ctx).add(x.enc(ctx).add(rest)) == input,
        ToClientCommand::Breath(x) => (0x4eu16).enc(ctx).add(x.enc(ctx).add(rest)) == input,
        ToClientCommand::OverrideDayNightRatio(x) => (0x50u16).enc(ctx).add(x.enc(ctx).add(rest)) == input,
        ToClientCommand::LocalPlayerAnimations(x) => (0x51u16).enc(ctx).add(x.enc(ctx).add(rest)) == input,
        ToClientCommand::EyeOffset(x) => (0x52u16).enc(ctx).add(x.enc(ctx).add(rest)) == input,
        ToClientCommand::DeleteParticlespawner(x) => (0x53u16).enc(ctx).add(x.enc(ctx).add(rest)) == input,
        ToClientCommand::CloudParams(x) => (0x54u16).enc(ctx).add(x.enc(ctx).add(rest)) == input,
        ToClientCommand::FadeSound(x) => (0x55u16).enc(ctx).add(x.enc(ctx).add(rest)) == input,
        ToClientCommand::UpdatePlayerList(x) => (0x56u16).enc(ctx).add(x.enc(ctx).add(rest)) == input,
        ToClientCommand::TCModchannelMsg(x) => (0x57u16).enc(ctx).add(x.enc(ctx).add(rest)) == input,
        ToClientCommand::ModchannelSignal(x) => (0x58u16).enc(ctx).add(x.enc(ctx).add(rest)) == input,
        ToClientCommand::SetSun(x) => (0x5au16).enc(ctx).add(x.enc(ctx).add(rest)) == input,
        ToClientCommand::SetMoon(x) => (0x5bu16).enc(ctx).add(x.enc(ctx).add(rest)) == input,
        ToClientCommand::SetStars(x) => (0x5cu16).enc(ctx).add(x.enc(ctx).add(rest)) == input,
        ToClientCommand::SrpBytesSB(x) => (0x60u16).enc(ctx).add(x.enc(ctx).add(rest)) == input,
        ToClientCommand::FormspecPrepend(x) => (0x61u16).enc(ctx).add(x.enc(ctx).add(rest)) == input,
        ToClientCommand::SetLighting(x) => (0x63u16).enc(ctx).add(x.enc(ctx).add(rest)) == input,
    } by {
        match v {
            ToClientCommand::Hello(x) => {
                assert(v.enc(ctx) == be16(0x2) + x.enc(ctx));
                vstd::seq_lib::lemma_concat_associative((0x2u16).enc(ctx), x.enc(ctx), rest);
            },
            ToClientCommand::AuthAccept(x) => {
                assert(v.enc(ctx) == be16(0x3) + x.enc(ctx));
                vstd::seq_lib::lemma_concat_associative((0x3u16).enc(ctx), x.enc(ctx), rest);
            },
            ToClientCommand::AcceptSudoMode(x) => {
                assert(v.enc(ctx) == be16(0x4) + x.enc(ctx));
                vstd::seq_lib::lemma_concat_associative((0x4u16).enc(ctx), x.enc(ctx), rest);
            },
            ToClientCommand::DenySudoMode(x) => {
                assert(v.enc(ctx) == be16(0x5) + x.enc(ctx));
                vstd::seq_lib::lemma_concat_associative((0x5u16).enc(ctx), x.enc(ctx), rest);
            },
            ToClientCommand::AccessDenied(x) => {
                assert(v.enc(ctx) == be16(0xa) + x.enc(ctx));
                vstd::seq_lib::lemma_concat_associative((0xau16).enc(ctx), x.enc(ctx), rest);
            },
            ToClientCommand::Addnode(x) => {
                assert(v.enc(ctx) == be16(0x21) + x.enc(ctx));
                vstd::seq_lib::lemma_concat_associative((0x21u16).enc(ctx), x.enc(ctx), rest);
            },
            ToClientCommand::Removenode(x) => {
                assert(v.enc(ctx) == be16(0x22) + x.enc(ctx));
                vstd::seq_lib::lemma_concat_associative((0x22u16).enc(ctx), x.enc(ctx), rest);
            },
            ToClientCommand::Inventory(x) => {
                assert(v.enc(ctx) == be16(0x27) + x.enc(ctx));
                vstd::seq_lib::lemma_concat_associative((0x27u16).enc(ctx), x.enc(ctx), rest);
            },
            ToClientCommand::TimeOfDay(x) => {
                assert(v.enc(ctx) == be16(0x29) + x.enc(ctx));
                vstd::seq_lib::lemma_concat_associative((0x29u16).enc(ctx), x.enc(ctx), rest);
            },
            ToClientCommand::CsmRestrictionFlags(x) => {
                assert(v.enc(ctx) == be16(0x2a) + x.enc(ctx));
                vstd::seq_lib::lemma_concat_associative((0x2au16).enc(ctx), x.enc(ctx), rest);
            },
            ToClientCommand::PlayerSpeed(x) => {
                assert(v.enc(ctx) == be16(0x2b) + x.enc(ctx));
                vstd::seq_lib::lemma_concat_associative((0x2bu16).enc(ctx), x.enc(ctx), rest);
            },
            ToClientCommand::MediaPush(x) => {
                assert(v.enc(ctx) == be16(0x2c) + x.enc(ctx));
                vstd::seq_lib::lemma_concat_associative((0x2cu16).enc(ctx), x.enc(ctx), rest);
            },
            ToClientCommand::TCChatMessage(x) => {
                assert(v.enc(ctx) == be16(0x2f) + x.enc(ctx));
                vstd::seq_lib::lemma_concat_associative((0x2fu16).enc(ctx), x.enc(ctx), rest);
            },
            ToClientCommand::Hp(x) => {
                assert(v.enc(ctx) == be16(0x33) + x.enc(ctx));
                vstd::seq_lib::lemma_concat_associative((0x33u16).enc(ctx), x.enc(ctx), rest);
            },
            ToClientCommand::MovePlayer(x) => {
                assert(v.enc(ctx) == be16(0x34) + x.enc(ctx));
                vstd::seq_lib::lemma_concat_associative((0x34u16).enc(ctx), x.enc(ctx), rest);
            },
            ToClientCommand::AccessDeniedLegacy(x) => {
                assert(v.enc(ctx) == be16(0x35) + x.enc(ctx));
                vstd::seq_lib::lemma_concat_associative((0x35u16).enc(ctx), x.enc(ctx), rest);
            },
            ToClientCommand::Fov(x) => {
                assert(v.enc(ctx) == be16(0x36) + x.enc(ctx));
                vstd::seq_lib::lemma_concat_associative((0x36u16).enc(ctx), x.enc(ctx), rest);
            },
            ToClientCommand::Deathscreen(x) => {
                assert(v.enc(ctx) == be16(0x37) + x.enc(ctx));
                vstd::seq_lib::lemma_concat_associative((0x37u16).enc(ctx), x.enc(ctx), rest);
            },
            ToClientCommand::Media(x) => {
                assert(v.enc(ctx) == be16(0x38) + x.enc(ctx));
                vstd::seq_lib::lemma_concat_associative((0x38u16).enc(ctx), x.enc(ctx), rest);
            },
            ToClientCommand::AnnounceMedia(x) => {
                assert(v.enc(ctx) == be16(0x3c) + x.enc(ctx));
                vstd::seq_lib::lemma_concat_associative((0x3cu16).enc(ctx), x.enc(ctx), rest);
            },
            ToClientCommand::PlaySound(x) => {
                assert(v.enc(ctx) == be16(0x3f) + x.enc(ctx));
                vstd::seq_lib::lemma_concat_associative((0x3fu16).enc(ctx), x.enc(ctx), rest);
            },
            ToClientCommand::StopSound(x) => {
                assert(v.enc(ctx) == be16(0x40) + x.enc(ctx));
                vstd::seq_lib::lemma_concat_associative((0x40u16).enc(ctx), x.enc(ctx), rest);
            },
            ToClientCommand::Privileges(x) => {
                assert(v.enc(ctx) == be16(0x41) + x.enc(ctx));
                vstd::seq_lib::lemma_concat_associative((0x41u16).enc(ctx), x.enc(ctx), rest);
            },
            ToClientCommand::InventoryFormspec(x) => {
                assert(v.enc(ctx) == be16(0x42) + x.enc(ctx));
                vstd::seq_lib::lemma_concat_associative((0x42u16).enc(ctx), x.enc(ctx), rest);
            },
            ToClientCommand::DetachedInventory(x) => {
                assert(v.enc(ctx) == be16(0x43) + x.enc(ctx));
                vstd::seq_lib::lemma_concat_associative((0x43u16).enc(ctx), x.enc(ctx), rest);
            },
            ToClientCommand::ShowFormspec(x) => {
                assert(v.enc(ctx) == be16(0x44) + x.enc(ctx));
                vstd::seq_lib::lemma_concat_associative((0x44u16).enc(ctx), x.enc(ctx), rest);
            },
            ToClientCommand::Movement(x) => {
                assert(v.enc(ctx) == be16(0x45) + x.enc(ctx));
                vstd::seq_lib::lemma_concat_associative((0x45u16).enc(ctx), x.enc(ctx), rest);
            },
            ToClientCommand::Hudadd(x) => {
                assert(v.enc(ctx) == be16(0x49) + x.enc(ctx));
                vstd::seq_lib::lemma_concat_associative((0x49u16).enc(ctx), x.enc(ctx), rest);
            },
            ToClientCommand::Hudrm(x) => {
                assert(v.enc(ctx) == be16(0x4a) + x.enc(ctx));
                vstd::seq_lib::lemma_concat_associative((0x4au16).enc(ctx), x.enc(ctx), rest);
            },
            ToClientCommand::Hudchange(x) => {
                assert(v.enc(ctx) == be16(0x4b) + x.enc(ctx));
                vstd::seq_lib::lemma_concat_associative((0x4bu16).enc(ctx), x.enc(ctx), rest);
            },
            ToClientCommand::HudSetFlags(x) => {
                assert(v.enc(ctx) == be16(0x4c) + x.enc(ctx));
                vstd::seq_lib::lemma_concat_associative((0x4cu16).enc(ctx), x.enc(ctx), rest);
            },
            ToClientCommand::HudSetParam(x) => {
                assert(v.enc(ctx) == be16(0x4d) + x.enc(ctx));
                vstd::seq_lib::lemma_concat_associative((0x4du16).enc(ctx), x.enc(ctx), rest);
            },
            ToClientCommand::Breath(x) => {
                assert(v.enc(ctx) == be16(0x4e) + x.enc(ctx));
                vstd::seq_lib::lemma_concat_associative((0x4eu16).enc(ctx), x.enc(ctx), rest);
            },
            ToClientCommand::OverrideDayNightRatio(x) => {
                assert(v.enc(ctx) == be16(0x50) + x.enc(ctx));
                vstd::seq_lib::lemma_concat_associative((0x50u16).enc(ctx), x.enc(ctx), rest);
            },
            ToClientCommand::LocalPlayerAnimations(x) => {
                assert(v.enc(ctx) == be16(0x51) + x.enc(ctx));
                vstd::seq_lib::lemma_concat_associative((0x51u16).enc(ctx), x.enc(ctx), rest);
            },
            ToClientCommand::EyeOffset(x) => {
                assert(v.enc(ctx) == be16(0x52) + x.enc(ctx));
                vstd::seq_lib::lemma_concat_associative((0x52u16).enc(ctx), x.enc(ctx), rest);
            },
            ToClientCommand::DeleteParticlespawner(x) => {
                assert(v.enc(ctx) == be16(0x53) + x.enc(ctx));
                vstd::seq_lib::lemma_concat_associative((0x53u16).enc(ctx), x.enc(ctx), rest);
            },
            ToClientCommand::CloudParams(x) => {
                assert(v.enc(ctx) == be16(0x54) + x.enc(ctx));
                vstd::seq_lib::lemma_concat_associative((0x54u16).enc(ctx), x.enc(ctx), rest);
            },
            ToClientCommand::FadeSound(x) => {
                assert(v.enc(ctx) == be16(0x55) + x.enc(ctx));
                vstd::seq_lib::lemma_concat_associative((0x55u16).enc(ctx), x.enc(ctx), rest);
            },
            ToClientCommand::UpdatePlayerList(x) => {
                assert(v.enc(ctx) == be16(0x56) + x.enc(ctx));
                vstd::seq_lib::lemma_concat_associative((0x56u16).enc(ctx), x.enc(ctx), rest);
            },
            ToClientCommand::TCModchannelMsg(x) => {
                assert(v.enc(ctx) == be16(0x57) + x.enc(ctx));
                vstd::seq_lib::lemma_concat_associative((0x57u16).enc(ctx), x.enc(ctx), rest);
            },
            ToClientCommand::ModchannelSignal(x) => {
                assert(v.enc(ctx) == be16(0x58) + x.enc(ctx));
                vstd::seq_lib::lemma_concat_associative((0x58u16).enc(ctx), x.enc(ctx), rest);
            },
            ToClientCommand::SetSun(x) => {
                assert(v.enc(ctx) == be16(0x5a) + x.enc(ctx));
                vstd::seq_lib::lemma_concat_associative((0x5au16).enc(ctx), x.enc(ctx), rest);
            },
            ToClientCommand::SetMoon(x) => {
                assert(v.enc(ctx) == be16(0x5b) + x.enc(ctx));
                vstd::seq_lib::lemma_concat_associative((0x5bu16).enc(ctx), x.enc(ctx), rest);
            },
            ToClientCommand::SetStars(x) => {
                assert(v.enc(ctx) == be16(0x5c) + x.enc(ctx));
                vstd::seq_lib::lemma_concat_associative((0x5cu16).enc(ctx), x.enc(ctx), rest);
            },
            ToClientCommand::SrpBytesSB(x) => {
                assert(v.enc(ctx) == be16(0x60) + x.enc(ctx));
                vstd::seq_lib::lemma_concat_associative((0x60u16).enc(ctx), x.enc(ctx), rest);
            },
            ToClientCommand::FormspecPrepend(x) => {
                assert(v.enc(ctx) == be16(0x61) + x.enc(ctx));
                vstd::seq_lib::lemma_concat_associative((0x61u16).enc(ctx), x.enc(ctx), rest);
            },
            ToClientCommand::SetLighting(x) => {
                assert(v.enc(ctx) == be16(0x63) + x.enc(ctx));
                vstd::seq_lib::lemma_concat_associative((0x63u16).enc(ctx), x.enc(ctx), rest);
            },
        }
    }
}

impl Deserialize for ToClientCommand {
    open spec fn rt_wf(&self, ctx: ProtocolContext) -> bool {
        match self {
            ToClientCommand::Hello(x) => x.rt_wf(ctx),
            ToClientCommand::AuthAccept(x) => x.rt_wf(ctx),
            ToClientCommand::AcceptSudoMode(x) => x.rt_wf(ctx),
            ToClientCommand::DenySudoMode(x) => x.rt_wf(ctx),
            ToClientCommand::AccessDenied(x) => x.rt_wf(ctx),
            ToClientCommand::Addnode(x) => x.rt_wf(ctx),
            ToClientCommand::Removenode(x) => x.rt_wf(ctx),
            ToClientCommand::Inventory(x) => x.rt_wf(ctx),
            ToClientCommand::TimeOfDay(x) => x.rt_wf(ctx),
            ToClientCommand::CsmRestrictionFlags(x) => x.rt_wf(ctx),
            ToClientCommand::PlayerSpeed(x) => x.rt_wf(ctx),
            ToClientCommand::MediaPush(x) => x.rt_wf(ctx),
            ToClientCommand::TCChatMessage(x) => x.rt_wf(ctx),
            ToClientCommand::Hp(x) => x.rt_wf(ctx),
            ToClientCommand::MovePlayer(x) => x.rt_wf(ctx),
            ToClientCommand::AccessDeniedLegacy(x) => x.rt_wf(ctx),
            ToClientCommand::Fov(x) => x.rt_wf(ctx),
            ToClientCommand::Deathscreen(x) => x.rt_wf(ctx),
            ToClientCommand::Media(x) => x.rt_wf(ctx),
            ToClientCommand::AnnounceMedia(x) => x.rt_wf(ctx),
            ToClientCommand::PlaySound(x) => x.rt_wf(ctx),
            ToClientCommand::StopSound(x) => x.rt_wf(ctx),
            ToClientCommand::Privileges(x) => x.rt_wf(ctx),
            ToClientCommand::InventoryFormspec(x) => x.rt_wf(ctx),
            ToClientCommand::DetachedInventory(x) => x.rt_wf(ctx),
            ToClientCommand::ShowFormspec(x) => x.rt_wf(ctx),
            ToClientCommand::Movement(x) => x.rt_wf(ctx),
            ToClientCommand::Hudadd(x) => x.rt_wf(ctx),
            ToClientCommand::Hudrm(x) => x.rt_wf(ctx),
            ToClientCommand::Hudchange(x) => x.rt_wf(ctx),
            ToClientCommand::HudSetFlags(x) => x.rt_wf(ctx),
            ToClientCommand::HudSetParam(x) => x.rt_wf(ctx),
            ToClientCommand::Breath(x) => x.rt_wf(ctx),
            ToClientCommand::OverrideDayNightRatio(x) => x.rt_wf(ctx),
            ToClientCommand::LocalPlayerAnimations(x) => x.rt_wf(ctx),
            ToClientCommand::EyeOffset(x) => x.rt_wf(ctx),
            ToClientCommand::DeleteParticlespawner(x) => x.rt_wf(ctx),
            ToClientCommand::CloudParams(x) => x.rt_wf(ctx),
            ToClientCommand::FadeSound(x) => x.rt_wf(ctx),
            ToClientCommand::UpdatePlayerList(x) => x.rt_wf(ctx),
            ToClientCommand::TCModchannelMsg(x) => x.rt_wf(ctx),
            ToClientCommand::ModchannelSignal(x) => x.rt_wf(ctx),
            ToClientCommand::SetSun(x) => x.rt_wf(ctx),
            ToClientCommand::SetMoon(x) => x.rt_wf(ctx),
            ToClientCommand::SetStars(x) => x.rt_wf(ctx),
            ToClientCommand::SrpBytesSB(x) => x.rt_wf(ctx),
            ToClientCommand::FormspecPrepend(x) => x.rt_wf(ctx),
            ToClientCommand::SetLighting(x) => x.rt_wf(ctx),
        }
    }

    open spec fn prefix_safe() -> bool {
        false
    }

    #[verifier::rlimit(100)]
    fn deserialize(d: &mut Deserializer) -> (r: DeserializeResult<Self>) {
        let ghost ctx = d.ctx();
        let ghost input = d.rem();
        proof {
            toclientcommand_reshape(ctx, input);
        }
        let opcode = match read_be16(d) {
            Ok(op) => op,
            Err(e) => {
                return Err(e);
            },
        };
        match opcode {
            0x2 => match <HelloSpec as Deserialize>::deserialize(d) {
                Ok(x) => Ok(ToClientCommand::Hello(x)),
                Err(e) => Err(e),
            },
            0x3 => match <AuthAcceptSpec as Deserialize>::deserialize(d) {
                Ok(x) => Ok(ToClientCommand::AuthAccept(x)),
                Err(e) => Err(e),
            },
            0x4 => match <AcceptSudoModeSpec as Deserialize>::deserialize(d) {
                Ok(x) => Ok(ToClientCommand::AcceptSudoMode(x)),
                Err(e) => Err(e),
            },
            0x5 => match <DenySudoModeSpec as Deserialize>::deserialize(d) {
                Ok(x) => Ok(ToClientCommand::DenySudoMode(x)),
                Err(e) => Err(e),
            },
            0xa => match <AccessDeniedSpec as Deserialize>::deserialize(d) {
                Ok(x) => Ok(ToClientCommand::AccessDenied(x)),
                Err(e) => Err(e),
            },
            0x21 => match <AddnodeSpec as Deserialize>::deserialize(d) {
                Ok(x) => Ok(ToClientCommand::Addnode(x)),
                Err(e) => Err(e),
            },
            0x22 => match <RemovenodeSpec as Deserialize>::deserialize(d) {
                Ok(x) => Ok(ToClientCommand::Removenode(x)),
                Err(e) => Err(e),
            },
            0x27 => match <InventorySpec as Deserialize>::deserialize(d) {
                Ok(x) => Ok(ToClientCommand::Inventory(x)),
                Err(e) => Err(e),
            },
            0x29 => match <TimeOfDaySpec as Deserialize>::deserialize(d) {
                Ok(x) => Ok(ToClientCommand::TimeOfDay(x)),
                Err(e) => Err(e),
            },
            0x2a => match <CsmRestrictionFlagsSpec as Deserialize>::deserialize(d) {
                Ok(x) => Ok(ToClientCommand::CsmRestrictionFlags(x)),
                Err(e) => Err(e),
            },
            0x2b => match <PlayerSpeedSpec as Deserialize>::deserialize(d) {
                Ok(x) => Ok(ToClientCommand::PlayerSpeed(x)),
                Err(e) => Err(e),
            },
            0x2c => match <MediaPushSpec as Deserialize>::deserialize(d) {
                Ok(x) => Ok(ToClientCommand::MediaPush(x)),
                Err(e) => Err(e),
            },
            0x2f => match <TCChatMessageSpec as Deserialize>::deserialize(d) {
                Ok(x) => Ok(ToClientCommand::TCChatMessage(x)),
                Err(e) => Err(e),
            },
            0x33 => match <HpSpec as Deserialize>::deserialize(d) {
                Ok(x) => Ok(ToClientCommand::Hp(x)),
                Err(e) => Err(e),
            },
            0x34 => match <MovePlayerSpec as Deserialize>::deserialize(d) {
                Ok(x) => Ok(ToClientCommand::MovePlayer(x)),
                Err(e) => Err(e),
            },
            0x35 => match <AccessDeniedLegacySpec as Deserialize>::deserialize(d) {
                Ok(x) => Ok(ToClientCommand::AccessDeniedLegacy(x)),
                Err(e) => Err(e),
            },
            0x36 => match <FovSpec as Deserialize>::deserialize(d) {
                Ok(x) => Ok(ToClientCommand::Fov(x)),
                Err(e) => Err(e),
            },
            0x37 => match <DeathscreenSpec as Deserialize>::deserialize(d) {
                Ok(x) => Ok(ToClientCommand::Deathscreen(x)),
                Err(e) => Err(e),
            },
            0x38 => match <MediaSpec as Deserialize>::deserialize(d) {
                Ok(x) => Ok(ToClientCommand::Media(x)),
                Err(e) => Err(e),
            },
            0x3c => match <AnnounceMediaSpec as Deserialize>::deserialize(d) {
                Ok(x) => Ok(ToClientCommand::AnnounceMedia(x)),
                Err(e) => Err(e),
            },
            0x3f => match <PlaySoundSpec as Deserialize>::deserialize(d) {
                Ok(x) => Ok(ToClientCommand::PlaySound(x)),
                Err(e) => Err(e),
            },
            0x40 => match <StopSoundSpec as Deserialize>::deserialize(d) {
                Ok(x) => Ok(ToClientCommand::StopSound(x)),
                Err(e) => Err(e),
            },
            0x41 => match <PrivilegesSpec as Deserialize>::deserialize(d) {
                Ok(x) => Ok(ToClientCommand::Privileges(x)),
                Err(e) => Err(e),
            },
            0x42 => match <InventoryFormspecSpec as Deserialize>::deserialize(d) {
                Ok(x) => Ok(ToClientCommand::InventoryFormspec(x)),
                Err(e) => Err(e),
            },
            0x43 => match <DetachedInventorySpec as Deserialize>::deserialize(d) {
                Ok(x) => Ok(ToClientCommand::DetachedInventory(x)),
                Err(e) => Err(e),
            },
            0x44 => match <ShowFormspecSpec as Deserialize>::deserialize(d) {
                Ok(x) => Ok(ToClientCommand::ShowFormspec(x)),
                Err(e) => Err(e),
            },
            0x45 => match <MovementSpec as Deserialize>::deserialize(d) {
                Ok(x) => Ok(ToClientCommand::Movement(x)),
                Err(e) => Err(e),
            },
            0x49 => match <HudaddSpec as Deserialize>::deserialize(d) {
                Ok(x) => Ok(ToClientCommand::Hudadd(x)),
                Err(e) => Err(e),
            },
            0x4a => match <HudrmSpec as Deserialize>::deserialize(d) {
                Ok(x) => Ok(ToClientCommand::Hudrm(x)),
                Err(e) => Err(e),
            },
            0x4b => match <HudchangeSpec as Deserialize>::deserialize(d) {
                Ok(x) => Ok(ToClientCommand::Hudchange(x)),
                Err(e) => Err(e),
            },
            0x4c => match <HudSetFlagsSpec as Deserialize>::deserialize(d) {
                Ok(x) => Ok(ToClientCommand::HudSetFlags(x)),
                Err(e) => Err(e),
            },
            0x4d => match <HudSetParamSpec as Deserialize>::deserialize(d) {
                Ok(x) => Ok(ToClientCommand::HudSetParam(x)),
                Err(e) => Err(e),
            },
            0x4e => match <BreathSpec as Deserialize>::deserialize(d) {
                Ok(x) => Ok(ToClientCommand::Breath(x)),
                Err(e) => Err(e),
            },
            0x50 => match <OverrideDayNightRatioSpec as Deserialize>::deserialize(d) {
                Ok(x) => Ok(ToClientCommand::OverrideDayNightRatio(x)),
                Err(e) => Err(e),
            },
            0x51 => match <LocalPlayerAnimationsSpec as Deserialize>::deserialize(d) {
                Ok(x) => Ok(ToClientCommand::LocalPlayerAnimations(x)),
                Err(e) => Err(e),
            },
            0x52 => match <EyeOffsetSpec as Deserialize>::deserialize(d) {
                Ok(x) => Ok(ToClientCommand::EyeOffset(x)),
                Err(e) => Err(e),
            },
            0x53 => match <DeleteParticlespawnerSpec as Deserialize>::deserialize(d) {
                Ok(x) => Ok(ToClientCommand::DeleteParticlespawner(x)),
                Err(e) => Err(e),
            },
            0x54 => match <CloudParamsSpec as Deserialize>::deserialize(d) {
                Ok(x) => Ok(ToClientCommand::CloudParams(x)),
                Err(e) => Err(e),
            },
            0x55 => match <FadeSoundSpec as Deserialize>::deserialize(d) {
                Ok(x) => Ok(ToClientCommand::FadeSound(x)),
                Err(e) => Err(e),
            },
            0x56 => match <UpdatePlayerListSpec as Deserialize>::deserialize(d) {
                Ok(x) => Ok(ToClientCommand::UpdatePlayerList(x)),
                Err(e) => Err(e),
            },
            0x57 => match <TCModchannelMsgSpec as Deserialize>::deserialize(d) {
                Ok(x) => Ok(ToClientCommand::TCModchannelMsg(x)),
                Err(e) => Err(e),
            },
            0x58 => match <ModchannelSignalSpec as Deserialize>::deserialize(d) {
                Ok(x) => Ok(ToClientCommand::ModchannelSignal(x)),
                Err(e) => Err(e),
            },
            0x5a => match <SetSunSpec as Deserialize>::deserialize(d) {
                Ok(x) => Ok(ToClientCommand::SetSun(x)),
                Err(e) => Err(e),
            },
            0x5b => match <SetMoonSpec as Deserialize>::deserialize(d) {
                Ok(x) => Ok(ToClientCommand::SetMoon(x)),
                Err(e) => Err(e),
            },
            0x5c => match <SetStarsSpec as Deserialize>::deserialize(d) {
                Ok(x) => Ok(ToClientCommand::SetStars(x)),
                Err(e) => Err(e),
            },
            0x60 => match <SrpBytesSBSpec as Deserialize>::deserialize(d) {
                Ok(x) => Ok(ToClientCommand::SrpBytesSB(x)),
                Err(e) => Err(e),
            },
            0x61 => match <FormspecPrependSpec as Deserialize>::deserialize(d) {
                Ok(x) => Ok(ToClientCommand::FormspecPrepend(x)),
                Err(e) => Err(e),
            },
            0x63 => match <SetLightingSpec as Deserialize>::deserialize(d) {
                Ok(x) => Ok(ToClientCommand::SetLighting(x)),
                Err(e) => Err(e),
            },
            _ => Err(DeserializeError::BadPacketId(CommandDirection::ToClient, opcode)),
        }
    }
}

/// The toserver-bound command catalog for protocol version 41: each
/// entry has its 16-bit opcode, a default channel and a default reliability.
#[derive(Debug, Clone, PartialEq, Eq)]
pub enum ToServerCommand {
    Null(NullSpec),
    Init(InitSpec),
    Init2(Init2Spec),
    ModchannelJoin(ModchannelJoinSpec),
    ModchannelLeave(ModchannelLeaveSpec),
    TSModchannelMsg(TSModchannelMsgSpec),
    Playerpos(PlayerposSpec),
    Gotblocks(GotblocksSpec),
    Deletedblocks(DeletedblocksSpec),
    TSChatMessage(TSChatMessageSpec),
    Damage(DamageSpec),
    Playeritem(PlayeritemSpec),
    Respawn(RespawnSpec),
    Interact(InteractSpec),
    RemovedSounds(RemovedSoundsSpec),
    NodemetaFields(NodemetaFieldsSpec),
    InventoryFields(InventoryFieldsSpec),
    RequestMedia(RequestMediaSpec),
    HaveMedia(HaveMediaSpec),
    ClientReady(ClientReadySpec),
    FirstSrp(FirstSrpSpec),
    SrpBytesA(SrpBytesASpec),
    SrpBytesM(SrpBytesMSpec),
    UpdateClientInfo(UpdateClientInfoSpec),
}

impl CommandProperties for ToServerCommand {
    open spec fn spec_direction(&self) -> CommandDirection {
        CommandDirection::ToServer
    }

    open spec fn spec_channel(&self) -> u8 {
        match self {
            ToServerCommand::Null(_) => 0,
            ToServerCommand::Init(_) => 1,
            ToServerCommand::Init2(_) => 1,
            ToServerCommand::ModchannelJoin(_) => 0,
            ToServerCommand::ModchannelLeave(_) => 0,
            ToServerCommand::TSModchannelMsg(_) => 0,
            ToServerCommand::Playerpos(_) => 0,
            ToServerCommand::Gotblocks(_) => 2,
            ToServerCommand::Deletedblocks(_) => 2,
            ToServerCommand::TSChatMessage(_) => 0,
            ToServerCommand::Damage(_) => 0,
            ToServerCommand::Playeritem(_) => 0,
            ToServerCommand::Respawn(_) => 0,
            ToServerCommand::Interact(_) => 0,
            ToServerCommand::RemovedSounds(_) => 2,
            ToServerCommand::NodemetaFields(_) => 0,
            ToServerCommand::InventoryFields(_) => 0,
            ToServerCommand::RequestMedia(_) => 1,
            ToServerCommand::HaveMedia(_) => 2,
            ToServerCommand::ClientReady(_) => 1,
            ToServerCommand::FirstSrp(_) => 1,
            ToServerCommand::SrpBytesA(_) => 1,
            ToServerCommand::SrpBytesM(_) => 1,
            ToServerCommand::UpdateClientInfo(_) => 1,
        }
    }

    open spec fn spec_reliable(&self) -> bool {
        match self {
            ToServerCommand::Null(_) => false,
            ToServerCommand::Init(_) => false,
            ToServerCommand::Init2(_) => true,
            ToServerCommand::ModchannelJoin(_) => true,
            ToServerCommand::ModchannelLeave(_) => true,
            ToServerCommand::TSModchannelMsg(_) => true,
            ToServerCommand::Playerpos(_) => false,
            ToServerCommand::Gotblocks(_) => true,
            ToServerCommand::Deletedblocks(_) => true,
            ToServerCommand::TSChatMessage(_) => true,
            ToServerCommand::Damage(_) => true,
            ToServerCommand::Playeritem(_) => true,
            ToServerCommand::Respawn(_) => true,
            ToServerCommand::Interact(_) => true,
            ToServerCommand::RemovedSounds(_) => true,
            ToServerCommand::NodemetaFields(_) => true,
            ToServerCommand::InventoryFields(_) => true,
            ToServerCommand::RequestMedia(_) => true,
            ToServerCommand::HaveMedia(_) => true,
            ToServerCommand::ClientReady(_) => true,
            ToServerCommand::FirstSrp(_) => true,
            ToServerCommand::SrpBytesA(_) => true,
            ToServerCommand::SrpBytesM(_) => true,
            ToServerCommand::UpdateClientInfo(_) => true,
        }
    }

    fn direction(&self) -> (r: CommandDirection) {
        CommandDirection::ToServer
    }

    fn default_channel(&self) -> (r: u8) {
        match self {
            ToServerCommand::Null(_) => 0,
            ToServerCommand::Init(_) => 1,
            ToServerCommand::Init2(_) => 1,
            ToServerCommand::ModchannelJoin(_) => 0,
            ToServerCommand::ModchannelLeave(_) => 0,
            ToServerCommand::TSModchannelMsg(_) => 0,
            ToServerCommand::Playerpos(_) => 0,
            ToServerCommand::Gotblocks(_) => 2,
            ToServerCommand::Deletedblocks(_) => 2,
            ToServerCommand::TSChatMessage(_) => 0,
            ToServerCommand::Damage(_) => 0,
            ToServerCommand::Playeritem(_) => 0,
            ToServerCommand::Respawn(_) => 0,
            ToServerCommand::Interact(_) => 0,
            ToServerCommand::RemovedSounds(_) => 2,
            ToServerCommand::NodemetaFields(_) => 0,
            ToServerCommand::InventoryFields(_) => 0,
            ToServerCommand::RequestMedia(_) => 1,
            ToServerCommand::HaveMedia(_) => 2,
            ToServerCommand::ClientReady(_) => 1,
            ToServerCommand::FirstSrp(_) => 1,
            ToServerCommand::SrpBytesA(_) => 1,
            ToServerCommand::SrpBytesM(_) => 1,
            ToServerCommand::UpdateClientInfo(_) => 1,
        }
    }

    fn default_reliability(&self) -> (r: bool) {
        match self {
            ToServerCommand::Null(_) => false,
            ToServerCommand::Init(_) => false,
            ToServerCommand::Init2(_) => true,
            ToServerCommand::ModchannelJoin(_) => true,
            ToServerCommand::ModchannelLeave(_) => true,
            ToServerCommand::TSModchannelMsg(_) => true,
            ToServerCommand::Playerpos(_) => false,
            ToServerCommand::Gotblocks(_) => true,
            ToServerCommand::Deletedblocks(_) => true,
            ToServerCommand::TSChatMessage(_) => true,
            ToServerCommand::Damage(_) => true,
            ToServerCommand::Playeritem(_) => true,
            ToServerCommand::Respawn(_) => true,
            ToServerCommand::Interact(_) => true,
            ToServerCommand::RemovedSounds(_) => true,
            ToServerCommand::NodemetaFields(_) => true,
            ToServerCommand::InventoryFields(_) => true,
            ToServerCommand::RequestMedia(_) => true,
            ToServerCommand::HaveMedia(_) => true,
            ToServerCommand::ClientReady(_) => true,
            ToServerCommand::FirstSrp(_) => true,
            ToServerCommand::SrpBytesA(_) => true,
            ToServerCommand::SrpBytesM(_) => true,
            ToServerCommand::UpdateClientInfo(_) => true,
        }
    }

    fn command_name(&self) -> (r: &'static str) {
        match self {
            ToServerCommand::Null(_) => "Null",
            ToServerCommand::Init(_) => "Init",
            ToServerCommand::Init2(_) => "Init2",
            ToServerCommand::ModchannelJoin(_) => "ModchannelJoin",
            ToServerCommand::ModchannelLeave(_) => "ModchannelLeave",
            ToServerCommand::TSModchannelMsg(_) => "TSModchannelMsg",
            ToServerCommand::Playerpos(_) => "Playerpos",
            ToServerCommand::Gotblocks(_) => "Gotblocks",
            ToServerCommand::Deletedblocks(_) => "Deletedblocks",
            ToServerCommand::TSChatMessage(_) => "TSChatMessage",
            ToServerCommand::Damage(_) => "Damage",
            ToServerCommand::Playeritem(_) => "Playeritem",
            ToServerCommand::Respawn(_) => "Respawn",
            ToServerCommand::Interact(_) => "Interact",
            ToServerCommand::RemovedSounds(_) => "RemovedSounds",
            ToServerCommand::NodemetaFields(_) => "NodemetaFields",
            ToServerCommand::InventoryFields(_) => "InventoryFields",
            ToServerCommand::RequestMedia(_) => "RequestMedia",
            ToServerCommand::HaveMedia(_) => "HaveMedia",
            ToServerCommand::ClientReady(_) => "ClientReady",
            ToServerCommand::FirstSrp(_) => "FirstSrp",
            ToServerCommand::SrpBytesA(_) => "SrpBytesA",
            ToServerCommand::SrpBytesM(_) => "SrpBytesM",
            ToServerCommand::UpdateClientInfo(_) => "UpdateClientInfo",
        }
    }
}

impl ToServerCommand {
    /// The 16-bit opcode that names this command on the wire.
    pub open spec fn spec_opcode(&self) -> u16 {
        match self {
            ToServerCommand::Null(_) => 0x0,
            ToServerCommand::Init(_) => 0x2,
            ToServerCommand::Init2(_) => 0x11,
            ToServerCommand::ModchannelJoin(_) => 0x17,
            ToServerCommand::ModchannelLeave(_) => 0x18,
            ToServerCommand::TSModchannelMsg(_) => 0x19,
            ToServerCommand::Playerpos(_) => 0x23,
            ToServerCommand::Gotblocks(_) => 0x24,
            ToServerCommand::Deletedblocks(_) => 0x25,
            ToServerCommand::TSChatMessage(_) => 0x32,
            ToServerCommand::Damage(_) => 0x35,
            ToServerCommand::Playeritem(_) => 0x37,
            ToServerCommand::Respawn(_) => 0x38,
            ToServerCommand::Interact(_) => 0x39,
            ToServerCommand::RemovedSounds(_) => 0x3a,
            ToServerCommand::NodemetaFields(_) => 0x3b,
            ToServerCommand::InventoryFields(_) => 0x3c,
            ToServerCommand::RequestMedia(_) => 0x40,
            ToServerCommand::HaveMedia(_) => 0x41,
            ToServerCommand::ClientReady(_) => 0x43,
            ToServerCommand::FirstSrp(_) => 0x50,
            ToServerCommand::SrpBytesA(_) => 0x51,
            ToServerCommand::SrpBytesM(_) => 0x52,
            ToServerCommand::UpdateClientInfo(_) => 0x53,
        }
    }

    /// The encoding of the payload alone, after the opcode.
    pub open spec fn payload_enc(&self, ctx: ProtocolContext) -> Seq<u8> {
        match self {
            ToServerCommand::Null(x) => x.enc(ctx),
            ToServerCommand::Init(x) => x.enc(ctx),
            ToServerCommand::Init2(x) => x.enc(ctx),
            ToServerCommand::ModchannelJoin(x) => x.enc(ctx),
            ToServerCommand::ModchannelLeave(x) => x.enc(ctx),
            ToServerCommand::TSModchannelMsg(x) => x.enc(ctx),
            ToServerCommand::Playerpos(x) => x.enc(ctx),
            ToServerCommand::Gotblocks(x) => x.enc(ctx),
            ToServerCommand::Deletedblocks(x) => x.enc(ctx),
            ToServerCommand::TSChatMessage(x) => x.enc(ctx),
            ToServerCommand::Damage(x) => x.enc(ctx),
            ToServerCommand::Playeritem(x) => x.enc(ctx),
            ToServerCommand::Respawn(x) => x.enc(ctx),
            ToServerCommand::Interact(x) => x.enc(ctx),
            ToServerCommand::RemovedSounds(x) => x.enc(ctx),
            ToServerCommand::NodemetaFields(x) => x.enc(ctx),
            ToServerCommand::InventoryFields(x) => x.enc(ctx),
            ToServerCommand::RequestMedia(x) => x.enc(ctx),
            ToServerCommand::HaveMedia(x) => x.enc(ctx),
            ToServerCommand::ClientReady(x) => x.enc(ctx),
            ToServerCommand::FirstSrp(x) => x.enc(ctx),
            ToServerCommand::SrpBytesA(x) => x.enc(ctx),
            ToServerCommand::SrpBytesM(x) => x.enc(ctx),
            ToServerCommand::UpdateClientInfo(x) => x.enc(ctx),
        }
    }

    fn opcode(&self) -> (r: u16)
        ensures
            r == self.spec_opcode(),
    {
        match self {
            ToServerCommand::Null(_) => 0x0,
            ToServerCommand::Init(_) => 0x2,
            ToServerCommand::Init2(_) => 0x11,
            ToServerCommand::ModchannelJoin(_) => 0x17,
            ToServerCommand::ModchannelLeave(_) => 0x18,
            ToServerCommand::TSModchannelMsg(_) => 0x19,
            ToServerCommand::Playerpos(_) => 0x23,
            ToServerCommand::Gotblocks(_) => 0x24,
            ToServerCommand::Deletedblocks(_) => 0x25,
            ToServerCommand::TSChatMessage(_) => 0x32,
            ToServerCommand::Damage(_) => 0x35,
            ToServerCommand::Playeritem(_) => 0x37,
            ToServerCommand::Respawn(_) => 0x38,
            ToServerCommand::Interact(_) => 0x39,
            ToServerCommand::RemovedSounds(_) => 0x3a,
            ToServerCommand::NodemetaFields(_) => 0x3b,
            ToServerCommand::InventoryFields(_) => 0x3c,
            ToServerCommand::RequestMedia(_) => 0x40,
            ToServerCommand::HaveMedia(_) => 0x41,
            ToServerCommand::ClientReady(_) => 0x43,
            ToServerCommand::FirstSrp(_) => 0x50,
            ToServerCommand::SrpBytesA(_) => 0x51,
            ToServerCommand::SrpBytesM(_) => 0x52,
            ToServerCommand::UpdateClientInfo(_) => 0x53,
        }
    }

    #[verifier::rlimit(100)]
    fn serialize_payload(&self, ser: &mut VecSerializer) -> (r: SerializeResult)
        ensures
            final(ser).ctx() == old(ser).ctx(),
            r is Ok <==> self.ser_wf(old(ser).ctx()),
            r is Ok ==> final(ser).out() == old(ser).out() + self.payload_enc(old(ser).ctx()),
    {
        match self {
            ToServerCommand::Null(x) => x.serialize(ser),
            ToServerCommand::Init(x) => x.serialize(ser),
            ToServerCommand::Init2(x) => x.serialize(ser),
            ToServerCommand::ModchannelJoin(x) => x.serialize(ser),
            ToServerCommand::ModchannelLeave(x) => x.serialize(ser),
            ToServerCommand::TSModchannelMsg(x) => x.serialize(ser),
            ToServerCommand::Playerpos(x) => x.serialize(ser),
            ToServerCommand::Gotblocks(x) => x.serialize(ser),
            ToServerCommand::Deletedblocks(x) => x.serialize(ser),
            ToServerCommand::TSChatMessage(x) => x.serialize(ser),
            ToServerCommand::Damage(x) => x.serialize(ser),
            ToServerCommand::Playeritem(x) => x.serialize(ser),
            ToServerCommand::Respawn(x) => x.serialize(ser),
            ToServerCommand::Interact(x) => x.serialize(ser),
            ToServerCommand::RemovedSounds(x) => x.serialize(ser),
            ToServerCommand::NodemetaFields(x) => x.serialize(ser),
            ToServerCommand::InventoryFields(x) => x.serialize(ser),
            ToServerCommand::RequestMedia(x) => x.serialize(ser),
            ToServerCommand::HaveMedia(x) => x.serialize(ser),
            ToServerCommand::ClientReady(x) => x.serialize(ser),
            ToServerCommand::FirstSrp(x) => x.serialize(ser),
            ToServerCommand::SrpBytesA(x) => x.serialize(ser),
            ToServerCommand::SrpBytesM(x) => x.serialize(ser),
            ToServerCommand::UpdateClientInfo(x) => x.serialize(ser),
        }
    }
}

impl Serialize for ToServerCommand {
    open spec fn enc(&self, ctx: ProtocolContext) -> Seq<u8> {
        be16(self.spec_opcode()) + self.payload_enc(ctx)
    }

    open spec fn ser_wf(&self, ctx: ProtocolContext) -> bool {
        match self {
            ToServerCommand::Null(x) => x.ser_wf(ctx),
            ToServerCommand::Init(x) => x.ser_wf(ctx),
            ToServerCommand::Init2(x) => x.ser_wf(ctx),
            ToServerCommand::ModchannelJoin(x) => x.ser_wf(ctx),
            ToServerCommand::ModchannelLeave(x) => x.ser_wf(ctx),
            ToServerCommand::TSModchannelMsg(x) => x.ser_wf(ctx),
            ToServerCommand::Playerpos(x) => x.ser_wf(ctx),
            ToServerCommand::Gotblocks(x) => x.ser_wf(ctx),
            ToServerCommand::Deletedblocks(x) => x.ser_wf(ctx),
            ToServerCommand::TSChatMessage(x) => x.ser_wf(ctx),
            ToServerCommand::Damage(x) => x.ser_wf(ctx),
            ToServerCommand::Playeritem(x) => x.ser_wf(ctx),
            ToServerCommand::Respawn(x) => x.ser_wf(ctx),
            ToServerCommand::Interact(x) => x.ser_wf(ctx),
            ToServerCommand::RemovedSounds(x) => x.ser_wf(ctx),
            ToServerCommand::NodemetaFields(x) => x.ser_wf(ctx),
            ToServerCommand::InventoryFields(x) => x.ser_wf(ctx),
            ToServerCommand::RequestMedia(x) => x.ser_wf(ctx),
            ToServerCommand::HaveMedia(x) => x.ser_wf(ctx),
            ToServerCommand::ClientReady(x) => x.ser_wf(ctx),
            ToServerCommand::FirstSrp(x) => x.ser_wf(ctx),
            ToServerCommand::SrpBytesA(x) => x.ser_wf(ctx),
            ToServerCommand::SrpBytesM(x) => x.ser_wf(ctx),
            ToServerCommand::UpdateClientInfo(x) => x.ser_wf(ctx),
        }
    }

    open spec fn eqv(&self, other: &Self) -> bool {
        match (self, other) {
            (ToServerCommand::Null(x), ToServerCommand::Null(y)) => x.eqv(y),
            (ToServerCommand::Init(x), ToServerCommand::Init(y)) => x.eqv(y),
            (ToServerCommand::Init2(x), ToServerCommand::Init2(y)) => x.eqv(y),
            (ToServerCommand::ModchannelJoin(x), ToServerCommand::ModchannelJoin(y)) => x.eqv(y),
            (ToServerCommand::ModchannelLeave(x), ToServerCommand::ModchannelLeave(y)) => x.eqv(y),
            (ToServerCommand::TSModchannelMsg(x), ToServerCommand::TSModchannelMsg(y)) => x.eqv(y),
            (ToServerCommand::Playerpos(x), ToServerCommand::Playerpos(y)) => x.eqv(y),
            (ToServerCommand::Gotblocks(x), ToServerCommand::Gotblocks(y)) => x.eqv(y),
            (ToServerCommand::Deletedblocks(x), ToServerCommand::Deletedblocks(y)) => x.eqv(y),
            (ToServerCommand::TSChatMessage(x), ToServerCommand::TSChatMessage(y)) => x.eqv(y),
            (ToServerCommand::Damage(x), ToServerCommand::Damage(y)) => x.eqv(y),
            (ToServerCommand::Playeritem(x), ToServerCommand::Playeritem(y)) => x.eqv(y),
            (ToServerCommand::Respawn(x), ToServerCommand::Respawn(y)) => x.eqv(y),
            (ToServerCommand::Interact(x), ToServerCommand::Interact(y)) => x.eqv(y),
            (ToServerCommand::RemovedSounds(x), ToServerCommand::RemovedSounds(y)) => x.eqv(y),
            (ToServerCommand::NodemetaFields(x), ToServerCommand::NodemetaFields(y)) => x.eqv(y),
            (ToServerCommand::InventoryFields(x), ToServerCommand::InventoryFields(y)) => x.eqv(y),
            (ToServerCommand::RequestMedia(x), ToServerCommand::RequestMedia(y)) => x.eqv(y),
            (ToServerCommand::HaveMedia(x), ToServerCommand::HaveMedia(y)) => x.eqv(y),
            (ToServerCommand::ClientReady(x), ToServerCommand::ClientReady(y)) => x.eqv(y),
            (ToServerCommand::FirstSrp(x), ToServerCommand::FirstSrp(y)) => x.eqv(y),
            (ToServerCommand::SrpBytesA(x), ToServerCommand::SrpBytesA(y)) => x.eqv(y),
            (ToServerCommand::SrpBytesM(x), ToServerCommand::SrpBytesM(y)) => x.eqv(y),
            (ToServerCommand::UpdateClientInfo(x), ToServerCommand::UpdateClientInfo(y)) => x.eqv(y),
            _ => false,
        }
    }

    fn serialize(&self, ser: &mut VecSerializer) -> (r: SerializeResult) {
        let op = self.opcode();
        write_be16(ser, op);
        let result = self.serialize_payload(ser);
        proof {
            vstd::seq_lib::lemma_concat_associative(old(ser).out(), be16(self.spec_opcode()), self.payload_enc(old(ser).ctx()));
        }
        result
    }
}

proof fn toservercommand_reshape(ctx: ProtocolContext, input: Seq<u8>)
    ensures
        forall|v: ToServerCommand, rest: Seq<u8>|
            (#[trigger] v.enc(ctx).add(rest)) == input && v.rt_wf(ctx) && rest.len() == 0
                ==> match v {
                ToServerCommand::Null(x) => (0x0u16).enc(ctx).add(x.enc(ctx).add(rest)) == input,
                ToServerCommand::Init(x) => (0x2u16).enc(ctx).add(x.enc(ctx).add(rest)) == input,
                ToServerCommand::Init2(x) => (0x11u16).enc(ctx).add(x.enc(ctx).add(rest)) == input,
                ToServerCommand::ModchannelJoin(x) => (0x17u16).enc(ctx).add(x.enc(ctx).add(rest)) == input,
                ToServerCommand::ModchannelLeave(x) => (0x18u16).enc(ctx).add(x.enc(ctx).add(rest)) == input,
                ToServerCommand::TSModchannelMsg(x) => (0x19u16).enc(ctx).add(x.enc(ctx).add(rest)) == input,
                ToServerCommand::Playerpos(x) => (0x23u16).enc(ctx).add(x.enc(ctx).add(rest)) == input,
                ToServerCommand::Gotblocks(x) => (0x24u16).enc(ctx).add(x.enc(ctx).add(rest)) == input,
                ToServerCommand::Deletedblocks(x) => (0x25u16).enc(ctx).add(x.enc(ctx).add(rest)) == input,
                ToServerCommand::TSChatMessage(x) => (0x32u16).enc(ctx).add(x.enc(ctx).add(rest)) == input,
                ToServerCommand::Damage(x) => (0x35u16).enc(ctx).add(x.enc(ctx).add(rest)) == input,
                ToServerCommand::Playeritem(x) => (0x37u16).enc(ctx).add(x.enc(ctx).add(rest)) == input,
                ToServerCommand::Respawn(x) => (0x38u16).enc(ctx).add(x.enc(ctx).add(rest)) == input,
                ToServerCommand::Interact(x) => (0x39u16).enc(ctx).add(x.enc(ctx).add(rest)) == input,
                ToServerCommand::RemovedSounds(x) => (0x3au16).enc(ctx).add(x.enc(ctx).add(rest)) == input,
                ToServerCommand::NodemetaFields(x) => (0x3bu16).enc(ctx).add(x.enc(ctx).add(rest)) == input,
                ToServerCommand::InventoryFields(x) => (0x3cu16).enc(ctx).add(x.enc(ctx).add(rest)) == input,
                ToServerCommand::RequestMedia(x) => (0x40u16).enc(ctx).add(x.enc(ctx).add(rest)) == input,
                ToServerCommand::HaveMedia(x) => (0x41u16).enc(ctx).add(x.enc(ctx).add(rest)) == input,
                ToServerCommand::ClientReady(x) => (0x43u16).enc(ctx).add(x.enc(ctx).add(rest)) == input,
                ToServerCommand::FirstSrp(x) => (0x50u16).enc(ctx).add(x.enc(ctx).add(rest)) == input,
                ToServerCommand::SrpBytesA(x) => (0x51u16).enc(ctx).add(x.enc(ctx).add(rest)) == input,
                ToServerCommand::SrpBytesM(x) => (0x52u16).enc(ctx).add(x.enc(ctx).add(rest)) == input,
                ToServerCommand::UpdateClientInfo(x) => (0x53u16).enc(ctx).add(x.enc(ctx).add(rest)) == input,
            },
{
    assert forall|v: ToServerCommand, rest: Seq<u8>|
        (#[trigger] v.enc(ctx).add(rest)) == input && v.rt_wf(ctx) && rest.len() == 0
        implies match v {
        ToServerCommand::Null(x) => (0x0u16).enc(ctx).add(x.enc(ctx).add(rest)) == input,
        ToServerCommand::Init(x) => (0x2u16).enc(ctx).add(x.enc(ctx).add(rest)) == input,
        ToServerCommand::Init2(x) => (0x11u16).enc(ctx).add(x.enc(ctx).add(rest)) == input,
        ToServerCommand::ModchannelJoin(x) => (0x17u16).enc(ctx).add(x.enc(ctx).add(rest)) == input,
        ToServerCommand::ModchannelLeave(x) => (0x18u16).enc(ctx).add(x.enc(ctx).add(rest)) == input,
        ToServerCommand::TSModchannelMsg(x) => (0x19u16).enc(ctx).add(x.enc(ctx).add(rest)) == input,
        ToServerCommand::Playerpos(x) => (0x23u16).enc(ctx).add(x.enc(ctx).add(rest)) == input,
        ToServerCommand::Gotblocks(x) => (0x24u16).enc(ctx).add(x.enc(ctx).add(rest)) == input,
        ToServerCommand::Deletedblocks(x) => (0x25u16).enc(ctx).add(x.enc(ctx).add(rest)) == input,
        ToServerCommand::TSChatMessage(x) => (0x32u16).enc(ctx).add(x.enc(ctx).add(rest)) == input,
        ToServerCommand::Damage(x) => (0x35u16).enc(ctx).add(x.enc(ctx).add(rest)) == input,
        ToServerCommand::Playeritem(x) => (0x37u16).enc(ctx).add(x.enc(ctx).add(rest)) == input,
        ToServerCommand::Respawn(x) => (0x38u16).enc(ctx).add(x.enc(ctx).add(rest)) == input,
        ToServerCommand::Interact(x) => (0x39u16).enc(ctx).add(x.enc(ctx).add(rest)) == input,
        ToServerCommand::RemovedSounds(x) => (0x3au16).enc(ctx).add(x.enc(ctx).add(rest)) == input,
        ToServerCommand::NodemetaFields(x) => (0x3bu16).enc(ctx).add(x.enc(ctx).add(rest)) == input,
        ToServerCommand::InventoryFields(x) => (0x3cu16).enc(ctx).add(x.enc(ctx).add(rest)) == input,
        ToServerCommand::RequestMedia(x) => (0x40u16).enc(ctx).add(x.enc(ctx).add(rest)) == input,
        ToServerCommand::HaveMedia(x) => (0x41u16).enc(ctx).add(x.enc(ctx).add(rest)) == input,
        ToServerCommand::ClientReady(x) => (0x43u16).enc(ctx).add(x.enc(ctx).add(rest)) == input,
        ToServerCommand::FirstSrp(x) => (0x50u16).enc(ctx).add(x.enc(ctx).add(rest)) == input,
        ToServerCommand::SrpBytesA(x) => (0x51u16).enc(ctx).add(x.enc(ctx).add(rest)) == input,
        ToServerCommand::SrpBytesM(x) => (0x52u16).enc(ctx).add(x.enc(ctx).add(rest)) == input,
        ToServerCommand::UpdateClientInfo(x) => (0x53u16).enc(ctx).add(x.enc(ctx).add(rest)) == input,
    } by {
        match v {
            ToServerCommand::Null(x) => {
                assert(v.enc(ctx) == be16(0x0) + x.enc(ctx));
                vstd::seq_lib::lemma_concat_associative((0x0u16).enc(ctx), x.enc(ctx), rest);
            },
            ToServerCommand::Init(x) => {
                assert(v.enc(ctx) == be16(0x2) + x.enc(ctx));
                vstd::seq_lib::lemma_concat_associative((0x2u16).enc(ctx), x.enc(ctx), rest);
            },
            ToServerCommand::Init2(x) => {
                assert(v.enc(ctx) == be16(0x11) + x.enc(ctx));
                vstd::seq_lib::lemma_concat_associative((0x11u16).enc(ctx), x.enc(ctx), rest);
            },
            ToServerCommand::ModchannelJoin(x) => {
                assert(v.enc(ctx) == be16(0x17) + x.enc(ctx));
                vstd::seq_lib::lemma_concat_associative((0x17u16).enc(ctx), x.enc(ctx), rest);
            },
            ToServerCommand::ModchannelLeave(x) => {
                assert(v.enc(ctx) == be16(0x18) + x.enc(ctx));
                vstd::seq_lib::lemma_concat_associative((0x18u16).enc(ctx), x.enc(ctx), rest);
            },
            ToServerCommand::TSModchannelMsg(x) => {
                assert(v.enc(ctx) == be16(0x19) + x.enc(ctx));
                vstd::seq_lib::lemma_concat_associative((0x19u16).enc(ctx), x.enc(ctx), rest);
            },
            ToServerCommand::Playerpos(x) => {
                assert(v.enc(ctx) == be16(0x23) + x.enc(ctx));
                vstd::seq_lib::lemma_concat_associative((0x23u16).enc(ctx), x.enc(ctx), rest);
            },
            ToServerCommand::Gotblocks(x) => {
                assert(v.enc(ctx) == be16(0x24) + x.enc(ctx));
                vstd::seq_lib::lemma_concat_associative((0x24u16).enc(ctx), x.enc(ctx), rest);
            },
            ToServerCommand::Deletedblocks(x) => {
                assert(v.enc(ctx) == be16(0x25) + x.enc(ctx));
                vstd::seq_lib::lemma_concat_associative((0x25u16).enc(ctx), x.enc(ctx), rest);
            },
            ToServerCommand::TSChatMessage(x) => {
                assert(v.enc(ctx) == be16(0x32) + x.enc(ctx));
                vstd::seq_lib::lemma_concat_associative((0x32u16).enc(ctx), x.enc(ctx), rest);
            },
            ToServerCommand::Damage(x) => {
                assert(v.enc(ctx) == be16(0x35) + x.enc(ctx));
                vstd::seq_lib::lemma_concat_associative((0x35u16).enc(ctx), x.enc(ctx), rest);
            },
            ToServerCommand::Playeritem(x) => {
                assert(v.enc(ctx) == be16(0x37) + x.enc(ctx));
                vstd::seq_lib::lemma_concat_associative((0x37u16).enc(ctx), x.enc(ctx), rest);
            },
            ToServerCommand::Respawn(x) => {
                assert(v.enc(ctx) == be16(0x38) + x.enc(ctx));
                vstd::seq_lib::lemma_concat_associative((0x38u16).enc(ctx), x.enc(ctx), rest);
            },
            ToServerCommand::Interact(x) => {
                assert(v.enc(ctx) == be16(0x39) + x.enc(ctx));
                vstd::seq_lib::lemma_concat_associative((0x39u16).enc(ctx), x.enc(ctx), rest);
            },
            ToServerCommand::RemovedSounds(x) => {
                assert(v.enc(ctx) == be16(0x3a) + x.enc(ctx));
                vstd::seq_lib::lemma_concat_associative((0x3au16).enc(ctx), x.enc(ctx), rest);
            },
            ToServerCommand::NodemetaFields(x) => {
                assert(v.enc(ctx) == be16(0x3b) + x.enc(ctx));
                vstd::seq_lib::lemma_concat_associative((0x3bu16).enc(ctx), x.enc(ctx), rest);
            },
            ToServerCommand::InventoryFields(x) => {
                assert(v.enc(ctx) == be16(0x3c) + x.enc(ctx));
                vstd::seq_lib::lemma_concat_associative((0x3cu16).enc(ctx), x.enc(ctx), rest);
            },
            ToServerCommand::RequestMedia(x) => {
                assert(v.enc(ctx) == be16(0x40) + x.enc(ctx));
                vstd::seq_lib::lemma_concat_associative((0x40u16).enc(ctx), x.enc(ctx), rest);
            },
            ToServerCommand::HaveMedia(x) => {
                assert(v.enc(ctx) == be16(0x41) + x.enc(ctx));
                vstd::seq_lib::lemma_concat_associative((0x41u16).enc(ctx), x.enc(ctx), rest);
            },
            ToServerCommand::ClientReady(x) => {
                assert(v.enc(ctx) == be16(0x43) + x.enc(ctx));
                vstd::seq_lib::lemma_concat_associative((0x43u16).enc(ctx), x.enc(ctx), rest);
            },
            ToServerCommand::FirstSrp(x) => {
                assert(v.enc(ctx) == be16(0x50) + x.enc(ctx));
                vstd::seq_lib::lemma_concat_associative((0x50u16).enc(ctx), x.enc(ctx), rest);
            },
            ToServerCommand::SrpBytesA(x) => {
                assert(v.enc(ctx) == be16(0x51) + x.enc(ctx));
                vstd::seq_lib::lemma_concat_associative((0x51u16).enc(ctx), x.enc(ctx), rest);
            },
            ToServerCommand::SrpBytesM(x) => {
                assert(v.enc(ctx) == be16(0x52) + x.enc(ctx));
                vstd::seq_lib::lemma_concat_associative((0x52u16).enc(ctx), x.enc(ctx), rest);
            },
            ToServerCommand::UpdateClientInfo(x) => {
                assert(v.enc(ctx) == be16(0x53) + x.enc(ctx));
                vstd::seq_lib::lemma_concat_associative((0x53u16).enc(ctx), x.enc(ctx), rest);
            },
        }
    }
}

impl Deserialize for ToServerCommand {
    open spec fn rt_wf(&self, ctx: ProtocolContext) -> bool {
        match self {
            ToServerCommand::Null(x) => x.rt_wf(ctx),
            ToServerCommand::Init(x) => x.rt_wf(ctx),
            ToServerCommand::Init2(x) => x.rt_wf(ctx),
            ToServerCommand::ModchannelJoin(x) => x.rt_wf(ctx),
            ToServerCommand::ModchannelLeave(x) => x.rt_wf(ctx),
            ToServerCommand::TSModchannelMsg(x) => x.rt_wf(ctx),
            ToServerCommand::Playerpos(x) => x.rt_wf(ctx),
            ToServerCommand::Gotblocks(x) => x.rt_wf(ctx),
            ToServerCommand::Deletedblocks(x) => x.rt_wf(ctx),
            ToServerCommand::TSChatMessage(x) => x.rt_wf(ctx),
            ToServerCommand::Damage(x) => x.rt_wf(ctx),
            ToServerCommand::Playeritem(x) => x.rt_wf(ctx),
            ToServerCommand::Respawn(x) => x.rt_wf(ctx),
            ToServerCommand::Interact(x) => x.rt_wf(ctx),
            ToServerCommand::RemovedSounds(x) => x.rt_wf(ctx),
            ToServerCommand::NodemetaFields(x) => x.rt_wf(ctx),
            ToServerCommand::InventoryFields(x) => x.rt_wf(ctx),
            ToServerCommand::RequestMedia(x) => x.rt_wf(ctx),
            ToServerCommand::HaveMedia(x) => x.rt_wf(ctx),
            ToServerCommand::ClientReady(x) => x.rt_wf(ctx),
            ToServerCommand::FirstSrp(x) => x.rt_wf(ctx),
            ToServerCommand::SrpBytesA(x) => x.rt_wf(ctx),
            ToServerCommand::SrpBytesM(x) => x.rt_wf(ctx),
            ToServerCommand::UpdateClientInfo(x) => x.rt_wf(ctx),
        }
    }

    open spec fn prefix_safe() -> bool {
        false
    }

    #[verifier::rlimit(100)]
    fn deserialize(d: &mut Deserializer) -> (r: DeserializeResult<Self>) {
        let ghost ctx = d.ctx();
        let ghost input = d.rem();
        proof {
            toservercommand_reshape(ctx, input);
        }
        let opcode = match read_be16(d) {
            Ok(op) => op,
            Err(e) => {
                return Err(e);
            },
        };
        match opcode {
            0x0 => match <NullSpec as Deserialize>::deserialize(d) {
                Ok(x) => Ok(ToServerCommand::Null(x)),
                Err(e) => Err(e),
            },
            0x2 => match <InitSpec as Deserialize>::deserialize(d) {
                Ok(x) => Ok(ToServerCommand::Init(x)),
                Err(e) => Err(e),
            },
            0x11 => match <Init2Spec as Deserialize>::deserialize(d) {
                Ok(x) => Ok(ToServerCommand::Init2(x)),
                Err(e) => Err(e),
            },
            0x17 => match <ModchannelJoinSpec as Deserialize>::deserialize(d) {
                Ok(x) => Ok(ToServerCommand::ModchannelJoin(x)),
                Err(e) => Err(e),
            },
            0x18 => match <ModchannelLeaveSpec as Deserialize>::deserialize(d) {
                Ok(x) => Ok(ToServerCommand::ModchannelLeave(x)),
                Err(e) => Err(e),
            },
            0x19 => match <TSModchannelMsgSpec as Deserialize>::deserialize(d) {
                Ok(x) => Ok(ToServerCommand::TSModchannelMsg(x)),
                Err(e) => Err(e),
            },
            0x23 => match <PlayerposSpec as Deserialize>::deserialize(d) {
                Ok(x) => Ok(ToServerCommand::Playerpos(x)),
                Err(e) => Err(e),
            },
            0x24 => match <GotblocksSpec as Deserialize>::deserialize(d) {
                Ok(x) => Ok(ToServerCommand::Gotblocks(x)),
                Err(e) => Err(e),
            },
            0x25 => match <DeletedblocksSpec as Deserialize>::deserialize(d) {
                Ok(x) => Ok(ToServerCommand::Deletedblocks(x)),
                Err(e) => Err(e),
            },
            0x32 => match <TSChatMessageSpec as Deserialize>::deserialize(d) {
                Ok(x) => Ok(ToServerCommand::TSChatMessage(x)),
                Err(e) => Err(e),
            },
            0x35 => match <DamageSpec as Deserialize>::deserialize(d) {
                Ok(x) => Ok(ToServerCommand::Damage(x)),
                Err(e) => Err(e),
            },
            0x37 => match <PlayeritemSpec as Deserialize>::deserialize(d) {
                Ok(x) => Ok(ToServerCommand::Playeritem(x)),
                Err(e) => Err(e),
            },
            0x38 => match <RespawnSpec as Deserialize>::deserialize(d) {
                Ok(x) => Ok(ToServerCommand::Respawn(x)),
                Err(e) => Err(e),
            },
            0x39 => match <InteractSpec as Deserialize>::deserialize(d) {
                Ok(x) => Ok(ToServerCommand::Interact(x)),
                Err(e) => Err(e),
            },
            0x3a => match <RemovedSoundsSpec as Deserialize>::deserialize(d) {
                Ok(x) => Ok(ToServerCommand::RemovedSounds(x)),
                Err(e) => Err(e),
            },
            0x3b => match <NodemetaFieldsSpec as Deserialize>::deserialize(d) {
                Ok(x) => Ok(ToServerCommand::NodemetaFields(x)),
                Err(e) => Err(e),
            },
            0x3c => match <InventoryFieldsSpec as Deserialize>::deserialize(d) {
                Ok(x) => Ok(ToServerCommand::InventoryFields(x)),
                Err(e) => Err(e),
            },
            0x40 => match <RequestMediaSpec as Deserialize>::deserialize(d) {
                Ok(x) => Ok(ToServerCommand::RequestMedia(x)),
                Err(e) => Err(e),
            },
            0x41 => match <HaveMediaSpec as Deserialize>::deserialize(d) {
                Ok(x) => Ok(ToServerCommand::HaveMedia(x)),
                Err(e) => Err(e),
            },
            0x43 => match <ClientReadySpec as Deserialize>::deserialize(d) {
                Ok(x) => Ok(ToServerCommand::ClientReady(x)),
                Err(e) => Err(e),
            },
            0x50 => match <FirstSrpSpec as Deserialize>::deserialize(d) {
                Ok(x) => Ok(ToServerCommand::FirstSrp(x)),
                Err(e) => Err(e),
            },
            0x51 => match <SrpBytesASpec as Deserialize>::deserialize(d) {
                Ok(x) => Ok(ToServerCommand::SrpBytesA(x)),
                Err(e) => Err(e),
            },
            0x52 => match <SrpBytesMSpec as Deserialize>::deserialize(d) {
                Ok(x) => Ok(ToServerCommand::SrpBytesM(x)),
                Err(e) => Err(e),
            },
            0x53 => match <UpdateClientInfoSpec as Deserialize>::deserialize(d) {
                Ok(x) => Ok(ToServerCommand::UpdateClientInfo(x)),
                Err(e) => Err(e),
            },
            _ => Err(DeserializeError::BadPacketId(CommandDirection::ToServer, opcode)),
        }
    }
}

/// A command of either direction.
#[derive(Debug, Clone, PartialEq, Eq)]
pub enum Command {
    ToServer(ToServerCommand),
    ToClient(ToClientCommand),
}

impl CommandProperties for Command {
    open spec fn spec_direction(&self) -> CommandDirection {
        match self {
            Command::ToServer(_) => CommandDirection::ToServer,
            Command::ToClient(_) => CommandDirection::ToClient,
        }
    }

    open spec fn spec_channel(&self) -> u8 {
        match self {
            Command::ToServer(c) => c.spec_channel(),
            Command::ToClient(c) => c.spec_channel(),
        }
    }

    open spec fn spec_reliable(&self) -> bool {
        match self {
            Command::ToServer(c) => c.spec_reliable(),
            Command::ToClient(c) => c.spec_reliable(),
        }
    }

    fn direction(&self) -> (r: CommandDirection) {
        match self {
            Command::ToServer(_) => CommandDirection::ToServer,
            Command::ToClient(_) => CommandDirection::ToClient,
        }
    }

    fn default_channel(&self) -> (r: u8) {
        match self {
            Command::ToServer(c) => c.default_channel(),
            Command::ToClient(c) => c.default_channel(),
        }
    }

    fn default_reliability(&self) -> (r: bool) {
        match self {
            Command::ToServer(c) => c.default_reliability(),
            Command::ToClient(c) => c.default_reliability(),
        }
    }

    fn command_name(&self) -> (r: &'static str) {
        match self {
            Command::ToServer(c) => c.command_name(),
            Command::ToClient(c) => c.command_name(),
        }
    }
}

/// Views of a command as one of the two directed catalogs.
pub trait CommandRef: CommandProperties {
    fn toserver_ref(&self) -> (r: Option<&ToServerCommand>)
        ensures
            r is Some <==> self.spec_direction() == CommandDirection::ToServer,
    ;

    fn toclient_ref(&self) -> (r: Option<&ToClientCommand>)
        ensures
            r is Some <==> self.spec_direction() == CommandDirection::ToClient,
    ;
}

impl CommandRef for Command {
    fn toserver_ref(&self) -> (r: Option<&ToServerCommand>) {
        match self {
            Command::ToServer(s) => Some(s),
            Command::ToClient(_) => None,
        }
    }

    fn toclient_ref(&self) -> (r: Option<&ToClientCommand>) {
        match self {
            Command::ToServer(_) => None,
            Command::ToClient(c) => Some(c),
        }
    }
}

impl CommandRef for ToClientCommand {
    fn toserver_ref(&self) -> (r: Option<&ToServerCommand>) {
        None
    }

    fn toclient_ref(&self) -> (r: Option<&ToClientCommand>) {
        Some(self)
    }
}

impl CommandRef for ToServerCommand {
    fn toserver_ref(&self) -> (r: Option<&ToServerCommand>) {
        Some(self)
    }

    fn toclient_ref(&self) -> (r: Option<&ToClientCommand>) {
        None
    }
}

impl Serialize for Command {
    open spec fn enc(&self, ctx: ProtocolContext) -> Seq<u8> {
        match self {
            Command::ToServer(c) => c.enc(ctx),
            Command::ToClient(c) => c.enc(ctx),
        }
    }

    open spec fn ser_wf(&self, ctx: ProtocolContext) -> bool {
        match self {
            Command::ToServer(c) => c.ser_wf(ctx),
            Command::ToClient(c) => c.ser_wf(ctx),
        }
    }

    open spec fn eqv(&self, other: &Self) -> bool {
        match (self, other) {
            (Command::ToServer(a), Command::ToServer(b)) => a.eqv(b),
            (Command::ToClient(a), Command::ToClient(b)) => a.eqv(b),
            _ => false,
        }
    }

    fn serialize(&self, ser: &mut VecSerializer) -> (r: SerializeResult) {
        match self {
            Command::ToServer(c) => c.serialize(ser),
            Command::ToClient(c) => c.serialize(ser),
        }
    }
}

impl Deserialize for Command {
    /// A command round-trips in the direction the context names.
    open spec fn rt_wf(&self, ctx: ProtocolContext) -> bool {
        match self {
            Command::ToServer(c) => ctx.dir == CommandDirection::ToServer && c.rt_wf(ctx),
            Command::ToClient(c) => ctx.dir == CommandDirection::ToClient && c.rt_wf(ctx),
        }
    }

    open spec fn prefix_safe() -> bool {
        false
    }

    fn deserialize(d: &mut Deserializer) -> (r: DeserializeResult<Self>) {
        let dir = d.direction();
        match dir {
            CommandDirection::ToClient => match ToClientCommand::deserialize(d) {
                Ok(c) => Ok(Command::ToClient(c)),
                Err(e) => Err(e),
            },
            CommandDirection::ToServer => match ToServerCommand::deserialize(d) {
                Ok(c) => Ok(Command::ToServer(c)),
                Err(e) => Err(e),
            },
        }
    }
}

} // verus!
