//! Packet framing: the outer header, the reliable wrapper, and the control,
//! original and split body kinds.

use vstd::prelude::*;

use crate::wire::command::Command;
use crate::wire::deser::Deserialize;
use crate::wire::deser::DeserializeError;
use crate::wire::deser::DeserializeResult;
use crate::wire::deser::Deserializer;
use crate::wire::ser::Serialize;
use crate::wire::ser::SerializeResult;
use crate::wire::ser::VecSerializer;
use crate::wire::types::be16;
use crate::wire::types::be32;
use crate::wire::types::read_be16;
use crate::wire::types::read_be32;
use crate::wire::types::write_be16;
use crate::wire::types::write_be32;
use crate::wire::types::ProtocolContext;

verus! {

/// The magic protocol id carried by every packet.
pub const PROTOCOL_ID: u32 = 0x4f457403;

pub const LATEST_PROTOCOL_VERSION: u16 = 41;

// Serialization format of map data.
pub const SER_FMT_HIGHEST_READ: u8 = 29;

pub const SER_FMT_HIGHEST_WRITE: u8 = 29;

pub const SER_FMT_LOWEST_READ: u8 = 28;

pub const SER_FMT_LOWEST_WRITE: u8 = 29;

pub const MAX_PACKET_SIZE: usize = 512;

/// Initial value of every wrapping 16-bit counter, chosen so the wrap point
/// is exercised early.
pub const SEQNUM_INITIAL: u16 = 65500;

pub const PACKET_HEADER_SIZE: usize = 7;

pub const RELIABLE_HEADER_SIZE: usize = 3;

pub const SPLIT_HEADER_SIZE: usize = 7;

/// 512 - 7 - 3: the most payload an original body may carry.
pub const MAX_ORIGINAL_BODY_SIZE: usize = 502;

/// 502 - 7: the most chunk data a split body may carry.
pub const MAX_SPLIT_BODY_SIZE: usize = 495;

pub type PeerId = u16;

/// Acknowledges one reliable sequence number.
#[derive(Debug, Clone, Copy, PartialEq, Eq, Structural)]
pub struct AckBody {
    pub seqnum: u16,
}

impl Serialize for AckBody {
    open spec fn enc(&self, ctx: ProtocolContext) -> Seq<u8> {
        self.seqnum.enc(ctx)
    }

    open spec fn ser_wf(&self, ctx: ProtocolContext) -> bool {
        self.seqnum.ser_wf(ctx)
    }

    open spec fn eqv(&self, other: &Self) -> bool {
        self.seqnum.eqv(&other.seqnum)
    }

    fn serialize(&self, ser: &mut VecSerializer) -> (r: SerializeResult) {
        match self.seqnum.serialize(ser) {
            Ok(_) => {},
            Err(e) => {
                return Err(e);
            },
        }
        proof {
        }
        Ok(())
    }
}

proof fn ackbody_reshape(ctx: ProtocolContext, input: Seq<u8>)
    ensures
        forall|v: AckBody, rest: Seq<u8>|
            (#[trigger] v.enc(ctx).add(rest)) == input && v.rt_wf(ctx)
                && (<AckBody as Deserialize>::prefix_safe() || rest.len() == 0)
                ==> v.seqnum.enc(ctx).add(rest) == input,
{
    assert forall|v: AckBody, rest: Seq<u8>|
        (#[trigger] v.enc(ctx).add(rest)) == input && v.rt_wf(ctx)
        && (<AckBody as Deserialize>::prefix_safe() || rest.len() == 0)
        implies v.seqnum.enc(ctx).add(rest) == input by {
    }
}

impl Deserialize for AckBody {
    open spec fn rt_wf(&self, ctx: ProtocolContext) -> bool {
        self.seqnum.rt_wf(ctx)
    }

    open spec fn prefix_safe() -> bool {
        <u16 as Deserialize>::prefix_safe()
    }

    fn deserialize(d: &mut Deserializer) -> (r: DeserializeResult<Self>) {
        let ghost ctx = d.ctx();
        let ghost input = d.rem();
        proof {
            ackbody_reshape(ctx, input);
        }
        let seqnum = match <u16 as Deserialize>::deserialize(d) {
            Ok(v) => v,
            Err(e) => {
                return Err(e);
            },
        };
        Ok(AckBody { seqnum })
    }
}

/// Tells the remote which peer id the server minted for it.
#[derive(Debug, Clone, Copy, PartialEq, Eq, Structural)]
pub struct SetPeerIdBody {
    pub peer_id: u16,
}

impl Serialize for SetPeerIdBody {
    open spec fn enc(&self, ctx: ProtocolContext) -> Seq<u8> {
        self.peer_id.enc(ctx)
    }

    open spec fn ser_wf(&self, ctx: ProtocolContext) -> bool {
        self.peer_id.ser_wf(ctx)
    }

    open spec fn eqv(&self, other: &Self) -> bool {
        self.peer_id.eqv(&other.peer_id)
    }

    fn serialize(&self, ser: &mut VecSerializer) -> (r: SerializeResult) {
        match self.peer_id.serialize(ser) {
            Ok(_) => {},
            Err(e) => {
                return Err(e);
            },
        }
        proof {
        }
        Ok(())
    }
}

proof fn setpeeridbody_reshape(ctx: ProtocolContext, input: Seq<u8>)
    ensures
        forall|v: SetPeerIdBody, rest: Seq<u8>|
            (#[trigger] v.enc(ctx).add(rest)) == input && v.rt_wf(ctx)
                && (<SetPeerIdBody as Deserialize>::prefix_safe() || rest.len() == 0)
                ==> v.peer_id.enc(ctx).add(rest) == input,
{
    assert forall|v: SetPeerIdBody, rest: Seq<u8>|
        (#[trigger] v.enc(ctx).add(rest)) == input && v.rt_wf(ctx)
        && (<SetPeerIdBody as Deserialize>::prefix_safe() || rest.len() == 0)
        implies v.peer_id.enc(ctx).add(rest) == input by {
    }
}

impl Deserialize for SetPeerIdBody {
    open spec fn rt_wf(&self, ctx: ProtocolContext) -> bool {
        self.peer_id.rt_wf(ctx)
    }

    open spec fn prefix_safe() -> bool {
        <u16 as Deserialize>::prefix_safe()
    }

    fn deserialize(d: &mut Deserializer) -> (r: DeserializeResult<Self>) {
        let ghost ctx = d.ctx();
        let ghost input = d.rem();
        proof {
            setpeeridbody_reshape(ctx, input);
        }
        let peer_id = match <u16 as Deserialize>::deserialize(d) {
            Ok(v) => v,
            Err(e) => {
                return Err(e);
            },
        };
        Ok(SetPeerIdBody { peer_id })
    }
}

/// Link-layer control carried as an inner body.
#[derive(Debug, Clone, Copy, PartialEq, Eq, Structural)]
pub enum ControlBody {
    Ack(AckBody),
    SetPeerId(SetPeerIdBody),
    Ping,
    Disconnect,
}

impl Serialize for ControlBody {
    open spec fn enc(&self, ctx: ProtocolContext) -> Seq<u8> {
        match self {
            ControlBody::Ack(x) => (0u8).enc(ctx) + x.enc(ctx),
            ControlBody::SetPeerId(x) => (1u8).enc(ctx) + x.enc(ctx),
            ControlBody::Ping => (2u8).enc(ctx),
            ControlBody::Disconnect => (3u8).enc(ctx),
        }
    }

    open spec fn ser_wf(&self, ctx: ProtocolContext) -> bool {
        match self {
            ControlBody::Ack(x) => x.ser_wf(ctx),
            ControlBody::SetPeerId(x) => x.ser_wf(ctx),
            ControlBody::Ping => true,
            ControlBody::Disconnect => true,
        }
    }

    open spec fn eqv(&self, other: &Self) -> bool {
        match (self, other) {
            (ControlBody::Ack(x), ControlBody::Ack(y)) => x.eqv(y),
            (ControlBody::SetPeerId(x), ControlBody::SetPeerId(y)) => x.eqv(y),
            (ControlBody::Ping, ControlBody::Ping) => true,
            (ControlBody::Disconnect, ControlBody::Disconnect) => true,
            _ => false,
        }
    }

    fn serialize(&self, ser: &mut VecSerializer) -> (r: SerializeResult) {
        match self {
            ControlBody::Ack(x) => {
                let tag: u8 = 0;
                match tag.serialize(ser) {
                    Ok(_) => {},
                    Err(e) => {
                        return Err(e);
                    },
                }
                match x.serialize(ser) {
                    Ok(_) => {},
                    Err(e) => {
                        return Err(e);
                    },
                }
                assert(ser.out() =~= old(ser).out() + self.enc(old(ser).ctx()));
                Ok(())
            },
            ControlBody::SetPeerId(x) => {
                let tag: u8 = 1;
                match tag.serialize(ser) {
                    Ok(_) => {},
                    Err(e) => {
                        return Err(e);
                    },
                }
                match x.serialize(ser) {
                    Ok(_) => {},
                    Err(e) => {
                        return Err(e);
                    },
                }
                assert(ser.out() =~= old(ser).out() + self.enc(old(ser).ctx()));
                Ok(())
            },
            ControlBody::Ping => {
                let tag: u8 = 2;
                match tag.serialize(ser) {
                    Ok(_) => {},
                    Err(e) => {
                        return Err(e);
                    },
                }
                assert(ser.out() =~= old(ser).out() + self.enc(old(ser).ctx()));
                Ok(())
            },
            ControlBody::Disconnect => {
                let tag: u8 = 3;
                match tag.serialize(ser) {
                    Ok(_) => {},
                    Err(e) => {
                        return Err(e);
                    },
                }
                assert(ser.out() =~= old(ser).out() + self.enc(old(ser).ctx()));
                Ok(())
            },
        }
    }
}

proof fn controlbody_reshape(ctx: ProtocolContext, input: Seq<u8>)
    ensures
        forall|v: ControlBody, rest: Seq<u8>|
            (#[trigger] v.enc(ctx).add(rest)) == input && v.rt_wf(ctx)
                && (<ControlBody as Deserialize>::prefix_safe() || rest.len() == 0) ==> match v {
                ControlBody::Ack(x) => (0u8).enc(ctx).add(x.enc(ctx).add(rest)) == input,
                ControlBody::SetPeerId(x) => (1u8).enc(ctx).add(x.enc(ctx).add(rest)) == input,
                ControlBody::Ping => (2u8).enc(ctx).add(rest) == input,
                ControlBody::Disconnect => (3u8).enc(ctx).add(rest) == input,
            },
{
    assert forall|v: ControlBody, rest: Seq<u8>|
        (#[trigger] v.enc(ctx).add(rest)) == input && v.rt_wf(ctx)
        && (<ControlBody as Deserialize>::prefix_safe() || rest.len() == 0) implies match v {
        ControlBody::Ack(x) => (0u8).enc(ctx).add(x.enc(ctx).add(rest)) == input,
        ControlBody::SetPeerId(x) => (1u8).enc(ctx).add(x.enc(ctx).add(rest)) == input,
        ControlBody::Ping => (2u8).enc(ctx).add(rest) == input,
        ControlBody::Disconnect => (3u8).enc(ctx).add(rest) == input,
    } by {
        match v {
            ControlBody::Ack(x) => {
                vstd::seq_lib::lemma_concat_associative((0u8).enc(ctx), x.enc(ctx), rest);
            },
            ControlBody::SetPeerId(x) => {
                vstd::seq_lib::lemma_concat_associative((1u8).enc(ctx), x.enc(ctx), rest);
            },
            ControlBody::Ping => {
                assert((2u8).enc(ctx).add(rest) =~= v.enc(ctx).add(rest));
            },
            ControlBody::Disconnect => {
                assert((3u8).enc(ctx).add(rest) =~= v.enc(ctx).add(rest));
            },
        }
    }
}

impl Deserialize for ControlBody {
    open spec fn rt_wf(&self, ctx: ProtocolContext) -> bool {
        match self {
            ControlBody::Ack(x) => x.rt_wf(ctx),
            ControlBody::SetPeerId(x) => x.rt_wf(ctx),
            ControlBody::Ping => true,
            ControlBody::Disconnect => true,
        }
    }

    open spec fn prefix_safe() -> bool {
        <AckBody as Deserialize>::prefix_safe() && <SetPeerIdBody as Deserialize>::prefix_safe()
    }

    fn deserialize(d: &mut Deserializer) -> (r: DeserializeResult<Self>) {
        let ghost ctx = d.ctx();
        let ghost input = d.rem();
        proof {
            controlbody_reshape(ctx, input);
        }
        let tag = match <u8 as Deserialize>::deserialize(d) {
            Ok(t) => t,
            Err(e) => {
                return Err(e);
            },
        };
        match tag {
            0 => match <AckBody as Deserialize>::deserialize(d) {
                Ok(x) => Ok(ControlBody::Ack(x)),
                Err(e) => Err(e),
            },
            1 => match <SetPeerIdBody as Deserialize>::deserialize(d) {
                Ok(x) => Ok(ControlBody::SetPeerId(x)),
                Err(e) => Err(e),
            },
            2 => Ok(ControlBody::Ping),
            3 => Ok(ControlBody::Disconnect),
            _ => Err(DeserializeError::InvalidValue),
        }
    }
}

/// An inner body carrying exactly one command.
#[derive(Debug, Clone, PartialEq, Eq)]
pub struct OriginalBody {
    pub command: Command,
}

impl Serialize for OriginalBody {
    open spec fn enc(&self, ctx: ProtocolContext) -> Seq<u8> {
        self.command.enc(ctx)
    }

    open spec fn ser_wf(&self, ctx: ProtocolContext) -> bool {
        self.command.ser_wf(ctx)
    }

    open spec fn eqv(&self, other: &Self) -> bool {
        self.command.eqv(&other.command)
    }

    fn serialize(&self, ser: &mut VecSerializer) -> (r: SerializeResult) {
        match self.command.serialize(ser) {
            Ok(_) => {},
            Err(e) => {
                return Err(e);
            },
        }
        proof {
        }
        Ok(())
    }
}

proof fn originalbody_reshape(ctx: ProtocolContext, input: Seq<u8>)
    ensures
        forall|v: OriginalBody, rest: Seq<u8>|
            (#[trigger] v.enc(ctx).add(rest)) == input && v.rt_wf(ctx)
                && (<OriginalBody as Deserialize>::prefix_safe() || rest.len() == 0)
                ==> v.command.enc(ctx).add(rest) == input,
{
    assert forall|v: OriginalBody, rest: Seq<u8>|
        (#[trigger] v.enc(ctx).add(rest)) == input && v.rt_wf(ctx)
        && (<OriginalBody as Deserialize>::prefix_safe() || rest.len() == 0)
        implies v.command.enc(ctx).add(rest) == input by {
    }
}

impl Deserialize for OriginalBody {
    open spec fn rt_wf(&self, ctx: ProtocolContext) -> bool {
        self.command.rt_wf(ctx)
    }

    open spec fn prefix_safe() -> bool {
        <Command as Deserialize>::prefix_safe()
    }

    fn deserialize(d: &mut Deserializer) -> (r: DeserializeResult<Self>) {
        let ghost ctx = d.ctx();
        let ghost input = d.rem();
        proof {
            originalbody_reshape(ctx, input);
        }
        let command = match <Command as Deserialize>::deserialize(d) {
            Ok(v) => v,
            Err(e) => {
                return Err(e);
            },
        };
        Ok(OriginalBody { command })
    }
}


impl AckBody {
    pub fn new(seqnum: u16) -> (r: Self)
        ensures
            r == (AckBody { seqnum }),
    {
        AckBody { seqnum }
    }

    pub fn into_inner(self) -> (r: InnerBody)
        ensures
            r == InnerBody::Control(ControlBody::Ack(self)),
    {
        InnerBody::Control(ControlBody::Ack(self))
    }
}

impl SetPeerIdBody {
    pub fn new(peer_id: u16) -> (r: Self)
        ensures
            r == (SetPeerIdBody { peer_id }),
    {
        SetPeerIdBody { peer_id }
    }

    pub fn into_inner(self) -> (r: InnerBody)
        ensures
            r == InnerBody::Control(ControlBody::SetPeerId(self)),
    {
        InnerBody::Control(ControlBody::SetPeerId(self))
    }
}

impl ControlBody {
    pub fn into_inner(self) -> (r: InnerBody)
        ensures
            r == InnerBody::Control(self),
    {
        InnerBody::Control(self)
    }
}

/// One fragment of a command whose serialization exceeds one packet: all
/// fragments of a group share `seqnum`, and `chunk_data` runs to the end of
/// the packet.
#[derive(Debug, Clone, PartialEq, Eq)]
pub struct SplitBody {
    pub seqnum: u16,
    pub chunk_count: u16,
    pub chunk_num: u16,
    pub chunk_data: Vec<u8>,
}

impl Serialize for SplitBody {
    open spec fn enc(&self, ctx: ProtocolContext) -> Seq<u8> {
        be16(self.seqnum) + be16(self.chunk_count) + be16(self.chunk_num) + self.chunk_data@
    }

    open spec fn ser_wf(&self, ctx: ProtocolContext) -> bool {
        true
    }

    open spec fn eqv(&self, other: &Self) -> bool {
        self.seqnum == other.seqnum && self.chunk_count == other.chunk_count && self.chunk_num
            == other.chunk_num && self.chunk_data@ == other.chunk_data@
    }

    fn serialize(&self, ser: &mut VecSerializer) -> (r: SerializeResult) {
        write_be16(ser, self.seqnum);
        write_be16(ser, self.chunk_count);
        write_be16(ser, self.chunk_num);
        ser.write_vec(&self.chunk_data);
        assert(ser.out() =~= old(ser).out() + self.enc(old(ser).ctx()));
        Ok(())
    }
}

impl Deserialize for SplitBody {
    open spec fn rt_wf(&self, ctx: ProtocolContext) -> bool {
        true
    }

    open spec fn prefix_safe() -> bool {
        false
    }

    fn deserialize(d: &mut Deserializer) -> (r: DeserializeResult<Self>) {
        let ghost ctx = d.ctx();
        let ghost input = d.rem();
        proof {
            assert forall|v: SplitBody, rest: Seq<u8>|
                (#[trigger] v.enc(ctx).add(rest)) == input && rest.len() == 0 implies be16(
                v.seqnum).add(be16(v.chunk_count).add(be16(v.chunk_num).add(v.chunk_data@)))
                == input by {
                assert(be16(v.seqnum).add(be16(v.chunk_count).add(be16(v.chunk_num).add(
                    v.chunk_data@))) =~= v.enc(ctx).add(rest));
            }
        }
        let seqnum = match read_be16(d) {
            Ok(v) => v,
            Err(e) => {
                return Err(e);
            },
        };
        let chunk_count = match read_be16(d) {
            Ok(v) => v,
            Err(e) => {
                return Err(e);
            },
        };
        let chunk_num = match read_be16(d) {
            Ok(v) => v,
            Err(e) => {
                return Err(e);
            },
        };
        let chunk_data = d.take_all();
        Ok(SplitBody { seqnum, chunk_count, chunk_num, chunk_data })
    }
}

/// An inner body: control, one whole command, or one split fragment.
#[derive(Debug, Clone, PartialEq, Eq)]
pub enum InnerBody {
    Control(ControlBody),
    Original(OriginalBody),
    Split(SplitBody),
}

impl InnerBody {
    /// The command this body carries, if it is an original body.
    pub fn command_ref(&self) -> (r: Option<&Command>)
        ensures
            r matches Some(c) ==> self matches InnerBody::Original(ob) && *c == ob.command,
            r is None <==> !(self is Original),
    {
        match self {
            InnerBody::Original(body) => Some(&body.command),
            _ => None,
        }
    }

    /// The same, under the name the body-level dispatch uses. A split body
    /// holds only a fragment of a command, so it reports none.
    pub fn command(&self) -> (r: Option<&Command>)
        ensures
            r matches Some(c) ==> self matches InnerBody::Original(ob) && *c == ob.command,
            r is None <==> !(self is Original),
    {
        match self {
            InnerBody::Control(_) => None,
            InnerBody::Original(body) => Some(&body.command),
            InnerBody::Split(_) => None,
        }
    }

    /// Wrap this body in a reliable envelope with the given sequence number.
    pub fn into_reliable(self, seqnum: u16) -> (r: PacketBody)
        ensures
            r == PacketBody::Reliable(ReliableBody { seqnum, inner: self }),
    {
        PacketBody::Reliable(ReliableBody { seqnum, inner: self })
    }

    pub fn into_unreliable(self) -> (r: PacketBody)
        ensures
            r == PacketBody::Inner(self),
    {
        PacketBody::Inner(self)
    }
}

impl Serialize for InnerBody {
    open spec fn enc(&self, ctx: ProtocolContext) -> Seq<u8> {
        match self {
            InnerBody::Control(b) => seq![0u8] + b.enc(ctx),
            InnerBody::Original(b) => seq![1u8] + b.enc(ctx),
            InnerBody::Split(b) => seq![2u8] + b.enc(ctx),
        }
    }

    open spec fn ser_wf(&self, ctx: ProtocolContext) -> bool {
        match self {
            InnerBody::Control(b) => b.ser_wf(ctx),
            InnerBody::Original(b) => b.ser_wf(ctx),
            InnerBody::Split(b) => b.ser_wf(ctx),
        }
    }

    open spec fn eqv(&self, other: &Self) -> bool {
        match (self, other) {
            (InnerBody::Control(a), InnerBody::Control(b)) => a.eqv(b),
            (InnerBody::Original(a), InnerBody::Original(b)) => a.eqv(b),
            (InnerBody::Split(a), InnerBody::Split(b)) => a.eqv(b),
            _ => false,
        }
    }

    fn serialize(&self, ser: &mut VecSerializer) -> (r: SerializeResult) {
        match self {
            InnerBody::Control(b) => {
                ser.write_byte(0);
                match b.serialize(ser) {
                    Ok(_) => {},
                    Err(e) => {
                        return Err(e);
                    },
                }
            },
            InnerBody::Original(b) => {
                ser.write_byte(1);
                match b.serialize(ser) {
                    Ok(_) => {},
                    Err(e) => {
                        return Err(e);
                    },
                }
            },
            InnerBody::Split(b) => {
                ser.write_byte(2);
                match b.serialize(ser) {
                    Ok(_) => {},
                    Err(e) => {
                        return Err(e);
                    },
                }
            },
        }
        assert(ser.out() =~= old(ser).out() + self.enc(old(ser).ctx()));
        Ok(())
    }
}

proof fn innerbody_reshape(ctx: ProtocolContext, input: Seq<u8>)
    ensures
        forall|v: InnerBody, rest: Seq<u8>|
            (#[trigger] v.enc(ctx).add(rest)) == input && v.rt_wf(ctx) && rest.len() == 0
                ==> input.len() >= 1 && match v {
                InnerBody::Control(b) => input[0] == 0 && b.enc(ctx).add(rest) == input.skip(1),
                InnerBody::Original(b) => input[0] == 1 && b.enc(ctx).add(rest) == input.skip(1),
                InnerBody::Split(b) => input[0] == 2 && b.enc(ctx).add(rest) == input.skip(1),
            },
{
    assert forall|v: InnerBody, rest: Seq<u8>|
        (#[trigger] v.enc(ctx).add(rest)) == input && v.rt_wf(ctx) && rest.len()
            == 0 implies input.len() >= 1 && match v {
        InnerBody::Control(b) => input[0] == 0 && b.enc(ctx).add(rest) == input.skip(1),
        InnerBody::Original(b) => input[0] == 1 && b.enc(ctx).add(rest) == input.skip(1),
        InnerBody::Split(b) => input[0] == 2 && b.enc(ctx).add(rest) == input.skip(1),
    } by {
        match v {
            InnerBody::Control(b) => {
                assert(b.enc(ctx).add(rest) =~= input.skip(1));
            },
            InnerBody::Original(b) => {
                assert(b.enc(ctx).add(rest) =~= input.skip(1));
            },
            InnerBody::Split(b) => {
                assert(b.enc(ctx).add(rest) =~= input.skip(1));
            },
        }
    }
}

impl Deserialize for InnerBody {
    open spec fn rt_wf(&self, ctx: ProtocolContext) -> bool {
        match self {
            InnerBody::Control(b) => b.rt_wf(ctx),
            InnerBody::Original(b) => b.rt_wf(ctx),
            InnerBody::Split(b) => b.rt_wf(ctx),
        }
    }

    open spec fn prefix_safe() -> bool {
        false
    }

    fn deserialize(d: &mut Deserializer) -> (r: DeserializeResult<Self>) {
        let ghost ctx = d.ctx();
        let ghost input = d.rem();
        proof {
            innerbody_reshape(ctx, input);
        }
        let tag = match d.take_byte() {
            Ok(t) => t,
            Err(e) => {
                return Err(e);
            },
        };
        match tag {
            0 => match ControlBody::deserialize(d) {
                Ok(b) => Ok(InnerBody::Control(b)),
                Err(e) => Err(e),
            },
            1 => match OriginalBody::deserialize(d) {
                Ok(b) => Ok(InnerBody::Original(b)),
                Err(e) => Err(e),
            },
            2 => match SplitBody::deserialize(d) {
                Ok(b) => Ok(InnerBody::Split(b)),
                Err(e) => Err(e),
            },
            _ => Err(DeserializeError::InvalidPacketKind(tag)),
        }
    }
}

/// A reliable envelope: tag byte 3, a sequence number, then the inner body.
#[derive(Debug, Clone, PartialEq, Eq)]
pub struct ReliableBody {
    pub seqnum: u16,
    pub inner: InnerBody,
}

impl Serialize for ReliableBody {
    open spec fn enc(&self, ctx: ProtocolContext) -> Seq<u8> {
        seq![3u8] + be16(self.seqnum) + self.inner.enc(ctx)
    }

    open spec fn ser_wf(&self, ctx: ProtocolContext) -> bool {
        self.inner.ser_wf(ctx)
    }

    open spec fn eqv(&self, other: &Self) -> bool {
        self.seqnum == other.seqnum && self.inner.eqv(&other.inner)
    }

    fn serialize(&self, ser: &mut VecSerializer) -> (r: SerializeResult) {
        ser.write_byte(3);
        write_be16(ser, self.seqnum);
        match self.inner.serialize(ser) {
            Ok(_) => {},
            Err(e) => {
                return Err(e);
            },
        }
        assert(ser.out() =~= old(ser).out() + self.enc(old(ser).ctx()));
        Ok(())
    }
}

proof fn reliablebody_reshape(ctx: ProtocolContext, input: Seq<u8>)
    ensures
        forall|v: ReliableBody, rest: Seq<u8>|
            (#[trigger] v.enc(ctx).add(rest)) == input && v.rt_wf(ctx) && rest.len() == 0
                ==> input.len() >= 3 && input[0] == 3 && be16(v.seqnum).add(
                v.inner.enc(ctx).add(rest)) == input.skip(1) && v.inner.enc(ctx).add(rest)
                == input.skip(3),
{
    assert forall|v: ReliableBody, rest: Seq<u8>|
        (#[trigger] v.enc(ctx).add(rest)) == input && v.rt_wf(ctx) && rest.len()
            == 0 implies input.len() >= 3 && input[0] == 3 && be16(v.seqnum).add(
        v.inner.enc(ctx).add(rest)) == input.skip(1) && v.inner.enc(ctx).add(rest) == input.skip(
        3) by {
        assert(be16(v.seqnum).add(v.inner.enc(ctx).add(rest)) =~= input.skip(1));
        assert(v.inner.enc(ctx).add(rest) =~= input.skip(3));
    }
}

impl Deserialize for ReliableBody {
    open spec fn rt_wf(&self, ctx: ProtocolContext) -> bool {
        self.inner.rt_wf(ctx)
    }

    open spec fn prefix_safe() -> bool {
        false
    }

    fn deserialize(d: &mut Deserializer) -> (r: DeserializeResult<Self>) {
        let ghost ctx = d.ctx();
        let ghost input = d.rem();
        proof {
            reliablebody_reshape(ctx, input);
        }
        let tag = match d.take_byte() {
            Ok(t) => t,
            Err(e) => {
                return Err(e);
            },
        };
        if tag != 3 {
            return Err(DeserializeError::InvalidValue);
        }
        let seqnum = match read_be16(d) {
            Ok(v) => v,
            Err(e) => {
                return Err(e);
            },
        };
        let inner = match InnerBody::deserialize(d) {
            Ok(b) => b,
            Err(e) => {
                return Err(e);
            },
        };
        Ok(ReliableBody { seqnum, inner })
    }
}

/// Every encoded inner body starts with its kind tag, below 3.
proof fn lemma_inner_first_byte(v: InnerBody, ctx: ProtocolContext)
    ensures
        v.enc(ctx).len() >= 1,
        v.enc(ctx)[0] == 0 || v.enc(ctx)[0] == 1 || v.enc(ctx)[0] == 2,
{
    match v {
        InnerBody::Control(b) => {
            assert(v.enc(ctx)[0] == 0);
        },
        InnerBody::Original(b) => {
            assert(v.enc(ctx)[0] == 1);
        },
        InnerBody::Split(b) => {
            assert(v.enc(ctx)[0] == 2);
        },
    }
}

/// Either a reliable envelope or a bare inner body; the first byte tells
/// them apart.
#[derive(Debug, Clone, PartialEq, Eq)]
pub enum PacketBody {
    Reliable(ReliableBody),
    Inner(InnerBody),
}

impl PacketBody {
    pub fn inner(&self) -> (r: &InnerBody)
        ensures
            *r == self.spec_inner(),
    {
        match self {
            PacketBody::Reliable(body) => &body.inner,
            PacketBody::Inner(inner) => inner,
        }
    }

    /// The inner body, through the reliable envelope if there is one.
    pub open spec fn spec_inner(&self) -> InnerBody {
        match self {
            PacketBody::Reliable(body) => body.inner,
            PacketBody::Inner(inner) => *inner,
        }
    }

    pub fn command_ref(&self) -> (r: Option<&Command>)
        ensures
            r matches Some(c) ==> self.spec_inner() matches InnerBody::Original(ob) && *c
                == ob.command,
            r is None <==> !(self.spec_inner() is Original),
    {
        self.inner().command_ref()
    }
}

impl Serialize for PacketBody {
    open spec fn enc(&self, ctx: ProtocolContext) -> Seq<u8> {
        match self {
            PacketBody::Reliable(body) => body.enc(ctx),
            PacketBody::Inner(inner) => inner.enc(ctx),
        }
    }

    open spec fn ser_wf(&self, ctx: ProtocolContext) -> bool {
        match self {
            PacketBody::Reliable(body) => body.ser_wf(ctx),
            PacketBody::Inner(inner) => inner.ser_wf(ctx),
        }
    }

    open spec fn eqv(&self, other: &Self) -> bool {
        match (self, other) {
            (PacketBody::Reliable(a), PacketBody::Reliable(b)) => a.eqv(b),
            (PacketBody::Inner(a), PacketBody::Inner(b)) => a.eqv(b),
            _ => false,
        }
    }

    fn serialize(&self, ser: &mut VecSerializer) -> (r: SerializeResult) {
        match self {
            PacketBody::Reliable(body) => body.serialize(ser),
            PacketBody::Inner(inner) => inner.serialize(ser),
        }
    }
}

impl Deserialize for PacketBody {
    open spec fn rt_wf(&self, ctx: ProtocolContext) -> bool {
        match self {
            PacketBody::Reliable(body) => body.rt_wf(ctx),
            PacketBody::Inner(inner) => inner.rt_wf(ctx),
        }
    }

    open spec fn prefix_safe() -> bool {
        false
    }

    fn deserialize(d: &mut Deserializer) -> (r: DeserializeResult<Self>) {
        let ghost ctx = d.ctx();
        let ghost input = d.rem();
        proof {
            assert forall|v: PacketBody, rest: Seq<u8>|
                (#[trigger] v.enc(ctx).add(rest)) == input && v.rt_wf(ctx) && rest.len()
                    == 0 implies input.len() >= 1 && match v {
                PacketBody::Reliable(b) => input[0] == 3 && b.enc(ctx).add(rest) == input,
                PacketBody::Inner(b) => input[0] != 3 && b.enc(ctx).add(rest) == input,
            } by {
                match v {
                    PacketBody::Reliable(b) => {
                        assert(b.enc(ctx).add(rest) == input);
                        assert(v.enc(ctx)[0] == 3);
                    },
                    PacketBody::Inner(b) => {
                        lemma_inner_first_byte(b, ctx);
                        assert(b.enc(ctx).add(rest) == input);
                        assert(input[0] == b.enc(ctx)[0]);
                    },
                }
            }
        }
        let first = match d.peek(1) {
            Ok(v) => v[0],
            Err(e) => {
                return Err(e);
            },
        };
        if first == 3 {
            match ReliableBody::deserialize(d) {
                Ok(b) => Ok(PacketBody::Reliable(b)),
                Err(e) => Err(e),
            }
        } else {
            match InnerBody::deserialize(d) {
                Ok(b) => Ok(PacketBody::Inner(b)),
                Err(e) => Err(e),
            }
        }
    }
}

/// The outer packet: protocol id, sender peer id, channel, then the body.
#[derive(Debug, Clone, PartialEq, Eq)]
pub struct Packet {
    pub protocol_id: u32,
    pub sender_peer_id: PeerId,
    pub channel: u8,
    pub body: PacketBody,
}

impl Packet {
    pub fn new(sender_peer_id: PeerId, channel: u8, body: PacketBody) -> (r: Self)
        ensures
            r == (Packet { protocol_id: PROTOCOL_ID, sender_peer_id, channel, body }),
    {
        Packet { protocol_id: PROTOCOL_ID, sender_peer_id, channel, body }
    }

    pub fn inner(&self) -> (r: &InnerBody)
        ensures
            *r == self.body.spec_inner(),
    {
        self.body.inner()
    }

    pub fn as_reliable(&self) -> (r: Option<&ReliableBody>)
        ensures
            r matches Some(rb) ==> self.body == PacketBody::Reliable(*rb),
            r is None <==> !(self.body is Reliable),
    {
        match &self.body {
            PacketBody::Reliable(rb) => Some(rb),
            PacketBody::Inner(_) => None,
        }
    }

    pub fn as_control(&self) -> (r: Option<&ControlBody>)
        ensures
            r matches Some(c) ==> self.body.spec_inner() == InnerBody::Control(*c),
            r is None <==> !(self.body.spec_inner() is Control),
    {
        match self.inner() {
            InnerBody::Control(control) => Some(control),
            InnerBody::Original(_) => None,
            InnerBody::Split(_) => None,
        }
    }
}

impl Serialize for Packet {
    open spec fn enc(&self, ctx: ProtocolContext) -> Seq<u8> {
        be32(self.protocol_id) + be16(self.sender_peer_id) + seq![self.channel] + self.body.enc(
            ctx)
    }

    open spec fn ser_wf(&self, ctx: ProtocolContext) -> bool {
        self.body.ser_wf(ctx)
    }

    open spec fn eqv(&self, other: &Self) -> bool {
        self.protocol_id == other.protocol_id && self.sender_peer_id == other.sender_peer_id
            && self.channel == other.channel && self.body.eqv(&other.body)
    }

    fn serialize(&self, ser: &mut VecSerializer) -> (r: SerializeResult) {
        write_be32(ser, self.protocol_id);
        write_be16(ser, self.sender_peer_id);
        ser.write_byte(self.channel);
        match self.body.serialize(ser) {
            Ok(_) => {},
            Err(e) => {
                return Err(e);
            },
        }
        assert(ser.out() =~= old(ser).out() + self.enc(old(ser).ctx()));
        Ok(())
    }
}

proof fn packet_reshape(ctx: ProtocolContext, input: Seq<u8>)
    ensures
        forall|v: Packet, rest: Seq<u8>|
            (#[trigger] v.enc(ctx).add(rest)) == input && v.rt_wf(ctx) && rest.len() == 0
                ==> input.len() >= 7 && be32(v.protocol_id).add(
                be16(v.sender_peer_id).add(seq![v.channel].add(v.body.enc(ctx).add(rest))))
                == input && be16(v.sender_peer_id).add(seq![v.channel].add(v.body.enc(ctx).add(
                rest))) == input.skip(4) && input[6] == v.channel && v.body.enc(ctx).add(rest)
                == input.skip(7) && seq![v.channel].add(v.body.enc(ctx).add(rest)).skip(1)
                == v.body.enc(ctx).add(rest),
{
    assert forall|v: Packet, rest: Seq<u8>|
        (#[trigger] v.enc(ctx).add(rest)) == input && v.rt_wf(ctx) && rest.len()
            == 0 implies input.len() >= 7 && be32(v.protocol_id).add(
        be16(v.sender_peer_id).add(seq![v.channel].add(v.body.enc(ctx).add(rest)))) == input
        && be16(v.sender_peer_id).add(seq![v.channel].add(v.body.enc(ctx).add(rest))) == input.skip(
        4) && input[6] == v.channel && v.body.enc(ctx).add(rest) == input.skip(7) && seq![
        v.channel,
    ].add(v.body.enc(ctx).add(rest)).skip(1) == v.body.enc(ctx).add(rest) by {
        assert(be32(v.protocol_id).add(be16(v.sender_peer_id).add(seq![v.channel].add(v.body.enc(
            ctx).add(rest)))) =~= v.enc(ctx).add(rest));
        assert(be16(v.sender_peer_id).add(seq![v.channel].add(v.body.enc(ctx).add(rest)))
            =~= input.skip(4));
        assert(v.body.enc(ctx).add(rest) =~= input.skip(7));
        assert(seq![v.channel].add(v.body.enc(ctx).add(rest)).skip(1) =~= v.body.enc(ctx).add(
            rest));
    }
}

impl Deserialize for Packet {
    /// A packet round-trips when it carries the protocol id, a channel in
    /// 0..=2, and a round-trippable body.
    open spec fn rt_wf(&self, ctx: ProtocolContext) -> bool {
        self.protocol_id == PROTOCOL_ID && self.channel <= 2 && self.body.rt_wf(ctx)
    }

    open spec fn prefix_safe() -> bool {
        false
    }

    /// Beyond the round trip: a frame that does not open with the protocol
    /// id is classified as such, and a channel byte above 2 likewise, both
    /// before any of the body is decoded.
    fn deserialize(d: &mut Deserializer) -> (r: DeserializeResult<Self>)
        ensures
            forall|w: u32, rest: Seq<u8>|
                (#[trigger] be32(w).add(rest)) == old(d).rem() && w != PROTOCOL_ID ==> r
                    == DeserializeResult::<Packet>::Err(DeserializeError::InvalidProtocolId(w)),
            forall|w: u32, rest: Seq<u8>|
                (#[trigger] be32(w).add(rest)) == old(d).rem() && w == PROTOCOL_ID && rest.len()
                    >= 3 && rest[2] > 2 ==> r == DeserializeResult::<Packet>::Err(
                    DeserializeError::InvalidChannel(rest[2]),
                ),
    {
        let ghost ctx = d.ctx();
        let ghost input = d.rem();
        proof {
            packet_reshape(ctx, input);
        }
        let protocol_id = match read_be32(d) {
            Ok(v) => v,
            Err(e) => {
                return Err(e);
            },
        };
        if protocol_id != PROTOCOL_ID {
            return Err(DeserializeError::InvalidProtocolId(protocol_id));
        }
        let sender_peer_id = match read_be16(d) {
            Ok(v) => v,
            Err(e) => {
                return Err(e);
            },
        };
        let channel = match d.take_byte() {
            Ok(v) => v,
            Err(e) => {
                return Err(e);
            },
        };
        proof {
            assert forall|w: u32, rest: Seq<u8>|
                (#[trigger] be32(w).add(rest)) == input && w == PROTOCOL_ID && rest.len()
                    >= 3 implies channel == rest[2] by {
                assert(rest =~= input.skip(4));
            }
        }
        if channel > 2 {
            return Err(DeserializeError::InvalidChannel(channel));
        }
        let body = match PacketBody::deserialize(d) {
            Ok(b) => b,
            Err(e) => {
                return Err(e);
            },
        };
        Ok(Packet { protocol_id, sender_peer_id, channel, body })
    }
}

} // verus!
