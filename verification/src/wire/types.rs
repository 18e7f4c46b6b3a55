//! Data types used inside commands and packets, with their codecs.
//!
//! All multi-byte integers are big-endian. The order of fields inside a
//! struct determines the order in which they are serialized, so each `enc`
//! spec function is the concatenation of its fields' encodings in order.

use vstd::prelude::*;

use crate::wire::deser::Deserialize;
use crate::wire::deser::DeserializeError;
use crate::wire::deser::DeserializeResult;
use crate::wire::deser::Deserializer;
use crate::wire::packet::LATEST_PROTOCOL_VERSION;
use crate::wire::packet::SER_FMT_HIGHEST_READ;
use crate::wire::ser::Serialize;
use crate::wire::ser::SerializeError;
use crate::wire::ser::SerializeResult;
use crate::wire::ser::VecSerializer;

verus! {

#[allow(non_camel_case_types)]
pub type s8 = i8;

#[allow(non_camel_case_types)]
pub type s16 = i16;

#[allow(non_camel_case_types)]
pub type s32 = i32;

/// Which opcode table a command belongs to.
#[derive(Debug, Clone, Copy, PartialEq, Eq, Structural)]
pub enum CommandDirection {
    ToClient,
    ToServer,
}

impl CommandDirection {
    pub open spec fn spec_for_send(remote_is_server: bool) -> CommandDirection {
        if remote_is_server {
            CommandDirection::ToServer
        } else {
            CommandDirection::ToClient
        }
    }

    pub fn for_send(remote_is_server: bool) -> (r: Self)
        ensures
            r == CommandDirection::spec_for_send(remote_is_server),
    {
        if remote_is_server {
            CommandDirection::ToServer
        } else {
            CommandDirection::ToClient
        }
    }

    pub fn for_receive(remote_is_server: bool) -> (r: Self)
        ensures
            r == CommandDirection::spec_for_send(!remote_is_server),
    {
        Self::for_send(remote_is_server).flip()
    }

    pub fn flip(&self) -> (r: Self)
        ensures
            r != *self,
    {
        match self {
            CommandDirection::ToClient => CommandDirection::ToServer,
            CommandDirection::ToServer => CommandDirection::ToClient,
        }
    }
}

/// The small value threaded through every codec call: direction plus the
/// negotiated protocol version and map serialization format.
#[derive(Debug, Clone, Copy, PartialEq, Eq, Structural)]
pub struct ProtocolContext {
    pub dir: CommandDirection,
    pub protocol_version: u16,
    pub ser_fmt: u8,
}

impl ProtocolContext {
    pub fn latest_for_receive(remote_is_server: bool) -> (r: Self)
        ensures
            r.dir == CommandDirection::spec_for_send(!remote_is_server),
            r.protocol_version == LATEST_PROTOCOL_VERSION,
            r.ser_fmt == SER_FMT_HIGHEST_READ,
    {
        ProtocolContext {
            dir: CommandDirection::for_receive(remote_is_server),
            protocol_version: LATEST_PROTOCOL_VERSION,
            ser_fmt: SER_FMT_HIGHEST_READ,
        }
    }

    pub fn latest_for_send(remote_is_server: bool) -> (r: Self)
        ensures
            r.dir == CommandDirection::spec_for_send(remote_is_server),
            r.protocol_version == LATEST_PROTOCOL_VERSION,
            r.ser_fmt == SER_FMT_HIGHEST_READ,
    {
        ProtocolContext {
            dir: CommandDirection::for_send(remote_is_server),
            protocol_version: LATEST_PROTOCOL_VERSION,
            ser_fmt: SER_FMT_HIGHEST_READ,
        }
    }
}

// Big-endian encodings of the fixed-width integers.
pub open spec fn be16(v: u16) -> Seq<u8> {
    seq![(v / 0x100) as u8, (v % 0x100) as u8]
}

pub open spec fn be32(v: u32) -> Seq<u8> {
    seq![
        (v / 0x1000000) as u8,
        ((v / 0x10000) % 0x100) as u8,
        ((v / 0x100) % 0x100) as u8,
        (v % 0x100) as u8,
    ]
}

pub open spec fn be64(v: u64) -> Seq<u8> {
    be32((v / 0x100000000) as u32) + be32((v % 0x100000000) as u32)
}

/// Arbitrary binary data as a value: Minetest "strings" may hold bytes that
/// are not UTF-8, and several textual sub-formats operate on raw bytes.
/// On the wire a `ByteString` value is a 16-bit length prefix followed by a
/// UTF-8 payload, exactly as the reference protocol's string fields.
#[verifier::ext_equal]
#[derive(Debug, Clone, PartialEq, Eq)]
pub struct ByteString(pub Vec<u8>);

impl ByteString {
    pub fn as_bytes(&self) -> (r: &Vec<u8>)
        ensures
            r@ == self.0@,
    {
        &self.0
    }

    pub fn len(&self) -> (r: usize)
        ensures
            r == self.0@.len(),
    {
        self.0.len()
    }

    pub fn is_empty(&self) -> (r: bool)
        ensures
            r == (self.0@.len() == 0),
    {
        self.0.len() == 0
    }
}

impl Serialize for ByteString {
    open spec fn enc(&self, ctx: ProtocolContext) -> Seq<u8> {
        be16(self.0@.len() as u16) + self.0@
    }

    open spec fn ser_wf(&self, ctx: ProtocolContext) -> bool {
        self.0@.len() <= 0xFFFF && crate::wire::util::utf8_ok(self.0@)
    }

    open spec fn eqv(&self, other: &Self) -> bool {
        self.0@ == other.0@
    }

    fn serialize(&self, ser: &mut VecSerializer) -> (r: SerializeResult) {
        if self.0.len() > 0xFFFF {
            return Err(SerializeError::InvalidValue);
        }
        if !crate::wire::util::is_utf8(self.0.as_slice()) {
            return Err(SerializeError::InvalidValue);
        }
        let n: u16 = self.0.len() as u16;
        write_be16(ser, n);
        ser.write_vec(&self.0);
        assert(ser.out() =~= old(ser).out() + self.enc(old(ser).ctx()));
        Ok(())
    }
}

impl Deserialize for ByteString {
    open spec fn rt_wf(&self, ctx: ProtocolContext) -> bool {
        self.ser_wf(ctx)
    }

    open spec fn prefix_safe() -> bool {
        true
    }

    fn deserialize(d: &mut Deserializer) -> (r: DeserializeResult<Self>) {
        let ghost ctx = d.ctx();
        let ghost input = d.rem();
        proof {
            bytestring_reshape(ctx, input);
        }
        let bytes = match read_len16_bytes(d) {
            Ok(b) => b,
            Err(e) => {
                return Err(e);
            },
        };
        if !crate::wire::util::is_utf8(bytes.as_slice()) {
            return Err(DeserializeError::InvalidValue);
        }
        let r = ByteString(bytes);
        proof {
            assert forall|v: ByteString, rest: Seq<u8>|
                (#[trigger] v.enc(ctx).add(rest)) == input && v.rt_wf(ctx) implies v.eqv(&r)
                && d.rem() == rest by {
                assert(bytes@ == v.0@);
            }
        }
        Ok(r)
    }
}

/// Restates a byte string's encoding in the shape `read_len16_bytes` speaks
/// of, so that its contract applies.
proof fn bytestring_reshape(ctx: ProtocolContext, input: Seq<u8>)
    ensures
        forall|v: ByteString, rest: Seq<u8>|
            (#[trigger] v.enc(ctx).add(rest)) == input && v.rt_wf(ctx) ==> be16(
                v.0@.len() as u16).add(v.0@.add(rest)) == input,
{
    assert forall|v: ByteString, rest: Seq<u8>|
        (#[trigger] v.enc(ctx).add(rest)) == input && v.rt_wf(ctx) implies be16(
        v.0@.len() as u16).add(v.0@.add(rest)) == input by {
        assert(be16(v.0@.len() as u16).add(v.0@.add(rest)) =~= v.enc(ctx).add(rest));
    }
}

/// Read a 16-bit length prefix, then that many bytes.
pub fn read_len16_bytes(d: &mut Deserializer) -> (r: DeserializeResult<Vec<u8>>)
    requires
        old(d).wf(),
    ensures
        final(d).wf(),
        final(d).ctx() == old(d).ctx(),
        final(d).rem().len() <= old(d).rem().len(),
        r matches Ok(v) ==> v@.len() <= 0xFFFF,
        forall|b: Seq<u8>, rest: Seq<u8>|
            b.len() <= 0xFFFF && (#[trigger] be16(b.len() as u16).add(b.add(rest))) == old(d).rem()
                ==> (r matches Ok(v) && v@ == b && final(d).rem() == rest),
{
    let ghost input = d.rem();
    let n = match read_be16(d) {
        Ok(n) => n,
        Err(e) => {
            return Err(e);
        },
    };
    match d.take(n as usize) {
        Ok(bytes) => {
            proof {
                assert forall|b: Seq<u8>, rest: Seq<u8>|
                    b.len() <= 0xFFFF && (#[trigger] be16(b.len() as u16).add(b.add(rest)))
                        == input implies bytes@ == b && d.rem() == rest by {
                    assert(n == b.len());
                    assert(b.add(rest).take(b.len() as int) =~= b);
                    assert(b.add(rest).skip(b.len() as int) =~= rest);
                }
            }
            Ok(bytes)
        },
        Err(e) => {
            proof {
                assert forall|b: Seq<u8>, rest: Seq<u8>|
                    b.len() <= 0xFFFF && (#[trigger] be16(b.len() as u16).add(b.add(rest)))
                        == input implies false by {
                    assert(n == b.len());
                }
            }
            Err(e)
        },
    }
}

/// Read a 32-bit length prefix, then that many bytes.
pub fn read_len32_bytes(d: &mut Deserializer) -> (r: DeserializeResult<Vec<u8>>)
    requires
        old(d).wf(),
    ensures
        final(d).wf(),
        final(d).ctx() == old(d).ctx(),
        final(d).rem().len() <= old(d).rem().len(),
        r matches Ok(v) ==> v@.len() <= 0xFFFFFFFF,
        forall|b: Seq<u8>, rest: Seq<u8>|
            b.len() <= 0xFFFFFFFF && (#[trigger] be32(b.len() as u32).add(b.add(rest))) == old(
                d).rem() ==> (r matches Ok(v) && v@ == b && final(d).rem() == rest),
{
    let ghost input = d.rem();
    let n = match read_be32(d) {
        Ok(n) => n,
        Err(e) => {
            return Err(e);
        },
    };
    if n as usize > usize::MAX as usize {
        return Err(DeserializeError::Eof);
    }
    match d.take(n as usize) {
        Ok(bytes) => {
            proof {
                assert forall|b: Seq<u8>, rest: Seq<u8>|
                    b.len() <= 0xFFFFFFFF && (#[trigger] be32(b.len() as u32).add(b.add(rest)))
                        == input implies bytes@ == b && d.rem() == rest by {
                    assert(n == b.len());
                    assert(b.add(rest).take(b.len() as int) =~= b);
                    assert(b.add(rest).skip(b.len() as int) =~= rest);
                }
            }
            Ok(bytes)
        },
        Err(e) => {
            proof {
                assert forall|b: Seq<u8>, rest: Seq<u8>|
                    b.len() <= 0xFFFFFFFF && (#[trigger] be32(b.len() as u32).add(b.add(rest)))
                        == input implies false by {
                    assert(n == b.len());
                }
            }
            Err(e)
        },
    }
}

/// Append a 16-bit length prefix, then the bytes themselves.
pub fn write_len16_bytes(ser: &mut VecSerializer, b: &Vec<u8>) -> (r: SerializeResult)
    ensures
        final(ser).ctx() == old(ser).ctx(),
        r is Ok <==> b@.len() <= 0xFFFF,
        r is Ok ==> final(ser).out() == old(ser).out() + be16(b@.len() as u16) + b@,
{
    if b.len() > 0xFFFF {
        return Err(SerializeError::InvalidValue);
    }
    write_be16(ser, b.len() as u16);
    ser.write_vec(b);
    Ok(())
}

/// Append a 32-bit length prefix, then the bytes themselves.
pub fn write_len32_bytes(ser: &mut VecSerializer, b: &Vec<u8>) -> (r: SerializeResult)
    ensures
        final(ser).ctx() == old(ser).ctx(),
        r is Ok <==> b@.len() <= 0xFFFFFFFF,
        r is Ok ==> final(ser).out() == old(ser).out() + be32(b@.len() as u32) + b@,
{
    if b.len() as u64 > 0xFFFFFFFFu64 {
        return Err(SerializeError::InvalidValue);
    }
    write_be32(ser, b.len() as u32);
    ser.write_vec(b);
    Ok(())
}

// ---------------------------------------------------------------------------
// Primitive codecs
// ---------------------------------------------------------------------------

pub fn write_be16(ser: &mut VecSerializer, v: u16)
    ensures
        final(ser).out() == old(ser).out() + be16(v),
        final(ser).ctx() == old(ser).ctx(),
{
    ser.write_byte((v / 0x100) as u8);
    ser.write_byte((v % 0x100) as u8);
    assert(ser.out() =~= old(ser).out() + be16(v));
}

pub fn write_be32(ser: &mut VecSerializer, v: u32)
    ensures
        final(ser).out() == old(ser).out() + be32(v),
        final(ser).ctx() == old(ser).ctx(),
{
    ser.write_byte((v / 0x1000000) as u8);
    ser.write_byte(((v / 0x10000) % 0x100) as u8);
    ser.write_byte(((v / 0x100) % 0x100) as u8);
    ser.write_byte((v % 0x100) as u8);
    assert(ser.out() =~= old(ser).out() + be32(v));
}

pub fn write_be64(ser: &mut VecSerializer, v: u64)
    ensures
        final(ser).out() == old(ser).out() + be64(v),
        final(ser).ctx() == old(ser).ctx(),
{
    write_be32(ser, (v / 0x100000000) as u32);
    write_be32(ser, (v % 0x100000000) as u32);
    assert(ser.out() =~= old(ser).out() + be64(v));
}

/// The two bytes of `be16(v)` determine `v`.
pub proof fn lemma_be16_inj(v: u16)
    ensures
        be16(v).len() == 2,
        (be16(v)[0] as u16) * 0x100 + (be16(v)[1] as u16) == v,
{
}

pub proof fn lemma_be32_inj(v: u32)
    ensures
        be32(v).len() == 4,
        (be32(v)[0] as u32) * 0x1000000 + (be32(v)[1] as u32) * 0x10000 + (be32(v)[2] as u32)
            * 0x100 + (be32(v)[3] as u32) == v,
{
    assert((v / 0x1000000) * 0x1000000 + ((v / 0x10000) % 0x100) * 0x10000 + ((v / 0x100) % 0x100)
        * 0x100 + (v % 0x100) == v) by (nonlinear_arith);
}

pub fn read_be16(d: &mut Deserializer) -> (r: DeserializeResult<u16>)
    requires
        old(d).wf(),
    ensures
        final(d).wf(),
        final(d).ctx() == old(d).ctx(),
        old(d).rem().len() >= 2 ==> (r matches Ok(v) && be16(v) == old(d).rem().take(2) && final(
            d).rem() == old(d).rem().skip(2)),
        old(d).rem().len() < 2 ==> r == DeserializeResult::<u16>::Err(DeserializeError::Eof)
            && *final(d) == *old(d),
        final(d).rem().len() <= old(d).rem().len(),
        forall|v: u16, rest: Seq<u8>|
            (#[trigger] be16(v).add(rest)) == old(d).rem() ==> (r matches Ok(w) && w == v
                && final(d).rem() == rest),
{
    if self_rem_at_least(d, 2) {
        let b0 = match d.take_byte() {
            Ok(b) => b,
            Err(e) => {
                return Err(e);
            },
        };
        let b1 = match d.take_byte() {
            Ok(b) => b,
            Err(e) => {
                return Err(e);
            },
        };
        let v: u16 = (b0 as u16) * 0x100 + (b1 as u16);
        proof {
            assert(old(d).rem().skip(1).skip(1) =~= old(d).rem().skip(2));
            assert(be16(v) =~= old(d).rem().take(2));
            assert forall|w: u16, rest: Seq<u8>| (#[trigger] be16(w).add(rest)) == old(
                d).rem() implies v == w && d.rem() == rest by {
                lemma_be16_inj(w);
                assert(rest =~= old(d).rem().skip(2));
            }
        }
        Ok(v)
    } else {
        proof {
            assert forall|w: u16, rest: Seq<u8>| (#[trigger] be16(w).add(rest)) != old(
                d).rem() by {
                lemma_be16_inj(w);
            }
        }
        Err(DeserializeError::Eof)
    }
}

/// Whether at least `n` bytes remain (a plain helper for the readers).
fn self_rem_at_least(d: &Deserializer, n: usize) -> (r: bool)
    requires
        d.wf(),
    ensures
        r == (d.rem().len() >= n),
{
    d.data.len() - d.pos >= n
}

#[verifier::rlimit(50)]
pub fn read_be32(d: &mut Deserializer) -> (r: DeserializeResult<u32>)
    requires
        old(d).wf(),
    ensures
        final(d).wf(),
        final(d).ctx() == old(d).ctx(),
        old(d).rem().len() >= 4 ==> (r matches Ok(v) && be32(v) == old(d).rem().take(4) && final(
            d).rem() == old(d).rem().skip(4)),
        old(d).rem().len() < 4 ==> r == DeserializeResult::<u32>::Err(DeserializeError::Eof)
            && *final(d) == *old(d),
        final(d).rem().len() <= old(d).rem().len(),
        forall|v: u32, rest: Seq<u8>|
            (#[trigger] be32(v).add(rest)) == old(d).rem() ==> (r matches Ok(w) && w == v
                && final(d).rem() == rest),
{
    if self_rem_at_least(d, 4) {
        let bytes = match d.take(4) {
            Ok(b) => b,
            Err(e) => {
                return Err(e);
            },
        };
        let v: u32 = (bytes[0] as u32) * 0x1000000 + (bytes[1] as u32) * 0x10000 + (bytes[2] as u32)
            * 0x100 + (bytes[3] as u32);
        proof {
            lemma_be32_inj(v);
            assert(be32(v) =~= old(d).rem().take(4));
            assert forall|w: u32, rest: Seq<u8>| (#[trigger] be32(w).add(rest)) == old(
                d).rem() implies v == w && d.rem() == rest by {
                lemma_be32_inj(w);
                assert(rest =~= old(d).rem().skip(4));
            }
        }
        Ok(v)
    } else {
        proof {
            assert forall|w: u32, rest: Seq<u8>| (#[trigger] be32(w).add(rest)) != old(
                d).rem() by {
                lemma_be32_inj(w);
            }
        }
        Err(DeserializeError::Eof)
    }
}

#[verifier::rlimit(50)]
pub fn read_be64(d: &mut Deserializer) -> (r: DeserializeResult<u64>)
    requires
        old(d).wf(),
    ensures
        final(d).wf(),
        final(d).ctx() == old(d).ctx(),
        old(d).rem().len() >= 8 ==> (r matches Ok(v) && be64(v) == old(d).rem().take(8) && final(
            d).rem() == old(d).rem().skip(8)),
        old(d).rem().len() < 8 ==> r == DeserializeResult::<u64>::Err(DeserializeError::Eof)
            && *final(d) == *old(d),
        final(d).rem().len() <= old(d).rem().len(),
        forall|v: u64, rest: Seq<u8>|
            (#[trigger] be64(v).add(rest)) == old(d).rem() ==> (r matches Ok(w) && w == v
                && final(d).rem() == rest),
{
    if self_rem_at_least(d, 8) {
        let hi = match read_be32(d) {
            Ok(v) => v,
            Err(e) => {
                return Err(e);
            },
        };
        let lo = match read_be32(d) {
            Ok(v) => v,
            Err(e) => {
                return Err(e);
            },
        };
        let v: u64 = (hi as u64) * 0x100000000 + (lo as u64);
        proof {
            assert(v / 0x100000000 == hi as u64 && v % 0x100000000 == lo as u64)
                by (nonlinear_arith)
                requires v == (hi as u64) * 0x100000000 + (lo as u64), lo < 0x100000000u64;
            assert(be64(v) =~= old(d).rem().take(8)) by {
                assert(be32(hi) == old(d).rem().take(4));
                assert(be32(lo) == old(d).rem().skip(4).take(4));
            }
            assert(d.rem() =~= old(d).rem().skip(8));
            assert forall|w: u64, rest: Seq<u8>| (#[trigger] be64(w).add(rest)) == old(
                d).rem() implies v == w && d.rem() == rest by {
                lemma_be64_inj(w);
                lemma_be64_inj(v);
                assert(be64(w).len() == 8);
                assert(be64(w) =~= old(d).rem().take(8));
                assert(rest =~= old(d).rem().skip(8));
            }
        }
        Ok(v)
    } else {
        proof {
            assert forall|w: u64, rest: Seq<u8>| (#[trigger] be64(w).add(rest)) != old(
                d).rem() by {
                lemma_be64_inj(w);
            }
        }
        Err(DeserializeError::Eof)
    }
}

pub proof fn lemma_be64_inj(v: u64)
    ensures
        be64(v).len() == 8,
        forall|w: u64| #[trigger] be64(w) == be64(v) ==> w == v,
{
    assert forall|w: u64| #[trigger] be64(w) == be64(v) implies w == v by {
        lemma_be32_inj((v / 0x100000000) as u32);
        lemma_be32_inj((v % 0x100000000) as u32);
        lemma_be32_inj((w / 0x100000000) as u32);
        lemma_be32_inj((w % 0x100000000) as u32);
        assert(be64(w)[0] == be64(v)[0] && be64(w)[1] == be64(v)[1] && be64(w)[2] == be64(v)[2]
            && be64(w)[3] == be64(v)[3]);
        assert(be32((w / 0x100000000) as u32) =~= be64(v).take(4));
        assert(be32((v / 0x100000000) as u32) =~= be64(v).take(4));
        assert(be32((w % 0x100000000) as u32) =~= be64(v).skip(4));
        assert(be32((v % 0x100000000) as u32) =~= be64(v).skip(4));
        assert(w / 0x100000000 == v / 0x100000000 && w % 0x100000000 == v % 0x100000000);
        assert(w == v) by (nonlinear_arith)
            requires
                w / 0x100000000 == v / 0x100000000,
                w % 0x100000000 == v % 0x100000000,
        ;
    }
}


// ---------------------------------------------------------------------------
// Wire impls of the fixed-width primitives
// ---------------------------------------------------------------------------

impl Serialize for u8 {
    open spec fn enc(&self, ctx: ProtocolContext) -> Seq<u8> {
        seq![*self]
    }

    open spec fn ser_wf(&self, ctx: ProtocolContext) -> bool {
        true
    }

    open spec fn eqv(&self, other: &Self) -> bool {
        self == other
    }

    fn serialize(&self, ser: &mut VecSerializer) -> (r: SerializeResult) {
        ser.write_byte(*self);
        assert(ser.out() =~= old(ser).out() + self.enc(old(ser).ctx()));
        Ok(())
    }
}

impl Deserialize for u8 {
    open spec fn rt_wf(&self, ctx: ProtocolContext) -> bool {
        true
    }

    open spec fn prefix_safe() -> bool {
        true
    }

    fn deserialize(d: &mut Deserializer) -> (r: DeserializeResult<Self>) {
        let ghost input = d.rem();
        let r = d.take_byte();
        proof {
            assert forall|v: u8, rest: Seq<u8>| (#[trigger] v.enc(old(d).ctx()).add(rest))
                == input implies input.len() >= 1 && input[0] == v && rest == input.skip(1) by {
                assert(rest =~= input.skip(1));
            }
        }
        r
    }
}

impl Serialize for bool {
    open spec fn enc(&self, ctx: ProtocolContext) -> Seq<u8> {
        seq![if *self { 1u8 } else { 0u8 }]
    }

    open spec fn ser_wf(&self, ctx: ProtocolContext) -> bool {
        true
    }

    open spec fn eqv(&self, other: &Self) -> bool {
        self == other
    }

    fn serialize(&self, ser: &mut VecSerializer) -> (r: SerializeResult) {
        let b: u8 = if *self {
            1
        } else {
            0
        };
        ser.write_byte(b);
        assert(ser.out() =~= old(ser).out() + self.enc(old(ser).ctx()));
        Ok(())
    }
}

impl Deserialize for bool {
    open spec fn rt_wf(&self, ctx: ProtocolContext) -> bool {
        true
    }

    open spec fn prefix_safe() -> bool {
        true
    }

    fn deserialize(d: &mut Deserializer) -> (r: DeserializeResult<Self>) {
        let ghost input = d.rem();
        proof {
            assert forall|v: bool, rest: Seq<u8>| (#[trigger] v.enc(old(d).ctx()).add(rest))
                == input implies input.len() >= 1 && input[0] == (if v { 1u8 } else { 0u8 })
                && rest == input.skip(1) by {
                assert(rest =~= input.skip(1));
            }
        }
        let b = match d.take_byte() {
            Ok(b) => b,
            Err(e) => {
                return Err(e);
            },
        };
        match b {
            0 => Ok(false),
            1 => Ok(true),
            _ => Err(DeserializeError::InvalidValue),
        }
    }
}

impl Serialize for u16 {
    open spec fn enc(&self, ctx: ProtocolContext) -> Seq<u8> {
        be16(*self)
    }

    open spec fn ser_wf(&self, ctx: ProtocolContext) -> bool {
        true
    }

    open spec fn eqv(&self, other: &Self) -> bool {
        self == other
    }

    fn serialize(&self, ser: &mut VecSerializer) -> (r: SerializeResult) {
        write_be16(ser, *self);
        Ok(())
    }
}

impl Deserialize for u16 {
    open spec fn rt_wf(&self, ctx: ProtocolContext) -> bool {
        true
    }

    open spec fn prefix_safe() -> bool {
        true
    }

    fn deserialize(d: &mut Deserializer) -> (r: DeserializeResult<Self>) {
        read_be16(d)
    }
}

impl Serialize for u32 {
    open spec fn enc(&self, ctx: ProtocolContext) -> Seq<u8> {
        be32(*self)
    }

    open spec fn ser_wf(&self, ctx: ProtocolContext) -> bool {
        true
    }

    open spec fn eqv(&self, other: &Self) -> bool {
        self == other
    }

    fn serialize(&self, ser: &mut VecSerializer) -> (r: SerializeResult) {
        write_be32(ser, *self);
        Ok(())
    }
}

impl Deserialize for u32 {
    open spec fn rt_wf(&self, ctx: ProtocolContext) -> bool {
        true
    }

    open spec fn prefix_safe() -> bool {
        true
    }

    fn deserialize(d: &mut Deserializer) -> (r: DeserializeResult<Self>) {
        read_be32(d)
    }
}

impl Serialize for u64 {
    open spec fn enc(&self, ctx: ProtocolContext) -> Seq<u8> {
        be64(*self)
    }

    open spec fn ser_wf(&self, ctx: ProtocolContext) -> bool {
        true
    }

    open spec fn eqv(&self, other: &Self) -> bool {
        self == other
    }

    fn serialize(&self, ser: &mut VecSerializer) -> (r: SerializeResult) {
        write_be64(ser, *self);
        Ok(())
    }
}

impl Deserialize for u64 {
    open spec fn rt_wf(&self, ctx: ProtocolContext) -> bool {
        true
    }

    open spec fn prefix_safe() -> bool {
        true
    }

    fn deserialize(d: &mut Deserializer) -> (r: DeserializeResult<Self>) {
        read_be64(d)
    }
}

/// A signed value is carried as its unsigned two's-complement bits.
pub proof fn lemma_i8_bits(v: i8)
    ensures
        (v as u8) as i8 == v,
        forall|w: i8| #[trigger] (w as u8) == (v as u8) ==> w == v,
{
    assert((v as u8) as i8 == v) by (bit_vector);
    assert forall|w: i8| #[trigger] (w as u8) == (v as u8) implies w == v by {
        assert((w as u8) == (v as u8) ==> w == v) by (bit_vector);
    }
}

pub proof fn lemma_i16_bits(v: i16)
    ensures
        (v as u16) as i16 == v,
        forall|w: i16| #[trigger] (w as u16) == (v as u16) ==> w == v,
{
    assert((v as u16) as i16 == v) by (bit_vector);
    assert forall|w: i16| #[trigger] (w as u16) == (v as u16) implies w == v by {
        assert((w as u16) == (v as u16) ==> w == v) by (bit_vector);
    }
}

pub proof fn lemma_i32_bits(v: i32)
    ensures
        (v as u32) as i32 == v,
        forall|w: i32| #[trigger] (w as u32) == (v as u32) ==> w == v,
{
    assert((v as u32) as i32 == v) by (bit_vector);
    assert forall|w: i32| #[trigger] (w as u32) == (v as u32) implies w == v by {
        assert((w as u32) == (v as u32) ==> w == v) by (bit_vector);
    }
}

impl Serialize for i8 {
    open spec fn enc(&self, ctx: ProtocolContext) -> Seq<u8> {
        seq![*self as u8]
    }

    open spec fn ser_wf(&self, ctx: ProtocolContext) -> bool {
        true
    }

    open spec fn eqv(&self, other: &Self) -> bool {
        self == other
    }

    fn serialize(&self, ser: &mut VecSerializer) -> (r: SerializeResult) {
        ser.write_byte(*self as u8);
        assert(ser.out() =~= old(ser).out() + self.enc(old(ser).ctx()));
        Ok(())
    }
}

impl Deserialize for i8 {
    open spec fn rt_wf(&self, ctx: ProtocolContext) -> bool {
        true
    }

    open spec fn prefix_safe() -> bool {
        true
    }

    fn deserialize(d: &mut Deserializer) -> (r: DeserializeResult<Self>) {
        let ghost input = d.rem();
        let b = match d.take_byte() {
            Ok(b) => b,
            Err(e) => {
                return Err(e);
            },
        };
        let v = b as i8;
        proof {
            assert forall|w: i8, rest: Seq<u8>| (#[trigger] w.enc(old(d).ctx()).add(rest))
                == input implies w == v && d.rem() == rest by {
                lemma_i8_bits(w);
                lemma_i8_bits(v);
                assert(rest =~= input.skip(1));
            }
        }
        Ok(v)
    }
}

impl Serialize for i16 {
    open spec fn enc(&self, ctx: ProtocolContext) -> Seq<u8> {
        be16(*self as u16)
    }

    open spec fn ser_wf(&self, ctx: ProtocolContext) -> bool {
        true
    }

    open spec fn eqv(&self, other: &Self) -> bool {
        self == other
    }

    fn serialize(&self, ser: &mut VecSerializer) -> (r: SerializeResult) {
        write_be16(ser, *self as u16);
        Ok(())
    }
}

impl Deserialize for i16 {
    open spec fn rt_wf(&self, ctx: ProtocolContext) -> bool {
        true
    }

    open spec fn prefix_safe() -> bool {
        true
    }

    fn deserialize(d: &mut Deserializer) -> (r: DeserializeResult<Self>) {
        let ghost input = d.rem();
        let b = match read_be16(d) {
            Ok(b) => b,
            Err(e) => {
                return Err(e);
            },
        };
        let v = b as i16;
        proof {
            assert forall|w: i16, rest: Seq<u8>| (#[trigger] w.enc(old(d).ctx()).add(rest))
                == input implies w == v && d.rem() == rest by {
                lemma_i16_bits(w);
                lemma_i16_bits(v);
            }
        }
        Ok(v)
    }
}

impl Serialize for i32 {
    open spec fn enc(&self, ctx: ProtocolContext) -> Seq<u8> {
        be32(*self as u32)
    }

    open spec fn ser_wf(&self, ctx: ProtocolContext) -> bool {
        true
    }

    open spec fn eqv(&self, other: &Self) -> bool {
        self == other
    }

    fn serialize(&self, ser: &mut VecSerializer) -> (r: SerializeResult) {
        write_be32(ser, *self as u32);
        Ok(())
    }
}

impl Deserialize for i32 {
    open spec fn rt_wf(&self, ctx: ProtocolContext) -> bool {
        true
    }

    open spec fn prefix_safe() -> bool {
        true
    }

    fn deserialize(d: &mut Deserializer) -> (r: DeserializeResult<Self>) {
        let ghost input = d.rem();
        let b = match read_be32(d) {
            Ok(b) => b,
            Err(e) => {
                return Err(e);
            },
        };
        let v = b as i32;
        proof {
            assert forall|w: i32, rest: Seq<u8>| (#[trigger] w.enc(old(d).ctx()).add(rest))
                == input implies w == v && d.rem() == rest by {
                lemma_i32_bits(w);
                lemma_i32_bits(v);
            }
        }
        Ok(v)
    }
}

/// An IEEE-754 single-precision value carried by its raw bits: the codec is
/// bit-exact and does no floating-point arithmetic.
#[allow(non_camel_case_types)]
#[derive(Debug, Clone, Copy, PartialEq, Eq, Structural)]
pub struct f32bits {
    pub bits: u32,
}

impl Serialize for f32bits {
    open spec fn enc(&self, ctx: ProtocolContext) -> Seq<u8> {
        be32(self.bits)
    }

    open spec fn ser_wf(&self, ctx: ProtocolContext) -> bool {
        true
    }

    open spec fn eqv(&self, other: &Self) -> bool {
        self == other
    }

    fn serialize(&self, ser: &mut VecSerializer) -> (r: SerializeResult) {
        write_be32(ser, self.bits);
        Ok(())
    }
}

impl Deserialize for f32bits {
    open spec fn rt_wf(&self, ctx: ProtocolContext) -> bool {
        true
    }

    open spec fn prefix_safe() -> bool {
        true
    }

    fn deserialize(d: &mut Deserializer) -> (r: DeserializeResult<Self>) {
        let b = match read_be32(d) {
            Ok(b) => b,
            Err(e) => {
                return Err(e);
            },
        };
        Ok(f32bits { bits: b })
    }
}

// ---------------------------------------------------------------------------
// Generic list codec: items one after another, no count of its own.
// ---------------------------------------------------------------------------

/// The concatenated encodings of a sequence of values.
pub open spec fn enc_list<T: Serialize>(s: Seq<T>, ctx: ProtocolContext) -> Seq<u8>
    decreases s.len(),
{
    if s.len() == 0 {
        Seq::empty()
    } else {
        s[0].enc(ctx) + enc_list(s.skip(1), ctx)
    }
}

pub open spec fn wf_list<T: Serialize>(s: Seq<T>, ctx: ProtocolContext) -> bool {
    forall|i: int| 0 <= i < s.len() ==> #[trigger] s[i].ser_wf(ctx)
}

/// Every value in the sequence survives a round trip.
pub open spec fn rt_list<T: Deserialize>(s: Seq<T>, ctx: ProtocolContext) -> bool {
    forall|i: int| 0 <= i < s.len() ==> #[trigger] s[i].rt_wf(ctx)
}

/// Elementwise value equivalence of two sequences.
pub open spec fn eqv_list<T: Serialize>(a: Seq<T>, b: Seq<T>) -> bool {
    a.len() == b.len() && forall|i: int| 0 <= i < a.len() ==> #[trigger] a[i].eqv(&b[i])
}

/// Peeling one element off the front of a list encoding.
pub proof fn lemma_enc_list_step<T: Serialize>(s: Seq<T>, ctx: ProtocolContext, i: int)
    requires
        0 <= i < s.len(),
    ensures
        enc_list(s.skip(i), ctx) == s[i].enc(ctx) + enc_list(s.skip(i + 1), ctx),
{
    assert(s.skip(i).len() > 0);
    assert(s.skip(i)[0] == s[i]);
    assert(s.skip(i).skip(1) =~= s.skip(i + 1));
}

/// Appending one element to the back of a list encoding.
pub proof fn lemma_enc_list_snoc<T: Serialize>(s: Seq<T>, ctx: ProtocolContext, x: T)
    ensures
        enc_list(s.push(x), ctx) == enc_list(s, ctx) + x.enc(ctx),
    decreases s.len(),
{
    if s.len() == 0 {
        assert(s.push(x).skip(1) =~= Seq::<T>::empty());
        assert(s.push(x)[0] == x);
        assert(enc_list(Seq::<T>::empty(), ctx) == Seq::<u8>::empty());
        assert(enc_list(s.push(x), ctx) =~= x.enc(ctx));
        assert(enc_list(s, ctx) + x.enc(ctx) =~= x.enc(ctx));
    } else {
        assert(s.push(x)[0] == s[0]);
        assert(s.push(x).skip(1) =~= s.skip(1).push(x));
        lemma_enc_list_snoc(s.skip(1), ctx, x);
        assert(enc_list(s.push(x), ctx) =~= enc_list(s, ctx) + x.enc(ctx));
    }
}

/// Serialize `items` one after another.
pub fn write_list<T: Serialize>(ser: &mut VecSerializer, items: &Vec<T>) -> (r: SerializeResult)
    ensures
        final(ser).ctx() == old(ser).ctx(),
        r is Ok <==> wf_list(items@, old(ser).ctx()),
        r is Ok ==> final(ser).out() == old(ser).out() + enc_list(items@, old(ser).ctx()),
{
    let ghost ctx = ser.ctx();
    let mut i: usize = 0;
    while i < items.len()
        invariant
            i <= items@.len(),
            ser.ctx() == ctx,
            ctx == old(ser).ctx(),
            forall|j: int| 0 <= j < i ==> #[trigger] items@[j].ser_wf(ctx),
            ser.out() == old(ser).out() + enc_list(items@.take(i as int), ctx),
        decreases items@.len() - i,
    {
        let ghost pre = ser.out();
        match items[i].serialize(ser) {
            Ok(_) => {},
            Err(e) => {
                return Err(e);
            },
        }
        proof {
            lemma_enc_list_snoc(items@.take(i as int), ctx, items@[i as int]);
            assert(items@.take(i as int).push(items@[i as int]) =~= items@.take(i + 1));
            assert(ser.out() =~= old(ser).out() + enc_list(items@.take(i + 1), ctx));
        }
        i = i + 1;
    }
    assert(items@.take(items@.len() as int) =~= items@);
    Ok(())
}

/// Decode exactly `n` values of `T`, one after another.
pub fn decode_list<T: Deserialize>(d: &mut Deserializer, n: usize) -> (r: DeserializeResult<
    Vec<T>,
>)
    requires
        old(d).wf(),
    ensures
        final(d).wf(),
        final(d).ctx() == old(d).ctx(),
        final(d).rem().len() <= old(d).rem().len(),
        r matches Ok(v) ==> v@.len() == n,
        forall|elems: Seq<T>, rest: Seq<u8>|
            elems.len() == n && rt_list(elems, old(d).ctx()) && T::prefix_safe() && (
            #[trigger] enc_list(elems, old(d).ctx()).add(rest)) == old(d).rem() ==> (r matches Ok(
                v,
            ) && eqv_list(elems, v@) && final(d).rem() == rest),
{
    let ghost ctx = d.ctx();
    let ghost input = d.rem();
    let mut acc: Vec<T> = Vec::new();
    let mut i: usize = 0;
    proof {
        assert forall|elems: Seq<T>, rest: Seq<u8>|
            elems.len() == n && rt_list(elems, ctx) && T::prefix_safe() && (#[trigger] enc_list(
            elems, ctx).add(rest)) == input implies eqv_list(elems.take(0), acc@) && d.rem()
            == enc_list(elems.skip(0), ctx).add(rest) by {
            assert(elems.take(0) =~= Seq::<T>::empty());
            assert(elems.skip(0) =~= elems);
        }
    }
    while i < n
        invariant
            d.wf(),
            d.ctx() == ctx,
            ctx == old(d).ctx(),
            i <= n,
            input == old(d).rem(),
            acc@.len() == i,
            d.rem().len() <= input.len(),
            forall|elems: Seq<T>, rest: Seq<u8>|
                elems.len() == n && rt_list(elems, ctx) && T::prefix_safe() && (
                #[trigger] enc_list(elems, ctx).add(rest)) == input ==> eqv_list(
                    elems.take(i as int),
                    acc@,
                ) && d.rem() == enc_list(elems.skip(i as int), ctx).add(rest),
        decreases n - i,
    {
        let ghost dpre = *d;
        let x = match T::deserialize(d) {
            Ok(x) => x,
            Err(e) => {
                proof {
                    assert forall|elems: Seq<T>, rest: Seq<u8>|
                        elems.len() == n && rt_list(elems, ctx) && T::prefix_safe() && (
                        #[trigger] enc_list(elems, ctx).add(rest)) == input implies false by {
                        lemma_enc_list_step(elems, ctx, i as int);
                        assert(elems[i as int].enc(ctx).add(
                            enc_list(elems.skip(i + 1), ctx).add(rest),
                        ) =~= enc_list(elems.skip(i as int), ctx).add(rest));
                        assert(elems[i as int].rt_wf(ctx));
                    }
                }
                return Err(e);
            },
        };
        acc.push(x);
        i = i + 1;
        proof {
            assert forall|elems: Seq<T>, rest: Seq<u8>|
                elems.len() == n && rt_list(elems, ctx) && T::prefix_safe() && (
                #[trigger] enc_list(elems, ctx).add(rest)) == input implies eqv_list(
                elems.take(i as int),
                acc@,
            ) && d.rem() == enc_list(elems.skip(i as int), ctx).add(rest) by {
                lemma_enc_list_step(elems, ctx, i - 1);
                assert(elems[i - 1].enc(ctx).add(enc_list(elems.skip(i as int), ctx).add(rest))
                    =~= enc_list(elems.skip(i - 1), ctx).add(rest));
                assert(elems[i - 1].rt_wf(ctx));
                assert(elems[i - 1].eqv(&x));
                assert(eqv_list(elems.take(i - 1), acc@.take(i - 1)));
                assert(acc@.take(i - 1).push(x) =~= acc@);
                assert(elems.take(i as int)[i - 1] == elems[i - 1]);
                assert forall|j: int| 0 <= j < i implies #[trigger] elems.take(i as int)[j].eqv(
                    &acc@[j],
                ) by {
                    if j < i - 1 {
                        assert(elems.take(i - 1)[j].eqv(&acc@.take(i - 1)[j]));
                    }
                }
            }
        }
    }
    proof {
        assert forall|elems: Seq<T>, rest: Seq<u8>|
            elems.len() == n && rt_list(elems, ctx) && T::prefix_safe() && (
            #[trigger] enc_list(elems, ctx).add(rest)) == input implies eqv_list(elems, acc@)
            && d.rem() == rest by {
            assert(elems.take(n as int) =~= elems);
            assert(elems.skip(n as int) =~= Seq::<T>::empty());
            assert(enc_list(elems.skip(n as int), ctx).add(rest) =~= rest);
        }
    }
    Ok(acc)
}


// ---------------------------------------------------------------------------
// Small fixed-shape composites
// ---------------------------------------------------------------------------

#[allow(non_camel_case_types)]
#[derive(Debug, Clone, Copy, PartialEq, Eq, Structural)]
pub struct v3s16 {
    pub x: s16,
    pub y: s16,
    pub z: s16,
}

impl v3s16 {
    pub fn new(x: s16, y: s16, z: s16) -> (r: Self)
        ensures
            r == (v3s16 { x, y, z }),
    {
        v3s16 { x, y, z }
    }
}

impl Serialize for v3s16 {
    open spec fn enc(&self, ctx: ProtocolContext) -> Seq<u8> {
        self.x.enc(ctx) + self.y.enc(ctx) + self.z.enc(ctx)
    }

    open spec fn ser_wf(&self, ctx: ProtocolContext) -> bool {
        true
    }

    open spec fn eqv(&self, other: &Self) -> bool {
        self == other
    }

    fn serialize(&self, ser: &mut VecSerializer) -> (r: SerializeResult) {
        let _ = self.x.serialize(ser);
        let _ = self.y.serialize(ser);
        let _ = self.z.serialize(ser);
        assert(ser.out() =~= old(ser).out() + self.enc(old(ser).ctx()));
        Ok(())
    }
}

proof fn v3s16_reshape(ctx: ProtocolContext, input: Seq<u8>)
    ensures
        forall|v: v3s16, rest: Seq<u8>|
            (#[trigger] v.enc(ctx).add(rest)) == input ==> v.x.enc(ctx).add(
                v.y.enc(ctx).add(v.z.enc(ctx).add(rest))) == input,
{
    assert forall|v: v3s16, rest: Seq<u8>| (#[trigger] v.enc(ctx).add(rest)) == input implies v.x
        .enc(ctx).add(v.y.enc(ctx).add(v.z.enc(ctx).add(rest))) == input by {
        assert(v.x.enc(ctx).add(v.y.enc(ctx).add(v.z.enc(ctx).add(rest))) =~= v.enc(ctx).add(
            rest));
    }
}

impl Deserialize for v3s16 {
    open spec fn rt_wf(&self, ctx: ProtocolContext) -> bool {
        true
    }

    open spec fn prefix_safe() -> bool {
        true
    }

    fn deserialize(d: &mut Deserializer) -> (r: DeserializeResult<Self>) {
        let ghost ctx = d.ctx();
        let ghost input = d.rem();
        proof {
            v3s16_reshape(ctx, input);
        }
        let x = match i16::deserialize(d) {
            Ok(v) => v,
            Err(e) => {
                return Err(e);
            },
        };
        let y = match i16::deserialize(d) {
            Ok(v) => v,
            Err(e) => {
                return Err(e);
            },
        };
        let z = match i16::deserialize(d) {
            Ok(v) => v,
            Err(e) => {
                return Err(e);
            },
        };
        Ok(v3s16 { x, y, z })
    }
}

/// Two values, one after the other.
#[derive(Debug, Clone, PartialEq, Eq)]
pub struct Pair<T1, T2> {
    pub first: T1,
    pub second: T2,
}

impl<T1: Serialize, T2: Serialize> Serialize for Pair<T1, T2> {
    open spec fn enc(&self, ctx: ProtocolContext) -> Seq<u8> {
        self.first.enc(ctx) + self.second.enc(ctx)
    }

    open spec fn ser_wf(&self, ctx: ProtocolContext) -> bool {
        self.first.ser_wf(ctx) && self.second.ser_wf(ctx)
    }

    open spec fn eqv(&self, other: &Self) -> bool {
        self.first.eqv(&other.first) && self.second.eqv(&other.second)
    }

    fn serialize(&self, ser: &mut VecSerializer) -> (r: SerializeResult) {
        match self.first.serialize(ser) {
            Ok(_) => {},
            Err(e) => {
                return Err(e);
            },
        }
        match self.second.serialize(ser) {
            Ok(_) => {},
            Err(e) => {
                return Err(e);
            },
        }
        assert(ser.out() =~= old(ser).out() + self.enc(old(ser).ctx()));
        Ok(())
    }
}

proof fn pair_reshape<T1: Serialize, T2: Serialize>(ctx: ProtocolContext, input: Seq<u8>)
    ensures
        forall|v: Pair<T1, T2>, rest: Seq<u8>|
            (#[trigger] v.enc(ctx).add(rest)) == input ==> v.first.enc(ctx).add(
                v.second.enc(ctx).add(rest)) == input,
{
    assert forall|v: Pair<T1, T2>, rest: Seq<u8>| (#[trigger] v.enc(ctx).add(rest))
        == input implies v.first.enc(ctx).add(v.second.enc(ctx).add(rest)) == input by {
        assert(v.first.enc(ctx).add(v.second.enc(ctx).add(rest)) =~= v.enc(ctx).add(rest));
    }
}

impl<T1: Deserialize, T2: Deserialize> Deserialize for Pair<T1, T2> {
    open spec fn rt_wf(&self, ctx: ProtocolContext) -> bool {
        self.first.rt_wf(ctx) && self.second.rt_wf(ctx) && T1::prefix_safe()
    }

    open spec fn prefix_safe() -> bool {
        T1::prefix_safe() && T2::prefix_safe()
    }

    fn deserialize(d: &mut Deserializer) -> (r: DeserializeResult<Self>) {
        let ghost ctx = d.ctx();
        let ghost input = d.rem();
        proof {
            pair_reshape::<T1, T2>(ctx, input);
        }
        let first = match T1::deserialize(d) {
            Ok(v) => v,
            Err(e) => {
                return Err(e);
            },
        };
        let second = match T2::deserialize(d) {
            Ok(v) => v,
            Err(e) => {
                return Err(e);
            },
        };
        Ok(Pair { first, second })
    }
}


// ---------------------------------------------------------------------------
// Optional and windowed containers
// ---------------------------------------------------------------------------

/// A trailing optional field: present exactly when bytes remain. Once one
/// is absent, everything after it is absent too.
impl<T: Serialize> Serialize for Option<T> {
    open spec fn enc(&self, ctx: ProtocolContext) -> Seq<u8> {
        match self {
            Some(x) => x.enc(ctx),
            None => Seq::empty(),
        }
    }

    open spec fn ser_wf(&self, ctx: ProtocolContext) -> bool {
        match self {
            Some(x) => x.ser_wf(ctx),
            None => true,
        }
    }

    open spec fn eqv(&self, other: &Self) -> bool {
        match (self, other) {
            (Some(x), Some(y)) => x.eqv(y),
            (None, None) => true,
            _ => false,
        }
    }

    fn serialize(&self, ser: &mut VecSerializer) -> (r: SerializeResult) {
        match self {
            Some(x) => x.serialize(ser),
            None => {
                assert(ser.out() =~= old(ser).out() + self.enc(old(ser).ctx()));
                Ok(())
            },
        }
    }
}

impl<T: Deserialize> Deserialize for Option<T> {
    open spec fn rt_wf(&self, ctx: ProtocolContext) -> bool {
        match self {
            Some(x) => x.rt_wf(ctx) && x.enc(ctx).len() > 0,
            None => true,
        }
    }

    open spec fn prefix_safe() -> bool {
        false
    }

    fn deserialize(d: &mut Deserializer) -> (r: DeserializeResult<Self>) {
        let ghost ctx = d.ctx();
        let ghost input = d.rem();
        proof {
            assert forall|v: Option<T>, rest: Seq<u8>|
                (#[trigger] v.enc(ctx).add(rest)) == input && rest.len() == 0 implies v.enc(ctx)
                == input && (v matches Some(x) ==> x.enc(ctx).add(rest) == input) by {
                assert(v.enc(ctx).add(rest) =~= v.enc(ctx));
            }
        }
        if d.remaining() == 0 {
            Ok(None)
        } else {
            match T::deserialize(d) {
                Ok(x) => Ok(Some(x)),
                Err(e) => Err(e),
            }
        }
    }
}

/// An optional value behind a 16-bit byte-length prefix: zero means absent.
/// Unlike a trailing `Option` it may stand anywhere in a message.
#[derive(Debug, Clone, PartialEq, Eq)]
pub enum Option16<T> {
    Absent,
    Present(T),
}

impl<T: Serialize> Serialize for Option16<T> {
    open spec fn enc(&self, ctx: ProtocolContext) -> Seq<u8> {
        match self {
            Option16::Absent => be16(0),
            Option16::Present(x) => be16(x.enc(ctx).len() as u16) + x.enc(ctx),
        }
    }

    open spec fn ser_wf(&self, ctx: ProtocolContext) -> bool {
        match self {
            Option16::Absent => true,
            Option16::Present(x) => x.ser_wf(ctx) && x.enc(ctx).len() <= 0xFFFF,
        }
    }

    open spec fn eqv(&self, other: &Self) -> bool {
        match (self, other) {
            (Option16::Present(x), Option16::Present(y)) => x.eqv(y),
            (Option16::Absent, Option16::Absent) => true,
            _ => false,
        }
    }

    fn serialize(&self, ser: &mut VecSerializer) -> (r: SerializeResult) {
        match self {
            Option16::Absent => {
                write_be16(ser, 0);
                assert(ser.out() =~= old(ser).out() + self.enc(old(ser).ctx()));
                Ok(())
            },
            Option16::Present(x) => {
                let mut tmp = VecSerializer::new(ser.context(), 64);
                match x.serialize(&mut tmp) {
                    Ok(_) => {},
                    Err(e) => {
                        return Err(e);
                    },
                }
                let buf = tmp.take();
                if buf.len() > 0xFFFF {
                    return Err(SerializeError::InvalidValue);
                }
                write_be16(ser, buf.len() as u16);
                ser.write_vec(&buf);
                assert(ser.out() =~= old(ser).out() + self.enc(old(ser).ctx()));
                Ok(())
            },
        }
    }
}

impl<T: Deserialize> Deserialize for Option16<T> {
    open spec fn rt_wf(&self, ctx: ProtocolContext) -> bool {
        match self {
            Option16::Absent => true,
            Option16::Present(x) => x.rt_wf(ctx) && 1 <= x.enc(ctx).len() <= 0xFFFF,
        }
    }

    open spec fn prefix_safe() -> bool {
        true
    }

    fn deserialize(d: &mut Deserializer) -> (r: DeserializeResult<Self>) {
        let ghost ctx = d.ctx();
        let ghost input = d.rem();
        proof {
            assert forall|v: Option16<T>, rest: Seq<u8>|
                (#[trigger] v.enc(ctx).add(rest)) == input && v.rt_wf(ctx) implies match v {
                Option16::Absent => be16(0).add(rest) == input,
                Option16::Present(x) => be16(x.enc(ctx).len() as u16).add(x.enc(ctx).add(rest))
                    == input && x.enc(ctx).add(rest) == input.skip(2) && x.enc(ctx)
                    == input.skip(2).take(x.enc(ctx).len() as int) && rest == input.skip(2).skip(
                    x.enc(ctx).len() as int),
            } by {
                match v {
                    Option16::Absent => {
                        assert(be16(0).add(rest) =~= v.enc(ctx).add(rest));
                    },
                    Option16::Present(x) => {
                        assert(be16(x.enc(ctx).len() as u16).add(x.enc(ctx).add(rest)) =~= v.enc(
                            ctx).add(rest));
                        assert(x.enc(ctx).add(rest) =~= input.skip(2));
                        assert(x.enc(ctx) =~= input.skip(2).take(x.enc(ctx).len() as int));
                        assert(rest =~= input.skip(2).skip(x.enc(ctx).len() as int));
                    },
                }
            }
        }
        let n = match read_be16(d) {
            Ok(n) => n,
            Err(e) => {
                return Err(e);
            },
        };
        if n == 0 {
            return Ok(Option16::Absent);
        }
        let mut window = match d.slice(n as usize) {
            Ok(w) => w,
            Err(e) => {
                return Err(e);
            },
        };
        let ghost wpre = window;
        match T::deserialize(&mut window) {
            Ok(x) => {
                proof {
                    assert forall|v: Option16<T>, rest: Seq<u8>|
                        (#[trigger] v.enc(ctx).add(rest)) == input && v.rt_wf(ctx) implies v.eqv(
                        &Option16::Present(x)) && d.rem() == rest by {
                        match v {
                            Option16::Absent => {},
                            Option16::Present(y) => {
                                assert(y.enc(ctx).add(Seq::<u8>::empty()) =~= y.enc(ctx));
                                assert(y.enc(ctx).add(Seq::<u8>::empty()) == wpre.rem());
                            },
                        }
                    }
                }
                Ok(Option16::Present(x))
            },
            Err(e) => {
                proof {
                    assert forall|v: Option16<T>, rest: Seq<u8>|
                        (#[trigger] v.enc(ctx).add(rest)) == input && v.rt_wf(ctx) implies
                        false by {
                        match v {
                            Option16::Absent => {},
                            Option16::Present(y) => {
                                assert(y.enc(ctx).add(Seq::<u8>::empty()) =~= y.enc(ctx));
                                assert(y.enc(ctx).add(Seq::<u8>::empty()) == wpre.rem());
                            },
                        }
                    }
                }
                Err(e)
            },
        }
    }
}

/// A value wrapped in a 16-bit byte-length prefix, so that readers that do
/// not understand it can skip it.
#[derive(Debug, Clone, PartialEq, Eq)]
pub struct Wrapped16<T> {
    pub value: T,
}

impl<T: Serialize> Serialize for Wrapped16<T> {
    open spec fn enc(&self, ctx: ProtocolContext) -> Seq<u8> {
        be16(self.value.enc(ctx).len() as u16) + self.value.enc(ctx)
    }

    open spec fn ser_wf(&self, ctx: ProtocolContext) -> bool {
        self.value.ser_wf(ctx) && self.value.enc(ctx).len() <= 0xFFFF
    }

    open spec fn eqv(&self, other: &Self) -> bool {
        self.value.eqv(&other.value)
    }

    fn serialize(&self, ser: &mut VecSerializer) -> (r: SerializeResult) {
        let mut tmp = VecSerializer::new(ser.context(), 64);
        match self.value.serialize(&mut tmp) {
            Ok(_) => {},
            Err(e) => {
                return Err(e);
            },
        }
        let buf = tmp.take();
        match write_len16_bytes(ser, &buf) {
            Ok(_) => {},
            Err(e) => {
                return Err(e);
            },
        }
        assert(ser.out() =~= old(ser).out() + self.enc(old(ser).ctx()));
        Ok(())
    }
}

impl<T: Deserialize> Deserialize for Wrapped16<T> {
    open spec fn rt_wf(&self, ctx: ProtocolContext) -> bool {
        self.value.rt_wf(ctx) && self.value.enc(ctx).len() <= 0xFFFF
    }

    open spec fn prefix_safe() -> bool {
        true
    }

    fn deserialize(d: &mut Deserializer) -> (r: DeserializeResult<Self>) {
        let ghost ctx = d.ctx();
        let ghost input = d.rem();
        proof {
            assert forall|v: Wrapped16<T>, rest: Seq<u8>|
                (#[trigger] v.enc(ctx).add(rest)) == input && v.rt_wf(ctx) implies be16(
                v.value.enc(ctx).len() as u16).add(v.value.enc(ctx).add(rest)) == input && v.value
                .enc(ctx).add(rest) == input.skip(2) && v.value.enc(ctx) == input.skip(2).take(
                v.value.enc(ctx).len() as int) && rest == input.skip(2).skip(
                v.value.enc(ctx).len() as int) by {
                assert(be16(v.value.enc(ctx).len() as u16).add(v.value.enc(ctx).add(rest)) =~= v
                    .enc(ctx).add(rest));
                assert(v.value.enc(ctx).add(rest) =~= input.skip(2));
                assert(v.value.enc(ctx) =~= input.skip(2).take(v.value.enc(ctx).len() as int));
                assert(rest =~= input.skip(2).skip(v.value.enc(ctx).len() as int));
            }
        }
        let n = match read_be16(d) {
            Ok(n) => n,
            Err(e) => {
                return Err(e);
            },
        };
        let mut window = match d.slice(n as usize) {
            Ok(w) => w,
            Err(e) => {
                return Err(e);
            },
        };
        let ghost wpre = window;
        match T::deserialize(&mut window) {
            Ok(x) => {
                proof {
                    assert forall|v: Wrapped16<T>, rest: Seq<u8>|
                        (#[trigger] v.enc(ctx).add(rest)) == input && v.rt_wf(ctx) implies v.eqv(
                        &Wrapped16 { value: x }) && d.rem() == rest by {
                        assert(v.value.enc(ctx).add(Seq::<u8>::empty()) =~= v.value.enc(ctx));
                        assert(v.value.enc(ctx).add(Seq::<u8>::empty()) == wpre.rem());
                    }
                }
                Ok(Wrapped16 { value: x })
            },
            Err(e) => {
                proof {
                    assert forall|v: Wrapped16<T>, rest: Seq<u8>|
                        (#[trigger] v.enc(ctx).add(rest)) == input && v.rt_wf(ctx) implies
                        false by {
                        assert(v.value.enc(ctx).add(Seq::<u8>::empty()) =~= v.value.enc(ctx));
                        assert(v.value.enc(ctx).add(Seq::<u8>::empty()) == wpre.rem());
                    }
                }
                Err(e)
            },
        }
    }
}

/// A value wrapped in a 32-bit byte-length prefix.
#[derive(Debug, Clone, PartialEq, Eq)]
pub struct Wrapped32<T> {
    pub value: T,
}

impl<T: Serialize> Serialize for Wrapped32<T> {
    open spec fn enc(&self, ctx: ProtocolContext) -> Seq<u8> {
        be32(self.value.enc(ctx).len() as u32) + self.value.enc(ctx)
    }

    open spec fn ser_wf(&self, ctx: ProtocolContext) -> bool {
        self.value.ser_wf(ctx) && self.value.enc(ctx).len() <= 0xFFFFFFFF
    }

    open spec fn eqv(&self, other: &Self) -> bool {
        self.value.eqv(&other.value)
    }

    fn serialize(&self, ser: &mut VecSerializer) -> (r: SerializeResult) {
        let mut tmp = VecSerializer::new(ser.context(), 64);
        match self.value.serialize(&mut tmp) {
            Ok(_) => {},
            Err(e) => {
                return Err(e);
            },
        }
        let buf = tmp.take();
        match write_len32_bytes(ser, &buf) {
            Ok(_) => {},
            Err(e) => {
                return Err(e);
            },
        }
        assert(ser.out() =~= old(ser).out() + self.enc(old(ser).ctx()));
        Ok(())
    }
}

impl<T: Deserialize> Deserialize for Wrapped32<T> {
    open spec fn rt_wf(&self, ctx: ProtocolContext) -> bool {
        self.value.rt_wf(ctx) && self.value.enc(ctx).len() <= 0xFFFFFFFF
    }

    open spec fn prefix_safe() -> bool {
        true
    }

    fn deserialize(d: &mut Deserializer) -> (r: DeserializeResult<Self>) {
        let ghost ctx = d.ctx();
        let ghost input = d.rem();
        proof {
            assert forall|v: Wrapped32<T>, rest: Seq<u8>|
                (#[trigger] v.enc(ctx).add(rest)) == input && v.rt_wf(ctx) implies be32(
                v.value.enc(ctx).len() as u32).add(v.value.enc(ctx).add(rest)) == input && v.value
                .enc(ctx).add(rest) == input.skip(4) && v.value.enc(ctx) == input.skip(4).take(
                v.value.enc(ctx).len() as int) && rest == input.skip(4).skip(
                v.value.enc(ctx).len() as int) by {
                assert(be32(v.value.enc(ctx).len() as u32).add(v.value.enc(ctx).add(rest)) =~= v
                    .enc(ctx).add(rest));
                assert(v.value.enc(ctx).add(rest) =~= input.skip(4));
                assert(v.value.enc(ctx) =~= input.skip(4).take(v.value.enc(ctx).len() as int));
                assert(rest =~= input.skip(4).skip(v.value.enc(ctx).len() as int));
            }
        }
        let n = match read_be32(d) {
            Ok(n) => n,
            Err(e) => {
                return Err(e);
            },
        };
        if n as u64 > usize::MAX as u64 {
            proof {
                assert forall|v: Wrapped32<T>, rest: Seq<u8>|
                    (#[trigger] v.enc(ctx).add(rest)) == input && v.rt_wf(ctx) implies false by {
                    assert(input.skip(4).len() <= input.len());
                }
            }
            return Err(DeserializeError::Eof);
        }
        let mut window = match d.slice(n as usize) {
            Ok(w) => w,
            Err(e) => {
                return Err(e);
            },
        };
        let ghost wpre = window;
        match T::deserialize(&mut window) {
            Ok(x) => {
                proof {
                    assert forall|v: Wrapped32<T>, rest: Seq<u8>|
                        (#[trigger] v.enc(ctx).add(rest)) == input && v.rt_wf(ctx) implies v.eqv(
                        &Wrapped32 { value: x }) && d.rem() == rest by {
                        assert(v.value.enc(ctx).add(Seq::<u8>::empty()) =~= v.value.enc(ctx));
                        assert(v.value.enc(ctx).add(Seq::<u8>::empty()) == wpre.rem());
                    }
                }
                Ok(Wrapped32 { value: x })
            },
            Err(e) => {
                proof {
                    assert forall|v: Wrapped32<T>, rest: Seq<u8>|
                        (#[trigger] v.enc(ctx).add(rest)) == input && v.rt_wf(ctx) implies
                        false by {
                        assert(v.value.enc(ctx).add(Seq::<u8>::empty()) =~= v.value.enc(ctx));
                        assert(v.value.enc(ctx).add(Seq::<u8>::empty()) == wpre.rem());
                    }
                }
                Err(e)
            },
        }
    }
}


// ---------------------------------------------------------------------------
// Counted arrays and remaining string forms
// ---------------------------------------------------------------------------

/// All encodings in the sequence are nonempty (needed to read back counts
/// that are measured in elements, and to detect the end of the input).
pub open spec fn nonempty_list<T: Serialize>(s: Seq<T>, ctx: ProtocolContext) -> bool {
    forall|i: int| 0 <= i < s.len() ==> #[trigger] s[i].enc(ctx).len() > 0
}

/// With nonempty element encodings, a list encoding has at least one byte
/// per element.
pub proof fn lemma_enc_list_min_len<T: Serialize>(s: Seq<T>, ctx: ProtocolContext)
    requires
        nonempty_list(s, ctx),
    ensures
        enc_list(s, ctx).len() >= s.len(),
    decreases s.len(),
{
    if s.len() > 0 {
        assert(s[0].enc(ctx).len() > 0);
        assert forall|i: int| 0 <= i < s.skip(1).len() implies #[trigger] s.skip(1)[i].enc(
            ctx).len() > 0 by {
            assert(s.skip(1)[i] == s[i + 1]);
        }
        lemma_enc_list_min_len(s.skip(1), ctx);
    }
}

/// An array of items with a u8 count prefix.
#[derive(Debug, Clone, PartialEq, Eq)]
pub struct Array8<T> {
    pub vec: Vec<T>,
}

/// An array of items with a u16 count prefix.
#[derive(Debug, Clone, PartialEq, Eq)]
pub struct Array16<T> {
    pub vec: Vec<T>,
}

impl<T> Array16<T> {
    pub fn len(&self) -> (r: usize)
        ensures
            r == self.vec@.len(),
    {
        self.vec.len()
    }
}

/// An array of items with a u32 count prefix. On decode a count larger than
/// the remaining byte count is rejected, as a guard against memory abuse.
#[derive(Debug, Clone, PartialEq, Eq)]
pub struct Array32<T> {
    pub vec: Vec<T>,
}

/// An array of items with no count of its own: it runs to the end of the
/// enclosing window.
#[derive(Debug, Clone, PartialEq, Eq)]
pub struct Array0<T> {
    pub vec: Vec<T>,
}

impl<T: Serialize> Serialize for Array8<T> {
    open spec fn enc(&self, ctx: ProtocolContext) -> Seq<u8> {
        (self.vec@.len() as u8).enc(ctx) + enc_list(self.vec@, ctx)
    }

    open spec fn ser_wf(&self, ctx: ProtocolContext) -> bool {
        self.vec@.len() <= 0xFF && wf_list(self.vec@, ctx)
    }

    open spec fn eqv(&self, other: &Self) -> bool {
        eqv_list(self.vec@, other.vec@)
    }

    fn serialize(&self, ser: &mut VecSerializer) -> (r: SerializeResult) {
        if self.vec.len() > 0xFF {
            return Err(SerializeError::InvalidValue);
        }
        let n: u8 = self.vec.len() as u8;
        n.serialize(ser)?;
        match write_list(ser, &self.vec) {
            Ok(_) => {},
            Err(e) => {
                return Err(e);
            },
        }
        assert(ser.out() =~= old(ser).out() + self.enc(old(ser).ctx()));
        Ok(())
    }
}

impl<T: Deserialize> Deserialize for Array8<T> {
    open spec fn rt_wf(&self, ctx: ProtocolContext) -> bool {
        self.vec@.len() <= 0xFF && rt_list(self.vec@, ctx) && T::prefix_safe()
    }

    open spec fn prefix_safe() -> bool {
        true
    }

    fn deserialize(d: &mut Deserializer) -> (r: DeserializeResult<Self>) {
        let ghost ctx = d.ctx();
        let ghost input = d.rem();
        proof {
            assert forall|v: Array8<T>, rest: Seq<u8>|
                (#[trigger] v.enc(ctx).add(rest)) == input && v.rt_wf(ctx) implies (
            v.vec@.len() as u8).enc(ctx).add(enc_list(v.vec@, ctx).add(rest)) == input by {
                assert((v.vec@.len() as u8).enc(ctx).add(enc_list(v.vec@, ctx).add(rest)) =~= v.enc(
                    ctx).add(rest));
            }
        }
        let n = match u8::deserialize(d) {
            Ok(n) => n,
            Err(e) => {
                return Err(e);
            },
        };
        match decode_list::<T>(d, n as usize) {
            Ok(vec) => Ok(Array8 { vec }),
            Err(e) => Err(e),
        }
    }
}

impl<T: Serialize> Serialize for Array16<T> {
    open spec fn enc(&self, ctx: ProtocolContext) -> Seq<u8> {
        be16(self.vec@.len() as u16) + enc_list(self.vec@, ctx)
    }

    open spec fn ser_wf(&self, ctx: ProtocolContext) -> bool {
        self.vec@.len() <= 0xFFFF && wf_list(self.vec@, ctx)
    }

    open spec fn eqv(&self, other: &Self) -> bool {
        eqv_list(self.vec@, other.vec@)
    }

    fn serialize(&self, ser: &mut VecSerializer) -> (r: SerializeResult) {
        if self.vec.len() > 0xFFFF {
            return Err(SerializeError::InvalidValue);
        }
        write_be16(ser, self.vec.len() as u16);
        match write_list(ser, &self.vec) {
            Ok(_) => {},
            Err(e) => {
                return Err(e);
            },
        }
        assert(ser.out() =~= old(ser).out() + self.enc(old(ser).ctx()));
        Ok(())
    }
}

impl<T: Deserialize> Deserialize for Array16<T> {
    open spec fn rt_wf(&self, ctx: ProtocolContext) -> bool {
        self.vec@.len() <= 0xFFFF && rt_list(self.vec@, ctx) && T::prefix_safe()
    }

    open spec fn prefix_safe() -> bool {
        true
    }

    fn deserialize(d: &mut Deserializer) -> (r: DeserializeResult<Self>) {
        let ghost ctx = d.ctx();
        let ghost input = d.rem();
        proof {
            assert forall|v: Array16<T>, rest: Seq<u8>|
                (#[trigger] v.enc(ctx).add(rest)) == input && v.rt_wf(ctx) implies be16(
                v.vec@.len() as u16).add(enc_list(v.vec@, ctx).add(rest)) == input by {
                assert(be16(v.vec@.len() as u16).add(enc_list(v.vec@, ctx).add(rest)) =~= v.enc(
                    ctx).add(rest));
            }
        }
        let n = match read_be16(d) {
            Ok(n) => n,
            Err(e) => {
                return Err(e);
            },
        };
        match decode_list::<T>(d, n as usize) {
            Ok(vec) => Ok(Array16 { vec }),
            Err(e) => Err(e),
        }
    }
}

impl<T: Serialize> Serialize for Array32<T> {
    open spec fn enc(&self, ctx: ProtocolContext) -> Seq<u8> {
        be32(self.vec@.len() as u32) + enc_list(self.vec@, ctx)
    }

    open spec fn ser_wf(&self, ctx: ProtocolContext) -> bool {
        self.vec@.len() <= 0xFFFFFFFF && wf_list(self.vec@, ctx)
    }

    open spec fn eqv(&self, other: &Self) -> bool {
        eqv_list(self.vec@, other.vec@)
    }

    fn serialize(&self, ser: &mut VecSerializer) -> (r: SerializeResult) {
        if self.vec.len() as u64 > 0xFFFFFFFFu64 {
            return Err(SerializeError::InvalidValue);
        }
        write_be32(ser, self.vec.len() as u32);
        match write_list(ser, &self.vec) {
            Ok(_) => {},
            Err(e) => {
                return Err(e);
            },
        }
        assert(ser.out() =~= old(ser).out() + self.enc(old(ser).ctx()));
        Ok(())
    }
}

impl<T: Deserialize> Deserialize for Array32<T> {
    open spec fn rt_wf(&self, ctx: ProtocolContext) -> bool {
        self.vec@.len() <= 0xFFFFFFFF && rt_list(self.vec@, ctx) && T::prefix_safe()
            && nonempty_list(self.vec@, ctx)
    }

    open spec fn prefix_safe() -> bool {
        true
    }

    /// Beyond the round trip: a count prefix larger than the bytes that
    /// follow is rejected outright, as a guard against memory abuse.
    fn deserialize(d: &mut Deserializer) -> (r: DeserializeResult<Self>)
        ensures
            forall|n: u32, rest: Seq<u8>|
                (#[trigger] be32(n).add(rest)) == old(d).rem() && n > rest.len() ==> r is Err,
    {
        let ghost ctx = d.ctx();
        let ghost input = d.rem();
        proof {
            assert forall|v: Array32<T>, rest: Seq<u8>|
                (#[trigger] v.enc(ctx).add(rest)) == input && v.rt_wf(ctx) implies be32(
                v.vec@.len() as u32).add(enc_list(v.vec@, ctx).add(rest)) == input && enc_list(
                v.vec@, ctx).len() + rest.len() == input.len() - 4 by {
                assert(be32(v.vec@.len() as u32).add(enc_list(v.vec@, ctx).add(rest)) =~= v.enc(
                    ctx).add(rest));
            }
        }
        let n = match read_be32(d) {
            Ok(n) => n,
            Err(e) => {
                return Err(e);
            },
        };
        // Guard against absurd counts: each item takes at least one byte.
        if n as u64 > d.remaining() as u64 {
            proof {
                assert forall|v: Array32<T>, rest: Seq<u8>|
                    (#[trigger] v.enc(ctx).add(rest)) == input && v.rt_wf(ctx) implies false by {
                    lemma_enc_list_min_len(v.vec@, ctx);
                }
            }
            return Err(DeserializeError::InvalidValue);
        }
        match decode_list::<T>(d, n as usize) {
            Ok(vec) => Ok(Array32 { vec }),
            Err(e) => Err(e),
        }
    }
}

impl<T: Serialize> Serialize for Array0<T> {
    open spec fn enc(&self, ctx: ProtocolContext) -> Seq<u8> {
        enc_list(self.vec@, ctx)
    }

    open spec fn ser_wf(&self, ctx: ProtocolContext) -> bool {
        wf_list(self.vec@, ctx)
    }

    open spec fn eqv(&self, other: &Self) -> bool {
        eqv_list(self.vec@, other.vec@)
    }

    fn serialize(&self, ser: &mut VecSerializer) -> (r: SerializeResult) {
        write_list(ser, &self.vec)
    }
}

impl<T: Deserialize> Deserialize for Array0<T> {
    open spec fn rt_wf(&self, ctx: ProtocolContext) -> bool {
        rt_list(self.vec@, ctx) && T::prefix_safe() && nonempty_list(self.vec@, ctx)
    }

    open spec fn prefix_safe() -> bool {
        false
    }

    fn deserialize(d: &mut Deserializer) -> (r: DeserializeResult<Self>) {
        let ghost ctx = d.ctx();
        let ghost input = d.rem();
        let mut acc: Vec<T> = Vec::new();
        proof {
            assert forall|v: Array0<T>, rest: Seq<u8>|
                (#[trigger] v.enc(ctx).add(rest)) == input && v.rt_wf(ctx) && rest.len()
                    == 0 implies enc_list(v.vec@, ctx) == input && eqv_list(v.vec@.take(0), acc@)
                && d.rem() == enc_list(v.vec@.skip(0), ctx) by {
                assert(v.enc(ctx).add(rest) =~= v.enc(ctx));
                assert(v.vec@.take(0) =~= Seq::<T>::empty());
                assert(v.vec@.skip(0) =~= v.vec@);
            }
        }
        while d.remaining() > 0
            invariant
                d.wf(),
                d.ctx() == ctx,
                ctx == old(d).ctx(),
                input == old(d).rem(),
                d.rem().len() <= input.len(),
                forall|v: Array0<T>, rest: Seq<u8>|
                    (#[trigger] v.enc(ctx).add(rest)) == input && v.rt_wf(ctx) && rest.len() == 0
                        ==> acc@.len() <= v.vec@.len() && eqv_list(
                        v.vec@.take(acc@.len() as int),
                        acc@,
                    ) && d.rem() == enc_list(v.vec@.skip(acc@.len() as int), ctx),
            decreases d.rem().len(),
        {
            let before = d.remaining();
            let ghost accpre = acc@;
            let x = match T::deserialize(d) {
                Ok(x) => x,
                Err(e) => {
                    proof {
                        assert forall|v: Array0<T>, rest: Seq<u8>|
                            (#[trigger] v.enc(ctx).add(rest)) == input && v.rt_wf(ctx)
                                && rest.len() == 0 implies false by {
                            let k = accpre.len() as int;
                            assert(k < v.vec@.len()) by {
                                if k == v.vec@.len() {
                                    assert(v.vec@.skip(k) =~= Seq::<T>::empty());
                                }
                            }
                            lemma_enc_list_step(v.vec@, ctx, k);
                            assert(v.vec@[k].enc(ctx).add(enc_list(v.vec@.skip(k + 1), ctx)) =~=
                                enc_list(v.vec@.skip(k), ctx));
                            assert(v.vec@[k].rt_wf(ctx));
                        }
                    }
                    return Err(e);
                },
            };
            if d.remaining() >= before {
                proof {
                    assert forall|v: Array0<T>, rest: Seq<u8>|
                        (#[trigger] v.enc(ctx).add(rest)) == input && v.rt_wf(ctx) && rest.len()
                            == 0 implies false by {
                        let k = accpre.len() as int;
                        assert(k < v.vec@.len()) by {
                            if k == v.vec@.len() {
                                assert(v.vec@.skip(k) =~= Seq::<T>::empty());
                            }
                        }
                        lemma_enc_list_step(v.vec@, ctx, k);
                        assert(v.vec@[k].enc(ctx).add(enc_list(v.vec@.skip(k + 1), ctx)) =~=
                            enc_list(v.vec@.skip(k), ctx));
                        assert(v.vec@[k].rt_wf(ctx));
                        assert(v.vec@[k].enc(ctx).len() > 0);
                    }
                }
                return Err(DeserializeError::InvalidValue);
            }
            acc.push(x);
            proof {
                assert forall|v: Array0<T>, rest: Seq<u8>|
                    (#[trigger] v.enc(ctx).add(rest)) == input && v.rt_wf(ctx) && rest.len()
                        == 0 implies acc@.len() <= v.vec@.len() && eqv_list(
                    v.vec@.take(acc@.len() as int),
                    acc@,
                ) && d.rem() == enc_list(v.vec@.skip(acc@.len() as int), ctx) by {
                    let k = accpre.len() as int;
                    assert(k < v.vec@.len()) by {
                        if k == v.vec@.len() {
                            assert(v.vec@.skip(k) =~= Seq::<T>::empty());
                        }
                    }
                    lemma_enc_list_step(v.vec@, ctx, k);
                    assert(v.vec@[k].enc(ctx).add(enc_list(v.vec@.skip(k + 1), ctx)) =~= enc_list(
                        v.vec@.skip(k), ctx));
                    assert(v.vec@[k].rt_wf(ctx));
                    assert(v.vec@[k].eqv(&x));
                    assert(eqv_list(v.vec@.take(k), accpre));
                    assert(accpre.push(x) =~= acc@);
                    assert(v.vec@.take(k + 1)[k] == v.vec@[k]);
                    assert forall|j: int| 0 <= j < k + 1 implies #[trigger] v.vec@.take(
                        k + 1)[j].eqv(&acc@[j]) by {
                        if j < k {
                            assert(v.vec@.take(k)[j].eqv(&accpre[j]));
                        }
                    }
                }
            }
        }
        let r = Array0 { vec: acc };
        proof {
            assert forall|v: Array0<T>, rest: Seq<u8>|
                (#[trigger] v.enc(ctx).add(rest)) == input && v.rt_wf(ctx) && rest.len()
                    == 0 implies v.eqv(&r) && d.rem() == rest by {
                let k = acc@.len() as int;
                assert(k == v.vec@.len()) by {
                    if k < v.vec@.len() {
                        lemma_enc_list_step(v.vec@, ctx, k);
                        assert(v.vec@[k].rt_wf(ctx));
                        assert(v.vec@[k].enc(ctx).len() > 0);
                    }
                }
                assert(v.vec@.take(k) =~= v.vec@);
                assert(rest =~= d.rem());
            }
        }
        Ok(r)
    }
}

/// A 32-bit-length-prefixed UTF-8 string.
#[derive(Debug, Clone, PartialEq, Eq)]
pub struct LongString {
    pub string: ByteString,
}

impl Serialize for LongString {
    open spec fn enc(&self, ctx: ProtocolContext) -> Seq<u8> {
        be32(self.string.0@.len() as u32) + self.string.0@
    }

    open spec fn ser_wf(&self, ctx: ProtocolContext) -> bool {
        self.string.0@.len() <= 0xFFFFFFFF && crate::wire::util::utf8_ok(self.string.0@)
    }

    open spec fn eqv(&self, other: &Self) -> bool {
        self.string.0@ == other.string.0@
    }

    fn serialize(&self, ser: &mut VecSerializer) -> (r: SerializeResult) {
        if !crate::wire::util::is_utf8(self.string.0.as_slice()) {
            return Err(SerializeError::InvalidValue);
        }
        match write_len32_bytes(ser, &self.string.0) {
            Ok(_) => {},
            Err(e) => {
                return Err(e);
            },
        }
        assert(ser.out() =~= old(ser).out() + self.enc(old(ser).ctx()));
        Ok(())
    }
}

impl Deserialize for LongString {
    open spec fn rt_wf(&self, ctx: ProtocolContext) -> bool {
        self.ser_wf(ctx)
    }

    open spec fn prefix_safe() -> bool {
        true
    }

    fn deserialize(d: &mut Deserializer) -> (r: DeserializeResult<Self>) {
        let ghost ctx = d.ctx();
        let ghost input = d.rem();
        proof {
            assert forall|v: LongString, rest: Seq<u8>|
                (#[trigger] v.enc(ctx).add(rest)) == input && v.rt_wf(ctx) implies be32(
                v.string.0@.len() as u32).add(v.string.0@.add(rest)) == input by {
                assert(be32(v.string.0@.len() as u32).add(v.string.0@.add(rest)) =~= v.enc(ctx).add(
                    rest));
            }
        }
        let bytes = match read_len32_bytes(d) {
            Ok(b) => b,
            Err(e) => {
                return Err(e);
            },
        };
        if !crate::wire::util::is_utf8(bytes.as_slice()) {
            return Err(DeserializeError::InvalidValue);
        }
        Ok(LongString { string: ByteString(bytes) })
    }
}

/// A UTF-16 string: a 16-bit count of code units, then that many big-endian
/// 16-bit units.
#[derive(Debug, Clone, PartialEq, Eq)]
pub struct WString {
    pub units: Vec<u16>,
}

impl Serialize for WString {
    open spec fn enc(&self, ctx: ProtocolContext) -> Seq<u8> {
        be16(self.units@.len() as u16) + enc_list(self.units@, ctx)
    }

    open spec fn ser_wf(&self, ctx: ProtocolContext) -> bool {
        self.units@.len() <= 0xFFFF && crate::wire::util::utf16_ok(self.units@)
    }

    open spec fn eqv(&self, other: &Self) -> bool {
        self.units@ == other.units@
    }

    fn serialize(&self, ser: &mut VecSerializer) -> (r: SerializeResult) {
        if self.units.len() > 0xFFFF {
            return Err(SerializeError::InvalidValue);
        }
        if !crate::wire::util::is_utf16(self.units.as_slice()) {
            return Err(SerializeError::InvalidValue);
        }
        write_be16(ser, self.units.len() as u16);
        match write_list(ser, &self.units) {
            Ok(_) => {},
            Err(e) => {
                return Err(e);
            },
        }
        assert(ser.out() =~= old(ser).out() + self.enc(old(ser).ctx()));
        Ok(())
    }
}

impl Deserialize for WString {
    open spec fn rt_wf(&self, ctx: ProtocolContext) -> bool {
        self.ser_wf(ctx)
    }

    open spec fn prefix_safe() -> bool {
        true
    }

    fn deserialize(d: &mut Deserializer) -> (r: DeserializeResult<Self>) {
        let ghost ctx = d.ctx();
        let ghost input = d.rem();
        proof {
            assert forall|v: WString, rest: Seq<u8>|
                (#[trigger] v.enc(ctx).add(rest)) == input && v.rt_wf(ctx) implies be16(
                v.units@.len() as u16).add(enc_list(v.units@, ctx).add(rest)) == input && rt_list(
                v.units@, ctx) by {
                assert(be16(v.units@.len() as u16).add(enc_list(v.units@, ctx).add(rest)) =~= v.enc(
                    ctx).add(rest));
            }
        }
        let n = match read_be16(d) {
            Ok(n) => n,
            Err(e) => {
                return Err(e);
            },
        };
        let units = match decode_list::<u16>(d, n as usize) {
            Ok(u) => u,
            Err(e) => {
                return Err(e);
            },
        };
        if !crate::wire::util::is_utf16(units.as_slice()) {
            proof {
                assert forall|v: WString, rest: Seq<u8>|
                    (#[trigger] v.enc(ctx).add(rest)) == input && v.rt_wf(ctx) implies false by {
                    assert(eqv_list(v.units@, units@));
                    assert forall|i: int| 0 <= i < v.units@.len() implies v.units@[i]
                        == units@[i] by {
                        assert(v.units@[i].eqv(&units@[i]));
                    }
                    assert(v.units@ =~= units@);
                }
            }
            return Err(DeserializeError::InvalidValue);
        }
        let r = WString { units };
        proof {
            assert forall|v: WString, rest: Seq<u8>|
                (#[trigger] v.enc(ctx).add(rest)) == input && v.rt_wf(ctx) implies v.eqv(&r)
                && d.rem() == rest by {
                assert(eqv_list(v.units@, units@));
                assert forall|i: int| 0 <= i < v.units@.len() implies v.units@[i] == units@[i] by {
                    assert(v.units@[i].eqv(&units@[i]));
                }
                assert(v.units@ =~= units@);
            }
        }
        Ok(r)
    }
}

/// Opaque binary data behind a 16-bit length prefix.
#[derive(Debug, Clone, PartialEq, Eq)]
pub struct BinaryData16 {
    pub data: Vec<u8>,
}

impl BinaryData16 {
    pub fn new(data: Vec<u8>) -> (r: Self)
        ensures
            r.data@ == data@,
    {
        BinaryData16 { data }
    }
}

impl Serialize for BinaryData16 {
    open spec fn enc(&self, ctx: ProtocolContext) -> Seq<u8> {
        be16(self.data@.len() as u16) + self.data@
    }

    open spec fn ser_wf(&self, ctx: ProtocolContext) -> bool {
        self.data@.len() <= 0xFFFF
    }

    open spec fn eqv(&self, other: &Self) -> bool {
        self.data@ == other.data@
    }

    fn serialize(&self, ser: &mut VecSerializer) -> (r: SerializeResult) {
        match write_len16_bytes(ser, &self.data) {
            Ok(_) => {},
            Err(e) => {
                return Err(e);
            },
        }
        assert(ser.out() =~= old(ser).out() + self.enc(old(ser).ctx()));
        Ok(())
    }
}

impl Deserialize for BinaryData16 {
    open spec fn rt_wf(&self, ctx: ProtocolContext) -> bool {
        self.ser_wf(ctx)
    }

    open spec fn prefix_safe() -> bool {
        true
    }

    fn deserialize(d: &mut Deserializer) -> (r: DeserializeResult<Self>) {
        let ghost ctx = d.ctx();
        let ghost input = d.rem();
        proof {
            assert forall|v: BinaryData16, rest: Seq<u8>|
                (#[trigger] v.enc(ctx).add(rest)) == input && v.rt_wf(ctx) implies be16(
                v.data@.len() as u16).add(v.data@.add(rest)) == input by {
                assert(be16(v.data@.len() as u16).add(v.data@.add(rest)) =~= v.enc(ctx).add(rest));
            }
        }
        match read_len16_bytes(d) {
            Ok(data) => Ok(BinaryData16 { data }),
            Err(e) => Err(e),
        }
    }
}

/// Opaque binary data behind a 32-bit length prefix.
#[derive(Debug, Clone, PartialEq, Eq)]
pub struct BinaryData32 {
    pub data: Vec<u8>,
}

impl Serialize for BinaryData32 {
    open spec fn enc(&self, ctx: ProtocolContext) -> Seq<u8> {
        be32(self.data@.len() as u32) + self.data@
    }

    open spec fn ser_wf(&self, ctx: ProtocolContext) -> bool {
        self.data@.len() <= 0xFFFFFFFF
    }

    open spec fn eqv(&self, other: &Self) -> bool {
        self.data@ == other.data@
    }

    fn serialize(&self, ser: &mut VecSerializer) -> (r: SerializeResult) {
        match write_len32_bytes(ser, &self.data) {
            Ok(_) => {},
            Err(e) => {
                return Err(e);
            },
        }
        assert(ser.out() =~= old(ser).out() + self.enc(old(ser).ctx()));
        Ok(())
    }
}

impl Deserialize for BinaryData32 {
    open spec fn rt_wf(&self, ctx: ProtocolContext) -> bool {
        self.ser_wf(ctx)
    }

    open spec fn prefix_safe() -> bool {
        true
    }

    fn deserialize(d: &mut Deserializer) -> (r: DeserializeResult<Self>) {
        let ghost ctx = d.ctx();
        let ghost input = d.rem();
        proof {
            assert forall|v: BinaryData32, rest: Seq<u8>|
                (#[trigger] v.enc(ctx).add(rest)) == input && v.rt_wf(ctx) implies be32(
                v.data@.len() as u32).add(v.data@.add(rest)) == input by {
                assert(be32(v.data@.len() as u32).add(v.data@.add(rest)) =~= v.enc(ctx).add(rest));
            }
        }
        match read_len32_bytes(d) {
            Ok(data) => Ok(BinaryData32 { data }),
            Err(e) => Err(e),
        }
    }
}


#[derive(Debug, Clone, Copy, PartialEq, Eq, Structural)]
pub struct v2u32 {
    pub x: u32,
    pub y: u32,
}

impl Serialize for v2u32 {
    open spec fn enc(&self, ctx: ProtocolContext) -> Seq<u8> {
        self.x.enc(ctx) + self.y.enc(ctx)
    }

    open spec fn ser_wf(&self, ctx: ProtocolContext) -> bool {
        self.x.ser_wf(ctx) && self.y.ser_wf(ctx)
    }

    open spec fn eqv(&self, other: &Self) -> bool {
        self.x.eqv(&other.x) && self.y.eqv(&other.y)
    }

    fn serialize(&self, ser: &mut VecSerializer) -> (r: SerializeResult) {
        match self.x.serialize(ser) {
            Ok(_) => {},
            Err(e) => {
                return Err(e);
            },
        }
        match self.y.serialize(ser) {
            Ok(_) => {},
            Err(e) => {
                return Err(e);
            },
        }
        assert(ser.out() =~= old(ser).out() + self.enc(old(ser).ctx()));
        Ok(())
    }
}

proof fn v2u32_reshape(ctx: ProtocolContext, input: Seq<u8>)
    ensures
        forall|v: v2u32, rest: Seq<u8>|
            (#[trigger] v.enc(ctx).add(rest)) == input && v.rt_wf(ctx)
                && (<v2u32 as Deserialize>::prefix_safe() || rest.len() == 0)
                ==> v.x.enc(ctx).add(v.y.enc(ctx).add(rest)) == input,
{
    assert forall|v: v2u32, rest: Seq<u8>|
        (#[trigger] v.enc(ctx).add(rest)) == input && v.rt_wf(ctx)
        && (<v2u32 as Deserialize>::prefix_safe() || rest.len() == 0)
        implies v.x.enc(ctx).add(v.y.enc(ctx).add(rest)) == input by {
        assert(v.x.enc(ctx).add(v.y.enc(ctx).add(rest)) =~= v.enc(ctx).add(rest));
    }
}

impl Deserialize for v2u32 {
    open spec fn rt_wf(&self, ctx: ProtocolContext) -> bool {
        self.x.rt_wf(ctx) && self.y.rt_wf(ctx) && <u32 as Deserialize>::prefix_safe()
    }

    open spec fn prefix_safe() -> bool {
        <u32 as Deserialize>::prefix_safe() && <u32 as Deserialize>::prefix_safe()
    }

    fn deserialize(d: &mut Deserializer) -> (r: DeserializeResult<Self>) {
        let ghost ctx = d.ctx();
        let ghost input = d.rem();
        proof {
            v2u32_reshape(ctx, input);
        }
        let x = match <u32 as Deserialize>::deserialize(d) {
            Ok(v) => v,
            Err(e) => {
                return Err(e);
            },
        };
        let y = match <u32 as Deserialize>::deserialize(d) {
            Ok(v) => v,
            Err(e) => {
                return Err(e);
            },
        };
        Ok(v2u32 { x, y })
    }
}

#[derive(Debug, Clone, Copy, PartialEq, Eq, Structural)]
pub struct v2s16 {
    pub x: s16,
    pub y: s16,
}

impl Serialize for v2s16 {
    open spec fn enc(&self, ctx: ProtocolContext) -> Seq<u8> {
        self.x.enc(ctx) + self.y.enc(ctx)
    }

    open spec fn ser_wf(&self, ctx: ProtocolContext) -> bool {
        self.x.ser_wf(ctx) && self.y.ser_wf(ctx)
    }

    open spec fn eqv(&self, other: &Self) -> bool {
        self.x.eqv(&other.x) && self.y.eqv(&other.y)
    }

    fn serialize(&self, ser: &mut VecSerializer) -> (r: SerializeResult) {
        match self.x.serialize(ser) {
            Ok(_) => {},
            Err(e) => {
                return Err(e);
            },
        }
        match self.y.serialize(ser) {
            Ok(_) => {},
            Err(e) => {
                return Err(e);
            },
        }
        assert(ser.out() =~= old(ser).out() + self.enc(old(ser).ctx()));
        Ok(())
    }
}

proof fn v2s16_reshape(ctx: ProtocolContext, input: Seq<u8>)
    ensures
        forall|v: v2s16, rest: Seq<u8>|
            (#[trigger] v.enc(ctx).add(rest)) == input && v.rt_wf(ctx)
                && (<v2s16 as Deserialize>::prefix_safe() || rest.len() == 0)
                ==> v.x.enc(ctx).add(v.y.enc(ctx).add(rest)) == input,
{
    assert forall|v: v2s16, rest: Seq<u8>|
        (#[trigger] v.enc(ctx).add(rest)) == input && v.rt_wf(ctx)
        && (<v2s16 as Deserialize>::prefix_safe() || rest.len() == 0)
        implies v.x.enc(ctx).add(v.y.enc(ctx).add(rest)) == input by {
        assert(v.x.enc(ctx).add(v.y.enc(ctx).add(rest)) =~= v.enc(ctx).add(rest));
    }
}

impl Deserialize for v2s16 {
    open spec fn rt_wf(&self, ctx: ProtocolContext) -> bool {
        self.x.rt_wf(ctx) && self.y.rt_wf(ctx) && <s16 as Deserialize>::prefix_safe()
    }

    open spec fn prefix_safe() -> bool {
        <s16 as Deserialize>::prefix_safe() && <s16 as Deserialize>::prefix_safe()
    }

    fn deserialize(d: &mut Deserializer) -> (r: DeserializeResult<Self>) {
        let ghost ctx = d.ctx();
        let ghost input = d.rem();
        proof {
            v2s16_reshape(ctx, input);
        }
        let x = match <s16 as Deserialize>::deserialize(d) {
            Ok(v) => v,
            Err(e) => {
                return Err(e);
            },
        };
        let y = match <s16 as Deserialize>::deserialize(d) {
            Ok(v) => v,
            Err(e) => {
                return Err(e);
            },
        };
        Ok(v2s16 { x, y })
    }
}

#[derive(Debug, Clone, Copy, PartialEq, Eq, Structural)]
pub struct v2s32 {
    pub x: s32,
    pub y: s32,
}

impl Serialize for v2s32 {
    open spec fn enc(&self, ctx: ProtocolContext) -> Seq<u8> {
        self.x.enc(ctx) + self.y.enc(ctx)
    }

    open spec fn ser_wf(&self, ctx: ProtocolContext) -> bool {
        self.x.ser_wf(ctx) && self.y.ser_wf(ctx)
    }

    open spec fn eqv(&self, other: &Self) -> bool {
        self.x.eqv(&other.x) && self.y.eqv(&other.y)
    }

    fn serialize(&self, ser: &mut VecSerializer) -> (r: SerializeResult) {
        match self.x.serialize(ser) {
            Ok(_) => {},
            Err(e) => {
                return Err(e);
            },
        }
        match self.y.serialize(ser) {
            Ok(_) => {},
            Err(e) => {
                return Err(e);
            },
        }
        assert(ser.out() =~= old(ser).out() + self.enc(old(ser).ctx()));
        Ok(())
    }
}

proof fn v2s32_reshape(ctx: ProtocolContext, input: Seq<u8>)
    ensures
        forall|v: v2s32, rest: Seq<u8>|
            (#[trigger] v.enc(ctx).add(rest)) == input && v.rt_wf(ctx)
                && (<v2s32 as Deserialize>::prefix_safe() || rest.len() == 0)
                ==> v.x.enc(ctx).add(v.y.enc(ctx).add(rest)) == input,
{
    assert forall|v: v2s32, rest: Seq<u8>|
        (#[trigger] v.enc(ctx).add(rest)) == input && v.rt_wf(ctx)
        && (<v2s32 as Deserialize>::prefix_safe() || rest.len() == 0)
        implies v.x.enc(ctx).add(v.y.enc(ctx).add(rest)) == input by {
        assert(v.x.enc(ctx).add(v.y.enc(ctx).add(rest)) =~= v.enc(ctx).add(rest));
    }
}

impl Deserialize for v2s32 {
    open spec fn rt_wf(&self, ctx: ProtocolContext) -> bool {
        self.x.rt_wf(ctx) && self.y.rt_wf(ctx) && <s32 as Deserialize>::prefix_safe()
    }

    open spec fn prefix_safe() -> bool {
        <s32 as Deserialize>::prefix_safe() && <s32 as Deserialize>::prefix_safe()
    }

    fn deserialize(d: &mut Deserializer) -> (r: DeserializeResult<Self>) {
        let ghost ctx = d.ctx();
        let ghost input = d.rem();
        proof {
            v2s32_reshape(ctx, input);
        }
        let x = match <s32 as Deserialize>::deserialize(d) {
            Ok(v) => v,
            Err(e) => {
                return Err(e);
            },
        };
        let y = match <s32 as Deserialize>::deserialize(d) {
            Ok(v) => v,
            Err(e) => {
                return Err(e);
            },
        };
        Ok(v2s32 { x, y })
    }
}

#[derive(Debug, Clone, Copy, PartialEq, Eq, Structural)]
pub struct v3s32 {
    pub x: s32,
    pub y: s32,
    pub z: s32,
}

impl Serialize for v3s32 {
    open spec fn enc(&self, ctx: ProtocolContext) -> Seq<u8> {
        self.x.enc(ctx) + self.y.enc(ctx) + self.z.enc(ctx)
    }

    open spec fn ser_wf(&self, ctx: ProtocolContext) -> bool {
        self.x.ser_wf(ctx) && self.y.ser_wf(ctx) && self.z.ser_wf(ctx)
    }

    open spec fn eqv(&self, other: &Self) -> bool {
        self.x.eqv(&other.x) && self.y.eqv(&other.y) && self.z.eqv(&other.z)
    }

    fn serialize(&self, ser: &mut VecSerializer) -> (r: SerializeResult) {
        match self.x.serialize(ser) {
            Ok(_) => {},
            Err(e) => {
                return Err(e);
            },
        }
        match self.y.serialize(ser) {
            Ok(_) => {},
            Err(e) => {
                return Err(e);
            },
        }
        match self.z.serialize(ser) {
            Ok(_) => {},
            Err(e) => {
                return Err(e);
            },
        }
        assert(ser.out() =~= old(ser).out() + self.enc(old(ser).ctx()));
        Ok(())
    }
}

proof fn v3s32_reshape(ctx: ProtocolContext, input: Seq<u8>)
    ensures
        forall|v: v3s32, rest: Seq<u8>|
            (#[trigger] v.enc(ctx).add(rest)) == input && v.rt_wf(ctx)
                && (<v3s32 as Deserialize>::prefix_safe() || rest.len() == 0)
                ==> v.x.enc(ctx).add(v.y.enc(ctx).add(v.z.enc(ctx).add(rest))) == input,
{
    assert forall|v: v3s32, rest: Seq<u8>|
        (#[trigger] v.enc(ctx).add(rest)) == input && v.rt_wf(ctx)
        && (<v3s32 as Deserialize>::prefix_safe() || rest.len() == 0)
        implies v.x.enc(ctx).add(v.y.enc(ctx).add(v.z.enc(ctx).add(rest))) == input by {
        assert(v.x.enc(ctx).add(v.y.enc(ctx).add(v.z.enc(ctx).add(rest))) =~= v.enc(ctx).add(rest));
    }
}

impl Deserialize for v3s32 {
    open spec fn rt_wf(&self, ctx: ProtocolContext) -> bool {
        self.x.rt_wf(ctx) && self.y.rt_wf(ctx) && self.z.rt_wf(ctx) && <s32 as Deserialize>::prefix_safe() && <s32 as Deserialize>::prefix_safe()
    }

    open spec fn prefix_safe() -> bool {
        <s32 as Deserialize>::prefix_safe() && <s32 as Deserialize>::prefix_safe() && <s32 as Deserialize>::prefix_safe()
    }

    fn deserialize(d: &mut Deserializer) -> (r: DeserializeResult<Self>) {
        let ghost ctx = d.ctx();
        let ghost input = d.rem();
        proof {
            v3s32_reshape(ctx, input);
        }
        let x = match <s32 as Deserialize>::deserialize(d) {
            Ok(v) => v,
            Err(e) => {
                return Err(e);
            },
        };
        let y = match <s32 as Deserialize>::deserialize(d) {
            Ok(v) => v,
            Err(e) => {
                return Err(e);
            },
        };
        let z = match <s32 as Deserialize>::deserialize(d) {
            Ok(v) => v,
            Err(e) => {
                return Err(e);
            },
        };
        Ok(v3s32 { x, y, z })
    }
}

/// A pair of single-precision values, by their bits.
#[derive(Debug, Clone, Copy, PartialEq, Eq, Structural)]
pub struct v2f {
    pub x: f32bits,
    pub y: f32bits,
}

impl Serialize for v2f {
    open spec fn enc(&self, ctx: ProtocolContext) -> Seq<u8> {
        self.x.enc(ctx) + self.y.enc(ctx)
    }

    open spec fn ser_wf(&self, ctx: ProtocolContext) -> bool {
        self.x.ser_wf(ctx) && self.y.ser_wf(ctx)
    }

    open spec fn eqv(&self, other: &Self) -> bool {
        self.x.eqv(&other.x) && self.y.eqv(&other.y)
    }

    fn serialize(&self, ser: &mut VecSerializer) -> (r: SerializeResult) {
        match self.x.serialize(ser) {
            Ok(_) => {},
            Err(e) => {
                return Err(e);
            },
        }
        match self.y.serialize(ser) {
            Ok(_) => {},
            Err(e) => {
                return Err(e);
            },
        }
        assert(ser.out() =~= old(ser).out() + self.enc(old(ser).ctx()));
        Ok(())
    }
}

proof fn v2f_reshape(ctx: ProtocolContext, input: Seq<u8>)
    ensures
        forall|v: v2f, rest: Seq<u8>|
            (#[trigger] v.enc(ctx).add(rest)) == input && v.rt_wf(ctx)
                && (<v2f as Deserialize>::prefix_safe() || rest.len() == 0)
                ==> v.x.enc(ctx).add(v.y.enc(ctx).add(rest)) == input,
{
    assert forall|v: v2f, rest: Seq<u8>|
        (#[trigger] v.enc(ctx).add(rest)) == input && v.rt_wf(ctx)
        && (<v2f as Deserialize>::prefix_safe() || rest.len() == 0)
        implies v.x.enc(ctx).add(v.y.enc(ctx).add(rest)) == input by {
        assert(v.x.enc(ctx).add(v.y.enc(ctx).add(rest)) =~= v.enc(ctx).add(rest));
    }
}

impl Deserialize for v2f {
    open spec fn rt_wf(&self, ctx: ProtocolContext) -> bool {
        self.x.rt_wf(ctx) && self.y.rt_wf(ctx) && <f32bits as Deserialize>::prefix_safe()
    }

    open spec fn prefix_safe() -> bool {
        <f32bits as Deserialize>::prefix_safe() && <f32bits as Deserialize>::prefix_safe()
    }

    fn deserialize(d: &mut Deserializer) -> (r: DeserializeResult<Self>) {
        let ghost ctx = d.ctx();
        let ghost input = d.rem();
        proof {
            v2f_reshape(ctx, input);
        }
        let x = match <f32bits as Deserialize>::deserialize(d) {
            Ok(v) => v,
            Err(e) => {
                return Err(e);
            },
        };
        let y = match <f32bits as Deserialize>::deserialize(d) {
            Ok(v) => v,
            Err(e) => {
                return Err(e);
            },
        };
        Ok(v2f { x, y })
    }
}

/// A triple of single-precision values, by their bits.
#[derive(Debug, Clone, Copy, PartialEq, Eq, Structural)]
pub struct v3f {
    pub x: f32bits,
    pub y: f32bits,
    pub z: f32bits,
}

impl Serialize for v3f {
    open spec fn enc(&self, ctx: ProtocolContext) -> Seq<u8> {
        self.x.enc(ctx) + self.y.enc(ctx) + self.z.enc(ctx)
    }

    open spec fn ser_wf(&self, ctx: ProtocolContext) -> bool {
        self.x.ser_wf(ctx) && self.y.ser_wf(ctx) && self.z.ser_wf(ctx)
    }

    open spec fn eqv(&self, other: &Self) -> bool {
        self.x.eqv(&other.x) && self.y.eqv(&other.y) && self.z.eqv(&other.z)
    }

    fn serialize(&self, ser: &mut VecSerializer) -> (r: SerializeResult) {
        match self.x.serialize(ser) {
            Ok(_) => {},
            Err(e) => {
                return Err(e);
            },
        }
        match self.y.serialize(ser) {
            Ok(_) => {},
            Err(e) => {
                return Err(e);
            },
        }
        match self.z.serialize(ser) {
            Ok(_) => {},
            Err(e) => {
                return Err(e);
            },
        }
        assert(ser.out() =~= old(ser).out() + self.enc(old(ser).ctx()));
        Ok(())
    }
}

proof fn v3f_reshape(ctx: ProtocolContext, input: Seq<u8>)
    ensures
        forall|v: v3f, rest: Seq<u8>|
            (#[trigger] v.enc(ctx).add(rest)) == input && v.rt_wf(ctx)
                && (<v3f as Deserialize>::prefix_safe() || rest.len() == 0)
                ==> v.x.enc(ctx).add(v.y.enc(ctx).add(v.z.enc(ctx).add(rest))) == input,
{
    assert forall|v: v3f, rest: Seq<u8>|
        (#[trigger] v.enc(ctx).add(rest)) == input && v.rt_wf(ctx)
        && (<v3f as Deserialize>::prefix_safe() || rest.len() == 0)
        implies v.x.enc(ctx).add(v.y.enc(ctx).add(v.z.enc(ctx).add(rest))) == input by {
        assert(v.x.enc(ctx).add(v.y.enc(ctx).add(v.z.enc(ctx).add(rest))) =~= v.enc(ctx).add(rest));
    }
}

impl Deserialize for v3f {
    open spec fn rt_wf(&self, ctx: ProtocolContext) -> bool {
        self.x.rt_wf(ctx) && self.y.rt_wf(ctx) && self.z.rt_wf(ctx) && <f32bits as Deserialize>::prefix_safe() && <f32bits as Deserialize>::prefix_safe()
    }

    open spec fn prefix_safe() -> bool {
        <f32bits as Deserialize>::prefix_safe() && <f32bits as Deserialize>::prefix_safe() && <f32bits as Deserialize>::prefix_safe()
    }

    fn deserialize(d: &mut Deserializer) -> (r: DeserializeResult<Self>) {
        let ghost ctx = d.ctx();
        let ghost input = d.rem();
        proof {
            v3f_reshape(ctx, input);
        }
        let x = match <f32bits as Deserialize>::deserialize(d) {
            Ok(v) => v,
            Err(e) => {
                return Err(e);
            },
        };
        let y = match <f32bits as Deserialize>::deserialize(d) {
            Ok(v) => v,
            Err(e) => {
                return Err(e);
            },
        };
        let z = match <f32bits as Deserialize>::deserialize(d) {
            Ok(v) => v,
            Err(e) => {
                return Err(e);
            },
        };
        Ok(v3f { x, y, z })
    }
}

#[derive(Debug, Clone, Copy, PartialEq, Eq, Structural)]
pub struct aabb3f {
    pub min_edge: v3f,
    pub max_edge: v3f,
}

impl Serialize for aabb3f {
    open spec fn enc(&self, ctx: ProtocolContext) -> Seq<u8> {
        self.min_edge.enc(ctx) + self.max_edge.enc(ctx)
    }

    open spec fn ser_wf(&self, ctx: ProtocolContext) -> bool {
        self.min_edge.ser_wf(ctx) && self.max_edge.ser_wf(ctx)
    }

    open spec fn eqv(&self, other: &Self) -> bool {
        self.min_edge.eqv(&other.min_edge) && self.max_edge.eqv(&other.max_edge)
    }

    fn serialize(&self, ser: &mut VecSerializer) -> (r: SerializeResult) {
        match self.min_edge.serialize(ser) {
            Ok(_) => {},
            Err(e) => {
                return Err(e);
            },
        }
        match self.max_edge.serialize(ser) {
            Ok(_) => {},
            Err(e) => {
                return Err(e);
            },
        }
        assert(ser.out() =~= old(ser).out() + self.enc(old(ser).ctx()));
        Ok(())
    }
}

proof fn aabb3f_reshape(ctx: ProtocolContext, input: Seq<u8>)
    ensures
        forall|v: aabb3f, rest: Seq<u8>|
            (#[trigger] v.enc(ctx).add(rest)) == input && v.rt_wf(ctx)
                && (<aabb3f as Deserialize>::prefix_safe() || rest.len() == 0)
                ==> v.min_edge.enc(ctx).add(v.max_edge.enc(ctx).add(rest)) == input,
{
    assert forall|v: aabb3f, rest: Seq<u8>|
        (#[trigger] v.enc(ctx).add(rest)) == input && v.rt_wf(ctx)
        && (<aabb3f as Deserialize>::prefix_safe() || rest.len() == 0)
        implies v.min_edge.enc(ctx).add(v.max_edge.enc(ctx).add(rest)) == input by {
        assert(v.min_edge.enc(ctx).add(v.max_edge.enc(ctx).add(rest)) =~= v.enc(ctx).add(rest));
    }
}

impl Deserialize for aabb3f {
    open spec fn rt_wf(&self, ctx: ProtocolContext) -> bool {
        self.min_edge.rt_wf(ctx) && self.max_edge.rt_wf(ctx) && <v3f as Deserialize>::prefix_safe()
    }

    open spec fn prefix_safe() -> bool {
        <v3f as Deserialize>::prefix_safe() && <v3f as Deserialize>::prefix_safe()
    }

    fn deserialize(d: &mut Deserializer) -> (r: DeserializeResult<Self>) {
        let ghost ctx = d.ctx();
        let ghost input = d.rem();
        proof {
            aabb3f_reshape(ctx, input);
        }
        let min_edge = match <v3f as Deserialize>::deserialize(d) {
            Ok(v) => v,
            Err(e) => {
                return Err(e);
            },
        };
        let max_edge = match <v3f as Deserialize>::deserialize(d) {
            Ok(v) => v,
            Err(e) => {
                return Err(e);
            },
        };
        Ok(aabb3f { min_edge, max_edge })
    }
}

#[derive(Debug, Clone, Copy, PartialEq, Eq, Structural)]
pub struct SColor {
    pub r: u8,
    pub g: u8,
    pub b: u8,
    pub a: u8,
}

impl Serialize for SColor {
    open spec fn enc(&self, ctx: ProtocolContext) -> Seq<u8> {
        self.r.enc(ctx) + self.g.enc(ctx) + self.b.enc(ctx) + self.a.enc(ctx)
    }

    open spec fn ser_wf(&self, ctx: ProtocolContext) -> bool {
        self.r.ser_wf(ctx) && self.g.ser_wf(ctx) && self.b.ser_wf(ctx) && self.a.ser_wf(ctx)
    }

    open spec fn eqv(&self, other: &Self) -> bool {
        self.r.eqv(&other.r) && self.g.eqv(&other.g) && self.b.eqv(&other.b) && self.a.eqv(&other.a)
    }

    fn serialize(&self, ser: &mut VecSerializer) -> (r: SerializeResult) {
        match self.r.serialize(ser) {
            Ok(_) => {},
            Err(e) => {
                return Err(e);
            },
        }
        match self.g.serialize(ser) {
            Ok(_) => {},
            Err(e) => {
                return Err(e);
            },
        }
        match self.b.serialize(ser) {
            Ok(_) => {},
            Err(e) => {
                return Err(e);
            },
        }
        match self.a.serialize(ser) {
            Ok(_) => {},
            Err(e) => {
                return Err(e);
            },
        }
        assert(ser.out() =~= old(ser).out() + self.enc(old(ser).ctx()));
        Ok(())
    }
}

proof fn scolor_reshape(ctx: ProtocolContext, input: Seq<u8>)
    ensures
        forall|v: SColor, rest: Seq<u8>|
            (#[trigger] v.enc(ctx).add(rest)) == input && v.rt_wf(ctx)
                && (<SColor as Deserialize>::prefix_safe() || rest.len() == 0)
                ==> v.r.enc(ctx).add(v.g.enc(ctx).add(v.b.enc(ctx).add(v.a.enc(ctx).add(rest)))) == input,
{
    assert forall|v: SColor, rest: Seq<u8>|
        (#[trigger] v.enc(ctx).add(rest)) == input && v.rt_wf(ctx)
        && (<SColor as Deserialize>::prefix_safe() || rest.len() == 0)
        implies v.r.enc(ctx).add(v.g.enc(ctx).add(v.b.enc(ctx).add(v.a.enc(ctx).add(rest)))) == input by {
        assert(v.r.enc(ctx).add(v.g.enc(ctx).add(v.b.enc(ctx).add(v.a.enc(ctx).add(rest)))) =~= v.enc(ctx).add(rest));
    }
}

impl Deserialize for SColor {
    open spec fn rt_wf(&self, ctx: ProtocolContext) -> bool {
        self.r.rt_wf(ctx) && self.g.rt_wf(ctx) && self.b.rt_wf(ctx) && self.a.rt_wf(ctx) && <u8 as Deserialize>::prefix_safe() && <u8 as Deserialize>::prefix_safe() && <u8 as Deserialize>::prefix_safe()
    }

    open spec fn prefix_safe() -> bool {
        <u8 as Deserialize>::prefix_safe() && <u8 as Deserialize>::prefix_safe() && <u8 as Deserialize>::prefix_safe() && <u8 as Deserialize>::prefix_safe()
    }

    fn deserialize(d: &mut Deserializer) -> (r: DeserializeResult<Self>) {
        let ghost ctx = d.ctx();
        let ghost input = d.rem();
        proof {
            scolor_reshape(ctx, input);
        }
        let r = match <u8 as Deserialize>::deserialize(d) {
            Ok(v) => v,
            Err(e) => {
                return Err(e);
            },
        };
        let g = match <u8 as Deserialize>::deserialize(d) {
            Ok(v) => v,
            Err(e) => {
                return Err(e);
            },
        };
        let b = match <u8 as Deserialize>::deserialize(d) {
            Ok(v) => v,
            Err(e) => {
                return Err(e);
            },
        };
        let a = match <u8 as Deserialize>::deserialize(d) {
            Ok(v) => v,
            Err(e) => {
                return Err(e);
            },
        };
        Ok(SColor { r, g, b, a })
    }
}

/// One map node. The default encoding is used for single nodes; whole
/// blocks travel as `MapNodesBulk`.
#[derive(Debug, Clone, Copy, PartialEq, Eq, Structural)]
pub struct MapNode {
    pub param0: u16,
    pub param1: u8,
    pub param2: u8,
}

impl Serialize for MapNode {
    open spec fn enc(&self, ctx: ProtocolContext) -> Seq<u8> {
        self.param0.enc(ctx) + self.param1.enc(ctx) + self.param2.enc(ctx)
    }

    open spec fn ser_wf(&self, ctx: ProtocolContext) -> bool {
        self.param0.ser_wf(ctx) && self.param1.ser_wf(ctx) && self.param2.ser_wf(ctx)
    }

    open spec fn eqv(&self, other: &Self) -> bool {
        self.param0.eqv(&other.param0) && self.param1.eqv(&other.param1) && self.param2.eqv(&other.param2)
    }

    fn serialize(&self, ser: &mut VecSerializer) -> (r: SerializeResult) {
        match self.param0.serialize(ser) {
            Ok(_) => {},
            Err(e) => {
                return Err(e);
            },
        }
        match self.param1.serialize(ser) {
            Ok(_) => {},
            Err(e) => {
                return Err(e);
            },
        }
        match self.param2.serialize(ser) {
            Ok(_) => {},
            Err(e) => {
                return Err(e);
            },
        }
        assert(ser.out() =~= old(ser).out() + self.enc(old(ser).ctx()));
        Ok(())
    }
}

proof fn mapnode_reshape(ctx: ProtocolContext, input: Seq<u8>)
    ensures
        forall|v: MapNode, rest: Seq<u8>|
            (#[trigger] v.enc(ctx).add(rest)) == input && v.rt_wf(ctx)
                && (<MapNode as Deserialize>::prefix_safe() || rest.len() == 0)
                ==> v.param0.enc(ctx).add(v.param1.enc(ctx).add(v.param2.enc(ctx).add(rest))) == input,
{
    assert forall|v: MapNode, rest: Seq<u8>|
        (#[trigger] v.enc(ctx).add(rest)) == input && v.rt_wf(ctx)
        && (<MapNode as Deserialize>::prefix_safe() || rest.len() == 0)
        implies v.param0.enc(ctx).add(v.param1.enc(ctx).add(v.param2.enc(ctx).add(rest))) == input by {
        assert(v.param0.enc(ctx).add(v.param1.enc(ctx).add(v.param2.enc(ctx).add(rest))) =~= v.enc(ctx).add(rest));
    }
}

impl Deserialize for MapNode {
    open spec fn rt_wf(&self, ctx: ProtocolContext) -> bool {
        self.param0.rt_wf(ctx) && self.param1.rt_wf(ctx) && self.param2.rt_wf(ctx) && <u16 as Deserialize>::prefix_safe() && <u8 as Deserialize>::prefix_safe()
    }

    open spec fn prefix_safe() -> bool {
        <u16 as Deserialize>::prefix_safe() && <u8 as Deserialize>::prefix_safe() && <u8 as Deserialize>::prefix_safe()
    }

    fn deserialize(d: &mut Deserializer) -> (r: DeserializeResult<Self>) {
        let ghost ctx = d.ctx();
        let ghost input = d.rem();
        proof {
            mapnode_reshape(ctx, input);
        }
        let param0 = match <u16 as Deserialize>::deserialize(d) {
            Ok(v) => v,
            Err(e) => {
                return Err(e);
            },
        };
        let param1 = match <u8 as Deserialize>::deserialize(d) {
            Ok(v) => v,
            Err(e) => {
                return Err(e);
            },
        };
        let param2 = match <u8 as Deserialize>::deserialize(d) {
            Ok(v) => v,
            Err(e) => {
                return Err(e);
            },
        };
        Ok(MapNode { param0, param1, param2 })
    }
}

#[derive(Debug, Clone, PartialEq, Eq)]
pub struct StarParams {
    pub visible: bool,
    pub count: u32,
    pub starcolor: SColor,
    pub scale: f32bits,
    pub day_opacity: Option<f32bits>,
}

impl Serialize for StarParams {
    open spec fn enc(&self, ctx: ProtocolContext) -> Seq<u8> {
        self.visible.enc(ctx) + self.count.enc(ctx) + self.starcolor.enc(ctx) + self.scale.enc(ctx) + self.day_opacity.enc(ctx)
    }

    open spec fn ser_wf(&self, ctx: ProtocolContext) -> bool {
        self.visible.ser_wf(ctx) && self.count.ser_wf(ctx) && self.starcolor.ser_wf(ctx) && self.scale.ser_wf(ctx) && self.day_opacity.ser_wf(ctx)
    }

    open spec fn eqv(&self, other: &Self) -> bool {
        self.visible.eqv(&other.visible) && self.count.eqv(&other.count) && self.starcolor.eqv(&other.starcolor) && self.scale.eqv(&other.scale) && self.day_opacity.eqv(&other.day_opacity)
    }

    fn serialize(&self, ser: &mut VecSerializer) -> (r: SerializeResult) {
        match self.visible.serialize(ser) {
            Ok(_) => {},
            Err(e) => {
                return Err(e);
            },
        }
        match self.count.serialize(ser) {
            Ok(_) => {},
            Err(e) => {
                return Err(e);
            },
        }
        match self.starcolor.serialize(ser) {
            Ok(_) => {},
            Err(e) => {
                return Err(e);
            },
        }
        match self.scale.serialize(ser) {
            Ok(_) => {},
            Err(e) => {
                return Err(e);
            },
        }
        match self.day_opacity.serialize(ser) {
            Ok(_) => {},
            Err(e) => {
                return Err(e);
            },
        }
        assert(ser.out() =~= old(ser).out() + self.enc(old(ser).ctx()));
        Ok(())
    }
}

proof fn starparams_reshape(ctx: ProtocolContext, input: Seq<u8>)
    ensures
        forall|v: StarParams, rest: Seq<u8>|
            (#[trigger] v.enc(ctx).add(rest)) == input && v.rt_wf(ctx)
                && (<StarParams as Deserialize>::prefix_safe() || rest.len() == 0)
                ==> v.visible.enc(ctx).add(v.count.enc(ctx).add(v.starcolor.enc(ctx).add(v.scale.enc(ctx).add(v.day_opacity.enc(ctx).add(rest))))) == input && (v.day_opacity matches Some(x) ==> x.enc(ctx).add(rest) == v.day_opacity.enc(ctx).add(rest)) && (v.day_opacity is None ==> v.day_opacity.enc(ctx).add(rest).len() == 0),
{
    assert forall|v: StarParams, rest: Seq<u8>|
        (#[trigger] v.enc(ctx).add(rest)) == input && v.rt_wf(ctx)
        && (<StarParams as Deserialize>::prefix_safe() || rest.len() == 0)
        implies v.visible.enc(ctx).add(v.count.enc(ctx).add(v.starcolor.enc(ctx).add(v.scale.enc(ctx).add(v.day_opacity.enc(ctx).add(rest))))) == input && (v.day_opacity matches Some(x) ==> x.enc(ctx).add(rest) == v.day_opacity.enc(ctx).add(rest)) && (v.day_opacity is None ==> v.day_opacity.enc(ctx).add(rest).len() == 0) by {
        assert(v.visible.enc(ctx).add(v.count.enc(ctx).add(v.starcolor.enc(ctx).add(v.scale.enc(ctx).add(v.day_opacity.enc(ctx).add(rest))))) =~= v.enc(ctx).add(rest));
        match v.day_opacity {
            Some(x) => {
                assert(x.enc(ctx).add(rest) =~= v.day_opacity.enc(ctx).add(rest));
            },
            None => {
                assert(v.day_opacity.enc(ctx).add(rest) =~= rest);
            },
        }
    }
}

impl Deserialize for StarParams {
    open spec fn rt_wf(&self, ctx: ProtocolContext) -> bool {
        self.visible.rt_wf(ctx) && self.count.rt_wf(ctx) && self.starcolor.rt_wf(ctx) && self.scale.rt_wf(ctx) && self.day_opacity.rt_wf(ctx) && <bool as Deserialize>::prefix_safe() && <u32 as Deserialize>::prefix_safe() && <SColor as Deserialize>::prefix_safe() && <f32bits as Deserialize>::prefix_safe() && <f32bits as Deserialize>::prefix_safe()
    }

    open spec fn prefix_safe() -> bool {
        <bool as Deserialize>::prefix_safe() && <u32 as Deserialize>::prefix_safe() && <SColor as Deserialize>::prefix_safe() && <f32bits as Deserialize>::prefix_safe() && <Option<f32bits> as Deserialize>::prefix_safe()
    }

    fn deserialize(d: &mut Deserializer) -> (r: DeserializeResult<Self>) {
        let ghost ctx = d.ctx();
        let ghost input = d.rem();
        proof {
            starparams_reshape(ctx, input);
        }
        let visible = match <bool as Deserialize>::deserialize(d) {
            Ok(v) => v,
            Err(e) => {
                return Err(e);
            },
        };
        let count = match <u32 as Deserialize>::deserialize(d) {
            Ok(v) => v,
            Err(e) => {
                return Err(e);
            },
        };
        let starcolor = match <SColor as Deserialize>::deserialize(d) {
            Ok(v) => v,
            Err(e) => {
                return Err(e);
            },
        };
        let scale = match <f32bits as Deserialize>::deserialize(d) {
            Ok(v) => v,
            Err(e) => {
                return Err(e);
            },
        };
        let day_opacity = if d.remaining() == 0 {
            None
        } else {
            match <f32bits as Deserialize>::deserialize(d) {
                Ok(v) => Some(v),
                Err(e) => {
                    return Err(e);
                },
            }
        };
        Ok(StarParams { visible, count, starcolor, scale, day_opacity })
    }
}

#[derive(Debug, Clone, PartialEq, Eq)]
pub struct SunParams {
    pub visible: bool,
    pub texture: ByteString,
    pub tonemap: ByteString,
    pub sunrise: ByteString,
    pub sunrise_visible: bool,
    pub scale: f32bits,
}

impl Serialize for SunParams {
    open spec fn enc(&self, ctx: ProtocolContext) -> Seq<u8> {
        self.visible.enc(ctx) + self.texture.enc(ctx) + self.tonemap.enc(ctx) + self.sunrise.enc(ctx) + self.sunrise_visible.enc(ctx) + self.scale.enc(ctx)
    }

    open spec fn ser_wf(&self, ctx: ProtocolContext) -> bool {
        self.visible.ser_wf(ctx) && self.texture.ser_wf(ctx) && self.tonemap.ser_wf(ctx) && self.sunrise.ser_wf(ctx) && self.sunrise_visible.ser_wf(ctx) && self.scale.ser_wf(ctx)
    }

    open spec fn eqv(&self, other: &Self) -> bool {
        self.visible.eqv(&other.visible) && self.texture.eqv(&other.texture) && self.tonemap.eqv(&other.tonemap) && self.sunrise.eqv(&other.sunrise) && self.sunrise_visible.eqv(&other.sunrise_visible) && self.scale.eqv(&other.scale)
    }

    fn serialize(&self, ser: &mut VecSerializer) -> (r: SerializeResult) {
        match self.visible.serialize(ser) {
            Ok(_) => {},
            Err(e) => {
                return Err(e);
            },
        }
        match self.texture.serialize(ser) {
            Ok(_) => {},
            Err(e) => {
                return Err(e);
            },
        }
        match self.tonemap.serialize(ser) {
            Ok(_) => {},
            Err(e) => {
                return Err(e);
            },
        }
        match self.sunrise.serialize(ser) {
            Ok(_) => {},
            Err(e) => {
                return Err(e);
            },
        }
        match self.sunrise_visible.serialize(ser) {
            Ok(_) => {},
            Err(e) => {
                return Err(e);
            },
        }
        match self.scale.serialize(ser) {
            Ok(_) => {},
            Err(e) => {
                return Err(e);
            },
        }
        assert(ser.out() =~= old(ser).out() + self.enc(old(ser).ctx()));
        Ok(())
    }
}

proof fn sunparams_reshape(ctx: ProtocolContext, input: Seq<u8>)
    ensures
        forall|v: SunParams, rest: Seq<u8>|
            (#[trigger] v.enc(ctx).add(rest)) == input && v.rt_wf(ctx)
                && (<SunParams as Deserialize>::prefix_safe() || rest.len() == 0)
                ==> v.visible.enc(ctx).add(v.texture.enc(ctx).add(v.tonemap.enc(ctx).add(v.sunrise.enc(ctx).add(v.sunrise_visible.enc(ctx).add(v.scale.enc(ctx).add(rest)))))) == input,
{
    assert forall|v: SunParams, rest: Seq<u8>|
        (#[trigger] v.enc(ctx).add(rest)) == input && v.rt_wf(ctx)
        && (<SunParams as Deserialize>::prefix_safe() || rest.len() == 0)
        implies v.visible.enc(ctx).add(v.texture.enc(ctx).add(v.tonemap.enc(ctx).add(v.sunrise.enc(ctx).add(v.sunrise_visible.enc(ctx).add(v.scale.enc(ctx).add(rest)))))) == input by {
        assert(v.visible.enc(ctx).add(v.texture.enc(ctx).add(v.tonemap.enc(ctx).add(v.sunrise.enc(ctx).add(v.sunrise_visible.enc(ctx).add(v.scale.enc(ctx).add(rest)))))) =~= v.enc(ctx).add(rest));
    }
}

impl Deserialize for SunParams {
    open spec fn rt_wf(&self, ctx: ProtocolContext) -> bool {
        self.visible.rt_wf(ctx) && self.texture.rt_wf(ctx) && self.tonemap.rt_wf(ctx) && self.sunrise.rt_wf(ctx) && self.sunrise_visible.rt_wf(ctx) && self.scale.rt_wf(ctx) && <bool as Deserialize>::prefix_safe() && <ByteString as Deserialize>::prefix_safe() && <ByteString as Deserialize>::prefix_safe() && <ByteString as Deserialize>::prefix_safe() && <bool as Deserialize>::prefix_safe()
    }

    open spec fn prefix_safe() -> bool {
        <bool as Deserialize>::prefix_safe() && <ByteString as Deserialize>::prefix_safe() && <ByteString as Deserialize>::prefix_safe() && <ByteString as Deserialize>::prefix_safe() && <bool as Deserialize>::prefix_safe() && <f32bits as Deserialize>::prefix_safe()
    }

    fn deserialize(d: &mut Deserializer) -> (r: DeserializeResult<Self>) {
        let ghost ctx = d.ctx();
        let ghost input = d.rem();
        proof {
            sunparams_reshape(ctx, input);
        }
        let visible = match <bool as Deserialize>::deserialize(d) {
            Ok(v) => v,
            Err(e) => {
                return Err(e);
            },
        };
        let texture = match <ByteString as Deserialize>::deserialize(d) {
            Ok(v) => v,
            Err(e) => {
                return Err(e);
            },
        };
        let tonemap = match <ByteString as Deserialize>::deserialize(d) {
            Ok(v) => v,
            Err(e) => {
                return Err(e);
            },
        };
        let sunrise = match <ByteString as Deserialize>::deserialize(d) {
            Ok(v) => v,
            Err(e) => {
                return Err(e);
            },
        };
        let sunrise_visible = match <bool as Deserialize>::deserialize(d) {
            Ok(v) => v,
            Err(e) => {
                return Err(e);
            },
        };
        let scale = match <f32bits as Deserialize>::deserialize(d) {
            Ok(v) => v,
            Err(e) => {
                return Err(e);
            },
        };
        Ok(SunParams { visible, texture, tonemap, sunrise, sunrise_visible, scale })
    }
}

#[derive(Debug, Clone, PartialEq, Eq)]
pub struct MoonParams {
    pub visible: bool,
    pub texture: ByteString,
    pub tonemap: ByteString,
    pub scale: f32bits,
}

impl Serialize for MoonParams {
    open spec fn enc(&self, ctx: ProtocolContext) -> Seq<u8> {
        self.visible.enc(ctx) + self.texture.enc(ctx) + self.tonemap.enc(ctx) + self.scale.enc(ctx)
    }

    open spec fn ser_wf(&self, ctx: ProtocolContext) -> bool {
        self.visible.ser_wf(ctx) && self.texture.ser_wf(ctx) && self.tonemap.ser_wf(ctx) && self.scale.ser_wf(ctx)
    }

    open spec fn eqv(&self, other: &Self) -> bool {
        self.visible.eqv(&other.visible) && self.texture.eqv(&other.texture) && self.tonemap.eqv(&other.tonemap) && self.scale.eqv(&other.scale)
    }

    fn serialize(&self, ser: &mut VecSerializer) -> (r: SerializeResult) {
        match self.visible.serialize(ser) {
            Ok(_) => {},
            Err(e) => {
                return Err(e);
            },
        }
        match self.texture.serialize(ser) {
            Ok(_) => {},
            Err(e) => {
                return Err(e);
            },
        }
        match self.tonemap.serialize(ser) {
            Ok(_) => {},
            Err(e) => {
                return Err(e);
            },
        }
        match self.scale.serialize(ser) {
            Ok(_) => {},
            Err(e) => {
                return Err(e);
            },
        }
        assert(ser.out() =~= old(ser).out() + self.enc(old(ser).ctx()));
        Ok(())
    }
}

proof fn moonparams_reshape(ctx: ProtocolContext, input: Seq<u8>)
    ensures
        forall|v: MoonParams, rest: Seq<u8>|
            (#[trigger] v.enc(ctx).add(rest)) == input && v.rt_wf(ctx)
                && (<MoonParams as Deserialize>::prefix_safe() || rest.len() == 0)
                ==> v.visible.enc(ctx).add(v.texture.enc(ctx).add(v.tonemap.enc(ctx).add(v.scale.enc(ctx).add(rest)))) == input,
{
    assert forall|v: MoonParams, rest: Seq<u8>|
        (#[trigger] v.enc(ctx).add(rest)) == input && v.rt_wf(ctx)
        && (<MoonParams as Deserialize>::prefix_safe() || rest.len() == 0)
        implies v.visible.enc(ctx).add(v.texture.enc(ctx).add(v.tonemap.enc(ctx).add(v.scale.enc(ctx).add(rest)))) == input by {
        assert(v.visible.enc(ctx).add(v.texture.enc(ctx).add(v.tonemap.enc(ctx).add(v.scale.enc(ctx).add(rest)))) =~= v.enc(ctx).add(rest));
    }
}

impl Deserialize for MoonParams {
    open spec fn rt_wf(&self, ctx: ProtocolContext) -> bool {
        self.visible.rt_wf(ctx) && self.texture.rt_wf(ctx) && self.tonemap.rt_wf(ctx) && self.scale.rt_wf(ctx) && <bool as Deserialize>::prefix_safe() && <ByteString as Deserialize>::prefix_safe() && <ByteString as Deserialize>::prefix_safe()
    }

    open spec fn prefix_safe() -> bool {
        <bool as Deserialize>::prefix_safe() && <ByteString as Deserialize>::prefix_safe() && <ByteString as Deserialize>::prefix_safe() && <f32bits as Deserialize>::prefix_safe()
    }

    fn deserialize(d: &mut Deserializer) -> (r: DeserializeResult<Self>) {
        let ghost ctx = d.ctx();
        let ghost input = d.rem();
        proof {
            moonparams_reshape(ctx, input);
        }
        let visible = match <bool as Deserialize>::deserialize(d) {
            Ok(v) => v,
            Err(e) => {
                return Err(e);
            },
        };
        let texture = match <ByteString as Deserialize>::deserialize(d) {
            Ok(v) => v,
            Err(e) => {
                return Err(e);
            },
        };
        let tonemap = match <ByteString as Deserialize>::deserialize(d) {
            Ok(v) => v,
            Err(e) => {
                return Err(e);
            },
        };
        let scale = match <f32bits as Deserialize>::deserialize(d) {
            Ok(v) => v,
            Err(e) => {
                return Err(e);
            },
        };
        Ok(MoonParams { visible, texture, tonemap, scale })
    }
}

/// What an item definition describes. The first kind marks the absence
/// of an item.
#[derive(Debug, Clone, Copy, PartialEq, Eq, Structural)]
pub enum ItemType {
    NoItem,
    Node,
    Craft,
    Tool,
}

impl Serialize for ItemType {
    open spec fn enc(&self, ctx: ProtocolContext) -> Seq<u8> {
        match self {
            ItemType::NoItem => seq![0u8],
            ItemType::Node => seq![1u8],
            ItemType::Craft => seq![2u8],
            ItemType::Tool => seq![3u8],
        }
    }

    open spec fn ser_wf(&self, ctx: ProtocolContext) -> bool {
        true
    }

    open spec fn eqv(&self, other: &Self) -> bool {
        self == other
    }

    fn serialize(&self, ser: &mut VecSerializer) -> (r: SerializeResult) {
        let tag: u8 = match self {
            ItemType::NoItem => 0,
            ItemType::Node => 1,
            ItemType::Craft => 2,
            ItemType::Tool => 3,
        };
        ser.write_byte(tag);
        assert(ser.out() =~= old(ser).out() + self.enc(old(ser).ctx()));
        Ok(())
    }
}

impl Deserialize for ItemType {
    open spec fn rt_wf(&self, ctx: ProtocolContext) -> bool {
        true
    }

    open spec fn prefix_safe() -> bool {
        true
    }

    fn deserialize(d: &mut Deserializer) -> (r: DeserializeResult<Self>) {
        let ghost ctx = d.ctx();
        let ghost input = d.rem();
        proof {
            assert forall|v: ItemType, rest: Seq<u8>|
                (#[trigger] v.enc(ctx).add(rest)) == input implies input.len() >= 1
                && input[0] == v.enc(ctx)[0] && rest == input.skip(1) by {
                assert(rest =~= input.skip(1));
            }
        }
        let tag = match d.take_byte() {
            Ok(b) => b,
            Err(e) => {
                return Err(e);
            },
        };
        match tag {
            0 => Ok(ItemType::NoItem),
            1 => Ok(ItemType::Node),
            2 => Ok(ItemType::Craft),
            3 => Ok(ItemType::Tool),
            _ => Err(DeserializeError::InvalidValue),
        }
    }
}

#[derive(Debug, Clone, Copy, PartialEq, Eq, Structural)]
pub enum AlignStyle {
    Node,
    World,
    UserDefined,
}

impl Serialize for AlignStyle {
    open spec fn enc(&self, ctx: ProtocolContext) -> Seq<u8> {
        match self {
            AlignStyle::Node => seq![0u8],
            AlignStyle::World => seq![1u8],
            AlignStyle::UserDefined => seq![2u8],
        }
    }

    open spec fn ser_wf(&self, ctx: ProtocolContext) -> bool {
        true
    }

    open spec fn eqv(&self, other: &Self) -> bool {
        self == other
    }

    fn serialize(&self, ser: &mut VecSerializer) -> (r: SerializeResult) {
        let tag: u8 = match self {
            AlignStyle::Node => 0,
            AlignStyle::World => 1,
            AlignStyle::UserDefined => 2,
        };
        ser.write_byte(tag);
        assert(ser.out() =~= old(ser).out() + self.enc(old(ser).ctx()));
        Ok(())
    }
}

impl Deserialize for AlignStyle {
    open spec fn rt_wf(&self, ctx: ProtocolContext) -> bool {
        true
    }

    open spec fn prefix_safe() -> bool {
        true
    }

    fn deserialize(d: &mut Deserializer) -> (r: DeserializeResult<Self>) {
        let ghost ctx = d.ctx();
        let ghost input = d.rem();
        proof {
            assert forall|v: AlignStyle, rest: Seq<u8>|
                (#[trigger] v.enc(ctx).add(rest)) == input implies input.len() >= 1
                && input[0] == v.enc(ctx)[0] && rest == input.skip(1) by {
                assert(rest =~= input.skip(1));
            }
        }
        let tag = match d.take_byte() {
            Ok(b) => b,
            Err(e) => {
                return Err(e);
            },
        };
        match tag {
            0 => Ok(AlignStyle::Node),
            1 => Ok(AlignStyle::World),
            2 => Ok(AlignStyle::UserDefined),
            _ => Err(DeserializeError::InvalidValue),
        }
    }
}

#[derive(Debug, Clone, Copy, PartialEq, Eq, Structural)]
pub enum AlphaMode {
    Blend,
    Clip,
    Opaque,
    LegacyCompat,
}

impl Serialize for AlphaMode {
    open spec fn enc(&self, ctx: ProtocolContext) -> Seq<u8> {
        match self {
            AlphaMode::Blend => seq![0u8],
            AlphaMode::Clip => seq![1u8],
            AlphaMode::Opaque => seq![2u8],
            AlphaMode::LegacyCompat => seq![3u8],
        }
    }

    open spec fn ser_wf(&self, ctx: ProtocolContext) -> bool {
        true
    }

    open spec fn eqv(&self, other: &Self) -> bool {
        self == other
    }

    fn serialize(&self, ser: &mut VecSerializer) -> (r: SerializeResult) {
        let tag: u8 = match self {
            AlphaMode::Blend => 0,
            AlphaMode::Clip => 1,
            AlphaMode::Opaque => 2,
            AlphaMode::LegacyCompat => 3,
        };
        ser.write_byte(tag);
        assert(ser.out() =~= old(ser).out() + self.enc(old(ser).ctx()));
        Ok(())
    }
}

impl Deserialize for AlphaMode {
    open spec fn rt_wf(&self, ctx: ProtocolContext) -> bool {
        true
    }

    open spec fn prefix_safe() -> bool {
        true
    }

    fn deserialize(d: &mut Deserializer) -> (r: DeserializeResult<Self>) {
        let ghost ctx = d.ctx();
        let ghost input = d.rem();
        proof {
            assert forall|v: AlphaMode, rest: Seq<u8>|
                (#[trigger] v.enc(ctx).add(rest)) == input implies input.len() >= 1
                && input[0] == v.enc(ctx)[0] && rest == input.skip(1) by {
                assert(rest =~= input.skip(1));
            }
        }
        let tag = match d.take_byte() {
            Ok(b) => b,
            Err(e) => {
                return Err(e);
            },
        };
        match tag {
            0 => Ok(AlphaMode::Blend),
            1 => Ok(AlphaMode::Clip),
            2 => Ok(AlphaMode::Opaque),
            3 => Ok(AlphaMode::LegacyCompat),
            _ => Err(DeserializeError::InvalidValue),
        }
    }
}

#[derive(Debug, Clone, Copy, PartialEq, Eq, Structural)]
pub enum TweenStyle {
    Fwd,
    Rev,
    Pulse,
    Flicker,
}

impl Serialize for TweenStyle {
    open spec fn enc(&self, ctx: ProtocolContext) -> Seq<u8> {
        match self {
            TweenStyle::Fwd => seq![0u8],
            TweenStyle::Rev => seq![1u8],
            TweenStyle::Pulse => seq![2u8],
            TweenStyle::Flicker => seq![3u8],
        }
    }

    open spec fn ser_wf(&self, ctx: ProtocolContext) -> bool {
        true
    }

    open spec fn eqv(&self, other: &Self) -> bool {
        self == other
    }

    fn serialize(&self, ser: &mut VecSerializer) -> (r: SerializeResult) {
        let tag: u8 = match self {
            TweenStyle::Fwd => 0,
            TweenStyle::Rev => 1,
            TweenStyle::Pulse => 2,
            TweenStyle::Flicker => 3,
        };
        ser.write_byte(tag);
        assert(ser.out() =~= old(ser).out() + self.enc(old(ser).ctx()));
        Ok(())
    }
}

impl Deserialize for TweenStyle {
    open spec fn rt_wf(&self, ctx: ProtocolContext) -> bool {
        true
    }

    open spec fn prefix_safe() -> bool {
        true
    }

    fn deserialize(d: &mut Deserializer) -> (r: DeserializeResult<Self>) {
        let ghost ctx = d.ctx();
        let ghost input = d.rem();
        proof {
            assert forall|v: TweenStyle, rest: Seq<u8>|
                (#[trigger] v.enc(ctx).add(rest)) == input implies input.len() >= 1
                && input[0] == v.enc(ctx)[0] && rest == input.skip(1) by {
                assert(rest =~= input.skip(1));
            }
        }
        let tag = match d.take_byte() {
            Ok(b) => b,
            Err(e) => {
                return Err(e);
            },
        };
        match tag {
            0 => Ok(TweenStyle::Fwd),
            1 => Ok(TweenStyle::Rev),
            2 => Ok(TweenStyle::Pulse),
            3 => Ok(TweenStyle::Flicker),
            _ => Err(DeserializeError::InvalidValue),
        }
    }
}

#[derive(Debug, Clone, Copy, PartialEq, Eq, Structural)]
pub enum InteractAction {
    StartDigging,
    StopDigging,
    DiggingCompleted,
    Place,
    Use,
    Activate,
}

impl Serialize for InteractAction {
    open spec fn enc(&self, ctx: ProtocolContext) -> Seq<u8> {
        match self {
            InteractAction::StartDigging => seq![0u8],
            InteractAction::StopDigging => seq![1u8],
            InteractAction::DiggingCompleted => seq![2u8],
            InteractAction::Place => seq![3u8],
            InteractAction::Use => seq![4u8],
            InteractAction::Activate => seq![5u8],
        }
    }

    open spec fn ser_wf(&self, ctx: ProtocolContext) -> bool {
        true
    }

    open spec fn eqv(&self, other: &Self) -> bool {
        self == other
    }

    fn serialize(&self, ser: &mut VecSerializer) -> (r: SerializeResult) {
        let tag: u8 = match self {
            InteractAction::StartDigging => 0,
            InteractAction::StopDigging => 1,
            InteractAction::DiggingCompleted => 2,
            InteractAction::Place => 3,
            InteractAction::Use => 4,
            InteractAction::Activate => 5,
        };
        ser.write_byte(tag);
        assert(ser.out() =~= old(ser).out() + self.enc(old(ser).ctx()));
        Ok(())
    }
}

impl Deserialize for InteractAction {
    open spec fn rt_wf(&self, ctx: ProtocolContext) -> bool {
        true
    }

    open spec fn prefix_safe() -> bool {
        true
    }

    fn deserialize(d: &mut Deserializer) -> (r: DeserializeResult<Self>) {
        let ghost ctx = d.ctx();
        let ghost input = d.rem();
        proof {
            assert forall|v: InteractAction, rest: Seq<u8>|
                (#[trigger] v.enc(ctx).add(rest)) == input implies input.len() >= 1
                && input[0] == v.enc(ctx)[0] && rest == input.skip(1) by {
                assert(rest =~= input.skip(1));
            }
        }
        let tag = match d.take_byte() {
            Ok(b) => b,
            Err(e) => {
                return Err(e);
            },
        };
        match tag {
            0 => Ok(InteractAction::StartDigging),
            1 => Ok(InteractAction::StopDigging),
            2 => Ok(InteractAction::DiggingCompleted),
            3 => Ok(InteractAction::Place),
            4 => Ok(InteractAction::Use),
            5 => Ok(InteractAction::Activate),
            _ => Err(DeserializeError::InvalidValue),
        }
    }
}

#[derive(Debug, Clone, Copy, PartialEq, Eq, Structural)]
pub enum DrawType {
    Normal,
    AirLike,
    Liquid,
    FlowingLiquid,
    GlassLike,
    AllFaces,
    AllFacesOptional,
    TorchLike,
    SignLike,
    PlantLike,
    FenceLike,
    RailLike,
    NodeBox,
    GlassLikeFramed,
    FireLike,
    GlassLikeFramedOptional,
    Mesh,
    PlantLikeRooted,
}

impl Serialize for DrawType {
    open spec fn enc(&self, ctx: ProtocolContext) -> Seq<u8> {
        match self {
            DrawType::Normal => seq![0u8],
            DrawType::AirLike => seq![1u8],
            DrawType::Liquid => seq![2u8],
            DrawType::FlowingLiquid => seq![3u8],
            DrawType::GlassLike => seq![4u8],
            DrawType::AllFaces => seq![5u8],
            DrawType::AllFacesOptional => seq![6u8],
            DrawType::TorchLike => seq![7u8],
            DrawType::SignLike => seq![8u8],
            DrawType::PlantLike => seq![9u8],
            DrawType::FenceLike => seq![10u8],
            DrawType::RailLike => seq![11u8],
            DrawType::NodeBox => seq![12u8],
            DrawType::GlassLikeFramed => seq![13u8],
            DrawType::FireLike => seq![14u8],
            DrawType::GlassLikeFramedOptional => seq![15u8],
            DrawType::Mesh => seq![16u8],
            DrawType::PlantLikeRooted => seq![17u8],
        }
    }

    open spec fn ser_wf(&self, ctx: ProtocolContext) -> bool {
        true
    }

    open spec fn eqv(&self, other: &Self) -> bool {
        self == other
    }

    fn serialize(&self, ser: &mut VecSerializer) -> (r: SerializeResult) {
        let tag: u8 = match self {
            DrawType::Normal => 0,
            DrawType::AirLike => 1,
            DrawType::Liquid => 2,
            DrawType::FlowingLiquid => 3,
            DrawType::GlassLike => 4,
            DrawType::AllFaces => 5,
            DrawType::AllFacesOptional => 6,
            DrawType::TorchLike => 7,
            DrawType::SignLike => 8,
            DrawType::PlantLike => 9,
            DrawType::FenceLike => 10,
            DrawType::RailLike => 11,
            DrawType::NodeBox => 12,
            DrawType::GlassLikeFramed => 13,
            DrawType::FireLike => 14,
            DrawType::GlassLikeFramedOptional => 15,
            DrawType::Mesh => 16,
            DrawType::PlantLikeRooted => 17,
        };
        ser.write_byte(tag);
        assert(ser.out() =~= old(ser).out() + self.enc(old(ser).ctx()));
        Ok(())
    }
}

impl Deserialize for DrawType {
    open spec fn rt_wf(&self, ctx: ProtocolContext) -> bool {
        true
    }

    open spec fn prefix_safe() -> bool {
        true
    }

    fn deserialize(d: &mut Deserializer) -> (r: DeserializeResult<Self>) {
        let ghost ctx = d.ctx();
        let ghost input = d.rem();
        proof {
            assert forall|v: DrawType, rest: Seq<u8>|
                (#[trigger] v.enc(ctx).add(rest)) == input implies input.len() >= 1
                && input[0] == v.enc(ctx)[0] && rest == input.skip(1) by {
                assert(rest =~= input.skip(1));
            }
        }
        let tag = match d.take_byte() {
            Ok(b) => b,
            Err(e) => {
                return Err(e);
            },
        };
        match tag {
            0 => Ok(DrawType::Normal),
            1 => Ok(DrawType::AirLike),
            2 => Ok(DrawType::Liquid),
            3 => Ok(DrawType::FlowingLiquid),
            4 => Ok(DrawType::GlassLike),
            5 => Ok(DrawType::AllFaces),
            6 => Ok(DrawType::AllFacesOptional),
            7 => Ok(DrawType::TorchLike),
            8 => Ok(DrawType::SignLike),
            9 => Ok(DrawType::PlantLike),
            10 => Ok(DrawType::FenceLike),
            11 => Ok(DrawType::RailLike),
            12 => Ok(DrawType::NodeBox),
            13 => Ok(DrawType::GlassLikeFramed),
            14 => Ok(DrawType::FireLike),
            15 => Ok(DrawType::GlassLikeFramedOptional),
            16 => Ok(DrawType::Mesh),
            17 => Ok(DrawType::PlantLikeRooted),
            _ => Err(DeserializeError::InvalidValue),
        }
    }
}


/// One changed attribute of a HUD element.
#[derive(Debug, Clone, PartialEq, Eq)]
pub enum HudStat {
    Pos(v2f),
    Name(ByteString),
    Scale(v2f),
    Text(ByteString),
    Number(u32),
    Item(u32),
    Dir(u32),
    Align(v2f),
    Offset(v2f),
    WorldPos(v3f),
    Size(v2s32),
    ZIndex(u32),
    Text2(ByteString),
    Style(u32),
}

impl Serialize for HudStat {
    open spec fn enc(&self, ctx: ProtocolContext) -> Seq<u8> {
        match self {
            HudStat::Pos(x) => (0u8).enc(ctx) + x.enc(ctx),
            HudStat::Name(x) => (1u8).enc(ctx) + x.enc(ctx),
            HudStat::Scale(x) => (2u8).enc(ctx) + x.enc(ctx),
            HudStat::Text(x) => (3u8).enc(ctx) + x.enc(ctx),
            HudStat::Number(x) => (4u8).enc(ctx) + x.enc(ctx),
            HudStat::Item(x) => (5u8).enc(ctx) + x.enc(ctx),
            HudStat::Dir(x) => (6u8).enc(ctx) + x.enc(ctx),
            HudStat::Align(x) => (7u8).enc(ctx) + x.enc(ctx),
            HudStat::Offset(x) => (8u8).enc(ctx) + x.enc(ctx),
            HudStat::WorldPos(x) => (9u8).enc(ctx) + x.enc(ctx),
            HudStat::Size(x) => (10u8).enc(ctx) + x.enc(ctx),
            HudStat::ZIndex(x) => (11u8).enc(ctx) + x.enc(ctx),
            HudStat::Text2(x) => (12u8).enc(ctx) + x.enc(ctx),
            HudStat::Style(x) => (13u8).enc(ctx) + x.enc(ctx),
        }
    }

    open spec fn ser_wf(&self, ctx: ProtocolContext) -> bool {
        match self {
            HudStat::Pos(x) => x.ser_wf(ctx),
            HudStat::Name(x) => x.ser_wf(ctx),
            HudStat::Scale(x) => x.ser_wf(ctx),
            HudStat::Text(x) => x.ser_wf(ctx),
            HudStat::Number(x) => x.ser_wf(ctx),
            HudStat::Item(x) => x.ser_wf(ctx),
            HudStat::Dir(x) => x.ser_wf(ctx),
            HudStat::Align(x) => x.ser_wf(ctx),
            HudStat::Offset(x) => x.ser_wf(ctx),
            HudStat::WorldPos(x) => x.ser_wf(ctx),
            HudStat::Size(x) => x.ser_wf(ctx),
            HudStat::ZIndex(x) => x.ser_wf(ctx),
            HudStat::Text2(x) => x.ser_wf(ctx),
            HudStat::Style(x) => x.ser_wf(ctx),
        }
    }

    open spec fn eqv(&self, other: &Self) -> bool {
        match (self, other) {
            (HudStat::Pos(x), HudStat::Pos(y)) => x.eqv(y),
            (HudStat::Name(x), HudStat::Name(y)) => x.eqv(y),
            (HudStat::Scale(x), HudStat::Scale(y)) => x.eqv(y),
            (HudStat::Text(x), HudStat::Text(y)) => x.eqv(y),
            (HudStat::Number(x), HudStat::Number(y)) => x.eqv(y),
            (HudStat::Item(x), HudStat::Item(y)) => x.eqv(y),
            (HudStat::Dir(x), HudStat::Dir(y)) => x.eqv(y),
            (HudStat::Align(x), HudStat::Align(y)) => x.eqv(y),
            (HudStat::Offset(x), HudStat::Offset(y)) => x.eqv(y),
            (HudStat::WorldPos(x), HudStat::WorldPos(y)) => x.eqv(y),
            (HudStat::Size(x), HudStat::Size(y)) => x.eqv(y),
            (HudStat::ZIndex(x), HudStat::ZIndex(y)) => x.eqv(y),
            (HudStat::Text2(x), HudStat::Text2(y)) => x.eqv(y),
            (HudStat::Style(x), HudStat::Style(y)) => x.eqv(y),
            _ => false,
        }
    }

    fn serialize(&self, ser: &mut VecSerializer) -> (r: SerializeResult) {
        match self {
            HudStat::Pos(x) => {
                let tag: u8 = 0;
                match tag.serialize(ser) {
                    Ok(_) => {},
                    Err(e) => {
                        return Err(e);
                    },
                }
                match x.serialize(ser) {
                    Ok(_) => {},
                    Err(e) => {
                        return Err(e);
                    },
                }
                assert(ser.out() =~= old(ser).out() + self.enc(old(ser).ctx()));
                Ok(())
            },
            HudStat::Name(x) => {
                let tag: u8 = 1;
                match tag.serialize(ser) {
                    Ok(_) => {},
                    Err(e) => {
                        return Err(e);
                    },
                }
                match x.serialize(ser) {
                    Ok(_) => {},
                    Err(e) => {
                        return Err(e);
                    },
                }
                assert(ser.out() =~= old(ser).out() + self.enc(old(ser).ctx()));
                Ok(())
            },
            HudStat::Scale(x) => {
                let tag: u8 = 2;
                match tag.serialize(ser) {
                    Ok(_) => {},
                    Err(e) => {
                        return Err(e);
                    },
                }
                match x.serialize(ser) {
                    Ok(_) => {},
                    Err(e) => {
                        return Err(e);
                    },
                }
                assert(ser.out() =~= old(ser).out() + self.enc(old(ser).ctx()));
                Ok(())
            },
            HudStat::Text(x) => {
                let tag: u8 = 3;
                match tag.serialize(ser) {
                    Ok(_) => {},
                    Err(e) => {
                        return Err(e);
                    },
                }
                match x.serialize(ser) {
                    Ok(_) => {},
                    Err(e) => {
                        return Err(e);
                    },
                }
                assert(ser.out() =~= old(ser).out() + self.enc(old(ser).ctx()));
                Ok(())
            },
            HudStat::Number(x) => {
                let tag: u8 = 4;
                match tag.serialize(ser) {
                    Ok(_) => {},
                    Err(e) => {
                        return Err(e);
                    },
                }
                match x.serialize(ser) {
                    Ok(_) => {},
                    Err(e) => {
                        return Err(e);
                    },
                }
                assert(ser.out() =~= old(ser).out() + self.enc(old(ser).ctx()));
                Ok(())
            },
            HudStat::Item(x) => {
                let tag: u8 = 5;
                match tag.serialize(ser) {
                    Ok(_) => {},
                    Err(e) => {
                        return Err(e);
                    },
                }
                match x.serialize(ser) {
                    Ok(_) => {},
                    Err(e) => {
                        return Err(e);
                    },
                }
                assert(ser.out() =~= old(ser).out() + self.enc(old(ser).ctx()));
                Ok(())
            },
            HudStat::Dir(x) => {
                let tag: u8 = 6;
                match tag.serialize(ser) {
                    Ok(_) => {},
                    Err(e) => {
                        return Err(e);
                    },
                }
                match x.serialize(ser) {
                    Ok(_) => {},
                    Err(e) => {
                        return Err(e);
                    },
                }
                assert(ser.out() =~= old(ser).out() + self.enc(old(ser).ctx()));
                Ok(())
            },
            HudStat::Align(x) => {
                let tag: u8 = 7;
                match tag.serialize(ser) {
                    Ok(_) => {},
                    Err(e) => {
                        return Err(e);
                    },
                }
                match x.serialize(ser) {
                    Ok(_) => {},
                    Err(e) => {
                        return Err(e);
                    },
                }
                assert(ser.out() =~= old(ser).out() + self.enc(old(ser).ctx()));
                Ok(())
            },
            HudStat::Offset(x) => {
                let tag: u8 = 8;
                match tag.serialize(ser) {
                    Ok(_) => {},
                    Err(e) => {
                        return Err(e);
                    },
                }
                match x.serialize(ser) {
                    Ok(_) => {},
                    Err(e) => {
                        return Err(e);
                    },
                }
                assert(ser.out() =~= old(ser).out() + self.enc(old(ser).ctx()));
                Ok(())
            },
            HudStat::WorldPos(x) => {
                let tag: u8 = 9;
                match tag.serialize(ser) {
                    Ok(_) => {},
                    Err(e) => {
                        return Err(e);
                    },
                }
                match x.serialize(ser) {
                    Ok(_) => {},
                    Err(e) => {
                        return Err(e);
                    },
                }
                assert(ser.out() =~= old(ser).out() + self.enc(old(ser).ctx()));
                Ok(())
            },
            HudStat::Size(x) => {
                let tag: u8 = 10;
                match tag.serialize(ser) {
                    Ok(_) => {},
                    Err(e) => {
                        return Err(e);
                    },
                }
                match x.serialize(ser) {
                    Ok(_) => {},
                    Err(e) => {
                        return Err(e);
                    },
                }
                assert(ser.out() =~= old(ser).out() + self.enc(old(ser).ctx()));
                Ok(())
            },
            HudStat::ZIndex(x) => {
                let tag: u8 = 11;
                match tag.serialize(ser) {
                    Ok(_) => {},
                    Err(e) => {
                        return Err(e);
                    },
                }
                match x.serialize(ser) {
                    Ok(_) => {},
                    Err(e) => {
                        return Err(e);
                    },
                }
                assert(ser.out() =~= old(ser).out() + self.enc(old(ser).ctx()));
                Ok(())
            },
            HudStat::Text2(x) => {
                let tag: u8 = 12;
                match tag.serialize(ser) {
                    Ok(_) => {},
                    Err(e) => {
                        return Err(e);
                    },
                }
                match x.serialize(ser) {
                    Ok(_) => {},
                    Err(e) => {
                        return Err(e);
                    },
                }
                assert(ser.out() =~= old(ser).out() + self.enc(old(ser).ctx()));
                Ok(())
            },
            HudStat::Style(x) => {
                let tag: u8 = 13;
                match tag.serialize(ser) {
                    Ok(_) => {},
                    Err(e) => {
                        return Err(e);
                    },
                }
                match x.serialize(ser) {
                    Ok(_) => {},
                    Err(e) => {
                        return Err(e);
                    },
                }
                assert(ser.out() =~= old(ser).out() + self.enc(old(ser).ctx()));
                Ok(())
            },
        }
    }
}

proof fn hudstat_reshape(ctx: ProtocolContext, input: Seq<u8>)
    ensures
        forall|v: HudStat, rest: Seq<u8>|
            (#[trigger] v.enc(ctx).add(rest)) == input && v.rt_wf(ctx)
                && (<HudStat as Deserialize>::prefix_safe() || rest.len() == 0) ==> match v {
                HudStat::Pos(x) => (0u8).enc(ctx).add(x.enc(ctx).add(rest)) == input,
                HudStat::Name(x) => (1u8).enc(ctx).add(x.enc(ctx).add(rest)) == input,
                HudStat::Scale(x) => (2u8).enc(ctx).add(x.enc(ctx).add(rest)) == input,
                HudStat::Text(x) => (3u8).enc(ctx).add(x.enc(ctx).add(rest)) == input,
                HudStat::Number(x) => (4u8).enc(ctx).add(x.enc(ctx).add(rest)) == input,
                HudStat::Item(x) => (5u8).enc(ctx).add(x.enc(ctx).add(rest)) == input,
                HudStat::Dir(x) => (6u8).enc(ctx).add(x.enc(ctx).add(rest)) == input,
                HudStat::Align(x) => (7u8).enc(ctx).add(x.enc(ctx).add(rest)) == input,
                HudStat::Offset(x) => (8u8).enc(ctx).add(x.enc(ctx).add(rest)) == input,
                HudStat::WorldPos(x) => (9u8).enc(ctx).add(x.enc(ctx).add(rest)) == input,
                HudStat::Size(x) => (10u8).enc(ctx).add(x.enc(ctx).add(rest)) == input,
                HudStat::ZIndex(x) => (11u8).enc(ctx).add(x.enc(ctx).add(rest)) == input,
                HudStat::Text2(x) => (12u8).enc(ctx).add(x.enc(ctx).add(rest)) == input,
                HudStat::Style(x) => (13u8).enc(ctx).add(x.enc(ctx).add(rest)) == input,
            },
{
    assert forall|v: HudStat, rest: Seq<u8>|
        (#[trigger] v.enc(ctx).add(rest)) == input && v.rt_wf(ctx)
        && (<HudStat as Deserialize>::prefix_safe() || rest.len() == 0) implies match v {
        HudStat::Pos(x) => (0u8).enc(ctx).add(x.enc(ctx).add(rest)) == input,
        HudStat::Name(x) => (1u8).enc(ctx).add(x.enc(ctx).add(rest)) == input,
        HudStat::Scale(x) => (2u8).enc(ctx).add(x.enc(ctx).add(rest)) == input,
        HudStat::Text(x) => (3u8).enc(ctx).add(x.enc(ctx).add(rest)) == input,
        HudStat::Number(x) => (4u8).enc(ctx).add(x.enc(ctx).add(rest)) == input,
        HudStat::Item(x) => (5u8).enc(ctx).add(x.enc(ctx).add(rest)) == input,
        HudStat::Dir(x) => (6u8).enc(ctx).add(x.enc(ctx).add(rest)) == input,
        HudStat::Align(x) => (7u8).enc(ctx).add(x.enc(ctx).add(rest)) == input,
        HudStat::Offset(x) => (8u8).enc(ctx).add(x.enc(ctx).add(rest)) == input,
        HudStat::WorldPos(x) => (9u8).enc(ctx).add(x.enc(ctx).add(rest)) == input,
        HudStat::Size(x) => (10u8).enc(ctx).add(x.enc(ctx).add(rest)) == input,
        HudStat::ZIndex(x) => (11u8).enc(ctx).add(x.enc(ctx).add(rest)) == input,
        HudStat::Text2(x) => (12u8).enc(ctx).add(x.enc(ctx).add(rest)) == input,
        HudStat::Style(x) => (13u8).enc(ctx).add(x.enc(ctx).add(rest)) == input,
    } by {
        match v {
            HudStat::Pos(x) => {
                assert((0u8).enc(ctx).add(x.enc(ctx).add(rest)) =~= v.enc(ctx).add(rest));
            },
            HudStat::Name(x) => {
                assert((1u8).enc(ctx).add(x.enc(ctx).add(rest)) =~= v.enc(ctx).add(rest));
            },
            HudStat::Scale(x) => {
                assert((2u8).enc(ctx).add(x.enc(ctx).add(rest)) =~= v.enc(ctx).add(rest));
            },
            HudStat::Text(x) => {
                assert((3u8).enc(ctx).add(x.enc(ctx).add(rest)) =~= v.enc(ctx).add(rest));
            },
            HudStat::Number(x) => {
                assert((4u8).enc(ctx).add(x.enc(ctx).add(rest)) =~= v.enc(ctx).add(rest));
            },
            HudStat::Item(x) => {
                assert((5u8).enc(ctx).add(x.enc(ctx).add(rest)) =~= v.enc(ctx).add(rest));
            },
            HudStat::Dir(x) => {
                assert((6u8).enc(ctx).add(x.enc(ctx).add(rest)) =~= v.enc(ctx).add(rest));
            },
            HudStat::Align(x) => {
                assert((7u8).enc(ctx).add(x.enc(ctx).add(rest)) =~= v.enc(ctx).add(rest));
            },
            HudStat::Offset(x) => {
                assert((8u8).enc(ctx).add(x.enc(ctx).add(rest)) =~= v.enc(ctx).add(rest));
            },
            HudStat::WorldPos(x) => {
                assert((9u8).enc(ctx).add(x.enc(ctx).add(rest)) =~= v.enc(ctx).add(rest));
            },
            HudStat::Size(x) => {
                assert((10u8).enc(ctx).add(x.enc(ctx).add(rest)) =~= v.enc(ctx).add(rest));
            },
            HudStat::ZIndex(x) => {
                assert((11u8).enc(ctx).add(x.enc(ctx).add(rest)) =~= v.enc(ctx).add(rest));
            },
            HudStat::Text2(x) => {
                assert((12u8).enc(ctx).add(x.enc(ctx).add(rest)) =~= v.enc(ctx).add(rest));
            },
            HudStat::Style(x) => {
                assert((13u8).enc(ctx).add(x.enc(ctx).add(rest)) =~= v.enc(ctx).add(rest));
            },
        }
    }
}

impl Deserialize for HudStat {
    open spec fn rt_wf(&self, ctx: ProtocolContext) -> bool {
        match self {
            HudStat::Pos(x) => x.rt_wf(ctx),
            HudStat::Name(x) => x.rt_wf(ctx),
            HudStat::Scale(x) => x.rt_wf(ctx),
            HudStat::Text(x) => x.rt_wf(ctx),
            HudStat::Number(x) => x.rt_wf(ctx),
            HudStat::Item(x) => x.rt_wf(ctx),
            HudStat::Dir(x) => x.rt_wf(ctx),
            HudStat::Align(x) => x.rt_wf(ctx),
            HudStat::Offset(x) => x.rt_wf(ctx),
            HudStat::WorldPos(x) => x.rt_wf(ctx),
            HudStat::Size(x) => x.rt_wf(ctx),
            HudStat::ZIndex(x) => x.rt_wf(ctx),
            HudStat::Text2(x) => x.rt_wf(ctx),
            HudStat::Style(x) => x.rt_wf(ctx),
        }
    }

    open spec fn prefix_safe() -> bool {
        <v2f as Deserialize>::prefix_safe() && <ByteString as Deserialize>::prefix_safe() && <v2f as Deserialize>::prefix_safe() && <ByteString as Deserialize>::prefix_safe() && <u32 as Deserialize>::prefix_safe() && <u32 as Deserialize>::prefix_safe() && <u32 as Deserialize>::prefix_safe() && <v2f as Deserialize>::prefix_safe() && <v2f as Deserialize>::prefix_safe() && <v3f as Deserialize>::prefix_safe() && <v2s32 as Deserialize>::prefix_safe() && <u32 as Deserialize>::prefix_safe() && <ByteString as Deserialize>::prefix_safe() && <u32 as Deserialize>::prefix_safe()
    }

    fn deserialize(d: &mut Deserializer) -> (r: DeserializeResult<Self>) {
        let ghost ctx = d.ctx();
        let ghost input = d.rem();
        proof {
            hudstat_reshape(ctx, input);
        }
        let tag = match <u8 as Deserialize>::deserialize(d) {
            Ok(t) => t,
            Err(e) => {
                return Err(e);
            },
        };
        match tag {
            0 => match <v2f as Deserialize>::deserialize(d) {
                Ok(x) => Ok(HudStat::Pos(x)),
                Err(e) => Err(e),
            },
            1 => match <ByteString as Deserialize>::deserialize(d) {
                Ok(x) => Ok(HudStat::Name(x)),
                Err(e) => Err(e),
            },
            2 => match <v2f as Deserialize>::deserialize(d) {
                Ok(x) => Ok(HudStat::Scale(x)),
                Err(e) => Err(e),
            },
            3 => match <ByteString as Deserialize>::deserialize(d) {
                Ok(x) => Ok(HudStat::Text(x)),
                Err(e) => Err(e),
            },
            4 => match <u32 as Deserialize>::deserialize(d) {
                Ok(x) => Ok(HudStat::Number(x)),
                Err(e) => Err(e),
            },
            5 => match <u32 as Deserialize>::deserialize(d) {
                Ok(x) => Ok(HudStat::Item(x)),
                Err(e) => Err(e),
            },
            6 => match <u32 as Deserialize>::deserialize(d) {
                Ok(x) => Ok(HudStat::Dir(x)),
                Err(e) => Err(e),
            },
            7 => match <v2f as Deserialize>::deserialize(d) {
                Ok(x) => Ok(HudStat::Align(x)),
                Err(e) => Err(e),
            },
            8 => match <v2f as Deserialize>::deserialize(d) {
                Ok(x) => Ok(HudStat::Offset(x)),
                Err(e) => Err(e),
            },
            9 => match <v3f as Deserialize>::deserialize(d) {
                Ok(x) => Ok(HudStat::WorldPos(x)),
                Err(e) => Err(e),
            },
            10 => match <v2s32 as Deserialize>::deserialize(d) {
                Ok(x) => Ok(HudStat::Size(x)),
                Err(e) => Err(e),
            },
            11 => match <u32 as Deserialize>::deserialize(d) {
                Ok(x) => Ok(HudStat::ZIndex(x)),
                Err(e) => Err(e),
            },
            12 => match <ByteString as Deserialize>::deserialize(d) {
                Ok(x) => Ok(HudStat::Text2(x)),
                Err(e) => Err(e),
            },
            13 => match <u32 as Deserialize>::deserialize(d) {
                Ok(x) => Ok(HudStat::Style(x)),
                Err(e) => Err(e),
            },
            _ => Err(DeserializeError::InvalidValue),
        }
    }
}

/// A player's movement state as it stands on the wire: positions and
/// angles are fixed-point (hundredths), the field of view in eightieths.
#[derive(Debug, Clone, PartialEq, Eq)]
pub struct PlayerPos {
    pub position: v3s32,
    pub speed: v3s32,
    pub pitch: s32,
    pub yaw: s32,
    pub keys_pressed: u32,
    pub fov: u8,
    pub wanted_range: u8,
}

impl Serialize for PlayerPos {
    open spec fn enc(&self, ctx: ProtocolContext) -> Seq<u8> {
        self.position.enc(ctx) + self.speed.enc(ctx) + self.pitch.enc(ctx) + self.yaw.enc(ctx) + self.keys_pressed.enc(ctx) + self.fov.enc(ctx) + self.wanted_range.enc(ctx)
    }

    open spec fn ser_wf(&self, ctx: ProtocolContext) -> bool {
        self.position.ser_wf(ctx) && self.speed.ser_wf(ctx) && self.pitch.ser_wf(ctx) && self.yaw.ser_wf(ctx) && self.keys_pressed.ser_wf(ctx) && self.fov.ser_wf(ctx) && self.wanted_range.ser_wf(ctx)
    }

    open spec fn eqv(&self, other: &Self) -> bool {
        self.position.eqv(&other.position) && self.speed.eqv(&other.speed) && self.pitch.eqv(&other.pitch) && self.yaw.eqv(&other.yaw) && self.keys_pressed.eqv(&other.keys_pressed) && self.fov.eqv(&other.fov) && self.wanted_range.eqv(&other.wanted_range)
    }

    fn serialize(&self, ser: &mut VecSerializer) -> (r: SerializeResult) {
        match self.position.serialize(ser) {
            Ok(_) => {},
            Err(e) => {
                return Err(e);
            },
        }
        match self.speed.serialize(ser) {
            Ok(_) => {},
            Err(e) => {
                return Err(e);
            },
        }
        match self.pitch.serialize(ser) {
            Ok(_) => {},
            Err(e) => {
                return Err(e);
            },
        }
        match self.yaw.serialize(ser) {
            Ok(_) => {},
            Err(e) => {
                return Err(e);
            },
        }
        match self.keys_pressed.serialize(ser) {
            Ok(_) => {},
            Err(e) => {
                return Err(e);
            },
        }
        match self.fov.serialize(ser) {
            Ok(_) => {},
            Err(e) => {
                return Err(e);
            },
        }
        match self.wanted_range.serialize(ser) {
            Ok(_) => {},
            Err(e) => {
                return Err(e);
            },
        }
        assert(ser.out() =~= old(ser).out() + self.enc(old(ser).ctx()));
        Ok(())
    }
}

proof fn playerpos_reshape(ctx: ProtocolContext, input: Seq<u8>)
    ensures
        forall|v: PlayerPos, rest: Seq<u8>|
            (#[trigger] v.enc(ctx).add(rest)) == input && v.rt_wf(ctx)
                && (<PlayerPos as Deserialize>::prefix_safe() || rest.len() == 0)
                ==> v.position.enc(ctx).add(v.speed.enc(ctx).add(v.pitch.enc(ctx).add(v.yaw.enc(ctx).add(v.keys_pressed.enc(ctx).add(v.fov.enc(ctx).add(v.wanted_range.enc(ctx).add(rest))))))) == input,
{
    assert forall|v: PlayerPos, rest: Seq<u8>|
        (#[trigger] v.enc(ctx).add(rest)) == input && v.rt_wf(ctx)
        && (<PlayerPos as Deserialize>::prefix_safe() || rest.len() == 0)
        implies v.position.enc(ctx).add(v.speed.enc(ctx).add(v.pitch.enc(ctx).add(v.yaw.enc(ctx).add(v.keys_pressed.enc(ctx).add(v.fov.enc(ctx).add(v.wanted_range.enc(ctx).add(rest))))))) == input by {
        assert(v.position.enc(ctx).add(v.speed.enc(ctx).add(v.pitch.enc(ctx).add(v.yaw.enc(ctx).add(v.keys_pressed.enc(ctx).add(v.fov.enc(ctx).add(v.wanted_range.enc(ctx).add(rest))))))) =~= v.enc(ctx).add(rest));
    }
}

impl Deserialize for PlayerPos {
    open spec fn rt_wf(&self, ctx: ProtocolContext) -> bool {
        self.position.rt_wf(ctx) && self.speed.rt_wf(ctx) && self.pitch.rt_wf(ctx) && self.yaw.rt_wf(ctx) && self.keys_pressed.rt_wf(ctx) && self.fov.rt_wf(ctx) && self.wanted_range.rt_wf(ctx) && <v3s32 as Deserialize>::prefix_safe() && <v3s32 as Deserialize>::prefix_safe() && <s32 as Deserialize>::prefix_safe() && <s32 as Deserialize>::prefix_safe() && <u32 as Deserialize>::prefix_safe() && <u8 as Deserialize>::prefix_safe()
    }

    open spec fn prefix_safe() -> bool {
        <v3s32 as Deserialize>::prefix_safe() && <v3s32 as Deserialize>::prefix_safe() && <s32 as Deserialize>::prefix_safe() && <s32 as Deserialize>::prefix_safe() && <u32 as Deserialize>::prefix_safe() && <u8 as Deserialize>::prefix_safe() && <u8 as Deserialize>::prefix_safe()
    }

    fn deserialize(d: &mut Deserializer) -> (r: DeserializeResult<Self>) {
        let ghost ctx = d.ctx();
        let ghost input = d.rem();
        proof {
            playerpos_reshape(ctx, input);
        }
        let position = match <v3s32 as Deserialize>::deserialize(d) {
            Ok(v) => v,
            Err(e) => {
                return Err(e);
            },
        };
        let speed = match <v3s32 as Deserialize>::deserialize(d) {
            Ok(v) => v,
            Err(e) => {
                return Err(e);
            },
        };
        let pitch = match <s32 as Deserialize>::deserialize(d) {
            Ok(v) => v,
            Err(e) => {
                return Err(e);
            },
        };
        let yaw = match <s32 as Deserialize>::deserialize(d) {
            Ok(v) => v,
            Err(e) => {
                return Err(e);
            },
        };
        let keys_pressed = match <u32 as Deserialize>::deserialize(d) {
            Ok(v) => v,
            Err(e) => {
                return Err(e);
            },
        };
        let fov = match <u8 as Deserialize>::deserialize(d) {
            Ok(v) => v,
            Err(e) => {
                return Err(e);
            },
        };
        let wanted_range = match <u8 as Deserialize>::deserialize(d) {
            Ok(v) => v,
            Err(e) => {
                return Err(e);
            },
        };
        Ok(PlayerPos { position, speed, pitch, yaw, keys_pressed, fov, wanted_range })
    }
}


/// Which authentication mechanisms the server offers, as a 32-bit set.
#[derive(Debug, Clone, Copy, PartialEq, Eq, Structural)]
pub struct AuthMechsBitset {
    pub legacy_password: bool,
    pub srp: bool,
    pub first_srp: bool,
}

/// The bit pattern of an `AuthMechsBitset` on the wire.
pub open spec fn auth_bits(v: AuthMechsBitset) -> u32 {
    ((if v.legacy_password {
        1u32
    } else {
        0u32
    }) + (if v.srp {
        2u32
    } else {
        0u32
    }) + (if v.first_srp {
        4u32
    } else {
        0u32
    })) as u32
}

impl Serialize for AuthMechsBitset {
    open spec fn enc(&self, ctx: ProtocolContext) -> Seq<u8> {
        be32(auth_bits(*self))
    }

    open spec fn ser_wf(&self, ctx: ProtocolContext) -> bool {
        true
    }

    open spec fn eqv(&self, other: &Self) -> bool {
        self == other
    }

    fn serialize(&self, ser: &mut VecSerializer) -> (r: SerializeResult) {
        let mut value: u32 = 0;
        if self.legacy_password {
            value = value + 1;
        }
        if self.srp {
            value = value + 2;
        }
        if self.first_srp {
            value = value + 4;
        }
        write_be32(ser, value);
        Ok(())
    }
}

impl Deserialize for AuthMechsBitset {
    open spec fn rt_wf(&self, ctx: ProtocolContext) -> bool {
        true
    }

    open spec fn prefix_safe() -> bool {
        true
    }

    fn deserialize(d: &mut Deserializer) -> (r: DeserializeResult<Self>) {
        let b = match read_be32(d) {
            Ok(b) => b,
            Err(e) => {
                return Err(e);
            },
        };
        Ok(AuthMechsBitset {
            legacy_password: b % 2 == 1,
            srp: (b / 2) % 2 == 1,
            first_srp: (b / 4) % 2 == 1,
        })
    }
}

/// Which HUD elements are visible, as a 32-bit set; bits above the ninth
/// are rejected on decode.
#[derive(Debug, Clone, Copy, PartialEq, Eq, Structural)]
pub struct HudFlags {
    pub hotbar_visible: bool,
    pub healthbar_visible: bool,
    pub crosshair_visible: bool,
    pub wielditem_visible: bool,
    pub breathbar_visible: bool,
    pub minimap_visible: bool,
    pub minimap_radar_visible: bool,
    pub basic_debug: bool,
    pub chat_visible: bool,
}

/// The bit pattern of a `HudFlags` on the wire.
pub open spec fn hud_bits(v: HudFlags) -> u32 {
    ((if v.hotbar_visible {
        1u32
    } else {
        0u32
    }) + (if v.healthbar_visible {
        2u32
    } else {
        0u32
    }) + (if v.crosshair_visible {
        4u32
    } else {
        0u32
    }) + (if v.wielditem_visible {
        8u32
    } else {
        0u32
    }) + (if v.breathbar_visible {
        16u32
    } else {
        0u32
    }) + (if v.minimap_visible {
        32u32
    } else {
        0u32
    }) + (if v.minimap_radar_visible {
        64u32
    } else {
        0u32
    }) + (if v.basic_debug {
        128u32
    } else {
        0u32
    }) + (if v.chat_visible {
        256u32
    } else {
        0u32
    })) as u32
}

impl HudFlags {
    #[verifier::rlimit(100)]
    pub fn to_u32(&self) -> (r: u32)
        ensures
            r == hud_bits(*self),
    {
        let mut value: u32 = 0;
        if self.hotbar_visible {
            value = value + 1;
        }
        if self.healthbar_visible {
            value = value + 2;
        }
        if self.crosshair_visible {
            value = value + 4;
        }
        if self.wielditem_visible {
            value = value + 8;
        }
        if self.breathbar_visible {
            value = value + 16;
        }
        if self.minimap_visible {
            value = value + 32;
        }
        if self.minimap_radar_visible {
            value = value + 64;
        }
        if self.basic_debug {
            value = value + 128;
        }
        if self.chat_visible {
            value = value + 256;
        }
        value
    }

    pub fn from_u32(flags: u32) -> (r: Self)
        ensures
            r.hotbar_visible == (flags % 2 == 1),
            r.healthbar_visible == ((flags / 2) % 2 == 1),
            r.crosshair_visible == ((flags / 4) % 2 == 1),
            r.wielditem_visible == ((flags / 8) % 2 == 1),
            r.breathbar_visible == ((flags / 16) % 2 == 1),
            r.minimap_visible == ((flags / 32) % 2 == 1),
            r.minimap_radar_visible == ((flags / 64) % 2 == 1),
            r.basic_debug == ((flags / 128) % 2 == 1),
            r.chat_visible == ((flags / 256) % 2 == 1),
    {
        HudFlags {
            hotbar_visible: flags % 2 == 1,
            healthbar_visible: (flags / 2) % 2 == 1,
            crosshair_visible: (flags / 4) % 2 == 1,
            wielditem_visible: (flags / 8) % 2 == 1,
            breathbar_visible: (flags / 16) % 2 == 1,
            minimap_visible: (flags / 32) % 2 == 1,
            minimap_radar_visible: (flags / 64) % 2 == 1,
            basic_debug: (flags / 128) % 2 == 1,
            chat_visible: (flags / 256) % 2 == 1,
        }
    }
}

/// Each flag can be read back out of the bit pattern, and the pattern stays
/// below the first unassigned bit.
pub proof fn lemma_hud_bits_inv(v: HudFlags)
    ensures
        hud_bits(v) < 512,
        v.hotbar_visible == (hud_bits(v) % 2 == 1),
        v.healthbar_visible == ((hud_bits(v) / 2) % 2 == 1),
        v.crosshair_visible == ((hud_bits(v) / 4) % 2 == 1),
        v.wielditem_visible == ((hud_bits(v) / 8) % 2 == 1),
        v.breathbar_visible == ((hud_bits(v) / 16) % 2 == 1),
        v.minimap_visible == ((hud_bits(v) / 32) % 2 == 1),
        v.minimap_radar_visible == ((hud_bits(v) / 64) % 2 == 1),
        v.basic_debug == ((hud_bits(v) / 128) % 2 == 1),
        v.chat_visible == ((hud_bits(v) / 256) % 2 == 1),
{
    let b0: u32 = if v.hotbar_visible { 1 } else { 0 };
    let b1: u32 = if v.healthbar_visible { 1 } else { 0 };
    let b2: u32 = if v.crosshair_visible { 1 } else { 0 };
    let b3: u32 = if v.wielditem_visible { 1 } else { 0 };
    let b4: u32 = if v.breathbar_visible { 1 } else { 0 };
    let b5: u32 = if v.minimap_visible { 1 } else { 0 };
    let b6: u32 = if v.minimap_radar_visible { 1 } else { 0 };
    let b7: u32 = if v.basic_debug { 1 } else { 0 };
    let b8: u32 = if v.chat_visible { 1 } else { 0 };
    let t: u32 = (b0 + 2 * b1 + 4 * b2 + 8 * b3 + 16 * b4 + 32 * b5 + 64 * b6 + 128 * b7 + 256
        * b8) as u32;
    assert(t < 512 && (t % 2 == 1) == (b0 == 1) && ((t / 2) % 2 == 1) == (b1 == 1) && ((t / 4) % 2
        == 1) == (b2 == 1) && ((t / 8) % 2 == 1) == (b3 == 1) && ((t / 16) % 2 == 1) == (b4 == 1)
        && ((t / 32) % 2 == 1) == (b5 == 1) && ((t / 64) % 2 == 1) == (b6 == 1) && ((t / 128) % 2
        == 1) == (b7 == 1) && ((t / 256) % 2 == 1) == (b8 == 1)) by (bit_vector)
        requires
            b0 <= 1 && b1 <= 1 && b2 <= 1 && b3 <= 1 && b4 <= 1 && b5 <= 1 && b6 <= 1 && b7 <= 1
                && b8 <= 1,
            t == (b0 + 2 * b1 + 4 * b2 + 8 * b3 + 16 * b4 + 32 * b5 + 64 * b6 + 128 * b7 + 256
                * b8) as u32,
    ;
    assert(t == hud_bits(v));
}

/// Flags extracted from a word below the first unassigned bit make that
/// word back.
pub proof fn lemma_hud_bits_recompose(f: HudFlags, b: u32)
    requires
        b < 512,
        f.hotbar_visible == (b % 2 == 1),
        f.healthbar_visible == ((b / 2) % 2 == 1),
        f.crosshair_visible == ((b / 4) % 2 == 1),
        f.wielditem_visible == ((b / 8) % 2 == 1),
        f.breathbar_visible == ((b / 16) % 2 == 1),
        f.minimap_visible == ((b / 32) % 2 == 1),
        f.minimap_radar_visible == ((b / 64) % 2 == 1),
        f.basic_debug == ((b / 128) % 2 == 1),
        f.chat_visible == ((b / 256) % 2 == 1),
    ensures
        hud_bits(f) == b,
{
    let b0: u32 = if f.hotbar_visible { 1 } else { 0 };
    let b1: u32 = if f.healthbar_visible { 1 } else { 0 };
    let b2: u32 = if f.crosshair_visible { 1 } else { 0 };
    let b3: u32 = if f.wielditem_visible { 1 } else { 0 };
    let b4: u32 = if f.breathbar_visible { 1 } else { 0 };
    let b5: u32 = if f.minimap_visible { 1 } else { 0 };
    let b6: u32 = if f.minimap_radar_visible { 1 } else { 0 };
    let b7: u32 = if f.basic_debug { 1 } else { 0 };
    let b8: u32 = if f.chat_visible { 1 } else { 0 };
    assert((b0 + 2 * b1 + 4 * b2 + 8 * b3 + 16 * b4 + 32 * b5 + 64 * b6 + 128 * b7 + 256 * b8)
        as u32 == b) by (bit_vector)
        requires
            b < 512,
            b0 == (if b % 2 == 1 { 1u32 } else { 0u32 }),
            b1 == (if (b / 2) % 2 == 1 { 1u32 } else { 0u32 }),
            b2 == (if (b / 4) % 2 == 1 { 1u32 } else { 0u32 }),
            b3 == (if (b / 8) % 2 == 1 { 1u32 } else { 0u32 }),
            b4 == (if (b / 16) % 2 == 1 { 1u32 } else { 0u32 }),
            b5 == (if (b / 32) % 2 == 1 { 1u32 } else { 0u32 }),
            b6 == (if (b / 64) % 2 == 1 { 1u32 } else { 0u32 }),
            b7 == (if (b / 128) % 2 == 1 { 1u32 } else { 0u32 }),
            b8 == (if (b / 256) % 2 == 1 { 1u32 } else { 0u32 }),
    ;
    assert(hud_bits(f) == (b0 + 2 * b1 + 4 * b2 + 8 * b3 + 16 * b4 + 32 * b5 + 64 * b6 + 128 * b7
        + 256 * b8) as u32);
}

impl Serialize for HudFlags {
    open spec fn enc(&self, ctx: ProtocolContext) -> Seq<u8> {
        be32(hud_bits(*self))
    }

    open spec fn ser_wf(&self, ctx: ProtocolContext) -> bool {
        true
    }

    open spec fn eqv(&self, other: &Self) -> bool {
        self == other
    }

    fn serialize(&self, ser: &mut VecSerializer) -> (r: SerializeResult) {
        let value = self.to_u32();
        write_be32(ser, value);
        Ok(())
    }
}

impl Deserialize for HudFlags {
    open spec fn rt_wf(&self, ctx: ProtocolContext) -> bool {
        true
    }

    open spec fn prefix_safe() -> bool {
        true
    }

    /// Beyond the round trip: any word with a bit above the ninth set is
    /// rejected, and any word below that decodes to its flags.
    #[verifier::rlimit(100)]
    fn deserialize(d: &mut Deserializer) -> (r: DeserializeResult<Self>)
        ensures
            forall|w: u32, rest: Seq<u8>|
                (#[trigger] be32(w).add(rest)) == old(d).rem() ==> ((r is Err <==> w >= 512) && (w
                    < 512 ==> (r matches Ok(f) && hud_bits(f) == w && final(d).rem() == rest))),
    {
        let b = match read_be32(d) {
            Ok(b) => b,
            Err(e) => {
                return Err(e);
            },
        };
        if b >= 512 {
            proof {
                assert forall|v: HudFlags| #[trigger] hud_bits(v) < 512 by {
                    lemma_hud_bits_inv(v);
                }
            }
            return Err(DeserializeError::InvalidValue);
        }
        let r = HudFlags::from_u32(b);
        proof {
            assert forall|v: HudFlags| #[trigger] hud_bits(v) == b implies v == r by {
                lemma_hud_bits_inv(v);
            }
            lemma_hud_bits_recompose(r, b);
        }
        Ok(r)
    }
}


/// Why a server refused a connection. The last three kinds carry a custom
/// message; two also say whether the client should reconnect.
#[derive(Debug, Clone, PartialEq, Eq)]
pub enum AccessDeniedCode {
    WrongPassword,
    UnexpectedData,
    Singleplayer,
    WrongVersion,
    WrongCharsInName,
    WrongName,
    TooManyUsers,
    EmptyPassword,
    AlreadyConnected,
    ServerFail,
    CustomString(ByteString),
    Shutdown(ByteString, bool),
    Crash(ByteString, bool),
}

impl AccessDeniedCode {
    /// The text for this denial, as bytes: the carried message when the
    /// variant holds a nonempty one, else the standard description.
    pub fn to_str<'a>(&'a self) -> (r: &'a [u8])
        ensures
            match self {
                AccessDeniedCode::CustomString(msg) => msg.0@.len() > 0 ==> r@ == msg.0@,
                AccessDeniedCode::Shutdown(msg, _) => msg.0@.len() > 0 ==> r@ == msg.0@,
                AccessDeniedCode::Crash(msg, _) => msg.0@.len() > 0 ==> r@ == msg.0@,
                _ => true,
            },
    {
        match self {
            AccessDeniedCode::WrongPassword => &[73, 110, 118, 97, 108, 105, 100, 32, 112, 97, 115, 115, 119, 111, 114, 100],
            AccessDeniedCode::UnexpectedData => &[89, 111, 117, 114, 32, 99, 108, 105, 101, 110, 116, 32, 115, 101, 110, 116, 32, 115, 111, 109, 101, 116, 104, 105, 110, 103, 32, 116, 104, 101, 32, 115, 101, 114, 118, 101, 114, 32, 100, 105, 100, 110, 39, 116, 32, 101, 120, 112, 101, 99, 116, 46, 32, 32, 84, 114, 121, 32, 114, 101, 99, 111, 110, 110, 101, 99, 116, 105, 110, 103, 32, 111, 114, 32, 117, 112, 100, 97, 116, 105, 110, 103, 32, 121, 111, 117, 114, 32, 99, 108, 105, 101, 110, 116, 46],
            AccessDeniedCode::Singleplayer => &[84, 104, 101, 32, 115, 101, 114, 118, 101, 114, 32, 105, 115, 32, 114, 117, 110, 110, 105, 110, 103, 32, 105, 110, 32, 115, 105, 109, 112, 108, 101, 32, 115, 105, 110, 103, 108, 101, 112, 108, 97, 121, 101, 114, 32, 109, 111, 100, 101, 46, 32, 32, 89, 111, 117, 32, 99, 97, 110, 110, 111, 116, 32, 99, 111, 110, 110, 101, 99, 116, 46],
            AccessDeniedCode::WrongVersion => &[89, 111, 117, 114, 32, 99, 108, 105, 101, 110, 116, 39, 115, 32, 118, 101, 114, 115, 105, 111, 110, 32, 105, 115, 32, 110, 111, 116, 32, 115, 117, 112, 112, 111, 114, 116, 101, 100, 46, 10, 80, 108, 101, 97, 115, 101, 32, 99, 111, 110, 116, 97, 99, 116, 32, 116, 104, 101, 32, 115, 101, 114, 118, 101, 114, 32, 97, 100, 109, 105, 110, 105, 115, 116, 114, 97, 116, 111, 114, 46],
            AccessDeniedCode::WrongCharsInName => &[80, 108, 97, 121, 101, 114, 32, 110, 97, 109, 101, 32, 99, 111, 110, 116, 97, 105, 110, 115, 32, 100, 105, 115, 97, 108, 108, 111, 119, 101, 100, 32, 99, 104, 97, 114, 97, 99, 116, 101, 114, 115],
            AccessDeniedCode::WrongName => &[80, 108, 97, 121, 101, 114, 32, 110, 97, 109, 101, 32, 110, 111, 116, 32, 97, 108, 108, 111, 119, 101, 100],
            AccessDeniedCode::TooManyUsers => &[84, 111, 111, 32, 109, 97, 110, 121, 32, 117, 115, 101, 114, 115],
            AccessDeniedCode::EmptyPassword => &[69, 109, 112, 116, 121, 32, 112, 97, 115, 115, 119, 111, 114, 100, 115, 32, 97, 114, 101, 32, 100, 105, 115, 97, 108, 108, 111, 119, 101, 100, 46, 32, 32, 83, 101, 116, 32, 97, 32, 112, 97, 115, 115, 119, 111, 114, 100, 32, 97, 110, 100, 32, 116, 114, 121, 32, 97, 103, 97, 105, 110, 46],
            AccessDeniedCode::AlreadyConnected => &[65, 110, 111, 116, 104, 101, 114, 32, 99, 108, 105, 101, 110, 116, 32, 105, 115, 32, 99, 111, 110, 110, 101, 99, 116, 101, 100, 32, 119, 105, 116, 104, 32, 116, 104, 105, 115, 32, 110, 97, 109, 101, 46, 32, 32, 73, 102, 32, 121, 111, 117, 114, 32, 99, 108, 105, 101, 110, 116, 32, 99, 108, 111, 115, 101, 100, 32, 117, 110, 101, 120, 112, 101, 99, 116, 101, 100, 108, 121, 44, 32, 116, 114, 121, 32, 97, 103, 97, 105, 110, 32, 105, 110, 32, 97, 32, 109, 105, 110, 117, 116, 101, 46],
            AccessDeniedCode::ServerFail => &[73, 110, 116, 101, 114, 110, 97, 108, 32, 115, 101, 114, 118, 101, 114, 32, 101, 114, 114, 111, 114],
            AccessDeniedCode::CustomString(msg) => {
                if msg.0.len() > 0 {
                    msg.0.as_slice()
                } else {
                    &[117, 110, 107, 110, 111, 119, 110]
                }
            },
            AccessDeniedCode::Shutdown(msg, _) => {
                if msg.0.len() > 0 {
                    msg.0.as_slice()
                } else {
                    &[83, 101, 114, 118, 101, 114, 32, 115, 104, 117, 116, 116, 105, 110, 103, 32, 100, 111, 119, 110]
                }
            },
            AccessDeniedCode::Crash(msg, _) => {
                if msg.0.len() > 0 {
                    msg.0.as_slice()
                } else {
                    &[84, 104, 101, 32, 115, 101, 114, 118, 101, 114, 32, 104, 97, 115, 32, 101, 120, 112, 101, 114, 105, 101, 110, 99, 101, 100, 32, 97, 110, 32, 105, 110, 116, 101, 114, 110, 97, 108, 32, 101, 114, 114, 111, 114, 46, 32, 32, 89, 111, 117, 32, 119, 105, 108, 108, 32, 110, 111, 119, 32, 98, 101, 32, 100, 105, 115, 99, 111, 110, 110, 101, 99, 116, 101, 100, 46]
                }
            },
        }
    }
}

impl Serialize for AccessDeniedCode {
    open spec fn enc(&self, ctx: ProtocolContext) -> Seq<u8> {
        match self {
            AccessDeniedCode::WrongPassword => seq![0u8],
            AccessDeniedCode::UnexpectedData => seq![1u8],
            AccessDeniedCode::Singleplayer => seq![2u8],
            AccessDeniedCode::WrongVersion => seq![3u8],
            AccessDeniedCode::WrongCharsInName => seq![4u8],
            AccessDeniedCode::WrongName => seq![5u8],
            AccessDeniedCode::TooManyUsers => seq![6u8],
            AccessDeniedCode::EmptyPassword => seq![7u8],
            AccessDeniedCode::AlreadyConnected => seq![8u8],
            AccessDeniedCode::ServerFail => seq![9u8],
            AccessDeniedCode::CustomString(msg) => seq![10u8] + msg.enc(ctx),
            AccessDeniedCode::Shutdown(msg, rc) => seq![11u8] + msg.enc(ctx) + rc.enc(ctx),
            AccessDeniedCode::Crash(msg, rc) => seq![12u8] + msg.enc(ctx) + rc.enc(ctx),
        }
    }

    open spec fn ser_wf(&self, ctx: ProtocolContext) -> bool {
        match self {
            AccessDeniedCode::CustomString(msg) => msg.ser_wf(ctx),
            AccessDeniedCode::Shutdown(msg, _) => msg.ser_wf(ctx),
            AccessDeniedCode::Crash(msg, _) => msg.ser_wf(ctx),
            _ => true,
        }
    }

    open spec fn eqv(&self, other: &Self) -> bool {
        match (self, other) {
            (AccessDeniedCode::CustomString(a), AccessDeniedCode::CustomString(b)) => a.eqv(b),
            (AccessDeniedCode::Shutdown(a, x), AccessDeniedCode::Shutdown(b, y)) => a.eqv(b) && x
                == y,
            (AccessDeniedCode::Crash(a, x), AccessDeniedCode::Crash(b, y)) => a.eqv(b) && x == y,
            _ => self == other,
        }
    }

    fn serialize(&self, ser: &mut VecSerializer) -> (r: SerializeResult) {
        match self {
            AccessDeniedCode::WrongPassword => {
                ser.write_byte(0);
            },
            AccessDeniedCode::UnexpectedData => {
                ser.write_byte(1);
            },
            AccessDeniedCode::Singleplayer => {
                ser.write_byte(2);
            },
            AccessDeniedCode::WrongVersion => {
                ser.write_byte(3);
            },
            AccessDeniedCode::WrongCharsInName => {
                ser.write_byte(4);
            },
            AccessDeniedCode::WrongName => {
                ser.write_byte(5);
            },
            AccessDeniedCode::TooManyUsers => {
                ser.write_byte(6);
            },
            AccessDeniedCode::EmptyPassword => {
                ser.write_byte(7);
            },
            AccessDeniedCode::AlreadyConnected => {
                ser.write_byte(8);
            },
            AccessDeniedCode::ServerFail => {
                ser.write_byte(9);
            },
            AccessDeniedCode::CustomString(msg) => {
                ser.write_byte(10);
                match msg.serialize(ser) {
                    Ok(_) => {},
                    Err(e) => {
                        return Err(e);
                    },
                }
            },
            AccessDeniedCode::Shutdown(msg, rc) => {
                ser.write_byte(11);
                match msg.serialize(ser) {
                    Ok(_) => {},
                    Err(e) => {
                        return Err(e);
                    },
                }
                let _ = rc.serialize(ser);
            },
            AccessDeniedCode::Crash(msg, rc) => {
                ser.write_byte(12);
                match msg.serialize(ser) {
                    Ok(_) => {},
                    Err(e) => {
                        return Err(e);
                    },
                }
                let _ = rc.serialize(ser);
            },
        }
        assert(ser.out() =~= old(ser).out() + self.enc(old(ser).ctx()));
        Ok(())
    }
}

proof fn accessdeniedcode_reshape(ctx: ProtocolContext, input: Seq<u8>)
    ensures
        forall|v: AccessDeniedCode, rest: Seq<u8>|
            (#[trigger] v.enc(ctx).add(rest)) == input && v.rt_wf(ctx) ==> match v {
                AccessDeniedCode::CustomString(msg) => input.len() >= 1 && input[0] == 10
                    && msg.enc(ctx).add(rest) == input.skip(1),
                AccessDeniedCode::Shutdown(msg, rc) => input.len() >= 1 && input[0] == 11
                    && msg.enc(ctx).add(rc.enc(ctx).add(rest)) == input.skip(1),
                AccessDeniedCode::Crash(msg, rc) => input.len() >= 1 && input[0] == 12 && msg.enc(
                    ctx).add(rc.enc(ctx).add(rest)) == input.skip(1),
                _ => input.len() >= 1 && input[0] == v.enc(ctx)[0] && rest == input.skip(1),
            },
{
    assert forall|v: AccessDeniedCode, rest: Seq<u8>|
        (#[trigger] v.enc(ctx).add(rest)) == input && v.rt_wf(ctx) implies match v {
        AccessDeniedCode::CustomString(msg) => input.len() >= 1 && input[0] == 10 && msg.enc(
            ctx).add(rest) == input.skip(1),
        AccessDeniedCode::Shutdown(msg, rc) => input.len() >= 1 && input[0] == 11 && msg.enc(
            ctx).add(rc.enc(ctx).add(rest)) == input.skip(1),
        AccessDeniedCode::Crash(msg, rc) => input.len() >= 1 && input[0] == 12 && msg.enc(ctx).add(
            rc.enc(ctx).add(rest)) == input.skip(1),
        _ => input.len() >= 1 && input[0] == v.enc(ctx)[0] && rest == input.skip(1),
    } by {
        match v {
            AccessDeniedCode::CustomString(msg) => {
                assert(msg.enc(ctx).add(rest) =~= input.skip(1));
            },
            AccessDeniedCode::Shutdown(msg, rc) => {
                assert(msg.enc(ctx).add(rc.enc(ctx).add(rest)) =~= input.skip(1));
            },
            AccessDeniedCode::Crash(msg, rc) => {
                assert(msg.enc(ctx).add(rc.enc(ctx).add(rest)) =~= input.skip(1));
            },
            _ => {
                assert(rest =~= input.skip(1));
            },
        }
    }
}

impl Deserialize for AccessDeniedCode {
    open spec fn rt_wf(&self, ctx: ProtocolContext) -> bool {
        self.ser_wf(ctx)
    }

    open spec fn prefix_safe() -> bool {
        true
    }

    fn deserialize(d: &mut Deserializer) -> (r: DeserializeResult<Self>) {
        let ghost ctx = d.ctx();
        let ghost input = d.rem();
        proof {
            accessdeniedcode_reshape(ctx, input);
        }
        let tag = match d.take_byte() {
            Ok(t) => t,
            Err(e) => {
                return Err(e);
            },
        };
        match tag {
            0 => Ok(AccessDeniedCode::WrongPassword),
            1 => Ok(AccessDeniedCode::UnexpectedData),
            2 => Ok(AccessDeniedCode::Singleplayer),
            3 => Ok(AccessDeniedCode::WrongVersion),
            4 => Ok(AccessDeniedCode::WrongCharsInName),
            5 => Ok(AccessDeniedCode::WrongName),
            6 => Ok(AccessDeniedCode::TooManyUsers),
            7 => Ok(AccessDeniedCode::EmptyPassword),
            8 => Ok(AccessDeniedCode::AlreadyConnected),
            9 => Ok(AccessDeniedCode::ServerFail),
            11 => {
                let msg = match ByteString::deserialize(d) {
                    Ok(m) => m,
                    Err(e) => {
                        return Err(e);
                    },
                };
                let b = match d.take_byte() {
                    Ok(b) => b,
                    Err(e) => {
                        return Err(e);
                    },
                };
                Ok(AccessDeniedCode::Shutdown(msg, b % 2 == 1))
            },
            12 => {
                let msg = match ByteString::deserialize(d) {
                    Ok(m) => m,
                    Err(e) => {
                        return Err(e);
                    },
                };
                let b = match d.take_byte() {
                    Ok(b) => b,
                    Err(e) => {
                        return Err(e);
                    },
                };
                Ok(AccessDeniedCode::Crash(msg, b % 2 == 1))
            },
            _ => {
                // 10 is the explicit custom-message kind; anything unknown is
                // read the same way, as the reference implementation does.
                let msg = match ByteString::deserialize(d) {
                    Ok(m) => m,
                    Err(e) => {
                        return Err(e);
                    },
                };
                Ok(AccessDeniedCode::CustomString(msg))
            },
        }
    }
}

/// A hotbar attribute set by the server.
#[derive(Debug, Clone, PartialEq, Eq)]
pub enum HudSetParam {
    SetHotBarItemCount(s32),
    SetHotBarImage(ByteString),
    SetHotBarSelectedImage(ByteString),
}

impl Serialize for HudSetParam {
    open spec fn enc(&self, ctx: ProtocolContext) -> Seq<u8> {
        match self {
            HudSetParam::SetHotBarItemCount(v) => be16(1) + be16(4) + v.enc(ctx),
            HudSetParam::SetHotBarImage(img) => be16(2) + img.enc(ctx),
            HudSetParam::SetHotBarSelectedImage(img) => be16(3) + img.enc(ctx),
        }
    }

    open spec fn ser_wf(&self, ctx: ProtocolContext) -> bool {
        match self {
            HudSetParam::SetHotBarItemCount(_) => true,
            HudSetParam::SetHotBarImage(img) => img.ser_wf(ctx),
            HudSetParam::SetHotBarSelectedImage(img) => img.ser_wf(ctx),
        }
    }

    open spec fn eqv(&self, other: &Self) -> bool {
        match (self, other) {
            (HudSetParam::SetHotBarItemCount(a), HudSetParam::SetHotBarItemCount(b)) => a == b,
            (HudSetParam::SetHotBarImage(a), HudSetParam::SetHotBarImage(b)) => a.eqv(b),
            (HudSetParam::SetHotBarSelectedImage(a), HudSetParam::SetHotBarSelectedImage(b)) => a
                .eqv(b),
            _ => false,
        }
    }

    fn serialize(&self, ser: &mut VecSerializer) -> (r: SerializeResult) {
        match self {
            HudSetParam::SetHotBarItemCount(v) => {
                write_be16(ser, 1);
                // The value itself is wrapped in a 16-bit size, always 4.
                write_be16(ser, 4);
                let _ = v.serialize(ser);
            },
            HudSetParam::SetHotBarImage(img) => {
                write_be16(ser, 2);
                match img.serialize(ser) {
                    Ok(_) => {},
                    Err(e) => {
                        return Err(e);
                    },
                }
            },
            HudSetParam::SetHotBarSelectedImage(img) => {
                write_be16(ser, 3);
                match img.serialize(ser) {
                    Ok(_) => {},
                    Err(e) => {
                        return Err(e);
                    },
                }
            },
        }
        assert(ser.out() =~= old(ser).out() + self.enc(old(ser).ctx()));
        Ok(())
    }
}

proof fn hudsetparam_reshape(ctx: ProtocolContext, input: Seq<u8>)
    ensures
        forall|v: HudSetParam, rest: Seq<u8>|
            (#[trigger] v.enc(ctx).add(rest)) == input && v.rt_wf(ctx) ==> match v {
                HudSetParam::SetHotBarItemCount(x) => (1u16).enc(ctx).add(
                    (4u16).enc(ctx).add(x.enc(ctx).add(rest))) == input,
                HudSetParam::SetHotBarImage(img) => (2u16).enc(ctx).add(img.enc(ctx).add(rest))
                    == input,
                HudSetParam::SetHotBarSelectedImage(img) => (3u16).enc(ctx).add(
                    img.enc(ctx).add(rest)) == input,
            },
{
    assert forall|v: HudSetParam, rest: Seq<u8>|
        (#[trigger] v.enc(ctx).add(rest)) == input && v.rt_wf(ctx) implies match v {
        HudSetParam::SetHotBarItemCount(x) => (1u16).enc(ctx).add(
            (4u16).enc(ctx).add(x.enc(ctx).add(rest))) == input,
        HudSetParam::SetHotBarImage(img) => (2u16).enc(ctx).add(img.enc(ctx).add(rest)) == input,
        HudSetParam::SetHotBarSelectedImage(img) => (3u16).enc(ctx).add(img.enc(ctx).add(rest))
            == input,
    } by {
        match v {
            HudSetParam::SetHotBarItemCount(x) => {
                assert((1u16).enc(ctx).add((4u16).enc(ctx).add(x.enc(ctx).add(rest))) =~= v.enc(
                    ctx).add(rest));
            },
            HudSetParam::SetHotBarImage(img) => {
                assert((2u16).enc(ctx).add(img.enc(ctx).add(rest)) =~= v.enc(ctx).add(rest));
            },
            HudSetParam::SetHotBarSelectedImage(img) => {
                assert((3u16).enc(ctx).add(img.enc(ctx).add(rest)) =~= v.enc(ctx).add(rest));
            },
        }
    }
}

impl Deserialize for HudSetParam {
    open spec fn rt_wf(&self, ctx: ProtocolContext) -> bool {
        self.ser_wf(ctx)
    }

    open spec fn prefix_safe() -> bool {
        true
    }

    fn deserialize(d: &mut Deserializer) -> (r: DeserializeResult<Self>) {
        let ghost ctx = d.ctx();
        let ghost input = d.rem();
        proof {
            hudsetparam_reshape(ctx, input);
        }
        let param = match read_be16(d) {
            Ok(p) => p,
            Err(e) => {
                return Err(e);
            },
        };
        match param {
            1 => {
                let size = match read_be16(d) {
                    Ok(s) => s,
                    Err(e) => {
                        return Err(e);
                    },
                };
                if size != 4 {
                    return Err(DeserializeError::InvalidValue);
                }
                match i32::deserialize(d) {
                    Ok(v) => Ok(HudSetParam::SetHotBarItemCount(v)),
                    Err(e) => Err(e),
                }
            },
            2 => match ByteString::deserialize(d) {
                Ok(img) => Ok(HudSetParam::SetHotBarImage(img)),
                Err(e) => Err(e),
            },
            3 => match ByteString::deserialize(d) {
                Ok(img) => Ok(HudSetParam::SetHotBarSelectedImage(img)),
                Err(e) => Err(e),
            },
            _ => Err(DeserializeError::InvalidValue),
        }
    }
}

/// What an interaction points at: nothing, a node, or an object. A leading
/// version byte is always zero.
#[derive(Debug, Clone, Copy, PartialEq, Eq, Structural)]
pub enum PointedThing {
    Nothing,
    Node { under_surface: v3s16, above_surface: v3s16 },
    Object { object_id: u16 },
}

impl Serialize for PointedThing {
    open spec fn enc(&self, ctx: ProtocolContext) -> Seq<u8> {
        match self {
            PointedThing::Nothing => seq![0u8, 0u8],
            PointedThing::Node { under_surface, above_surface } => seq![0u8, 1u8]
                + under_surface.enc(ctx) + above_surface.enc(ctx),
            PointedThing::Object { object_id } => seq![0u8, 2u8] + object_id.enc(ctx),
        }
    }

    open spec fn ser_wf(&self, ctx: ProtocolContext) -> bool {
        true
    }

    open spec fn eqv(&self, other: &Self) -> bool {
        self == other
    }

    fn serialize(&self, ser: &mut VecSerializer) -> (r: SerializeResult) {
        ser.write_byte(0);
        match self {
            PointedThing::Nothing => {
                ser.write_byte(0);
            },
            PointedThing::Node { under_surface, above_surface } => {
                ser.write_byte(1);
                let _ = under_surface.serialize(ser);
                let _ = above_surface.serialize(ser);
            },
            PointedThing::Object { object_id } => {
                ser.write_byte(2);
                let _ = object_id.serialize(ser);
            },
        }
        assert(ser.out() =~= old(ser).out() + self.enc(old(ser).ctx()));
        Ok(())
    }
}

proof fn pointedthing_reshape(ctx: ProtocolContext, input: Seq<u8>)
    ensures
        forall|v: PointedThing, rest: Seq<u8>|
            (#[trigger] v.enc(ctx).add(rest)) == input ==> input.len() >= 2 && input[0] == 0
                && match v {
                PointedThing::Nothing => input[1] == 0 && rest == input.skip(2),
                PointedThing::Node { under_surface, above_surface } => input[1] == 1
                    && under_surface.enc(ctx).add(above_surface.enc(ctx).add(rest)) == input.skip(
                    2),
                PointedThing::Object { object_id } => input[1] == 2 && object_id.enc(ctx).add(rest)
                    == input.skip(2),
            },
{
    assert forall|v: PointedThing, rest: Seq<u8>|
        (#[trigger] v.enc(ctx).add(rest)) == input implies input.len() >= 2 && input[0] == 0
        && match v {
        PointedThing::Nothing => input[1] == 0 && rest == input.skip(2),
        PointedThing::Node { under_surface, above_surface } => input[1] == 1 && under_surface.enc(
            ctx).add(above_surface.enc(ctx).add(rest)) == input.skip(2),
        PointedThing::Object { object_id } => input[1] == 2 && object_id.enc(ctx).add(rest)
            == input.skip(2),
    } by {
        match v {
            PointedThing::Nothing => {
                assert(rest =~= input.skip(2));
            },
            PointedThing::Node { under_surface, above_surface } => {
                assert(under_surface.enc(ctx).add(above_surface.enc(ctx).add(rest)) =~= input.skip(
                    2));
            },
            PointedThing::Object { object_id } => {
                assert(object_id.enc(ctx).add(rest) =~= input.skip(2));
            },
        }
    }
}

impl Deserialize for PointedThing {
    open spec fn rt_wf(&self, ctx: ProtocolContext) -> bool {
        true
    }

    open spec fn prefix_safe() -> bool {
        true
    }

    fn deserialize(d: &mut Deserializer) -> (r: DeserializeResult<Self>) {
        let ghost ctx = d.ctx();
        let ghost input = d.rem();
        proof {
            pointedthing_reshape(ctx, input);
        }
        let ver = match d.take_byte() {
            Ok(v) => v,
            Err(e) => {
                return Err(e);
            },
        };
        if ver != 0 {
            return Err(DeserializeError::InvalidValue);
        }
        let typ = match d.take_byte() {
            Ok(t) => t,
            Err(e) => {
                return Err(e);
            },
        };
        assert(input.len() >= 2 ==> d.rem() =~= input.skip(2));
        match typ {
            0 => Ok(PointedThing::Nothing),
            1 => {
                let under_surface = match v3s16::deserialize(d) {
                    Ok(v) => v,
                    Err(e) => {
                        return Err(e);
                    },
                };
                let above_surface = match v3s16::deserialize(d) {
                    Ok(v) => v,
                    Err(e) => {
                        return Err(e);
                    },
                };
                Ok(PointedThing::Node { under_surface, above_surface })
            },
            2 => {
                let object_id = match read_be16(d) {
                    Ok(v) => v,
                    Err(e) => {
                        return Err(e);
                    },
                };
                Ok(PointedThing::Object { object_id })
            },
            _ => Err(DeserializeError::InvalidValue),
        }
    }
}


#[derive(Debug, Clone, Copy, PartialEq, Eq, Structural)]
pub struct SkyColor {
    pub day_sky: SColor,
    pub day_horizon: SColor,
    pub dawn_sky: SColor,
    pub dawn_horizon: SColor,
    pub night_sky: SColor,
    pub night_horizon: SColor,
    pub indoors: SColor,
}

impl Serialize for SkyColor {
    open spec fn enc(&self, ctx: ProtocolContext) -> Seq<u8> {
        self.day_sky.enc(ctx) + self.day_horizon.enc(ctx) + self.dawn_sky.enc(ctx) + self.dawn_horizon.enc(ctx) + self.night_sky.enc(ctx) + self.night_horizon.enc(ctx) + self.indoors.enc(ctx)
    }

    open spec fn ser_wf(&self, ctx: ProtocolContext) -> bool {
        self.day_sky.ser_wf(ctx) && self.day_horizon.ser_wf(ctx) && self.dawn_sky.ser_wf(ctx) && self.dawn_horizon.ser_wf(ctx) && self.night_sky.ser_wf(ctx) && self.night_horizon.ser_wf(ctx) && self.indoors.ser_wf(ctx)
    }

    open spec fn eqv(&self, other: &Self) -> bool {
        self.day_sky.eqv(&other.day_sky) && self.day_horizon.eqv(&other.day_horizon) && self.dawn_sky.eqv(&other.dawn_sky) && self.dawn_horizon.eqv(&other.dawn_horizon) && self.night_sky.eqv(&other.night_sky) && self.night_horizon.eqv(&other.night_horizon) && self.indoors.eqv(&other.indoors)
    }

    fn serialize(&self, ser: &mut VecSerializer) -> (r: SerializeResult) {
        match self.day_sky.serialize(ser) {
            Ok(_) => {},
            Err(e) => {
                return Err(e);
            },
        }
        match self.day_horizon.serialize(ser) {
            Ok(_) => {},
            Err(e) => {
                return Err(e);
            },
        }
        match self.dawn_sky.serialize(ser) {
            Ok(_) => {},
            Err(e) => {
                return Err(e);
            },
        }
        match self.dawn_horizon.serialize(ser) {
            Ok(_) => {},
            Err(e) => {
                return Err(e);
            },
        }
        match self.night_sky.serialize(ser) {
            Ok(_) => {},
            Err(e) => {
                return Err(e);
            },
        }
        match self.night_horizon.serialize(ser) {
            Ok(_) => {},
            Err(e) => {
                return Err(e);
            },
        }
        match self.indoors.serialize(ser) {
            Ok(_) => {},
            Err(e) => {
                return Err(e);
            },
        }
        assert(ser.out() =~= old(ser).out() + self.enc(old(ser).ctx()));
        Ok(())
    }
}

proof fn skycolor_reshape(ctx: ProtocolContext, input: Seq<u8>)
    ensures
        forall|v: SkyColor, rest: Seq<u8>|
            (#[trigger] v.enc(ctx).add(rest)) == input && v.rt_wf(ctx)
                && (<SkyColor as Deserialize>::prefix_safe() || rest.len() == 0)
                ==> v.day_sky.enc(ctx).add(v.day_horizon.enc(ctx).add(v.dawn_sky.enc(ctx).add(v.dawn_horizon.enc(ctx).add(v.night_sky.enc(ctx).add(v.night_horizon.enc(ctx).add(v.indoors.enc(ctx).add(rest))))))) == input,
{
    assert forall|v: SkyColor, rest: Seq<u8>|
        (#[trigger] v.enc(ctx).add(rest)) == input && v.rt_wf(ctx)
        && (<SkyColor as Deserialize>::prefix_safe() || rest.len() == 0)
        implies v.day_sky.enc(ctx).add(v.day_horizon.enc(ctx).add(v.dawn_sky.enc(ctx).add(v.dawn_horizon.enc(ctx).add(v.night_sky.enc(ctx).add(v.night_horizon.enc(ctx).add(v.indoors.enc(ctx).add(rest))))))) == input by {
        assert(v.day_sky.enc(ctx).add(v.day_horizon.enc(ctx).add(v.dawn_sky.enc(ctx).add(v.dawn_horizon.enc(ctx).add(v.night_sky.enc(ctx).add(v.night_horizon.enc(ctx).add(v.indoors.enc(ctx).add(rest))))))) =~= v.enc(ctx).add(rest));
    }
}

impl Deserialize for SkyColor {
    open spec fn rt_wf(&self, ctx: ProtocolContext) -> bool {
        self.day_sky.rt_wf(ctx) && self.day_horizon.rt_wf(ctx) && self.dawn_sky.rt_wf(ctx) && self.dawn_horizon.rt_wf(ctx) && self.night_sky.rt_wf(ctx) && self.night_horizon.rt_wf(ctx) && self.indoors.rt_wf(ctx) && <SColor as Deserialize>::prefix_safe() && <SColor as Deserialize>::prefix_safe() && <SColor as Deserialize>::prefix_safe() && <SColor as Deserialize>::prefix_safe() && <SColor as Deserialize>::prefix_safe() && <SColor as Deserialize>::prefix_safe()
    }

    open spec fn prefix_safe() -> bool {
        <SColor as Deserialize>::prefix_safe() && <SColor as Deserialize>::prefix_safe() && <SColor as Deserialize>::prefix_safe() && <SColor as Deserialize>::prefix_safe() && <SColor as Deserialize>::prefix_safe() && <SColor as Deserialize>::prefix_safe() && <SColor as Deserialize>::prefix_safe()
    }

    fn deserialize(d: &mut Deserializer) -> (r: DeserializeResult<Self>) {
        let ghost ctx = d.ctx();
        let ghost input = d.rem();
        proof {
            skycolor_reshape(ctx, input);
        }
        let day_sky = match <SColor as Deserialize>::deserialize(d) {
            Ok(v) => v,
            Err(e) => {
                return Err(e);
            },
        };
        let day_horizon = match <SColor as Deserialize>::deserialize(d) {
            Ok(v) => v,
            Err(e) => {
                return Err(e);
            },
        };
        let dawn_sky = match <SColor as Deserialize>::deserialize(d) {
            Ok(v) => v,
            Err(e) => {
                return Err(e);
            },
        };
        let dawn_horizon = match <SColor as Deserialize>::deserialize(d) {
            Ok(v) => v,
            Err(e) => {
                return Err(e);
            },
        };
        let night_sky = match <SColor as Deserialize>::deserialize(d) {
            Ok(v) => v,
            Err(e) => {
                return Err(e);
            },
        };
        let night_horizon = match <SColor as Deserialize>::deserialize(d) {
            Ok(v) => v,
            Err(e) => {
                return Err(e);
            },
        };
        let indoors = match <SColor as Deserialize>::deserialize(d) {
            Ok(v) => v,
            Err(e) => {
                return Err(e);
            },
        };
        Ok(SkyColor { day_sky, day_horizon, dawn_sky, dawn_horizon, night_sky, night_horizon, indoors })
    }
}

#[derive(Debug, Clone, Copy, PartialEq, Eq, Structural)]
pub struct AutoExposure {
    pub luminance_min: f32bits,
    pub luminance_max: f32bits,
    pub exposure_correction: f32bits,
    pub speed_dark_bright: f32bits,
    pub speed_bright_dark: f32bits,
    pub center_weight_power: f32bits,
}

impl Serialize for AutoExposure {
    open spec fn enc(&self, ctx: ProtocolContext) -> Seq<u8> {
        self.luminance_min.enc(ctx) + self.luminance_max.enc(ctx) + self.exposure_correction.enc(ctx) + self.speed_dark_bright.enc(ctx) + self.speed_bright_dark.enc(ctx) + self.center_weight_power.enc(ctx)
    }

    open spec fn ser_wf(&self, ctx: ProtocolContext) -> bool {
        self.luminance_min.ser_wf(ctx) && self.luminance_max.ser_wf(ctx) && self.exposure_correction.ser_wf(ctx) && self.speed_dark_bright.ser_wf(ctx) && self.speed_bright_dark.ser_wf(ctx) && self.center_weight_power.ser_wf(ctx)
    }

    open spec fn eqv(&self, other: &Self) -> bool {
        self.luminance_min.eqv(&other.luminance_min) && self.luminance_max.eqv(&other.luminance_max) && self.exposure_correction.eqv(&other.exposure_correction) && self.speed_dark_bright.eqv(&other.speed_dark_bright) && self.speed_bright_dark.eqv(&other.speed_bright_dark) && self.center_weight_power.eqv(&other.center_weight_power)
    }

    fn serialize(&self, ser: &mut VecSerializer) -> (r: SerializeResult) {
        match self.luminance_min.serialize(ser) {
            Ok(_) => {},
            Err(e) => {
                return Err(e);
            },
        }
        match self.luminance_max.serialize(ser) {
            Ok(_) => {},
            Err(e) => {
                return Err(e);
            },
        }
        match self.exposure_correction.serialize(ser) {
            Ok(_) => {},
            Err(e) => {
                return Err(e);
            },
        }
        match self.speed_dark_bright.serialize(ser) {
            Ok(_) => {},
            Err(e) => {
                return Err(e);
            },
        }
        match self.speed_bright_dark.serialize(ser) {
            Ok(_) => {},
            Err(e) => {
                return Err(e);
            },
        }
        match self.center_weight_power.serialize(ser) {
            Ok(_) => {},
            Err(e) => {
                return Err(e);
            },
        }
        assert(ser.out() =~= old(ser).out() + self.enc(old(ser).ctx()));
        Ok(())
    }
}

proof fn autoexposure_reshape(ctx: ProtocolContext, input: Seq<u8>)
    ensures
        forall|v: AutoExposure, rest: Seq<u8>|
            (#[trigger] v.enc(ctx).add(rest)) == input && v.rt_wf(ctx)
                && (<AutoExposure as Deserialize>::prefix_safe() || rest.len() == 0)
                ==> v.luminance_min.enc(ctx).add(v.luminance_max.enc(ctx).add(v.exposure_correction.enc(ctx).add(v.speed_dark_bright.enc(ctx).add(v.speed_bright_dark.enc(ctx).add(v.center_weight_power.enc(ctx).add(rest)))))) == input,
{
    assert forall|v: AutoExposure, rest: Seq<u8>|
        (#[trigger] v.enc(ctx).add(rest)) == input && v.rt_wf(ctx)
        && (<AutoExposure as Deserialize>::prefix_safe() || rest.len() == 0)
        implies v.luminance_min.enc(ctx).add(v.luminance_max.enc(ctx).add(v.exposure_correction.enc(ctx).add(v.speed_dark_bright.enc(ctx).add(v.speed_bright_dark.enc(ctx).add(v.center_weight_power.enc(ctx).add(rest)))))) == input by {
        assert(v.luminance_min.enc(ctx).add(v.luminance_max.enc(ctx).add(v.exposure_correction.enc(ctx).add(v.speed_dark_bright.enc(ctx).add(v.speed_bright_dark.enc(ctx).add(v.center_weight_power.enc(ctx).add(rest)))))) =~= v.enc(ctx).add(rest));
    }
}

impl Deserialize for AutoExposure {
    open spec fn rt_wf(&self, ctx: ProtocolContext) -> bool {
        self.luminance_min.rt_wf(ctx) && self.luminance_max.rt_wf(ctx) && self.exposure_correction.rt_wf(ctx) && self.speed_dark_bright.rt_wf(ctx) && self.speed_bright_dark.rt_wf(ctx) && self.center_weight_power.rt_wf(ctx) && <f32bits as Deserialize>::prefix_safe() && <f32bits as Deserialize>::prefix_safe() && <f32bits as Deserialize>::prefix_safe() && <f32bits as Deserialize>::prefix_safe() && <f32bits as Deserialize>::prefix_safe()
    }

    open spec fn prefix_safe() -> bool {
        <f32bits as Deserialize>::prefix_safe() && <f32bits as Deserialize>::prefix_safe() && <f32bits as Deserialize>::prefix_safe() && <f32bits as Deserialize>::prefix_safe() && <f32bits as Deserialize>::prefix_safe() && <f32bits as Deserialize>::prefix_safe()
    }

    fn deserialize(d: &mut Deserializer) -> (r: DeserializeResult<Self>) {
        let ghost ctx = d.ctx();
        let ghost input = d.rem();
        proof {
            autoexposure_reshape(ctx, input);
        }
        let luminance_min = match <f32bits as Deserialize>::deserialize(d) {
            Ok(v) => v,
            Err(e) => {
                return Err(e);
            },
        };
        let luminance_max = match <f32bits as Deserialize>::deserialize(d) {
            Ok(v) => v,
            Err(e) => {
                return Err(e);
            },
        };
        let exposure_correction = match <f32bits as Deserialize>::deserialize(d) {
            Ok(v) => v,
            Err(e) => {
                return Err(e);
            },
        };
        let speed_dark_bright = match <f32bits as Deserialize>::deserialize(d) {
            Ok(v) => v,
            Err(e) => {
                return Err(e);
            },
        };
        let speed_bright_dark = match <f32bits as Deserialize>::deserialize(d) {
            Ok(v) => v,
            Err(e) => {
                return Err(e);
            },
        };
        let center_weight_power = match <f32bits as Deserialize>::deserialize(d) {
            Ok(v) => v,
            Err(e) => {
                return Err(e);
            },
        };
        Ok(AutoExposure { luminance_min, luminance_max, exposure_correction, speed_dark_bright, speed_bright_dark, center_weight_power })
    }
}

#[derive(Debug, Clone, Copy, PartialEq, Eq, Structural)]
pub struct Lighting {
    pub shadow_intensity: f32bits,
    pub saturation: f32bits,
    pub exposure: AutoExposure,
}

impl Serialize for Lighting {
    open spec fn enc(&self, ctx: ProtocolContext) -> Seq<u8> {
        self.shadow_intensity.enc(ctx) + self.saturation.enc(ctx) + self.exposure.enc(ctx)
    }

    open spec fn ser_wf(&self, ctx: ProtocolContext) -> bool {
        self.shadow_intensity.ser_wf(ctx) && self.saturation.ser_wf(ctx) && self.exposure.ser_wf(ctx)
    }

    open spec fn eqv(&self, other: &Self) -> bool {
        self.shadow_intensity.eqv(&other.shadow_intensity) && self.saturation.eqv(&other.saturation) && self.exposure.eqv(&other.exposure)
    }

    fn serialize(&self, ser: &mut VecSerializer) -> (r: SerializeResult) {
        match self.shadow_intensity.serialize(ser) {
            Ok(_) => {},
            Err(e) => {
                return Err(e);
            },
        }
        match self.saturation.serialize(ser) {
            Ok(_) => {},
            Err(e) => {
                return Err(e);
            },
        }
        match self.exposure.serialize(ser) {
            Ok(_) => {},
            Err(e) => {
                return Err(e);
            },
        }
        assert(ser.out() =~= old(ser).out() + self.enc(old(ser).ctx()));
        Ok(())
    }
}

proof fn lighting_reshape(ctx: ProtocolContext, input: Seq<u8>)
    ensures
        forall|v: Lighting, rest: Seq<u8>|
            (#[trigger] v.enc(ctx).add(rest)) == input && v.rt_wf(ctx)
                && (<Lighting as Deserialize>::prefix_safe() || rest.len() == 0)
                ==> v.shadow_intensity.enc(ctx).add(v.saturation.enc(ctx).add(v.exposure.enc(ctx).add(rest))) == input,
{
    assert forall|v: Lighting, rest: Seq<u8>|
        (#[trigger] v.enc(ctx).add(rest)) == input && v.rt_wf(ctx)
        && (<Lighting as Deserialize>::prefix_safe() || rest.len() == 0)
        implies v.shadow_intensity.enc(ctx).add(v.saturation.enc(ctx).add(v.exposure.enc(ctx).add(rest))) == input by {
        assert(v.shadow_intensity.enc(ctx).add(v.saturation.enc(ctx).add(v.exposure.enc(ctx).add(rest))) =~= v.enc(ctx).add(rest));
    }
}

impl Deserialize for Lighting {
    open spec fn rt_wf(&self, ctx: ProtocolContext) -> bool {
        self.shadow_intensity.rt_wf(ctx) && self.saturation.rt_wf(ctx) && self.exposure.rt_wf(ctx) && <f32bits as Deserialize>::prefix_safe() && <f32bits as Deserialize>::prefix_safe()
    }

    open spec fn prefix_safe() -> bool {
        <f32bits as Deserialize>::prefix_safe() && <f32bits as Deserialize>::prefix_safe() && <AutoExposure as Deserialize>::prefix_safe()
    }

    fn deserialize(d: &mut Deserializer) -> (r: DeserializeResult<Self>) {
        let ghost ctx = d.ctx();
        let ghost input = d.rem();
        proof {
            lighting_reshape(ctx, input);
        }
        let shadow_intensity = match <f32bits as Deserialize>::deserialize(d) {
            Ok(v) => v,
            Err(e) => {
                return Err(e);
            },
        };
        let saturation = match <f32bits as Deserialize>::deserialize(d) {
            Ok(v) => v,
            Err(e) => {
                return Err(e);
            },
        };
        let exposure = match <AutoExposure as Deserialize>::deserialize(d) {
            Ok(v) => v,
            Err(e) => {
                return Err(e);
            },
        };
        Ok(Lighting { shadow_intensity, saturation, exposure })
    }
}

#[derive(Debug, Clone, PartialEq, Eq)]
pub struct MediaFileData {
    pub name: ByteString,
    pub data: BinaryData32,
}

impl Serialize for MediaFileData {
    open spec fn enc(&self, ctx: ProtocolContext) -> Seq<u8> {
        self.name.enc(ctx) + self.data.enc(ctx)
    }

    open spec fn ser_wf(&self, ctx: ProtocolContext) -> bool {
        self.name.ser_wf(ctx) && self.data.ser_wf(ctx)
    }

    open spec fn eqv(&self, other: &Self) -> bool {
        self.name.eqv(&other.name) && self.data.eqv(&other.data)
    }

    fn serialize(&self, ser: &mut VecSerializer) -> (r: SerializeResult) {
        match self.name.serialize(ser) {
            Ok(_) => {},
            Err(e) => {
                return Err(e);
            },
        }
        match self.data.serialize(ser) {
            Ok(_) => {},
            Err(e) => {
                return Err(e);
            },
        }
        assert(ser.out() =~= old(ser).out() + self.enc(old(ser).ctx()));
        Ok(())
    }
}

proof fn mediafiledata_reshape(ctx: ProtocolContext, input: Seq<u8>)
    ensures
        forall|v: MediaFileData, rest: Seq<u8>|
            (#[trigger] v.enc(ctx).add(rest)) == input && v.rt_wf(ctx)
                && (<MediaFileData as Deserialize>::prefix_safe() || rest.len() == 0)
                ==> v.name.enc(ctx).add(v.data.enc(ctx).add(rest)) == input,
{
    assert forall|v: MediaFileData, rest: Seq<u8>|
        (#[trigger] v.enc(ctx).add(rest)) == input && v.rt_wf(ctx)
        && (<MediaFileData as Deserialize>::prefix_safe() || rest.len() == 0)
        implies v.name.enc(ctx).add(v.data.enc(ctx).add(rest)) == input by {
        assert(v.name.enc(ctx).add(v.data.enc(ctx).add(rest)) =~= v.enc(ctx).add(rest));
    }
}

impl Deserialize for MediaFileData {
    open spec fn rt_wf(&self, ctx: ProtocolContext) -> bool {
        self.name.rt_wf(ctx) && self.data.rt_wf(ctx) && <ByteString as Deserialize>::prefix_safe()
    }

    open spec fn prefix_safe() -> bool {
        <ByteString as Deserialize>::prefix_safe() && <BinaryData32 as Deserialize>::prefix_safe()
    }

    fn deserialize(d: &mut Deserializer) -> (r: DeserializeResult<Self>) {
        let ghost ctx = d.ctx();
        let ghost input = d.rem();
        proof {
            mediafiledata_reshape(ctx, input);
        }
        let name = match <ByteString as Deserialize>::deserialize(d) {
            Ok(v) => v,
            Err(e) => {
                return Err(e);
            },
        };
        let data = match <BinaryData32 as Deserialize>::deserialize(d) {
            Ok(v) => v,
            Err(e) => {
                return Err(e);
            },
        };
        Ok(MediaFileData { name, data })
    }
}

#[derive(Debug, Clone, PartialEq, Eq)]
pub struct MediaAnnouncement {
    pub name: ByteString,
    pub sha1_base64: ByteString,
}

impl Serialize for MediaAnnouncement {
    open spec fn enc(&self, ctx: ProtocolContext) -> Seq<u8> {
        self.name.enc(ctx) + self.sha1_base64.enc(ctx)
    }

    open spec fn ser_wf(&self, ctx: ProtocolContext) -> bool {
        self.name.ser_wf(ctx) && self.sha1_base64.ser_wf(ctx)
    }

    open spec fn eqv(&self, other: &Self) -> bool {
        self.name.eqv(&other.name) && self.sha1_base64.eqv(&other.sha1_base64)
    }

    fn serialize(&self, ser: &mut VecSerializer) -> (r: SerializeResult) {
        match self.name.serialize(ser) {
            Ok(_) => {},
            Err(e) => {
                return Err(e);
            },
        }
        match self.sha1_base64.serialize(ser) {
            Ok(_) => {},
            Err(e) => {
                return Err(e);
            },
        }
        assert(ser.out() =~= old(ser).out() + self.enc(old(ser).ctx()));
        Ok(())
    }
}

proof fn mediaannouncement_reshape(ctx: ProtocolContext, input: Seq<u8>)
    ensures
        forall|v: MediaAnnouncement, rest: Seq<u8>|
            (#[trigger] v.enc(ctx).add(rest)) == input && v.rt_wf(ctx)
                && (<MediaAnnouncement as Deserialize>::prefix_safe() || rest.len() == 0)
                ==> v.name.enc(ctx).add(v.sha1_base64.enc(ctx).add(rest)) == input,
{
    assert forall|v: MediaAnnouncement, rest: Seq<u8>|
        (#[trigger] v.enc(ctx).add(rest)) == input && v.rt_wf(ctx)
        && (<MediaAnnouncement as Deserialize>::prefix_safe() || rest.len() == 0)
        implies v.name.enc(ctx).add(v.sha1_base64.enc(ctx).add(rest)) == input by {
        assert(v.name.enc(ctx).add(v.sha1_base64.enc(ctx).add(rest)) =~= v.enc(ctx).add(rest));
    }
}

impl Deserialize for MediaAnnouncement {
    open spec fn rt_wf(&self, ctx: ProtocolContext) -> bool {
        self.name.rt_wf(ctx) && self.sha1_base64.rt_wf(ctx) && <ByteString as Deserialize>::prefix_safe()
    }

    open spec fn prefix_safe() -> bool {
        <ByteString as Deserialize>::prefix_safe() && <ByteString as Deserialize>::prefix_safe()
    }

    fn deserialize(d: &mut Deserializer) -> (r: DeserializeResult<Self>) {
        let ghost ctx = d.ctx();
        let ghost input = d.rem();
        proof {
            mediaannouncement_reshape(ctx, input);
        }
        let name = match <ByteString as Deserialize>::deserialize(d) {
            Ok(v) => v,
            Err(e) => {
                return Err(e);
            },
        };
        let sha1_base64 = match <ByteString as Deserialize>::deserialize(d) {
            Ok(v) => v,
            Err(e) => {
                return Err(e);
            },
        };
        Ok(MediaAnnouncement { name, sha1_base64 })
    }
}

#[derive(Debug, Clone, PartialEq, Eq)]
pub struct MinimapMode {
    pub typ: u16,
    pub label: ByteString,
    pub size: u16,
    pub texture: ByteString,
    pub scale: u16,
}

impl Serialize for MinimapMode {
    open spec fn enc(&self, ctx: ProtocolContext) -> Seq<u8> {
        self.typ.enc(ctx) + self.label.enc(ctx) + self.size.enc(ctx) + self.texture.enc(ctx) + self.scale.enc(ctx)
    }

    open spec fn ser_wf(&self, ctx: ProtocolContext) -> bool {
        self.typ.ser_wf(ctx) && self.label.ser_wf(ctx) && self.size.ser_wf(ctx) && self.texture.ser_wf(ctx) && self.scale.ser_wf(ctx)
    }

    open spec fn eqv(&self, other: &Self) -> bool {
        self.typ.eqv(&other.typ) && self.label.eqv(&other.label) && self.size.eqv(&other.size) && self.texture.eqv(&other.texture) && self.scale.eqv(&other.scale)
    }

    fn serialize(&self, ser: &mut VecSerializer) -> (r: SerializeResult) {
        match self.typ.serialize(ser) {
            Ok(_) => {},
            Err(e) => {
                return Err(e);
            },
        }
        match self.label.serialize(ser) {
            Ok(_) => {},
            Err(e) => {
                return Err(e);
            },
        }
        match self.size.serialize(ser) {
            Ok(_) => {},
            Err(e) => {
                return Err(e);
            },
        }
        match self.texture.serialize(ser) {
            Ok(_) => {},
            Err(e) => {
                return Err(e);
            },
        }
        match self.scale.serialize(ser) {
            Ok(_) => {},
            Err(e) => {
                return Err(e);
            },
        }
        assert(ser.out() =~= old(ser).out() + self.enc(old(ser).ctx()));
        Ok(())
    }
}

proof fn minimapmode_reshape(ctx: ProtocolContext, input: Seq<u8>)
    ensures
        forall|v: MinimapMode, rest: Seq<u8>|
            (#[trigger] v.enc(ctx).add(rest)) == input && v.rt_wf(ctx)
                && (<MinimapMode as Deserialize>::prefix_safe() || rest.len() == 0)
                ==> v.typ.enc(ctx).add(v.label.enc(ctx).add(v.size.enc(ctx).add(v.texture.enc(ctx).add(v.scale.enc(ctx).add(rest))))) == input,
{
    assert forall|v: MinimapMode, rest: Seq<u8>|
        (#[trigger] v.enc(ctx).add(rest)) == input && v.rt_wf(ctx)
        && (<MinimapMode as Deserialize>::prefix_safe() || rest.len() == 0)
        implies v.typ.enc(ctx).add(v.label.enc(ctx).add(v.size.enc(ctx).add(v.texture.enc(ctx).add(v.scale.enc(ctx).add(rest))))) == input by {
        assert(v.typ.enc(ctx).add(v.label.enc(ctx).add(v.size.enc(ctx).add(v.texture.enc(ctx).add(v.scale.enc(ctx).add(rest))))) =~= v.enc(ctx).add(rest));
    }
}

impl Deserialize for MinimapMode {
    open spec fn rt_wf(&self, ctx: ProtocolContext) -> bool {
        self.typ.rt_wf(ctx) && self.label.rt_wf(ctx) && self.size.rt_wf(ctx) && self.texture.rt_wf(ctx) && self.scale.rt_wf(ctx) && <u16 as Deserialize>::prefix_safe() && <ByteString as Deserialize>::prefix_safe() && <u16 as Deserialize>::prefix_safe() && <ByteString as Deserialize>::prefix_safe()
    }

    open spec fn prefix_safe() -> bool {
        <u16 as Deserialize>::prefix_safe() && <ByteString as Deserialize>::prefix_safe() && <u16 as Deserialize>::prefix_safe() && <ByteString as Deserialize>::prefix_safe() && <u16 as Deserialize>::prefix_safe()
    }

    fn deserialize(d: &mut Deserializer) -> (r: DeserializeResult<Self>) {
        let ghost ctx = d.ctx();
        let ghost input = d.rem();
        proof {
            minimapmode_reshape(ctx, input);
        }
        let typ = match <u16 as Deserialize>::deserialize(d) {
            Ok(v) => v,
            Err(e) => {
                return Err(e);
            },
        };
        let label = match <ByteString as Deserialize>::deserialize(d) {
            Ok(v) => v,
            Err(e) => {
                return Err(e);
            },
        };
        let size = match <u16 as Deserialize>::deserialize(d) {
            Ok(v) => v,
            Err(e) => {
                return Err(e);
            },
        };
        let texture = match <ByteString as Deserialize>::deserialize(d) {
            Ok(v) => v,
            Err(e) => {
                return Err(e);
            },
        };
        let scale = match <u16 as Deserialize>::deserialize(d) {
            Ok(v) => v,
            Err(e) => {
                return Err(e);
            },
        };
        Ok(MinimapMode { typ, label, size, texture, scale })
    }
}

} // verus!
