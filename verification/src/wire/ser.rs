//! The write side of the byte cursor: serializers and the `Serialize` trait
//! every wire type implements.
//!
//! Each type carries its encoding as a spec function (`enc`), and the
//! executable serializer is proved to append exactly those bytes.

use vstd::prelude::*;

use crate::wire::types::CommandDirection;
use crate::wire::types::ProtocolContext;

verus! {

/// Why an encode failed.
#[derive(Debug, Clone, Copy, PartialEq, Eq, Structural)]
pub enum SerializeError {
    /// A bounded writer ran out of space.
    BufferLimit,
    /// A value cannot be represented: most often a collection longer than its
    /// length prefix permits.
    InvalidValue,
    /// A zlib or zstd region failed to compress.
    CompressionFailed,
}

pub type SerializeResult = Result<(), SerializeError>;

/// Serializer that appends to a growable buffer. This is the writer the
/// codec itself runs on; it never runs out of space.
pub struct VecSerializer {
    pub context: ProtocolContext,
    pub data: Vec<u8>,
}

impl VecSerializer {
    /// Everything written so far.
    pub open spec fn out(self) -> Seq<u8> {
        self.data@
    }

    pub open spec fn ctx(self) -> ProtocolContext {
        self.context
    }

    pub fn new(context: ProtocolContext, initial_capacity: usize) -> (r: Self)
        ensures
            r.out() == Seq::<u8>::empty(),
            r.ctx() == context,
    {
        let r = VecSerializer { context, data: Vec::with_capacity(initial_capacity) };
        assert(r.out() =~= Seq::<u8>::empty());
        r
    }

    pub fn context(&self) -> (r: ProtocolContext)
        ensures
            r == self.ctx(),
    {
        self.context
    }

    pub fn direction(&self) -> (r: CommandDirection)
        ensures
            r == self.ctx().dir,
    {
        self.context.dir
    }

    /// The finished output.
    pub fn take(self) -> (r: Vec<u8>)
        ensures
            r@ == self.out(),
    {
        self.data
    }

    pub fn len(&self) -> (r: usize)
        ensures
            r == self.out().len(),
    {
        self.data.len()
    }

    pub fn write_bytes(&mut self, fragment: &[u8])
        ensures
            final(self).out() == old(self).out() + fragment@,
            final(self).ctx() == old(self).ctx(),
    {
        self.data.extend_from_slice(fragment);
    }

    pub fn write_byte(&mut self, b: u8)
        ensures
            final(self).out() == old(self).out().push(b),
            final(self).ctx() == old(self).ctx(),
    {
        self.data.push(b);
    }

    pub fn write_vec(&mut self, fragment: &Vec<u8>)
        ensures
            final(self).out() == old(self).out() + fragment@,
            final(self).ctx() == old(self).ctx(),
    {
        self.write_bytes(fragment.as_slice());
    }
}

/// Serializer that only counts bytes: computes the size of the serialized
/// output without storing it. The bytes themselves are carried as a ghost
/// sequence so that the count provably matches the real encoding.
pub struct MockSerializer {
    pub context: ProtocolContext,
    pub count: usize,
    pub shadow: Ghost<Seq<u8>>,
}

impl MockSerializer {
    pub open spec fn out(self) -> Seq<u8> {
        self.shadow@
    }

    pub open spec fn wf(self) -> bool {
        self.count == self.shadow@.len()
    }

    pub open spec fn ctx(self) -> ProtocolContext {
        self.context
    }

    pub fn new(context: ProtocolContext) -> (r: Self)
        ensures
            r.wf(),
            r.out() == Seq::<u8>::empty(),
            r.ctx() == context,
    {
        MockSerializer { context, count: 0, shadow: Ghost(Seq::empty()) }
    }

    /// How many bytes have been written so far.
    pub fn len(&self) -> (r: usize)
        requires
            self.wf(),
        ensures
            r == self.out().len(),
    {
        self.count
    }

    pub fn write_bytes(&mut self, fragment: &[u8]) -> (r: SerializeResult)
        requires
            old(self).wf(),
            old(self).count + fragment@.len() <= usize::MAX,
        ensures
            final(self).wf(),
            final(self).out() == old(self).out() + fragment@,
            final(self).ctx() == old(self).ctx(),
            r is Ok,
    {
        self.count = self.count + fragment.len();
        proof {
            self.shadow = Ghost(self.shadow@ + fragment@);
        }
        Ok(())
    }
}

/// Serializer with a fixed capacity: fails with `BufferLimit` once more than
/// `limit` bytes have been written.
pub struct SliceSerializer {
    pub context: ProtocolContext,
    pub limit: usize,
    pub data: Vec<u8>,
    pub overflow: bool,
}

impl SliceSerializer {
    pub open spec fn out(self) -> Seq<u8> {
        self.data@
    }

    pub open spec fn ctx(self) -> ProtocolContext {
        self.context
    }

    pub fn new(context: ProtocolContext, limit: usize) -> (r: Self)
        ensures
            r.out() == Seq::<u8>::empty(),
            r.ctx() == context,
            r.limit == limit,
            !r.overflow,
    {
        let r = SliceSerializer { context, limit, data: Vec::new(), overflow: false };
        assert(r.out() =~= Seq::<u8>::empty());
        r
    }

    /// The finished output, unless the writer overflowed.
    pub fn take(self) -> (r: Result<Vec<u8>, SerializeError>)
        ensures
            !self.overflow ==> (r matches Ok(v) && v@ == self.out()),
            self.overflow ==> (r matches Err(e) && e == SerializeError::BufferLimit),
    {
        if self.overflow {
            Err(SerializeError::BufferLimit)
        } else {
            Ok(self.data)
        }
    }

    pub fn write_bytes(&mut self, fragment: &[u8]) -> (r: SerializeResult)
        ensures
            final(self).ctx() == old(self).ctx(),
            final(self).limit == old(self).limit,
            r is Ok ==> final(self).out() == old(self).out() + fragment@ && final(self).out().len()
                <= old(self).limit && !final(self).overflow && !old(self).overflow,
            r is Err ==> final(self).overflow && (old(self).overflow || old(self).out().len()
                + fragment@.len() > old(self).limit),
    {
        if self.overflow {
            return Err(SerializeError::BufferLimit);
        }
        if fragment.len() > self.limit || self.data.len() > self.limit - fragment.len() {
            self.overflow = true;
            return Err(SerializeError::BufferLimit);
        }
        self.data.extend_from_slice(fragment);
        Ok(())
    }
}

/// The encode half of the codec. `enc` is the type's wire encoding as a
/// mathematical function of the value and the protocol context; `ser_wf`
/// says when the value is representable (lengths fit their prefixes, strings
/// are valid); `serialize` appends exactly `enc` for well-formed values and
/// reports the error otherwise.
pub trait Serialize: Sized {
    /// The exact bytes this value puts on the wire.
    spec fn enc(&self, ctx: ProtocolContext) -> Seq<u8>;

    /// Whether the value can be encoded at all.
    spec fn ser_wf(&self, ctx: ProtocolContext) -> bool;

    /// Value equivalence: equality of the mathematical values. For types
    /// carrying a `Vec` this is equality of the views (a decoded copy is a
    /// different allocation with the same contents); elsewhere plain equality.
    spec fn eqv(&self, other: &Self) -> bool;

    fn serialize(&self, ser: &mut VecSerializer) -> (r: SerializeResult)
        ensures
            final(ser).ctx() == old(ser).ctx(),
            r is Ok <==> self.ser_wf(old(ser).ctx()),
            r is Ok ==> final(ser).out() == old(ser).out() + self.enc(old(ser).ctx()),
    ;
}

} // verus!
