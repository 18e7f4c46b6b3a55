//! The textual inventory sub-formats: newline-delimited ASCII embedded in
//! binary frames. The emitters reproduce the reference byte sequences
//! exactly; the parsers skip unknown lines, as the original servers do.

use vstd::prelude::*;

use crate::wire::deser::Deserialize;
use crate::wire::deser::DeserializeError;
use crate::wire::deser::DeserializeResult;
use crate::wire::deser::spec_line_len;
use crate::wire::deser::Deserializer;
use crate::wire::ser::Serialize;
use crate::wire::ser::SerializeError;
use crate::wire::ser::SerializeResult;
use crate::wire::ser::VecSerializer;
use crate::wire::types::ByteString;
use crate::wire::types::ProtocolContext;
use crate::wire::util::deserialize_json_string_if_needed;
use crate::wire::util::is_utf8;
use crate::wire::util::itos;
use crate::wire::util::json_bare_ok;
use crate::wire::util::json_enc;
use crate::wire::util::serialize_json_string_if_needed;
use crate::wire::util::spec_itos;
use crate::wire::util::stoi;
use crate::wire::util::utf8_ok;

verus! {

/// Item-stack metadata: key/value byte pairs carried as one JSON-ish string
/// of the form `\x01 key \x02 value \x03 ...`; empty pairs are left out.
#[derive(Debug, Clone, PartialEq, Eq)]
pub struct ItemStackMetadata {
    pub string_vars: Vec<(ByteString, ByteString)>,
}

/// The raw blob behind the JSON-ish escaping: a start byte, then each
/// nonempty pair as key, separator, value, terminator.
pub open spec fn meta_blob(vars: Seq<(ByteString, ByteString)>) -> Seq<u8>
    decreases vars.len(),
{
    if vars.len() == 0 {
        seq![1u8]
    } else {
        let (k, v) = vars.last();
        meta_blob(vars.drop_last()) + (if k.0@.len() == 0 && v.0@.len() == 0 {
            Seq::empty()
        } else {
            k.0@ + seq![2u8] + v.0@ + seq![3u8]
        })
    }
}

/// The wire form of one key/value pair inside the blob: nothing when both
/// halves are empty.
pub open spec fn pair_enc(p: (ByteString, ByteString)) -> Seq<u8> {
    if p.0.0@.len() == 0 && p.1.0@.len() == 0 {
        Seq::empty()
    } else {
        p.0.0@ + seq![2u8] + p.1.0@ + seq![3u8]
    }
}

/// Elementwise value equivalence of two pair tables.
pub open spec fn pairs_eqv(a: Seq<(ByteString, ByteString)>, b: Seq<(ByteString, ByteString)>) -> bool {
    a.len() == b.len() && forall|i: int|
        0 <= i < a.len() ==> (#[trigger] a[i]).0.0@ == b[i].0.0@ && a[i].1.0@ == b[i].1.0@
}

/// A pair that survives the metadata wire form: the key/value separator
/// never occurs in the key, the pair terminator never in the value, and the
/// pair is not empty on both sides (the emitter leaves those out).
pub open spec fn meta_pair_wf(p: (ByteString, ByteString)) -> bool {
    &&& forall|i: int| 0 <= i < p.0.0@.len() ==> (#[trigger] p.0.0@[i]) != 2
    &&& forall|i: int| 0 <= i < p.1.0@.len() ==> (#[trigger] p.1.0@[i]) != 3
    &&& p.0.0@.len() > 0 || p.1.0@.len() > 0
}

/// The blob from pair `k` on.
pub open spec fn meta_from(vars: Seq<(ByteString, ByteString)>, k: int) -> Seq<u8>
    decreases vars.len() - k,
{
    if k < 0 || k >= vars.len() {
        Seq::empty()
    } else {
        pair_enc(vars[k]) + meta_from(vars, k + 1)
    }
}

/// The blob splits at any pair boundary.
proof fn lemma_meta_split(vars: Seq<(ByteString, ByteString)>, k: int)
    requires
        0 <= k <= vars.len(),
    ensures
        meta_blob(vars) == meta_blob(vars.take(k)) + meta_from(vars, k),
    decreases vars.len() - k,
{
    if k == vars.len() {
        assert(vars.take(k) =~= vars);
        assert(meta_blob(vars) =~= meta_blob(vars.take(k)) + meta_from(vars, k));
    } else {
        lemma_meta_split(vars, k + 1);
        assert(vars.take(k + 1).drop_last() =~= vars.take(k));
        assert(vars.take(k + 1).last() == vars[k]);
        assert(meta_blob(vars.take(k + 1)) == meta_blob(vars.take(k)) + pair_enc(vars[k]));
        assert(meta_blob(vars) =~= meta_blob(vars.take(k)) + meta_from(vars, k));
    }
}

/// Every blob starts with the start byte.
proof fn lemma_meta_blob_head(vars: Seq<(ByteString, ByteString)>)
    ensures
        meta_blob(vars).len() >= 1,
        meta_blob(vars)[0] == 1,
    decreases vars.len(),
{
    if vars.len() > 0 {
        lemma_meta_blob_head(vars.drop_last());
    }
}

impl Serialize for ItemStackMetadata {
    open spec fn enc(&self, ctx: ProtocolContext) -> Seq<u8> {
        json_enc(meta_blob(self.string_vars@))
    }

    open spec fn ser_wf(&self, ctx: ProtocolContext) -> bool {
        true
    }

    open spec fn eqv(&self, other: &Self) -> bool {
        pairs_eqv(self.string_vars@, other.string_vars@)
    }

    fn serialize(&self, ser: &mut VecSerializer) -> (r: SerializeResult) {
        let mut buf: Vec<u8> = Vec::new();
        buf.push(1);
        assert(buf@ =~= meta_blob(self.string_vars@.take(0)));
        let mut i: usize = 0;
        while i < self.string_vars.len()
            invariant
                i <= self.string_vars@.len(),
                buf@ == meta_blob(self.string_vars@.take(i as int)),
            decreases self.string_vars@.len() - i,
        {
            let ghost pre = buf@;
            let (key, val) = &self.string_vars[i];
            if key.0.len() > 0 || val.0.len() > 0 {
                buf.extend_from_slice(key.0.as_slice());
                buf.push(2);
                buf.extend_from_slice(val.0.as_slice());
                buf.push(3);
                proof {
                    assert(buf@ =~= pre + (key.0@ + seq![2u8] + val.0@ + seq![3u8]));
                }
            }
            i = i + 1;
            proof {
                assert(self.string_vars@.take(i as int).drop_last() =~= self.string_vars@.take(
                    i - 1));
                assert(self.string_vars@.take(i as int).last() == self.string_vars@[i - 1]);
                assert(buf@ =~= meta_blob(self.string_vars@.take(i as int)));
            }
        }
        proof {
            assert(self.string_vars@.take(self.string_vars@.len() as int) =~= self.string_vars@);
        }
        serialize_json_string_if_needed(buf.as_slice(), &mut ser.data);
        assert(ser.out() =~= old(ser).out() + self.enc(old(ser).ctx()));
        Ok(())
    }
}

impl Deserialize for ItemStackMetadata {
    /// The metadata round-trips when every pair survives the wire form.
    open spec fn rt_wf(&self, ctx: ProtocolContext) -> bool {
        forall|i: int|
            0 <= i < self.string_vars@.len() ==> meta_pair_wf(#[trigger] self.string_vars@[i])
    }

    open spec fn prefix_safe() -> bool {
        true
    }

    fn deserialize(d: &mut Deserializer) -> (r: DeserializeResult<Self>) {
        let ghost ctx = d.ctx();
        let ghost input = d.rem();
        proof {
            assert forall|v: ItemStackMetadata, rest: Seq<u8>|
                (#[trigger] v.enc(ctx).add(rest)) == input && v.rt_wf(ctx) implies json_enc(
                meta_blob(v.string_vars@),
            ).add(rest) == input && !json_bare_ok(meta_blob(v.string_vars@)) by {
                lemma_meta_blob_head(v.string_vars@);
                assert(meta_blob(v.string_vars@)[0] == 1);
            }
        }
        let all = d.peek_all();
        let (raw, count) = match deserialize_json_string_if_needed(all.as_slice()) {
            Ok(p) => p,
            Err(e) => {
                proof {
                    assert forall|v: ItemStackMetadata, rest: Seq<u8>|
                        (#[trigger] v.enc(ctx).add(rest)) == input && v.rt_wf(ctx) implies
                        false by {
                        lemma_meta_blob_head(v.string_vars@);
                    }
                }
                return Err(e);
            },
        };
        if count > all.len() {
            proof {
                assert forall|v: ItemStackMetadata, rest: Seq<u8>|
                    (#[trigger] v.enc(ctx).add(rest)) == input && v.rt_wf(ctx) implies false by {
                    lemma_meta_blob_head(v.string_vars@);
                }
            }
            return Err(DeserializeError::InvalidValue);
        }
        match d.take(count) {
            Ok(_) => {},
            Err(e) => {
                return Err(e);
            },
        }
        proof {
            assert forall|v: ItemStackMetadata, rest: Seq<u8>|
                (#[trigger] v.enc(ctx).add(rest)) == input && v.rt_wf(ctx) implies raw@
                == meta_blob(v.string_vars@) && d.rem() == rest by {
                lemma_meta_blob_head(v.string_vars@);
                assert(rest =~= input.skip(json_enc(meta_blob(v.string_vars@)).len() as int));
            }
        }
        let mut vars_acc: Vec<(ByteString, ByteString)> = Vec::new();
        if raw.len() == 0 {
            proof {
                assert forall|v: ItemStackMetadata, rest: Seq<u8>|
                    (#[trigger] v.enc(ctx).add(rest)) == input && v.rt_wf(ctx) implies false by {
                    lemma_meta_blob_head(v.string_vars@);
                }
            }
            return Ok(ItemStackMetadata { string_vars: vars_acc });
        }
        if raw[0] != 1 {
            proof {
                assert forall|v: ItemStackMetadata, rest: Seq<u8>|
                    (#[trigger] v.enc(ctx).add(rest)) == input && v.rt_wf(ctx) implies false by {
                    lemma_meta_blob_head(v.string_vars@);
                }
            }
            return Err(DeserializeError::InvalidValue);
        }
        let mut pos: usize = 1;
        proof {
            assert forall|v: ItemStackMetadata, rest: Seq<u8>|
                (#[trigger] v.enc(ctx).add(rest)) == input && v.rt_wf(ctx) implies vars_acc@.len()
                <= v.string_vars@.len() && pairs_eqv(
                v.string_vars@.take(vars_acc@.len() as int),
                vars_acc@,
            ) && 1 == meta_blob(v.string_vars@.take(vars_acc@.len() as int)).len() by {
                assert(v.string_vars@.take(0) =~= Seq::<(ByteString, ByteString)>::empty());
            }
        }
        while pos < raw.len()
            invariant
                1 <= pos <= raw@.len(),
                forall|v: ItemStackMetadata, rest: Seq<u8>|
                    (#[trigger] v.enc(ctx).add(rest)) == input && v.rt_wf(ctx) ==> raw@
                        == meta_blob(v.string_vars@) && vars_acc@.len() <= v.string_vars@.len()
                        && pairs_eqv(v.string_vars@.take(vars_acc@.len() as int), vars_acc@) && pos
                        == meta_blob(v.string_vars@.take(vars_acc@.len() as int)).len(),
            decreases raw@.len() - pos,
        {
            let ghost k = vars_acc@.len() as int;
            proof {
                assert forall|v: ItemStackMetadata, rest: Seq<u8>|
                    (#[trigger] v.enc(ctx).add(rest)) == input && v.rt_wf(ctx) implies k
                    < v.string_vars@.len() && meta_pair_wf(v.string_vars@[k]) && (forall|m: int|
                    0 <= m < pair_enc(v.string_vars@[k]).len() ==> raw@[pos + m] == pair_enc(
                        v.string_vars@[k],
                    )[m]) && pos + pair_enc(v.string_vars@[k]).len() <= raw@.len() by {
                    lemma_meta_split(v.string_vars@, k);
                    if k == v.string_vars@.len() {
                        assert(meta_from(v.string_vars@, k).len() == 0);
                    } else {
                        assert(v.string_vars@.contains(v.string_vars@[k]));
                        assert(meta_from(v.string_vars@, k) == pair_enc(v.string_vars@[k])
                            + meta_from(v.string_vars@, k + 1));
                    }
                }
            }
            let (key, p1) = scan_until(&raw, pos, 2);
            let p2 = if p1 < raw.len() {
                p1 + 1
            } else {
                p1
            };
            let (val, p3) = scan_until(&raw, p2, 3);
            let p4 = if p3 < raw.len() {
                p3 + 1
            } else {
                p3
            };
            proof {
                assert forall|v: ItemStackMetadata, rest: Seq<u8>|
                    (#[trigger] v.enc(ctx).add(rest)) == input && v.rt_wf(ctx) implies key@
                    == v.string_vars@[k].0.0@ && val@ == v.string_vars@[k].1.0@ && p4 == meta_blob(
                    v.string_vars@.take(k + 1),
                ).len() by {
                    lemma_meta_split(v.string_vars@, k);
                    let pk = v.string_vars@[k].0.0@;
                    let pv = v.string_vars@[k].1.0@;
                    let pe = pair_enc(v.string_vars@[k]);
                    // The separator sits right after the key.
                    assert(raw@[pos + pk.len()] == 2);
                    assert(p1 == pos + pk.len()) by {
                        if p1 < pos + pk.len() {
                            assert(raw@[p1 as int] == pe[p1 - pos]);
                        }
                        if p1 > pos + pk.len() {
                            assert(raw@[pos + pk.len()] != 2);
                        }
                    }
                    assert(key@ =~= pk);
                    // The terminator sits right after the value.
                    assert(raw@[p2 + pv.len()] == 3);
                    assert(p3 == p2 + pv.len()) by {
                        if p3 < p2 + pv.len() {
                            assert(raw@[p3 as int] == pe[p3 - pos]);
                        }
                        if p3 > p2 + pv.len() {
                            assert(raw@[p2 + pv.len()] != 3);
                        }
                    }
                    assert(val@ =~= pv);
                    assert(v.string_vars@.take(k + 1).drop_last() =~= v.string_vars@.take(k));
                    assert(v.string_vars@.take(k + 1).last() == v.string_vars@[k]);
                    assert(meta_blob(v.string_vars@.take(k + 1)) == meta_blob(
                        v.string_vars@.take(k),
                    ) + pe);
                }
            }
            vars_acc.push((ByteString(key), ByteString(val)));
            pos = p4;
            proof {
                assert forall|v: ItemStackMetadata, rest: Seq<u8>|
                    (#[trigger] v.enc(ctx).add(rest)) == input && v.rt_wf(ctx) implies pairs_eqv(
                    v.string_vars@.take(vars_acc@.len() as int),
                    vars_acc@,
                ) by {
                    let t = v.string_vars@.take(k + 1);
                    assert forall|i: int|
                        0 <= i < t.len() implies (#[trigger] t[i]).0.0@ == vars_acc@[i].0.0@
                        && t[i].1.0@ == vars_acc@[i].1.0@ by {
                        if i < k {
                            assert(v.string_vars@.take(k)[i] == t[i]);
                        }
                    }
                }
            }
        }
        let result = ItemStackMetadata { string_vars: vars_acc };
        proof {
            assert forall|v: ItemStackMetadata, rest: Seq<u8>|
                (#[trigger] v.enc(ctx).add(rest)) == input && v.rt_wf(ctx) implies v.eqv(&result)
                && d.rem() == rest by {
                let k = result.string_vars@.len() as int;
                lemma_meta_split(v.string_vars@, k);
                if k < v.string_vars@.len() {
                    assert(v.string_vars@.contains(v.string_vars@[k]));
                    assert(meta_pair_wf(v.string_vars@[k]));
                    assert(pair_enc(v.string_vars@[k]).len() > 0);
                    assert(meta_from(v.string_vars@, k) == pair_enc(v.string_vars@[k]) + meta_from(
                        v.string_vars@,
                        k + 1,
                    ));
                }
                assert(v.string_vars@.take(k) =~= v.string_vars@);
            }
        }
        Ok(result)
    }
}

/// The bytes from `start` to the first occurrence of `stop` (or the end),
/// and the position where the scan stopped.
fn scan_until(raw: &Vec<u8>, start: usize, stop: u8) -> (r: (Vec<u8>, usize))
    requires
        start <= raw@.len(),
    ensures
        start <= r.1 <= raw@.len(),
        r.0@ == raw@.subrange(start as int, r.1 as int),
        forall|j: int| start <= j < r.1 ==> raw@[j] != stop,
        r.1 < raw@.len() ==> raw@[r.1 as int] == stop,
{
    let mut out: Vec<u8> = Vec::new();
    let mut i: usize = start;
    while i < raw.len() && raw[i] != stop
        invariant
            start <= i <= raw@.len(),
            out@ == raw@.subrange(start as int, i as int),
            forall|j: int| start <= j < i ==> raw@[j] != stop,
        decreases raw@.len() - i,
    {
        out.push(raw[i]);
        i = i + 1;
        assert(out@ =~= raw@.subrange(start as int, i as int));
    }
    (out, i)
}

/// One item slot: a name, a count, wear, and metadata. On its line the
/// emitter writes the shortest form that keeps every nonzero field:
/// `Item <name> [count [wear [metadata]]]`.
#[derive(Debug, Clone, PartialEq, Eq)]
pub struct ItemStack {
    pub name: ByteString,
    pub count: u16,
    pub wear: u16,
    pub metadata: ItemStackMetadata,
}

/// How many of the four tokens an item line carries.
pub open spec fn item_parts(v: ItemStack) -> int {
    if v.metadata.string_vars@.len() > 0 {
        4
    } else if v.wear != 0 {
        3
    } else if v.count != 1 {
        2
    } else {
        1
    }
}

impl Serialize for ItemStack {
    open spec fn enc(&self, ctx: ProtocolContext) -> Seq<u8> {
        seq![73u8, 116u8, 101u8, 109u8, 32u8] + json_enc(self.name.0@) + (if item_parts(*self)
            >= 2 {
            seq![32u8] + spec_itos(self.count as int)
        } else {
            Seq::empty()
        }) + (if item_parts(*self) >= 3 {
            seq![32u8] + spec_itos(self.wear as int)
        } else {
            Seq::empty()
        }) + (if item_parts(*self) >= 4 {
            seq![32u8] + self.metadata.enc(ctx)
        } else {
            Seq::empty()
        }) + seq![10u8]
    }

    open spec fn ser_wf(&self, ctx: ProtocolContext) -> bool {
        true
    }

    open spec fn eqv(&self, other: &Self) -> bool {
        self.name.0@ == other.name.0@ && self.count == other.count && self.wear == other.wear
            && self.metadata.eqv(&other.metadata)
    }

    fn serialize(&self, ser: &mut VecSerializer) -> (r: SerializeResult) {
        // "Item "
        ser.write_byte(73);
        ser.write_byte(116);
        ser.write_byte(101);
        ser.write_byte(109);
        ser.write_byte(32);
        serialize_json_string_if_needed(self.name.0.as_slice(), &mut ser.data);
        let parts: u8 = if self.metadata.string_vars.len() > 0 {
            4
        } else if self.wear != 0 {
            3
        } else if self.count != 1 {
            2
        } else {
            1
        };
        if parts >= 2 {
            ser.write_byte(32);
            let digits = itos(self.count as i64);
            ser.write_vec(&digits);
        }
        if parts >= 3 {
            ser.write_byte(32);
            let digits = itos(self.wear as i64);
            ser.write_vec(&digits);
        }
        if parts >= 4 {
            ser.write_byte(32);
            match self.metadata.serialize(ser) {
                Ok(_) => {},
                Err(e) => {
                    return Err(e);
                },
            }
        }
        ser.write_byte(10);
        assert(ser.out() =~= old(ser).out() + self.enc(old(ser).ctx()));
        Ok(())
    }
}

/// The pieces of an item line after `Item ` and the escaped name: the
/// optional count, wear and metadata tokens, then the newline.
pub open spec fn item_tail(v: ItemStack, ctx: ProtocolContext) -> Seq<u8> {
    (if item_parts(v) >= 2 {
        seq![32u8] + spec_itos(v.count as int)
    } else {
        Seq::empty()
    }) + (if item_parts(v) >= 3 {
        seq![32u8] + spec_itos(v.wear as int)
    } else {
        Seq::empty()
    }) + (if item_parts(v) >= 4 {
        seq![32u8] + v.metadata.enc(ctx)
    } else {
        Seq::empty()
    }) + seq![10u8]
}

/// An encoded item line opens with the `Item ` keyword and holds its only
/// newline at the very end.
proof fn lemma_itemstack_line(v: ItemStack, ctx: ProtocolContext)
    ensures
        v.enc(ctx).len() >= 7,
        v.enc(ctx)[0] == 73 && v.enc(ctx)[1] == 116 && v.enc(ctx)[2] == 101 && v.enc(ctx)[3] == 109
            && v.enc(ctx)[4] == 32,
        v.enc(ctx)[v.enc(ctx).len() - 1] == 10,
        forall|m: int| 0 <= m < v.enc(ctx).len() - 1 ==> #[trigger] v.enc(ctx)[m] != 10,
{
    itemstack_enc_shape(v, ctx);
    let name_enc = json_enc(v.name.0@);
    let tail = item_tail(v, ctx);
    let e = v.enc(ctx);
    crate::wire::util::lemma_json_enc_bytes(v.name.0@);
    assert(tail[tail.len() - 1] == 10);
    assert(e[e.len() - 1] == 10);
    assert forall|m: int| 0 <= m < e.len() - 1 implies #[trigger] e[m] != 10 by {
        if m >= 5 && m < 5 + name_enc.len() {
            assert(e[m] == name_enc[m - 5]);
        } else if m >= 5 + name_enc.len() {
            let t = m - 5 - name_enc.len();
            assert(e[m] == tail[t]);
            lemma_item_tail_bytes(v, ctx, t);
        }
    }
}

/// Index facts about an encoded item line: where each token sits, that the
/// line holds exactly one newline (at its end), and the whitespace around
/// the tokens.
proof fn itemstack_shape(ctx: ProtocolContext, input: Seq<u8>)
    ensures
        forall|v: ItemStack, rest: Seq<u8>|
            (#[trigger] v.enc(ctx).add(rest)) == input && v.rt_wf(ctx) ==> ({
                let name_enc = json_enc(v.name.0@);
                let tail = item_tail(v, ctx);
                &&& v.enc(ctx) == seq![73u8, 116u8, 101u8, 109u8, 32u8] + name_enc + tail
                &&& v.enc(ctx).len() == 5 + name_enc.len() + tail.len()
                &&& spec_line_len(input) == v.enc(ctx).len()
                &&& input.take(v.enc(ctx).len() as int) == v.enc(ctx)
                &&& input.skip(v.enc(ctx).len() as int) == rest
                &&& name_enc.add(tail) == v.enc(ctx).skip(5)
            }),
{
    assert forall|v: ItemStack, rest: Seq<u8>|
        (#[trigger] v.enc(ctx).add(rest)) == input && v.rt_wf(ctx) implies ({
        let name_enc = json_enc(v.name.0@);
        let tail = item_tail(v, ctx);
        &&& v.enc(ctx) == seq![73u8, 116u8, 101u8, 109u8, 32u8] + name_enc + tail
        &&& v.enc(ctx).len() == 5 + name_enc.len() + tail.len()
        &&& spec_line_len(input) == v.enc(ctx).len()
        &&& input.take(v.enc(ctx).len() as int) == v.enc(ctx)
        &&& input.skip(v.enc(ctx).len() as int) == rest
        &&& name_enc.add(tail) == v.enc(ctx).skip(5)
    }) by {
        let name_enc = json_enc(v.name.0@);
        let tail = item_tail(v, ctx);
        let e = v.enc(ctx);
        assert(e =~= seq![73u8, 116u8, 101u8, 109u8, 32u8] + name_enc + tail);
        assert(input.take(e.len() as int) =~= e);
        assert(input.skip(e.len() as int) =~= rest);
        assert(name_enc.add(tail) =~= e.skip(5));
        // Exactly one newline, at the end of the line.
        lemma_itemstack_line(v, ctx);
        crate::wire::deser::lemma_line_len_exact(input, e.len() - 1);
    }
}

/// Every byte of the token tail before its final newline is a space, a
/// digit, a minus sign or a metadata byte, never a newline.
proof fn lemma_item_tail_bytes(v: ItemStack, ctx: ProtocolContext, t: int)
    requires
        0 <= t < item_tail(v, ctx).len() - 1,
    ensures
        item_tail(v, ctx)[t] != 10,
{
    let a = if item_parts(v) >= 2 {
        seq![32u8] + spec_itos(v.count as int)
    } else {
        Seq::<u8>::empty()
    };
    let b = if item_parts(v) >= 3 {
        seq![32u8] + spec_itos(v.wear as int)
    } else {
        Seq::<u8>::empty()
    };
    let c = if item_parts(v) >= 4 {
        seq![32u8] + v.metadata.enc(ctx)
    } else {
        Seq::<u8>::empty()
    };
    crate::wire::util::lemma_itos_bytes(v.count as int);
    crate::wire::util::lemma_itos_bytes(v.wear as int);
    crate::wire::util::lemma_json_enc_bytes(meta_blob(v.metadata.string_vars@));
    if t < a.len() {
        assert(item_tail(v, ctx)[t] == a[t]);
    } else if t < a.len() + b.len() {
        assert(item_tail(v, ctx)[t] == b[t - a.len()]);
    } else {
        assert(item_tail(v, ctx)[t] == c[t - a.len() - b.len()]);
    }
}

impl Deserialize for ItemStack {
    /// An item stack round-trips when its name is valid UTF-8 and its
    /// metadata pairs survive the wire form.
    open spec fn rt_wf(&self, ctx: ProtocolContext) -> bool {
        utf8_ok(self.name.0@) && self.metadata.rt_wf(ctx)
    }

    open spec fn prefix_safe() -> bool {
        true
    }

    fn deserialize(d: &mut Deserializer) -> (r: DeserializeResult<Self>) {
        let ghost ctx = d.ctx();
        let ghost input = d.rem();
        proof {
            itemstack_shape(ctx, input);
        }
        let line = d.take_line();
        proof {
            assert forall|v: ItemStack, rest: Seq<u8>|
                (#[trigger] v.enc(ctx).add(rest)) == input && v.rt_wf(ctx) implies line@ == v.enc(
                ctx) && d.rem() == rest by {}
        }
        parse_item_line(d.context(), line)
    }
}

/// Parse one full `Item` line. On the exact encoding of a round-trippable
/// stack, the stack comes back.
#[verifier::rlimit(100)]
fn parse_item_line(context: ProtocolContext, line: Vec<u8>) -> (r: DeserializeResult<ItemStack>)
    ensures
        forall|v: ItemStack|
            (#[trigger] v.enc(context)) == line@ && v.rt_wf(context) ==> (r matches Ok(w) && v.eqv(
                &w,
            )),
{
    let ghost ctx = context;
    let mut ld = Deserializer::new(context, line);
    let word = ld.take_word(true);
    proof {
        assert forall|v: ItemStack|
            (#[trigger] v.enc(ctx)) == line@ && v.rt_wf(ctx) implies word@ == seq![
                73u8,
                116u8,
                101u8,
                109u8,
            ] && ld.rem() == v.enc(ctx).skip(4) by {
            itemstack_enc_shape(v, ctx);
            let e = v.enc(ctx);
            assert(e[0] == 73 && e[1] == 116 && e[2] == 101 && e[3] == 109 && e[4] == 32);
            crate::wire::deser::lemma_ws_len_exact(e, 0);
            assert(e.skip(0) =~= e);
            crate::wire::deser::lemma_word_len_exact(e, 4);
            assert(e.take(4) =~= seq![73u8, 116u8, 101u8, 109u8]);
        }
    }
    if !(word.len() == 4 && word[0] == 73 && word[1] == 116 && word[2] == 101 && word[3] == 109) {
        return Err(DeserializeError::InvalidValue);
    }
    ld.take_space();
    proof {
        assert forall|v: ItemStack|
            (#[trigger] v.enc(ctx)) == line@ && v.rt_wf(ctx) implies ld.rem() == json_enc(
            v.name.0@).add(item_tail(v, ctx)) by {
            itemstack_enc_shape(v, ctx);
            let e = v.enc(ctx);
            let m = e.skip(4);
            crate::wire::util::lemma_json_enc_bytes(v.name.0@);
            assert(m[0] == 32 && m[1] == json_enc(v.name.0@)[0]);
            crate::wire::deser::lemma_ws_len_exact(m, 1);
            assert(m.skip(1) =~= json_enc(v.name.0@).add(item_tail(v, ctx)));
        }
    }
    let restv = ld.peek_all();
    let (name, skip) = match deserialize_json_string_if_needed(restv.as_slice()) {
        Ok(p) => p,
        Err(e) => {
            proof {
                assert forall|v: ItemStack|
                    (#[trigger] v.enc(ctx)) == line@ && v.rt_wf(ctx) implies false by {
                    itemstack_enc_shape(v, ctx);
                    assert(item_tail(v, ctx)[0] == 32 || item_tail(v, ctx)[0] == 10);
                }
            }
            return Err(e);
        },
    };
    proof {
        assert forall|v: ItemStack|
            (#[trigger] v.enc(ctx)) == line@ && v.rt_wf(ctx) implies name@ == v.name.0@ && skip
            == json_enc(v.name.0@).len() by {
            itemstack_enc_shape(v, ctx);
            assert(item_tail(v, ctx)[0] == 32 || item_tail(v, ctx)[0] == 10);
        }
    }
    if skip > restv.len() {
        proof {
            assert forall|v: ItemStack|
                (#[trigger] v.enc(ctx)) == line@ && v.rt_wf(ctx) implies false by {
                itemstack_enc_shape(v, ctx);
            }
        }
        return Err(DeserializeError::InvalidValue);
    }
    match ld.take(skip) {
        Ok(_) => {},
        Err(e) => {
            return Err(e);
        },
    }
    proof {
        assert forall|v: ItemStack|
            (#[trigger] v.enc(ctx)) == line@ && v.rt_wf(ctx) implies ld.rem() == item_tail(
            v, ctx) by {
            assert(json_enc(v.name.0@).add(item_tail(v, ctx)).skip(json_enc(v.name.0@).len() as int)
                =~= item_tail(v, ctx));
        }
    }
    if !is_utf8(name.as_slice()) {
        proof {
            assert forall|v: ItemStack|
                (#[trigger] v.enc(ctx)) == line@ && v.rt_wf(ctx) implies false by {}
        }
        return Err(DeserializeError::InvalidValue);
    }
    let tokens = match parse_item_tokens(&mut ld) {
        Ok(t) => t,
        Err(e) => {
            proof {
                assert forall|v: ItemStack|
                    (#[trigger] v.enc(ctx)) == line@ && v.rt_wf(ctx) implies false by {}
            }
            return Err(e);
        },
    };
    let result = ItemStack {
        name: ByteString(name),
        count: tokens.0,
        wear: tokens.1,
        metadata: tokens.2,
    };
    Ok(result)
}

/// Parse the optional count, wear and metadata tokens of an item line, up
/// to and including its newline. On the exact token tail of a
/// round-trippable stack, its numbers and metadata come back.
#[verifier::rlimit(100)]
fn parse_item_tokens(ld: &mut Deserializer) -> (r: DeserializeResult<(u16, u16, ItemStackMetadata)>)
    requires
        old(ld).wf(),
    ensures
        final(ld).wf(),
        forall|v: ItemStack|
            (#[trigger] item_tail(v, old(ld).ctx())) == old(ld).rem() && v.rt_wf(old(ld).ctx())
                ==> (r matches Ok(t) && t.0 == v.count && t.1 == v.wear && v.metadata.eqv(&t.2)),
{
    let ghost ctx = ld.ctx();
    let ghost line = old(ld).rem();
    let mut count: u16 = 1;
    let mut wear: u16 = 0;
    let mut metadata = ItemStackMetadata { string_vars: Vec::new() };
    // The count token; a bare newline means the shortest form.
    let count_word = ld.take_word(true);
    proof {
        assert forall|v: ItemStack|
            (#[trigger] item_tail(v, ctx)) == line && v.rt_wf(ctx) implies ({
            if item_parts(v) >= 2 {
                count_word@ == spec_itos(v.count as int) && count_word@.len() >= 1 && ld.rem() == (
                if item_parts(v) >= 3 {
                    seq![32u8] + spec_itos(v.wear as int)
                } else {
                    Seq::<u8>::empty()
                }) + (if item_parts(v) >= 4 {
                    seq![32u8] + v.metadata.enc(ctx)
                } else {
                    Seq::<u8>::empty()
                }) + seq![10u8]
            } else {
                count_word@.len() == 0 && v.count == 1 && v.wear == 0
                    && v.metadata.string_vars@.len() == 0
            }
        }) by {
            let t = line;
            crate::wire::util::lemma_itos_bytes(v.count as int);
            crate::wire::util::lemma_itos_bytes(v.wear as int);
            crate::wire::util::lemma_json_enc_bytes(meta_blob(v.metadata.string_vars@));
            if item_parts(v) >= 2 {
                let digits = spec_itos(v.count as int);
                assert(t[0] == 32);
                crate::wire::deser::lemma_ws_len_exact(t, 1);
                let m = t.skip(1);
                assert(m.take(digits.len() as int) =~= digits);
                crate::wire::deser::lemma_word_len_exact(m, digits.len() as int);
                assert(count_word@ =~= digits);
                assert(m.skip(digits.len() as int) =~= (if item_parts(v) >= 3 {
                    seq![32u8] + spec_itos(v.wear as int)
                } else {
                    Seq::<u8>::empty()
                }) + (if item_parts(v) >= 4 {
                    seq![32u8] + v.metadata.enc(ctx)
                } else {
                    Seq::<u8>::empty()
                }) + seq![10u8]);
            } else {
                assert(t =~= seq![10u8]);
                crate::wire::deser::lemma_ws_len_exact(t, 1);
                crate::wire::deser::lemma_word_len_exact(t.skip(1), 0);
                assert(count_word@ =~= Seq::<u8>::empty());
            }
        }
    }
    if count_word.len() == 0 {
        return Ok((count, wear, metadata));
    }
    match stoi(count_word.as_slice()) {
        Ok(cv) => {
            if cv < 0 || cv > 0xFFFF {
                proof {
                    assert forall|v: ItemStack|
                        (#[trigger] item_tail(v, ctx)) == line && v.rt_wf(ctx) implies false by {
                        crate::wire::util::lemma_stoi_itos(v.count as i64);
                    }
                }
                return Err(DeserializeError::InvalidValue);
            }
            count = cv as u16;
            proof {
                assert forall|v: ItemStack|
                    (#[trigger] item_tail(v, ctx)) == line && v.rt_wf(ctx) implies count
                    == v.count by {
                    crate::wire::util::lemma_stoi_itos(v.count as i64);
                }
            }
        },
        Err(e) => {
            proof {
                assert forall|v: ItemStack|
                    (#[trigger] item_tail(v, ctx)) == line && v.rt_wf(ctx) implies false by {
                    crate::wire::util::lemma_stoi_itos(v.count as i64);
                }
            }
            return Err(e);
        },
    }
    // The wear token.
    let wear_word = ld.take_word(true);
    proof {
        assert forall|v: ItemStack|
            (#[trigger] item_tail(v, ctx)) == line && v.rt_wf(ctx) implies ({
            if item_parts(v) >= 3 {
                wear_word@ == spec_itos(v.wear as int) && wear_word@.len() >= 1 && ld.rem() == (
                if item_parts(v) >= 4 {
                    seq![32u8] + v.metadata.enc(ctx)
                } else {
                    Seq::<u8>::empty()
                }) + seq![10u8]
            } else {
                wear_word@.len() == 0 && v.wear == 0 && v.metadata.string_vars@.len() == 0
            }
        }) by {
            let t = (if item_parts(v) >= 3 {
                seq![32u8] + spec_itos(v.wear as int)
            } else {
                Seq::<u8>::empty()
            }) + (if item_parts(v) >= 4 {
                seq![32u8] + v.metadata.enc(ctx)
            } else {
                Seq::<u8>::empty()
            }) + seq![10u8];
            crate::wire::util::lemma_itos_bytes(v.wear as int);
            crate::wire::util::lemma_json_enc_bytes(meta_blob(v.metadata.string_vars@));
            if item_parts(v) >= 3 {
                let digits = spec_itos(v.wear as int);
                assert(t[0] == 32);
                crate::wire::deser::lemma_ws_len_exact(t, 1);
                let m = t.skip(1);
                assert(m.take(digits.len() as int) =~= digits);
                crate::wire::deser::lemma_word_len_exact(m, digits.len() as int);
                assert(wear_word@ =~= digits);
                assert(m.skip(digits.len() as int) =~= (if item_parts(v) >= 4 {
                    seq![32u8] + v.metadata.enc(ctx)
                } else {
                    Seq::<u8>::empty()
                }) + seq![10u8]);
            } else {
                assert(t =~= seq![10u8]);
                crate::wire::deser::lemma_ws_len_exact(t, 1);
                crate::wire::deser::lemma_word_len_exact(t.skip(1), 0);
                assert(wear_word@ =~= Seq::<u8>::empty());
            }
        }
    }
    if wear_word.len() == 0 {
        return Ok((count, wear, metadata));
    }
    match stoi(wear_word.as_slice()) {
        Ok(wv) => {
            if wv < 0 || wv > 0xFFFF {
                proof {
                    assert forall|v: ItemStack|
                        (#[trigger] item_tail(v, ctx)) == line && v.rt_wf(ctx) implies false by {
                        crate::wire::util::lemma_stoi_itos(v.wear as i64);
                    }
                }
                return Err(DeserializeError::InvalidValue);
            }
            wear = wv as u16;
            proof {
                assert forall|v: ItemStack|
                    (#[trigger] item_tail(v, ctx)) == line && v.rt_wf(ctx) implies wear
                    == v.wear by {
                    crate::wire::util::lemma_stoi_itos(v.wear as i64);
                }
            }
        },
        Err(e) => {
            proof {
                assert forall|v: ItemStack|
                    (#[trigger] item_tail(v, ctx)) == line && v.rt_wf(ctx) implies false by {
                    crate::wire::util::lemma_stoi_itos(v.wear as i64);
                }
            }
            return Err(e);
        },
    }
    // The metadata token.
    ld.take_space();
    proof {
        assert forall|v: ItemStack|
            (#[trigger] item_tail(v, ctx)) == line && v.rt_wf(ctx) implies ({
            if item_parts(v) >= 4 {
                ld.rem() == v.metadata.enc(ctx).add(seq![10u8]) && ld.rem().len() > 0
            } else {
                ld.rem().len() == 0 && v.metadata.string_vars@.len() == 0
            }
        }) by {
            crate::wire::util::lemma_json_enc_bytes(meta_blob(v.metadata.string_vars@));
            if item_parts(v) >= 4 {
                let t = (seq![32u8] + v.metadata.enc(ctx)) + seq![10u8];
                assert(t[0] == 32 && t[1] == v.metadata.enc(ctx)[0]);
                crate::wire::deser::lemma_ws_len_exact(t, 1);
                assert(t.skip(1) =~= v.metadata.enc(ctx).add(seq![10u8]));
            } else {
                crate::wire::deser::lemma_ws_len_exact(seq![10u8], 1);
                assert(seq![10u8].skip(1) =~= Seq::<u8>::empty());
            }
        }
    }
    if ld.remaining() > 0 {
        match ItemStackMetadata::deserialize(ld) {
            Ok(m) => {
                metadata = m;
            },
            Err(e) => {
                return Err(e);
            },
        }
    }
    Ok((count, wear, metadata))
}

/// The encoding of an item line, in pieces.
proof fn itemstack_enc_shape(v: ItemStack, ctx: ProtocolContext)
    ensures
        v.enc(ctx) == seq![73u8, 116u8, 101u8, 109u8, 32u8] + json_enc(v.name.0@) + item_tail(
            v,
            ctx,
        ),
        v.enc(ctx).skip(4) == seq![32u8] + json_enc(v.name.0@) + item_tail(v, ctx),
        v.enc(ctx).skip(5) == json_enc(v.name.0@).add(item_tail(v, ctx)),
{
    assert(v.enc(ctx) =~= seq![73u8, 116u8, 101u8, 109u8, 32u8] + json_enc(v.name.0@) + item_tail(
        v,
        ctx,
    ));
    assert(v.enc(ctx).skip(4) =~= seq![32u8] + json_enc(v.name.0@) + item_tail(v, ctx));
    assert(v.enc(ctx).skip(5) =~= json_enc(v.name.0@).add(item_tail(v, ctx)));
}

/// One slot in a transmitted list: empty, kept as it was, or a new stack.
#[derive(Debug, Clone, PartialEq, Eq)]
pub enum ItemStackUpdate {
    Empty,
    Keep,
    Item(ItemStack),
}

impl Serialize for ItemStackUpdate {
    open spec fn enc(&self, ctx: ProtocolContext) -> Seq<u8> {
        match self {
            ItemStackUpdate::Empty => seq![69u8, 109u8, 112u8, 116u8, 121u8, 10u8],
            ItemStackUpdate::Keep => seq![75u8, 101u8, 101u8, 112u8, 10u8],
            ItemStackUpdate::Item(is) => is.enc(ctx),
        }
    }

    open spec fn ser_wf(&self, ctx: ProtocolContext) -> bool {
        true
    }

    open spec fn eqv(&self, other: &Self) -> bool {
        match (self, other) {
            (ItemStackUpdate::Empty, ItemStackUpdate::Empty) => true,
            (ItemStackUpdate::Keep, ItemStackUpdate::Keep) => true,
            (ItemStackUpdate::Item(a), ItemStackUpdate::Item(b)) => a.eqv(b),
            _ => false,
        }
    }

    fn serialize(&self, ser: &mut VecSerializer) -> (r: SerializeResult) {
        match self {
            ItemStackUpdate::Empty => {
        ser.write_byte(69);
        ser.write_byte(109);
        ser.write_byte(112);
        ser.write_byte(116);
        ser.write_byte(121);
        ser.write_byte(10);
            },
            ItemStackUpdate::Keep => {
        ser.write_byte(75);
        ser.write_byte(101);
        ser.write_byte(101);
        ser.write_byte(112);
        ser.write_byte(10);
            },
            ItemStackUpdate::Item(is) => {
                match is.serialize(ser) {
                    Ok(_) => {},
                    Err(e) => {
                        return Err(e);
                    },
                }
            },
        }
        assert(ser.out() =~= old(ser).out() + self.enc(old(ser).ctx()));
        Ok(())
    }
}

/// One inventory list: `List <name> <count>`, a width line, one line per
/// slot, and a terminator.
#[derive(Debug, Clone, PartialEq, Eq)]
pub struct InventoryList {
    pub name: ByteString,
    pub width: u32,
    pub items: Vec<ItemStackUpdate>,
}

impl Serialize for InventoryList {
    open spec fn enc(&self, ctx: ProtocolContext) -> Seq<u8> {
        seq![76u8, 105u8, 115u8, 116u8, 32u8] + self.name.0@ + seq![32u8] + spec_itos(self.items@.len() as int)
            + seq![10u8] + seq![87u8, 105u8, 100u8, 116u8, 104u8, 32u8] + spec_itos(self.width as int) + seq![10u8]
            + crate::wire::types::enc_list(self.items@, ctx) + seq![69u8, 110u8, 100u8, 73u8, 110u8, 118u8, 101u8, 110u8, 116u8, 111u8, 114u8, 121u8, 76u8, 105u8, 115u8, 116u8, 10u8]
    }

    open spec fn ser_wf(&self, ctx: ProtocolContext) -> bool {
        self.items@.len() <= i64::MAX
    }

    open spec fn eqv(&self, other: &Self) -> bool {
        self.name.0@ == other.name.0@ && self.width == other.width
            && crate::wire::types::eqv_list(self.items@, other.items@)
    }

    #[verifier::rlimit(100)]
    fn serialize(&self, ser: &mut VecSerializer) -> (r: SerializeResult) {
        ser.write_byte(76);
        ser.write_byte(105);
        ser.write_byte(115);
        ser.write_byte(116);
        ser.write_byte(32);
        ser.write_vec(&self.name.0);
        ser.write_byte(32);
        if self.items.len() as u64 > i64::MAX as u64 {
            return Err(SerializeError::InvalidValue);
        }
        let count_digits = itos(self.items.len() as i64);
        ser.write_vec(&count_digits);
        ser.write_byte(10);
        ser.write_byte(87);
        ser.write_byte(105);
        ser.write_byte(100);
        ser.write_byte(116);
        ser.write_byte(104);
        ser.write_byte(32);
        let width_digits = itos(self.width as i64);
        ser.write_vec(&width_digits);
        ser.write_byte(10);
        match crate::wire::types::write_list(ser, &self.items) {
            Ok(_) => {},
            Err(e) => {
                return Err(e);
            },
        }
        ser.write_byte(69);
        ser.write_byte(110);
        ser.write_byte(100);
        ser.write_byte(73);
        ser.write_byte(110);
        ser.write_byte(118);
        ser.write_byte(101);
        ser.write_byte(110);
        ser.write_byte(116);
        ser.write_byte(111);
        ser.write_byte(114);
        ser.write_byte(121);
        ser.write_byte(76);
        ser.write_byte(105);
        ser.write_byte(115);
        ser.write_byte(116);
        ser.write_byte(10);
        assert(ser.out() =~= old(ser).out() + self.enc(old(ser).ctx()));
        Ok(())
    }
}

/// Whether one slot survives the wire form.
pub open spec fn slot_rt(u: ItemStackUpdate, ctx: ProtocolContext) -> bool {
    match u {
        ItemStackUpdate::Item(is) => is.rt_wf(ctx),
        _ => true,
    }
}

/// A name that travels as a bare word: nonempty, no whitespace, valid UTF-8.
pub open spec fn word_name_ok(n: Seq<u8>) -> bool {
    n.len() >= 1 && (forall|i: int| 0 <= i < n.len() ==> !crate::wire::deser::is_ws(#[trigger] n[i]))
        && utf8_ok(n)
}

/// The header line of an encoded list.
pub open spec fn list_header(v: InventoryList) -> Seq<u8> {
    seq![76u8, 105u8, 115u8, 116u8, 32u8] + v.name.0@ + seq![32u8] + spec_itos(
        v.items@.len() as int,
    ) + seq![10u8]
}

/// The width line of an encoded list.
pub open spec fn list_width_line(v: InventoryList) -> Seq<u8> {
    seq![87u8, 105u8, 100u8, 116u8, 104u8, 32u8] + spec_itos(v.width as int) + seq![10u8]
}

/// The list terminator line.
pub open spec fn list_term() -> Seq<u8> {
    seq![
        69u8,
        110u8,
        100u8,
        73u8,
        110u8,
        118u8,
        101u8,
        110u8,
        116u8,
        111u8,
        114u8,
        121u8,
        76u8,
        105u8,
        115u8,
        116u8,
        10u8,
    ]
}

/// An encoded list in its four regions.
proof fn inventorylist_enc_shape(v: InventoryList, ctx: ProtocolContext)
    ensures
        v.enc(ctx) == list_header(v) + (list_width_line(v) + (crate::wire::types::enc_list(
            v.items@,
            ctx,
        ) + list_term())),
{
    assert(v.enc(ctx) =~= list_header(v) + (list_width_line(v) + (crate::wire::types::enc_list(
        v.items@,
        ctx,
    ) + list_term())));
}

/// What the next line and its first word are, at each stage of reading an
/// encoded list: the width line first, then one line per slot, then the
/// terminator.
/// The dispatch facts at one reading position (see `list_next_word`).
pub open spec fn list_next_facts(
    v: InventoryList,
    ctx: ProtocolContext,
    width_seen: bool,
    k: int,
    rest: Seq<u8>,
    drem: Seq<u8>,
    line: Seq<u8>,
    wordv: Seq<u8>,
) -> bool {
    &&& (!width_seen ==> wordv == seq![87u8, 105u8, 100u8, 116u8, 104u8] && line
        == list_width_line(v) && drem.skip(spec_line_len(drem)) == crate::wire::types::enc_list(
        v.items@,
        ctx,
    ).add(list_term().add(rest)))
    &&& (width_seen && k < v.items@.len() ==> match v.items@[k] {
        ItemStackUpdate::Empty => wordv == seq![69u8, 109u8, 112u8, 116u8, 121u8] && drem.skip(
            spec_line_len(drem),
        ) == crate::wire::types::enc_list(v.items@.skip(k + 1), ctx).add(list_term().add(rest)),
        ItemStackUpdate::Keep => wordv == seq![75u8, 101u8, 101u8, 112u8] && drem.skip(
            spec_line_len(drem),
        ) == crate::wire::types::enc_list(v.items@.skip(k + 1), ctx).add(list_term().add(rest)),
        ItemStackUpdate::Item(is) => wordv == seq![73u8, 116u8, 101u8, 109u8] && drem == is.enc(
            ctx,
        ).add(
            crate::wire::types::enc_list(v.items@.skip(k + 1), ctx).add(list_term().add(rest)),
        ) && is.rt_wf(ctx),
    })
    &&& (width_seen && k == v.items@.len() ==> wordv == seq![
        69u8,
        110u8,
        100u8,
        73u8,
        110u8,
        118u8,
        101u8,
        110u8,
        116u8,
        111u8,
        114u8,
        121u8,
        76u8,
        105u8,
        115u8,
        116u8,
    ] && drem.skip(spec_line_len(drem)) == rest)
}

#[verifier::rlimit(100)]
proof fn list_next_word(
    v: InventoryList,
    ctx: ProtocolContext,
    width_seen: bool,
    k: int,
    rest: Seq<u8>,
    drem: Seq<u8>,
    line: Seq<u8>,
    wordv: Seq<u8>,
)
    requires
        v.rt_wf(ctx),
        0 <= k <= v.items@.len(),
        !width_seen ==> drem == list_width_line(v).add(
            crate::wire::types::enc_list(v.items@, ctx).add(list_term().add(rest)),
        ) && k == 0,
        width_seen ==> drem == crate::wire::types::enc_list(v.items@.skip(k), ctx).add(
            list_term().add(rest),
        ),
        line == drem.take(spec_line_len(drem)),
        wordv == line.skip(crate::wire::deser::ws_len(line)).take(
            crate::wire::deser::word_len(line.skip(crate::wire::deser::ws_len(line))),
        ),
    ensures
        list_next_facts(v, ctx, width_seen, k, rest, drem, line, wordv),
{
    if !width_seen {
        let wl = list_width_line(v);
        crate::wire::util::lemma_itos_bytes(v.width as int);
        assert(drem[wl.len() - 1] == 10);
        assert forall|m: int| 0 <= m < wl.len() - 1 implies #[trigger] drem[m] != 10 by {
            assert(drem[m] == wl[m]);
            if m >= 6 {
                assert(wl[m] == spec_itos(v.width as int)[m - 6]);
            }
        }
        crate::wire::deser::lemma_line_len_exact(drem, wl.len() - 1);
        assert(line =~= wl);
        assert(drem.skip(wl.len() as int) =~= crate::wire::types::enc_list(v.items@, ctx).add(
            list_term().add(rest),
        ));
        assert(line[0] == 87 && line[1] == 105 && line[2] == 100 && line[3] == 116 && line[4]
            == 104 && line[5] == 32);
        crate::wire::deser::lemma_ws_len_exact(line, 0);
        assert(line.skip(0) =~= line);
        crate::wire::deser::lemma_word_len_exact(line, 5);
        assert(wordv =~= seq![87u8, 105u8, 100u8, 116u8, 104u8]);
    } else if k < v.items@.len() {
        crate::wire::types::lemma_enc_list_step(v.items@, ctx, k);
        let slot = v.items@[k];
        assert(v.items@.contains(slot));
        let tail = crate::wire::types::enc_list(v.items@.skip(k + 1), ctx).add(
            list_term().add(rest),
        );
        assert(drem =~= slot.enc(ctx).add(tail));
        match slot {
            ItemStackUpdate::Empty => {
                assert(drem[5] == 10);
                assert forall|m: int| 0 <= m < 5 implies #[trigger] drem[m] != 10 by {
                    assert(drem[m] == slot.enc(ctx)[m]);
                }
                crate::wire::deser::lemma_line_len_exact(drem, 5);
                assert(line =~= seq![69u8, 109u8, 112u8, 116u8, 121u8, 10u8]);
                assert(drem.skip(6) =~= tail);
                crate::wire::deser::lemma_ws_len_exact(line, 0);
                assert(line.skip(0) =~= line);
                crate::wire::deser::lemma_word_len_exact(line, 5);
                assert(wordv =~= seq![69u8, 109u8, 112u8, 116u8, 121u8]);
            },
            ItemStackUpdate::Keep => {
                assert(drem[4] == 10);
                assert forall|m: int| 0 <= m < 4 implies #[trigger] drem[m] != 10 by {
                    assert(drem[m] == slot.enc(ctx)[m]);
                }
                crate::wire::deser::lemma_line_len_exact(drem, 4);
                assert(line =~= seq![75u8, 101u8, 101u8, 112u8, 10u8]);
                assert(drem.skip(5) =~= tail);
                crate::wire::deser::lemma_ws_len_exact(line, 0);
                assert(line.skip(0) =~= line);
                crate::wire::deser::lemma_word_len_exact(line, 4);
                assert(wordv =~= seq![75u8, 101u8, 101u8, 112u8]);
            },
            ItemStackUpdate::Item(is) => {
                lemma_itemstack_line(is, ctx);
                let e = is.enc(ctx);
                assert(drem[e.len() - 1] == 10);
                assert forall|m: int| 0 <= m < e.len() - 1 implies #[trigger] drem[m] != 10 by {
                    assert(drem[m] == e[m]);
                }
                crate::wire::deser::lemma_line_len_exact(drem, e.len() - 1);
                assert(line =~= e);
                assert(line[0] == 73 && line[1] == 116 && line[2] == 101 && line[3] == 109
                    && line[4] == 32);
                crate::wire::deser::lemma_ws_len_exact(line, 0);
                assert(line.skip(0) =~= line);
                crate::wire::deser::lemma_word_len_exact(line, 4);
                assert(wordv =~= seq![73u8, 116u8, 101u8, 109u8]);
            },
        }
    } else {
        assert(v.items@.skip(k) =~= Seq::<ItemStackUpdate>::empty());
        let t = list_term();
        assert(drem =~= t.add(rest));
        assert(drem[16] == 10);
        assert forall|m: int| 0 <= m < 16 implies #[trigger] drem[m] != 10 by {
            assert(drem[m] == t[m]);
        }
        crate::wire::deser::lemma_line_len_exact(drem, 16);
        assert(line =~= t);
        assert(drem.skip(17) =~= rest);
        crate::wire::deser::lemma_ws_len_exact(line, 0);
        assert(line.skip(0) =~= line);
        crate::wire::deser::lemma_word_len_exact(line, 16);
        assert(wordv =~= seq![
            69u8,
            110u8,
            100u8,
            73u8,
            110u8,
            118u8,
            101u8,
            110u8,
            116u8,
            111u8,
            114u8,
            121u8,
            76u8,
            105u8,
            115u8,
            116u8,
        ]);
    }
}

/// Extending an elementwise-equivalent prefix by one matching slot.
proof fn lemma_slot_snoc(
    items: Seq<ItemStackUpdate>,
    k: int,
    accpre: Seq<ItemStackUpdate>,
    accnow: Seq<ItemStackUpdate>,
    slot: ItemStackUpdate,
)
    requires
        0 <= k < items.len(),
        crate::wire::types::eqv_list(items.take(k), accpre),
        accnow == accpre.push(slot),
        items[k].eqv(&slot),
    ensures
        crate::wire::types::eqv_list(items.take(k + 1), accnow),
{
    let t = items.take(k + 1);
    assert(t.drop_last() =~= items.take(k));
    assert(t.last() == items[k]);
    assert forall|q: int| 0 <= q < t.len() implies (#[trigger] t[q]).eqv(&accnow[q]) by {
        if q < k {
            assert(items.take(k)[q] == t[q]);
            assert(items.take(k)[q].eqv(&accpre[q]));
        }
    }
}

impl Deserialize for InventoryList {
    /// A list round-trips when its name travels as a bare word, and every
    /// slot survives the wire form.
    open spec fn rt_wf(&self, ctx: ProtocolContext) -> bool {
        word_name_ok(self.name.0@) && self.items@.len() <= 0xFFFFFFFF && (forall|i: int|
            0 <= i < self.items@.len() ==> slot_rt(#[trigger] self.items@[i], ctx))
    }

    open spec fn prefix_safe() -> bool {
        true
    }

    #[verifier::rlimit(100)]
    #[verifier::spinoff_prover]
    fn deserialize(d: &mut Deserializer) -> (r: DeserializeResult<Self>) {
        let ghost ctx = d.ctx();
        let ghost input = d.rem();
        proof {
            assert forall|v: InventoryList, rest: Seq<u8>|
                (#[trigger] v.enc(ctx).add(rest)) == input && v.rt_wf(ctx) implies ({
                let h = list_header(v);
                &&& spec_line_len(input) == h.len()
                &&& input.take(h.len() as int) == h
                &&& input.skip(h.len() as int) == list_width_line(v).add(
                    crate::wire::types::enc_list(v.items@, ctx).add(list_term().add(rest)),
                )
            }) by {
                inventorylist_enc_shape(v, ctx);
                let h = list_header(v);
                crate::wire::util::lemma_itos_bytes(v.items@.len() as int);
                assert(input[h.len() - 1] == 10);
                assert forall|m: int| 0 <= m < h.len() - 1 implies #[trigger] input[m] != 10 by {
                    assert(input[m] == h[m]);
                    if 5 <= m < 5 + v.name.0@.len() {
                        assert(h[m] == v.name.0@[m - 5]);
                        assert(!crate::wire::deser::is_ws(v.name.0@[m - 5]));
                    } else if m >= 6 + v.name.0@.len() {
                        assert(h[m] == spec_itos(v.items@.len() as int)[m - 6 - v.name.0@.len()]);
                    }
                }
                crate::wire::deser::lemma_line_len_exact(input, h.len() - 1);
                assert(input.take(h.len() as int) =~= h);
                assert(input.skip(h.len() as int) =~= list_width_line(v).add(
                    crate::wire::types::enc_list(v.items@, ctx).add(list_term().add(rest)),
                ));
            }
        }
        // Header line: List <name> <count>. The count is advisory; slots are
        // read until the terminator.
        let line = d.take_line();
        let mut ld = Deserializer::new(d.context(), line);
        let tag = ld.take_word(true);
        proof {
            assert forall|v: InventoryList, rest: Seq<u8>|
                (#[trigger] v.enc(ctx).add(rest)) == input && v.rt_wf(ctx) implies tag@ == seq![
                    76u8,
                    105u8,
                    115u8,
                    116u8,
                ] && ld.rem() == line@.skip(4) by {
                assert(line@[0] == 76 && line@[1] == 105 && line@[2] == 115 && line@[3] == 116
                    && line@[4] == 32);
                crate::wire::deser::lemma_ws_len_exact(line@, 0);
                assert(line@.skip(0) =~= line@);
                crate::wire::deser::lemma_word_len_exact(line@, 4);
                assert(tag@ =~= seq![76u8, 105u8, 115u8, 116u8]);
            }
        }
        if !word_is(&tag, &[76, 105, 115, 116]) {
            return Err(DeserializeError::InvalidValue);
        }
        let name = ld.take_word(true);
        proof {
            assert forall|v: InventoryList, rest: Seq<u8>|
                (#[trigger] v.enc(ctx).add(rest)) == input && v.rt_wf(ctx) implies name@
                == v.name.0@ && name@.len() >= 1 && ld.rem() == seq![32u8].add(
                spec_itos(v.items@.len() as int).add(seq![10u8])) by {
                let h = list_header(v);
                let m = h.skip(4);
                assert(line@.skip(4) =~= m);
                assert(m[0] == 32 && m[1] == v.name.0@[0]);
                crate::wire::deser::lemma_ws_len_exact(m, 1);
                let m2 = m.skip(1);
                assert(m2.take(v.name.0@.len() as int) =~= v.name.0@);
                assert(m2[v.name.0@.len() as int] == 32);
                crate::wire::deser::lemma_word_len_exact(m2, v.name.0@.len() as int);
                assert(name@ =~= v.name.0@);
                assert(m2.skip(v.name.0@.len() as int) =~= seq![32u8].add(
                    spec_itos(v.items@.len() as int).add(seq![10u8])));
            }
        }
        if name.len() == 0 || !is_utf8(name.as_slice()) {
            proof {
                assert forall|v: InventoryList, rest: Seq<u8>|
                    (#[trigger] v.enc(ctx).add(rest)) == input && v.rt_wf(ctx) implies false by {}
            }
            return Err(DeserializeError::InvalidValue);
        }
        let count_word = ld.take_word(true);
        proof {
            assert forall|v: InventoryList, rest: Seq<u8>|
                (#[trigger] v.enc(ctx).add(rest)) == input && v.rt_wf(ctx) implies count_word@
                == spec_itos(v.items@.len() as int) by {
                let digits = spec_itos(v.items@.len() as int);
                crate::wire::util::lemma_itos_bytes(v.items@.len() as int);
                let m = seq![32u8].add(digits.add(seq![10u8]));
                assert(m[0] == 32 && m[1] == digits[0]);
                crate::wire::deser::lemma_ws_len_exact(m, 1);
                let m2 = m.skip(1);
                assert(m2.take(digits.len() as int) =~= digits);
                assert(m2[digits.len() as int] == 10);
                crate::wire::deser::lemma_word_len_exact(m2, digits.len() as int);
                assert(count_word@ =~= digits);
            }
        }
        match stoi(count_word.as_slice()) {
            Ok(cv) => {
                if cv < 0 || cv > 0xFFFFFFFF {
                    proof {
                        assert forall|v: InventoryList, rest: Seq<u8>|
                            (#[trigger] v.enc(ctx).add(rest)) == input && v.rt_wf(
                                ctx,
                            ) implies false by {
                            crate::wire::util::lemma_stoi_itos(v.items@.len() as i64);
                        }
                    }
                    return Err(DeserializeError::InvalidValue);
                }
            },
            Err(e) => {
                proof {
                    assert forall|v: InventoryList, rest: Seq<u8>|
                        (#[trigger] v.enc(ctx).add(rest)) == input && v.rt_wf(ctx) implies
                        false by {
                        crate::wire::util::lemma_stoi_itos(v.items@.len() as i64);
                    }
                }
                return Err(e);
            },
        }
        let mut result = InventoryList { name: ByteString(name), width: 0, items: Vec::new() };
        let mut width_seen = false;
        while d.remaining() > 0
            invariant
                d.wf(),
                d.ctx() == ctx,
                ctx == old(d).ctx(),
                input == old(d).rem(),
                d.rem().len() <= old(d).rem().len(),
                forall|v: InventoryList, rest: Seq<u8>|
                    (#[trigger] v.enc(ctx).add(rest)) == input && v.rt_wf(ctx) ==> ({
                        &&& result.name.0@ == v.name.0@
                        &&& (if !width_seen {
                            result.items@.len() == 0 && result.width == 0 && d.rem()
                                == list_width_line(v).add(
                                crate::wire::types::enc_list(v.items@, ctx).add(
                                    list_term().add(rest),
                                ),
                            )
                        } else {
                            result.width == v.width && result.items@.len() <= v.items@.len()
                                && crate::wire::types::eqv_list(
                                v.items@.take(result.items@.len() as int),
                                result.items@,
                            ) && d.rem() == crate::wire::types::enc_list(
                                v.items@.skip(result.items@.len() as int),
                                ctx,
                            ).add(list_term().add(rest))
                        })
                    }),
            decreases d.rem().len(),
        {
            let before = d.remaining();
            let ghost drem0 = d.rem();
            let ghost ws0 = width_seen;
            let ghost k = result.items@.len() as int;
            proof {
                crate::wire::deser::lemma_line_len(drem0);
            }
            let line = d.peek_line();
            let mut ld = Deserializer::new(d.context(), line);
            let word = ld.take_word(true);
            proof {
                assert forall|v: InventoryList, rest: Seq<u8>|
                    (#[trigger] v.enc(ctx).add(rest)) == input && v.rt_wf(ctx) implies
                    list_next_facts(v, ctx, ws0, k, rest, drem0, line@, word@) by {
                    list_next_word(v, ctx, ws0, k, rest, drem0, line@, word@);
                }
            }
            if word_is(&word, &[69, 110, 100, 73, 110, 118, 101, 110, 116, 111, 114, 121, 76, 105,
                115, 116]) || word_is(&word, &[101, 110, 100]) {
                let _ = d.take_line();
                proof {
                    assert forall|v: InventoryList, rest: Seq<u8>|
                        (#[trigger] v.enc(ctx).add(rest)) == input && v.rt_wf(ctx) implies v.eqv(
                        &result) && d.rem() == rest by {
                        assert(list_next_facts(v, ctx, ws0, k, rest, drem0, line@, word@));
                        assert(ws0 && k == v.items@.len());
                        assert(v.items@.take(v.items@.len() as int) =~= v.items@);
                    }
                }
                return Ok(result);
            } else if word_is(&word, &[87, 105, 100, 116, 104]) {
                let wword = ld.take_word(true);
                proof {
                    assert forall|v: InventoryList, rest: Seq<u8>|
                        (#[trigger] v.enc(ctx).add(rest)) == input && v.rt_wf(ctx) implies wword@
                        == spec_itos(v.width as int) by {
                        assert(list_next_facts(v, ctx, ws0, k, rest, drem0, line@, word@));
                        assert(!ws0);
                        crate::wire::util::lemma_itos_bytes(v.width as int);
                        let digits = spec_itos(v.width as int);
                        crate::wire::deser::lemma_ws_len_exact(line@, 0);
                        assert(line@.skip(0) =~= line@);
                        crate::wire::deser::lemma_word_len_exact(line@, 5);
                        let m2 = line@.skip(5);
                        assert(m2 =~= seq![32u8].add(digits.add(seq![10u8])));
                        assert(m2[0] == 32 && m2[1] == digits[0]);
                        crate::wire::deser::lemma_ws_len_exact(m2, 1);
                        let m3 = m2.skip(1);
                        assert(m3.take(digits.len() as int) =~= digits);
                        assert(m3[digits.len() as int] == 10);
                        crate::wire::deser::lemma_word_len_exact(m3, digits.len() as int);
                        assert(wword@ =~= digits);
                    }
                }
                match stoi(wword.as_slice()) {
                    Ok(wv) => {
                        if wv < 0 || wv > 0xFFFFFFFF {
                            proof {
                                assert forall|v: InventoryList, rest: Seq<u8>|
                                    (#[trigger] v.enc(ctx).add(rest)) == input && v.rt_wf(
                                        ctx,
                                    ) implies false by {
                                    crate::wire::util::lemma_stoi_itos(v.width as i64);
                                }
                            }
                            return Err(DeserializeError::InvalidValue);
                        }
                        result.width = wv as u32;
                    },
                    Err(e) => {
                        proof {
                            assert forall|v: InventoryList, rest: Seq<u8>|
                                (#[trigger] v.enc(ctx).add(rest)) == input && v.rt_wf(
                                    ctx,
                                ) implies false by {
                                crate::wire::util::lemma_stoi_itos(v.width as i64);
                            }
                        }
                        return Err(e);
                    },
                }
                let _ = d.take_line();
                width_seen = true;
                proof {
                    assert forall|v: InventoryList, rest: Seq<u8>|
                        (#[trigger] v.enc(ctx).add(rest)) == input && v.rt_wf(ctx) implies
                        result.width == v.width && d.rem() == crate::wire::types::enc_list(
                        v.items@.skip(0),
                        ctx,
                    ).add(list_term().add(rest)) by {
                        assert(list_next_facts(v, ctx, ws0, k, rest, drem0, line@, word@));
                        assert(!ws0);
                        crate::wire::util::lemma_stoi_itos(v.width as i64);
                        assert(v.items@.skip(0) =~= v.items@);
                        assert(v.items@.take(0) =~= Seq::<ItemStackUpdate>::empty());
                    }
                }
            } else if word_is(&word, &[73, 116, 101, 109]) {
                // The stack parser takes the whole line itself.
                proof {
                    assert forall|v: InventoryList, rest: Seq<u8>|
                        (#[trigger] v.enc(ctx).add(rest)) == input && v.rt_wf(ctx) implies ws0 && k
                        < v.items@.len() && (v.items@[k] matches ItemStackUpdate::Item(is) && drem0
                            == is.enc(ctx).add(
                            crate::wire::types::enc_list(v.items@.skip(k + 1), ctx).add(
                                list_term().add(rest),
                            ),
                        ) && is.rt_wf(ctx)) by {
                        assert(list_next_facts(v, ctx, ws0, k, rest, drem0, line@, word@));
                    }
                }
                match ItemStack::deserialize(d) {
                    Ok(is) => {
                        let ghost accpre = result.items@;
                        result.items.push(ItemStackUpdate::Item(is));
                        proof {
                            assert forall|v: InventoryList, rest: Seq<u8>|
                                (#[trigger] v.enc(ctx).add(rest)) == input && v.rt_wf(
                                    ctx,
                                ) implies crate::wire::types::eqv_list(
                                v.items@.take(k + 1),
                                result.items@,
                            ) && d.rem() == crate::wire::types::enc_list(
                                v.items@.skip(k + 1),
                                ctx,
                            ).add(list_term().add(rest)) by {
                                lemma_slot_snoc(
                                    v.items@,
                                    k,
                                    accpre,
                                    result.items@,
                                    result.items@.last(),
                                );
                            }
                        }
                    },
                    Err(e) => {
                        proof {
                            assert forall|v: InventoryList, rest: Seq<u8>|
                                (#[trigger] v.enc(ctx).add(rest)) == input && v.rt_wf(
                                    ctx,
                                ) implies false by {}
                        }
                        return Err(e);
                    },
                }
                if d.remaining() >= before {
                    proof {
                        assert forall|v: InventoryList, rest: Seq<u8>|
                            (#[trigger] v.enc(ctx).add(rest)) == input && v.rt_wf(
                                ctx,
                            ) implies false by {}
                    }
                    return Err(DeserializeError::InvalidValue);
                }
            } else if word_is(&word, &[69, 109, 112, 116, 121]) {
                let ghost accpre = result.items@;
                result.items.push(ItemStackUpdate::Empty);
                let _ = d.take_line();
                proof {
                    assert forall|v: InventoryList, rest: Seq<u8>|
                        (#[trigger] v.enc(ctx).add(rest)) == input && v.rt_wf(ctx) implies ws0 && k
                        < v.items@.len() && v.items@[k] == ItemStackUpdate::Empty
                        && crate::wire::types::eqv_list(v.items@.take(k + 1), result.items@)
                        && d.rem() == crate::wire::types::enc_list(v.items@.skip(k + 1), ctx).add(
                        list_term().add(rest)) by {
                        assert(list_next_facts(v, ctx, ws0, k, rest, drem0, line@, word@));
                        lemma_slot_snoc(v.items@, k, accpre, result.items@, result.items@.last());
                    }
                }
            } else if word_is(&word, &[75, 101, 101, 112]) {
                let ghost accpre = result.items@;
                result.items.push(ItemStackUpdate::Keep);
                let _ = d.take_line();
                proof {
                    assert forall|v: InventoryList, rest: Seq<u8>|
                        (#[trigger] v.enc(ctx).add(rest)) == input && v.rt_wf(ctx) implies ws0 && k
                        < v.items@.len() && v.items@[k] == ItemStackUpdate::Keep
                        && crate::wire::types::eqv_list(v.items@.take(k + 1), result.items@)
                        && d.rem() == crate::wire::types::enc_list(v.items@.skip(k + 1), ctx).add(
                        list_term().add(rest)) by {
                        assert(list_next_facts(v, ctx, ws0, k, rest, drem0, line@, word@));
                        lemma_slot_snoc(v.items@, k, accpre, result.items@, result.items@.last());
                    }
                }
            } else {
                // Unknown lines are skipped, as the reference servers do.
                let _ = d.take_line();
                proof {
                    assert forall|v: InventoryList, rest: Seq<u8>|
                        (#[trigger] v.enc(ctx).add(rest)) == input && v.rt_wf(ctx) implies
                        false by {
                        assert(list_next_facts(v, ctx, ws0, k, rest, drem0, line@, word@));
                    }
                }
            }
        }
        // The terminator never came.
        proof {
            assert forall|v: InventoryList, rest: Seq<u8>|
                (#[trigger] v.enc(ctx).add(rest)) == input && v.rt_wf(ctx) implies false by {
                if width_seen {
                    if result.items@.len() < v.items@.len() {
                        crate::wire::types::lemma_enc_list_step(
                            v.items@,
                            ctx,
                            result.items@.len() as int,
                        );
                        let slot = v.items@[result.items@.len() as int];
                        assert(v.items@.contains(slot));
                        match slot {
                            ItemStackUpdate::Empty => {},
                            ItemStackUpdate::Keep => {},
                            ItemStackUpdate::Item(is) => {
                                lemma_itemstack_line(is, ctx);
                            },
                        }
                    } else {
                        assert(v.items@.skip(result.items@.len() as int)
                            =~= Seq::<ItemStackUpdate>::empty());
                    }
                }
            }
        }
        Err(DeserializeError::Eof)
    }
}

/// One entry of a transmitted inventory: a list kept as it was, or a list
/// sent in full.
#[derive(Debug, Clone, PartialEq, Eq)]
pub enum InventoryEntry {
    KeepList(ByteString),
    Update(InventoryList),
}

impl Serialize for InventoryEntry {
    open spec fn enc(&self, ctx: ProtocolContext) -> Seq<u8> {
        match self {
            InventoryEntry::KeepList(name) => seq![75u8, 101u8, 101u8, 112u8, 76u8, 105u8, 115u8, 116u8, 32u8] + name.0@ + seq![10u8],
            InventoryEntry::Update(list) => list.enc(ctx),
        }
    }

    open spec fn ser_wf(&self, ctx: ProtocolContext) -> bool {
        match self {
            InventoryEntry::KeepList(_) => true,
            InventoryEntry::Update(list) => list.ser_wf(ctx),
        }
    }

    open spec fn eqv(&self, other: &Self) -> bool {
        match (self, other) {
            (InventoryEntry::KeepList(a), InventoryEntry::KeepList(b)) => a.0@ == b.0@,
            (InventoryEntry::Update(a), InventoryEntry::Update(b)) => a.eqv(b),
            _ => false,
        }
    }

    fn serialize(&self, ser: &mut VecSerializer) -> (r: SerializeResult) {
        match self {
            InventoryEntry::KeepList(name) => {
        ser.write_byte(75);
        ser.write_byte(101);
        ser.write_byte(101);
        ser.write_byte(112);
        ser.write_byte(76);
        ser.write_byte(105);
        ser.write_byte(115);
        ser.write_byte(116);
        ser.write_byte(32);
                ser.write_vec(&name.0);
                ser.write_byte(10);
            },
            InventoryEntry::Update(list) => {
                match list.serialize(ser) {
                    Ok(_) => {},
                    Err(e) => {
                        return Err(e);
                    },
                }
            },
        }
        assert(ser.out() =~= old(ser).out() + self.enc(old(ser).ctx()));
        Ok(())
    }
}

/// A whole transmitted inventory: entries terminated by `EndInventory`.
#[derive(Debug, Clone, PartialEq, Eq)]
pub struct Inventory {
    pub entries: Vec<InventoryEntry>,
}

impl Serialize for Inventory {
    open spec fn enc(&self, ctx: ProtocolContext) -> Seq<u8> {
        crate::wire::types::enc_list(self.entries@, ctx) + seq![69u8, 110u8, 100u8, 73u8, 110u8, 118u8, 101u8, 110u8, 116u8, 111u8, 114u8, 121u8, 10u8]
    }

    open spec fn ser_wf(&self, ctx: ProtocolContext) -> bool {
        crate::wire::types::wf_list(self.entries@, ctx)
    }

    open spec fn eqv(&self, other: &Self) -> bool {
        crate::wire::types::eqv_list(self.entries@, other.entries@)
    }

    fn serialize(&self, ser: &mut VecSerializer) -> (r: SerializeResult) {
        match crate::wire::types::write_list(ser, &self.entries) {
            Ok(_) => {},
            Err(e) => {
                return Err(e);
            },
        }
        ser.write_byte(69);
        ser.write_byte(110);
        ser.write_byte(100);
        ser.write_byte(73);
        ser.write_byte(110);
        ser.write_byte(118);
        ser.write_byte(101);
        ser.write_byte(110);
        ser.write_byte(116);
        ser.write_byte(111);
        ser.write_byte(114);
        ser.write_byte(121);
        ser.write_byte(10);
        assert(ser.out() =~= old(ser).out() + self.enc(old(ser).ctx()));
        Ok(())
    }
}

/// Whether one inventory entry survives the wire form.
pub open spec fn entry_rt(e: InventoryEntry, ctx: ProtocolContext) -> bool {
    match e {
        InventoryEntry::KeepList(n) => word_name_ok(n.0@),
        InventoryEntry::Update(l) => l.rt_wf(ctx),
    }
}

/// The inventory terminator line.
pub open spec fn inv_term() -> Seq<u8> {
    seq![69u8, 110u8, 100u8, 73u8, 110u8, 118u8, 101u8, 110u8, 116u8, 111u8, 114u8, 121u8, 10u8]
}

/// The dispatch facts at one reading position of an encoded inventory.
pub open spec fn inv_next_facts(
    v: Inventory,
    ctx: ProtocolContext,
    k: int,
    rest: Seq<u8>,
    drem: Seq<u8>,
    line: Seq<u8>,
    wordv: Seq<u8>,
) -> bool {
    &&& (k < v.entries@.len() ==> match v.entries@[k] {
        InventoryEntry::KeepList(n) => wordv == seq![75u8, 101u8, 101u8, 112u8, 76u8, 105u8, 115u8,
            116u8] && line == seq![75u8, 101u8, 101u8, 112u8, 76u8, 105u8, 115u8, 116u8, 32u8]
            + n.0@ + seq![10u8] && drem.skip(spec_line_len(drem))
            == crate::wire::types::enc_list(v.entries@.skip(k + 1), ctx).add(inv_term().add(rest)),
        InventoryEntry::Update(l) => wordv == seq![76u8, 105u8, 115u8, 116u8] && drem == l.enc(
            ctx,
        ).add(crate::wire::types::enc_list(v.entries@.skip(k + 1), ctx).add(inv_term().add(rest)))
            && l.rt_wf(ctx),
    })
    &&& (k == v.entries@.len() ==> wordv == seq![
        69u8,
        110u8,
        100u8,
        73u8,
        110u8,
        118u8,
        101u8,
        110u8,
        116u8,
        111u8,
        114u8,
        121u8,
    ] && drem.skip(spec_line_len(drem)) == rest)
}

/// Establish the dispatch facts for the current position.
#[verifier::rlimit(100)]
proof fn inv_next_word(
    v: Inventory,
    ctx: ProtocolContext,
    k: int,
    rest: Seq<u8>,
    drem: Seq<u8>,
    line: Seq<u8>,
    wordv: Seq<u8>,
)
    requires
        forall|i: int| 0 <= i < v.entries@.len() ==> entry_rt(#[trigger] v.entries@[i], ctx),
        0 <= k <= v.entries@.len(),
        drem == crate::wire::types::enc_list(v.entries@.skip(k), ctx).add(inv_term().add(rest)),
        line == drem.take(spec_line_len(drem)),
        wordv == line.skip(crate::wire::deser::ws_len(line)).take(
            crate::wire::deser::word_len(line.skip(crate::wire::deser::ws_len(line))),
        ),
    ensures
        inv_next_facts(v, ctx, k, rest, drem, line, wordv),
{
    if k < v.entries@.len() {
        crate::wire::types::lemma_enc_list_step(v.entries@, ctx, k);
        let entry = v.entries@[k];
        assert(v.entries@.contains(entry));
        let tail = crate::wire::types::enc_list(v.entries@.skip(k + 1), ctx).add(
            inv_term().add(rest),
        );
        assert(drem =~= entry.enc(ctx).add(tail));
        match entry {
            InventoryEntry::KeepList(n) => {
                let el = seq![75u8, 101u8, 101u8, 112u8, 76u8, 105u8, 115u8, 116u8, 32u8] + n.0@
                    + seq![10u8];
                assert(entry.enc(ctx) =~= el);
                assert(drem[el.len() - 1] == 10);
                assert forall|m: int| 0 <= m < el.len() - 1 implies #[trigger] drem[m] != 10 by {
                    assert(drem[m] == el[m]);
                    if 9 <= m < 9 + n.0@.len() {
                        assert(el[m] == n.0@[m - 9]);
                        assert(!crate::wire::deser::is_ws(n.0@[m - 9]));
                    }
                }
                crate::wire::deser::lemma_line_len_exact(drem, el.len() - 1);
                assert(line =~= el);
                assert(drem.skip(el.len() as int) =~= tail);
                assert(line[0] == 75 && line[1] == 101 && line[2] == 101 && line[3] == 112
                    && line[4] == 76 && line[5] == 105 && line[6] == 115 && line[7] == 116
                    && line[8] == 32);
                crate::wire::deser::lemma_ws_len_exact(line, 0);
                assert(line.skip(0) =~= line);
                crate::wire::deser::lemma_word_len_exact(line, 8);
                assert(wordv =~= seq![75u8, 101u8, 101u8, 112u8, 76u8, 105u8, 115u8, 116u8]);
            },
            InventoryEntry::Update(l) => {
                inventorylist_enc_shape(l, ctx);
                let h = list_header(l);
                assert forall|m: int| 0 <= m < 5 implies #[trigger] drem[m] != 10 by {
                    assert(drem[m] == h[m]);
                }
                let n = spec_line_len(drem);
                crate::wire::deser::lemma_line_len(drem);
                assert(n >= 5) by {
                    if n < 5 {
                        assert(drem[n - 1] == 10);
                    }
                }
                assert(line[0] == 76 && line[1] == 105 && line[2] == 115 && line[3] == 116
                    && line[4] == 32);
                crate::wire::deser::lemma_ws_len_exact(line, 0);
                assert(line.skip(0) =~= line);
                crate::wire::deser::lemma_word_len_exact(line, 4);
                assert(wordv =~= seq![76u8, 105u8, 115u8, 116u8]);
            },
        }
    } else {
        assert(v.entries@.skip(k) =~= Seq::<InventoryEntry>::empty());
        let t = inv_term();
        assert(drem =~= t.add(rest));
        assert(drem[12] == 10);
        assert forall|m: int| 0 <= m < 12 implies #[trigger] drem[m] != 10 by {
            assert(drem[m] == t[m]);
        }
        crate::wire::deser::lemma_line_len_exact(drem, 12);
        assert(line =~= t);
        assert(drem.skip(13) =~= rest);
        crate::wire::deser::lemma_ws_len_exact(line, 0);
        assert(line.skip(0) =~= line);
        crate::wire::deser::lemma_word_len_exact(line, 12);
        assert(wordv =~= seq![
            69u8,
            110u8,
            100u8,
            73u8,
            110u8,
            118u8,
            101u8,
            110u8,
            116u8,
            111u8,
            114u8,
            121u8,
        ]);
    }
}

/// Extending an elementwise-equivalent entry prefix by one matching entry.
proof fn lemma_entry_snoc(
    entries: Seq<InventoryEntry>,
    k: int,
    accpre: Seq<InventoryEntry>,
    accnow: Seq<InventoryEntry>,
    entry: InventoryEntry,
)
    requires
        0 <= k < entries.len(),
        crate::wire::types::eqv_list(entries.take(k), accpre),
        accnow == accpre.push(entry),
        entries[k].eqv(&entry),
    ensures
        crate::wire::types::eqv_list(entries.take(k + 1), accnow),
{
    let t = entries.take(k + 1);
    assert(t.drop_last() =~= entries.take(k));
    assert(t.last() == entries[k]);
    assert forall|q: int| 0 <= q < t.len() implies (#[trigger] t[q]).eqv(&accnow[q]) by {
        if q < k {
            assert(entries.take(k)[q] == t[q]);
            assert(entries.take(k)[q].eqv(&accpre[q]));
        }
    }
}

impl Deserialize for Inventory {
    /// An inventory round-trips when each entry does.
    open spec fn rt_wf(&self, ctx: ProtocolContext) -> bool {
        forall|i: int| 0 <= i < self.entries@.len() ==> entry_rt(#[trigger] self.entries@[i], ctx)
    }

    open spec fn prefix_safe() -> bool {
        true
    }

    #[verifier::rlimit(100)]
    #[verifier::spinoff_prover]
    fn deserialize(d: &mut Deserializer) -> (r: DeserializeResult<Self>) {
        let ghost ctx = d.ctx();
        let ghost input = d.rem();
        let mut result = Inventory { entries: Vec::new() };
        proof {
            assert forall|v: Inventory, rest: Seq<u8>|
                (#[trigger] v.enc(ctx).add(rest)) == input && v.rt_wf(ctx) implies d.rem()
                == crate::wire::types::enc_list(v.entries@.skip(0), ctx).add(
                inv_term().add(rest)) by {
                assert(v.entries@.skip(0) =~= v.entries@);
                assert(crate::wire::types::enc_list(v.entries@, ctx).add(inv_term().add(rest))
                    =~= v.enc(ctx).add(rest));
            }
        }
        while d.remaining() > 0
            invariant
                d.wf(),
                d.ctx() == ctx,
                ctx == old(d).ctx(),
                input == old(d).rem(),
                d.rem().len() <= old(d).rem().len(),
                forall|v: Inventory, rest: Seq<u8>|
                    (#[trigger] v.enc(ctx).add(rest)) == input && v.rt_wf(ctx) ==> ({
                        &&& result.entries@.len() <= v.entries@.len()
                        &&& crate::wire::types::eqv_list(
                            v.entries@.take(result.entries@.len() as int),
                            result.entries@,
                        )
                        &&& d.rem() == crate::wire::types::enc_list(
                            v.entries@.skip(result.entries@.len() as int),
                            ctx,
                        ).add(inv_term().add(rest))
                    }),
            decreases d.rem().len(),
        {
            let before = d.remaining();
            let ghost drem0 = d.rem();
            let ghost k = result.entries@.len() as int;
            proof {
                crate::wire::deser::lemma_line_len(drem0);
            }
            let line = d.peek_line();
            let mut ld = Deserializer::new(d.context(), line);
            let word = ld.take_word(true);
            proof {
                assert forall|v: Inventory, rest: Seq<u8>|
                    (#[trigger] v.enc(ctx).add(rest)) == input && v.rt_wf(ctx) implies
                    inv_next_facts(v, ctx, k, rest, drem0, line@, word@) by {
                    inv_next_word(v, ctx, k, rest, drem0, line@, word@);
                }
            }
            if word_is(&word, &[69, 110, 100, 73, 110, 118, 101, 110, 116, 111, 114, 121])
                || word_is(&word, &[69, 110, 100]) {
                let _ = d.take_line();
                proof {
                    assert forall|v: Inventory, rest: Seq<u8>|
                        (#[trigger] v.enc(ctx).add(rest)) == input && v.rt_wf(ctx) implies v.eqv(
                        &result) && d.rem() == rest by {
                        assert(inv_next_facts(v, ctx, k, rest, drem0, line@, word@));
                        assert(k == v.entries@.len());
                        assert(v.entries@.take(v.entries@.len() as int) =~= v.entries@);
                    }
                }
                return Ok(result);
            } else if word_is(&word, &[76, 105, 115, 116]) {
                // The list parser takes its own lines, header included.
                proof {
                    assert forall|v: Inventory, rest: Seq<u8>|
                        (#[trigger] v.enc(ctx).add(rest)) == input && v.rt_wf(ctx) implies k
                        < v.entries@.len() && (v.entries@[k] matches InventoryEntry::Update(l)
                        && drem0 == l.enc(ctx).add(
                            crate::wire::types::enc_list(v.entries@.skip(k + 1), ctx).add(
                                inv_term().add(rest),
                            ),
                        ) && l.rt_wf(ctx)) by {
                        assert(inv_next_facts(v, ctx, k, rest, drem0, line@, word@));
                    }
                }
                match InventoryList::deserialize(d) {
                    Ok(list) => {
                        let ghost accpre = result.entries@;
                        result.entries.push(InventoryEntry::Update(list));
                        proof {
                            assert forall|v: Inventory, rest: Seq<u8>|
                                (#[trigger] v.enc(ctx).add(rest)) == input && v.rt_wf(
                                    ctx,
                                ) implies crate::wire::types::eqv_list(
                                v.entries@.take(k + 1),
                                result.entries@,
                            ) && d.rem() == crate::wire::types::enc_list(
                                v.entries@.skip(k + 1),
                                ctx,
                            ).add(inv_term().add(rest)) by {
                                lemma_entry_snoc(
                                    v.entries@,
                                    k,
                                    accpre,
                                    result.entries@,
                                    result.entries@.last(),
                                );
                            }
                        }
                    },
                    Err(e) => {
                        proof {
                            assert forall|v: Inventory, rest: Seq<u8>|
                                (#[trigger] v.enc(ctx).add(rest)) == input && v.rt_wf(
                                    ctx,
                                ) implies false by {}
                        }
                        return Err(e);
                    },
                }
                if d.remaining() >= before {
                    proof {
                        assert forall|v: Inventory, rest: Seq<u8>|
                            (#[trigger] v.enc(ctx).add(rest)) == input && v.rt_wf(
                                ctx,
                            ) implies false by {
                            crate::wire::types::lemma_enc_list_step(v.entries@, ctx, k);
                            assert(v.entries@.contains(v.entries@[k]));
                        }
                    }
                    return Err(DeserializeError::InvalidValue);
                }
            } else if word_is(&word, &[75, 101, 101, 112, 76, 105, 115, 116]) {
                let kname = ld.take_word(true);
                proof {
                    assert forall|v: Inventory, rest: Seq<u8>|
                        (#[trigger] v.enc(ctx).add(rest)) == input && v.rt_wf(ctx) implies k
                        < v.entries@.len() && (v.entries@[k] matches InventoryEntry::KeepList(n)
                        && kname@ == n.0@ && kname@.len() >= 1 && utf8_ok(kname@)) by {
                        assert(inv_next_facts(v, ctx, k, rest, drem0, line@, word@));
                        match v.entries@[k] {
                            InventoryEntry::KeepList(n) => {
                                crate::wire::deser::lemma_ws_len_exact(line@, 0);
                                assert(line@.skip(0) =~= line@);
                                crate::wire::deser::lemma_word_len_exact(line@, 8);
                                let m2 = line@.skip(8);
                                assert(m2 =~= seq![32u8].add(n.0@.add(seq![10u8])));
                                assert(m2[0] == 32 && m2[1] == n.0@[0]);
                                crate::wire::deser::lemma_ws_len_exact(m2, 1);
                                let m3 = m2.skip(1);
                                assert(m3.take(n.0@.len() as int) =~= n.0@);
                                assert(m3[n.0@.len() as int] == 10);
                                crate::wire::deser::lemma_word_len_exact(m3, n.0@.len() as int);
                                assert(kname@ =~= n.0@);
                            },
                            InventoryEntry::Update(_) => {},
                        }
                    }
                }
                if kname.len() == 0 || !is_utf8(kname.as_slice()) {
                    proof {
                        assert forall|v: Inventory, rest: Seq<u8>|
                            (#[trigger] v.enc(ctx).add(rest)) == input && v.rt_wf(
                                ctx,
                            ) implies false by {}
                    }
                    return Err(DeserializeError::InvalidValue);
                }
                let ghost accpre = result.entries@;
                result.entries.push(InventoryEntry::KeepList(ByteString(kname)));
                let _ = d.take_line();
                proof {
                    assert forall|v: Inventory, rest: Seq<u8>|
                        (#[trigger] v.enc(ctx).add(rest)) == input && v.rt_wf(
                            ctx,
                        ) implies crate::wire::types::eqv_list(
                        v.entries@.take(k + 1),
                        result.entries@,
                    ) && d.rem() == crate::wire::types::enc_list(v.entries@.skip(k + 1), ctx).add(
                        inv_term().add(rest)) by {
                        assert(inv_next_facts(v, ctx, k, rest, drem0, line@, word@));
                        lemma_entry_snoc(v.entries@, k, accpre, result.entries@,
                            result.entries@.last());
                    }
                }
            } else {
                // Unknown lines are skipped, as the reference servers do.
                let _ = d.take_line();
                proof {
                    assert forall|v: Inventory, rest: Seq<u8>|
                        (#[trigger] v.enc(ctx).add(rest)) == input && v.rt_wf(ctx) implies
                        false by {
                        assert(inv_next_facts(v, ctx, k, rest, drem0, line@, word@));
                    }
                }
            }
        }
        // The terminator never came.
        proof {
            assert forall|v: Inventory, rest: Seq<u8>|
                (#[trigger] v.enc(ctx).add(rest)) == input && v.rt_wf(ctx) implies false by {
                let k = result.entries@.len() as int;
                if k < v.entries@.len() {
                    crate::wire::types::lemma_enc_list_step(v.entries@, ctx, k);
                    assert(v.entries@.contains(v.entries@[k]));
                    match v.entries@[k] {
                        InventoryEntry::KeepList(n) => {},
                        InventoryEntry::Update(l) => {
                            inventorylist_enc_shape(l, ctx);
                        },
                    }
                } else {
                    assert(v.entries@.skip(k) =~= Seq::<InventoryEntry>::empty());
                }
            }
        }
        Err(DeserializeError::Eof)
    }
}

/// Whether a parsed word is exactly the given bytes.
fn word_is(w: &Vec<u8>, expect: &[u8]) -> (r: bool)
    ensures
        r == (w@ == expect@),
{
    if w.len() != expect.len() {
        proof {
            assert(w@.len() != expect@.len());
        }
        return false;
    }
    let mut i: usize = 0;
    while i < w.len()
        invariant
            i <= w@.len(),
            w@.len() == expect@.len(),
            forall|j: int| 0 <= j < i ==> w@[j] == expect@[j],
        decreases w@.len() - i,
    {
        if w[i] != expect[i] {
            return false;
        }
        i = i + 1;
    }
    proof {
        assert(w@ =~= expect@);
    }
    true
}

} // verus!
