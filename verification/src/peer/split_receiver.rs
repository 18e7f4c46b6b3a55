//! Reassembly of split packets: chunks are collected by split sequence
//! number until every chunk of a group has arrived, then concatenated in
//! chunk order.

use vstd::prelude::*;

use crate::wire::deser::DeserializeError;
use crate::wire::packet::SplitBody;

verus! {

/// How long an unfinished assembly lives after its latest chunk.
pub const SPLIT_TIMEOUT_MS: u64 = 30000;

/// One in-progress assembly: the chunks seen so far, keyed by chunk number,
/// ascending.
pub struct IncomingBuffer {
    pub chunk_count: u16,
    pub chunks: Vec<(u16, Vec<u8>)>,
    pub timeout: u64,
}

/// The chunks' payloads, concatenated in order.
pub open spec fn concat_chunks(s: Seq<(u16, Vec<u8>)>) -> Seq<u8>
    decreases s.len(),
{
    if s.len() == 0 {
        Seq::empty()
    } else {
        s[0].1@ + concat_chunks(s.skip(1))
    }
}

/// The chunks recorded after storing one more: insert in ascending chunk
/// order, a repeated chunk number replacing the earlier copy.
pub open spec fn store_chunk(cs: Seq<(u16, Vec<u8>)>, n: u16, d: Vec<u8>) -> Seq<(u16, Vec<u8>)>
    decreases cs.len(),
{
    if cs.len() == 0 {
        seq![(n, d)]
    } else if cs[0].0 < n {
        seq![cs[0]] + store_chunk(cs.skip(1), n, d)
    } else if cs[0].0 == n {
        seq![(n, d)] + cs.skip(1)
    } else {
        seq![(n, d)] + cs
    }
}

/// `store_chunk` is the index-level replace-or-insert at the first position
/// whose chunk number is not below `n`.
proof fn lemma_store_at(cs: Seq<(u16, Vec<u8>)>, n: u16, d: Vec<u8>, i: int)
    requires
        forall|a: int, b: int| 0 <= a < b < cs.len() ==> (#[trigger] cs[a]).0 < (#[trigger] cs[b]).0,
        0 <= i <= cs.len(),
        forall|j: int| 0 <= j < i ==> (#[trigger] cs[j]).0 < n,
        i < cs.len() ==> cs[i].0 >= n,
    ensures
        i < cs.len() && cs[i].0 == n ==> store_chunk(cs, n, d) == cs.update(i, (n, d)),
        i == cs.len() || cs[i].0 > n ==> store_chunk(cs, n, d) == cs.insert(i, (n, d)),
    decreases i,
{
    if i == 0 {
        if cs.len() == 0 {
            assert(store_chunk(cs, n, d) =~= cs.insert(0, (n, d)));
        } else if cs[0].0 == n {
            assert(store_chunk(cs, n, d) =~= cs.update(0, (n, d)));
        } else {
            assert(cs[0].0 > n);
            assert(store_chunk(cs, n, d) =~= cs.insert(0, (n, d)));
        }
    } else {
        assert(cs[0].0 < n);
        let t = cs.skip(1);
        assert forall|a: int, b: int| 0 <= a < b < t.len() implies (#[trigger] t[a]).0
            < (#[trigger] t[b]).0 by {
            assert(t[a] == cs[a + 1] && t[b] == cs[b + 1]);
        }
        assert forall|j: int| 0 <= j < i - 1 implies (#[trigger] t[j]).0 < n by {
            assert(t[j] == cs[j + 1]);
        }
        assert(i - 1 < t.len() ==> t[i - 1].0 >= n);
        lemma_store_at(t, n, d, i - 1);
        if i < cs.len() && cs[i].0 == n {
            assert(t[i - 1] == cs[i]);
            assert(store_chunk(cs, n, d) =~= cs.update(i, (n, d))) by {
                assert(t.update(i - 1, (n, d)) =~= cs.update(i, (n, d)).skip(1));
            }
        } else {
            assert(store_chunk(cs, n, d) =~= cs.insert(i, (n, d))) by {
                assert(t.insert(i - 1, (n, d)) =~= cs.insert(i, (n, d)).skip(1));
            }
        }
    }
}

/// In a strictly ascending chunk table, the chunk number at position `i`
/// is at least `i`; so a table of numbers below `n` has at most `n` entries.
proof fn lemma_chunk_key_floor(cs: Seq<(u16, Vec<u8>)>, i: int)
    requires
        forall|a: int, b: int| 0 <= a < b < cs.len() ==> (#[trigger] cs[a]).0 < (#[trigger] cs[b]).0,
        0 <= i < cs.len(),
    ensures
        cs[i].0 >= i,
    decreases i,
{
    if i > 0 {
        lemma_chunk_key_floor(cs, i - 1);
        assert(cs[i - 1].0 < cs[i].0);
    }
}

/// Whether an assembly for the split sequence number `s` is pending.
pub open spec fn has_assembly(p: Seq<(u16, IncomingBuffer)>, s: u16) -> bool {
    exists|i: int| 0 <= i < p.len() && (#[trigger] p[i]).0 == s
}

/// Its position in the table.
pub open spec fn assembly_index(p: Seq<(u16, IncomingBuffer)>, s: u16) -> int {
    choose|i: int| 0 <= i < p.len() && (#[trigger] p[i]).0 == s
}

/// The chunks recorded so far for `s`: none when no assembly is pending.
pub open spec fn assembly_chunks(p: Seq<(u16, IncomingBuffer)>, s: u16) -> Seq<(u16, Vec<u8>)> {
    if has_assembly(p, s) {
        p[assembly_index(p, s)].1.chunks@
    } else {
        Seq::empty()
    }
}

impl IncomingBuffer {
    pub open spec fn wf(self) -> bool {
        &&& forall|i: int, j: int|
            0 <= i < j < self.chunks@.len() ==> (#[trigger] self.chunks@[i]).0
                < (#[trigger] self.chunks@[j]).0
        &&& forall|i: int|
            0 <= i < self.chunks@.len() ==> (#[trigger] self.chunks@[i]).0 < self.chunk_count
    }
}

/// Reassembles split packets, one assembly per split sequence number.
pub struct SplitReceiver {
    pub pending: Vec<(u16, IncomingBuffer)>,
}

impl SplitReceiver {
    pub open spec fn wf(self) -> bool {
        &&& forall|i: int, j: int|
            0 <= i < j < self.pending@.len() ==> (#[trigger] self.pending@[i]).0
                < (#[trigger] self.pending@[j]).0
        &&& forall|i: int| 0 <= i < self.pending@.len() ==> (#[trigger] self.pending@[i]).1.wf()
    }

    pub fn new() -> (r: Self)
        ensures
            r.wf(),
            r.pending@.len() == 0,
    {
        SplitReceiver { pending: Vec::new() }
    }

    /// Push one split body. A chunk count that contradicts the assembly, or
    /// a chunk number at or past the count, is a hard error. When the last
    /// missing chunk arrives, the assembly is removed and the result is the
    /// concatenation of all its chunks in ascending chunk order.
    pub fn push(&mut self, now: u64, body: SplitBody) -> (r: Result<
        Option<Vec<u8>>,
        DeserializeError,
    >)
        requires
            old(self).wf(),
        ensures
            final(self).wf(),
            // The push fails exactly on a chunk number at or past the count,
            // or a count contradicting the pending assembly; failure changes
            // nothing.
            r is Err <==> body.chunk_num >= body.chunk_count || (has_assembly(
                old(self).pending@,
                body.seqnum,
            ) && old(self).pending@[assembly_index(old(self).pending@, body.seqnum)].1.chunk_count
                != body.chunk_count),
            r is Err ==> final(self).pending@ == old(self).pending@,
            // Success: the chunk is recorded over what was already pushed for
            // this group; the assembly completes exactly when it then holds
            // `chunk_count` chunks.
            ({
                let prior = assembly_chunks(old(self).pending@, body.seqnum);
                let updated = store_chunk(prior, body.chunk_num, body.chunk_data);
                &&& (r matches Ok(o) ==> (o is Some <==> updated.len() == body.chunk_count))
                &&& (r matches Ok(Some(data)) ==> data@ == concat_chunks(updated) && (forall|
                    j: int,
                |
                    0 <= j < final(self).pending@.len() ==> (#[trigger] final(self).pending@[j]).0
                        != body.seqnum) && (if has_assembly(old(self).pending@, body.seqnum) {
                    final(self).pending@ == old(self).pending@.remove(
                        assembly_index(old(self).pending@, body.seqnum),
                    )
                } else {
                    final(self).pending@ == old(self).pending@
                }))
                &&& (r == Ok::<Option<Vec<u8>>, DeserializeError>(None) ==> updated.len()
                    < body.chunk_count && exists|i: int|
                    0 <= i < final(self).pending@.len() && (#[trigger] final(self).pending@[i]).0
                        == body.seqnum && final(self).pending@[i].1.chunk_count == body.chunk_count
                        && final(self).pending@[i].1.chunks@ == updated
                        && final(self).pending@[i].1.timeout == (if now > u64::MAX
                        - SPLIT_TIMEOUT_MS {
                        u64::MAX
                    } else {
                        (now + SPLIT_TIMEOUT_MS) as u64
                    }) && (if has_assembly(old(self).pending@, body.seqnum) {
                        i == assembly_index(old(self).pending@, body.seqnum)
                            && final(self).pending@ == old(self).pending@.update(
                            i,
                            (body.seqnum, final(self).pending@[i].1),
                        )
                    } else {
                        final(self).pending@ == old(self).pending@.insert(
                            i,
                            (body.seqnum, final(self).pending@[i].1),
                        )
                    }))
            }),
    {
        if body.chunk_num >= body.chunk_count {
            return Err(DeserializeError::InvalidValue);
        }
        // Find or create the assembly for this split sequence number.
        let ghost pre = *self;
        let mut idx: Option<usize> = None;
        let mut i: usize = 0;
        while i < self.pending.len()
            invariant
                *self == pre,
                i <= self.pending@.len(),
                idx matches Some(j) ==> j < self.pending@.len() && self.pending@[j as int].0
                    == body.seqnum,
                idx is None ==> forall|j: int|
                    0 <= j < i ==> (#[trigger] self.pending@[j]).0 != body.seqnum,
            decreases self.pending@.len() - i,
        {
            if self.pending[i].0 == body.seqnum {
                idx = Some(i);
            }
            i = i + 1;
        }
        let ghost sq = body.seqnum;
        proof {
            match idx {
                Some(j) => {
                    assert(has_assembly(pre.pending@, sq));
                    let ai = assembly_index(pre.pending@, sq);
                    assert(0 <= ai < pre.pending@.len() && pre.pending@[ai].0 == sq);
                    if ai < j as int {
                        assert(pre.pending@[ai].0 < pre.pending@[j as int].0);
                    } else if ai > j as int {
                        assert(pre.pending@[j as int].0 < pre.pending@[ai].0);
                    }
                    assert(ai == j as int);
                },
                None => {
                    assert(!has_assembly(pre.pending@, sq));
                    assert(assembly_chunks(pre.pending@, sq) =~= Seq::<(u16, Vec<u8>)>::empty());
                },
            }
        }
        let at: usize = match idx {
            Some(j) => j,
            None => {
                // First sight of this group: make an empty assembly, keeping
                // the table sorted by sequence number.
                let fresh = IncomingBuffer {
                    chunk_count: body.chunk_count,
                    chunks: Vec::new(),
                    timeout: now,
                };
                let mut k: usize = 0;
                while k < self.pending.len() && self.pending[k].0 < body.seqnum
                    invariant
                        *self == pre,
                        k <= self.pending@.len(),
                        forall|j: int| 0 <= j < k ==> (#[trigger] self.pending@[j]).0 < body.seqnum,
                        forall|j: int|
                            0 <= j < self.pending@.len() ==> (#[trigger] self.pending@[j]).0
                                != body.seqnum,
                    decreases self.pending@.len() - k,
                {
                    k = k + 1;
                }
                self.pending.insert(k, (body.seqnum, fresh));
                proof {
                    assert(self.pending@ == pre.pending@.insert(k as int, (body.seqnum, fresh)));
                    assert forall|a: int, b: int|
                        0 <= a < b < self.pending@.len() implies (#[trigger] self.pending@[a]).0
                        < (#[trigger] self.pending@[b]).0 by {
                        if b < k {
                        } else if a < k && b == k {
                        } else if a < k && b > k {
                            assert(self.pending@[b] == pre.pending@[b - 1]);
                        } else if a == k {
                            assert(self.pending@[b] == pre.pending@[b - 1]);
                            assert(pre.pending@[b - 1].0 != body.seqnum);
                            assert(pre.pending@[b - 1].0 >= body.seqnum);
                        } else {
                            assert(self.pending@[a] == pre.pending@[a - 1]);
                            assert(self.pending@[b] == pre.pending@[b - 1]);
                        }
                    }
                }
                k
            },
        };
        // Validate against the assembly and store the chunk.
        if self.pending[at].1.chunk_count != body.chunk_count {
            return Err(DeserializeError::InvalidValue);
        }
        let ghost mid = *self;
        let ghost prior = assembly_chunks(pre.pending@, sq);
        proof {
            assert(mid.pending@[at as int].1.chunks@ == prior);
        }
        let done = {
            let entry = &mut self.pending[at].1;
            entry.timeout = if now > u64::MAX - SPLIT_TIMEOUT_MS {
                u64::MAX
            } else {
                now + SPLIT_TIMEOUT_MS
            };
            insert_chunk(entry, body.chunk_num, body.chunk_data);
            entry.chunks.len() == entry.chunk_count as usize
        };
        proof {
            assert(self.pending@ =~= mid.pending@.update(
                at as int,
                (sq, self.pending@[at as int].1),
            ));
            assert(self.pending@[at as int].1.chunks@ == store_chunk(
                prior,
                body.chunk_num,
                body.chunk_data,
            ));
            assert forall|a: int, b: int|
                0 <= a < b < self.pending@.len() implies (#[trigger] self.pending@[a]).0
                < (#[trigger] self.pending@[b]).0 by {
                assert(mid.pending@[a].0 == self.pending@[a].0);
                assert(mid.pending@[b].0 == self.pending@[b].0);
            }
        }
        if done {
            let ghost upd = *self;
            let (_, finished) = self.pending.remove(at);
            proof {
                assert(self.pending@ == upd.pending@.remove(at as int));
                assert forall|a: int, b: int|
                    0 <= a < b < self.pending@.len() implies (#[trigger] self.pending@[a]).0
                    < (#[trigger] self.pending@[b]).0 by {
                    let p = self.pending@;
                    let q = upd.pending@;
                    if b < at {
                    } else if a < at {
                        assert(p[b] == q[b + 1]);
                    } else {
                        assert(p[a] == q[a + 1]);
                        assert(p[b] == q[b + 1]);
                    }
                }
                if has_assembly(pre.pending@, sq) {
                    // The updated entry sat where the old one did; removing
                    // it removes the old entry.
                    assert(self.pending@ =~= pre.pending@.remove(at as int));
                } else {
                    // Fresh entry inserted at `at` and removed again.
                    assert(self.pending@ =~= pre.pending@);
                }
                assert forall|j: int|
                    0 <= j < self.pending@.len() implies (#[trigger] self.pending@[j]).0 != sq by {
                    if has_assembly(pre.pending@, sq) {
                        let q = pre.pending@;
                        if j < at {
                            assert(q[j].0 < q[at as int].0);
                        } else {
                            assert(self.pending@[j] == q[j + 1]);
                            assert(q[at as int].0 < q[j + 1].0);
                        }
                    } else {
                        assert(!has_assembly(pre.pending@, sq));
                        assert(pre.pending@[j].0 != sq);
                    }
                }
            }
            let data = concat_buffer(&finished);
            Ok(Some(data))
        } else {
            proof {
                let entry = self.pending@[at as int].1;
                assert(entry.chunks@.len() != body.chunk_count);
                if entry.chunks@.len() > body.chunk_count {
                    lemma_chunk_key_floor(entry.chunks@, body.chunk_count as int);
                    assert(entry.chunks@[body.chunk_count as int].0 < entry.chunk_count);
                }
                assert(entry.chunks@.len() < body.chunk_count);
                assert(self.pending@[at as int].0 == sq);
                if has_assembly(pre.pending@, sq) {
                    assert(self.pending@ =~= pre.pending@.update(at as int, (sq, entry)));
                } else {
                    assert(self.pending@ =~= pre.pending@.insert(at as int, (sq, entry)));
                }
            }
            Ok(None)
        }
    }
}

/// Store one chunk in an assembly, keeping chunk numbers ascending; a
/// repeated chunk number overwrites the earlier copy.
fn insert_chunk(entry: &mut IncomingBuffer, num: u16, data: Vec<u8>)
    requires
        old(entry).wf(),
        num < old(entry).chunk_count,
    ensures
        final(entry).wf(),
        final(entry).chunk_count == old(entry).chunk_count,
        final(entry).timeout == old(entry).timeout,
        final(entry).chunks@ == store_chunk(old(entry).chunks@, num, data),
        final(entry).chunks@.len() <= old(entry).chunks@.len() + 1,
        final(entry).chunks@.len() >= old(entry).chunks@.len(),
{
    let ghost pre = *entry;
    let mut i: usize = 0;
    while i < entry.chunks.len() && entry.chunks[i].0 < num
        invariant
            *entry == pre,
            i <= entry.chunks@.len(),
            forall|j: int| 0 <= j < i ==> (#[trigger] entry.chunks@[j]).0 < num,
        decreases entry.chunks@.len() - i,
    {
        i = i + 1;
    }
    proof {
        lemma_store_at(pre.chunks@, num, data, i as int);
    }
    if i < entry.chunks.len() && entry.chunks[i].0 == num {
        entry.chunks.set(i, (num, data));
        proof {
            assert(entry.chunks@ == pre.chunks@.update(i as int, (num, data)));
            assert(entry.chunks@[i as int] == (num, data));
            assert forall|a: int, b: int|
                0 <= a < b < entry.chunks@.len() implies (#[trigger] entry.chunks@[a]).0
                < (#[trigger] entry.chunks@[b]).0 by {
                assert(pre.chunks@[a].0 == entry.chunks@[a].0 || a == i);
                assert(pre.chunks@[b].0 == entry.chunks@[b].0 || b == i);
            }
        }
    } else {
        entry.chunks.insert(i, (num, data));
        proof {
            assert(entry.chunks@ == pre.chunks@.insert(i as int, (num, data)));
            assert(entry.chunks@[i as int] == (num, data));
            assert forall|a: int, b: int|
                0 <= a < b < entry.chunks@.len() implies (#[trigger] entry.chunks@[a]).0
                < (#[trigger] entry.chunks@[b]).0 by {
                if b < i {
                } else if a < i && b == i {
                } else if a < i && b > i {
                    assert(entry.chunks@[b] == pre.chunks@[b - 1]);
                } else if a == i {
                    assert(entry.chunks@[b] == pre.chunks@[b - 1]);
                    assert(pre.chunks@[b - 1].0 != num);
                    assert(pre.chunks@[b - 1].0 >= num);
                } else {
                    assert(entry.chunks@[a] == pre.chunks@[a - 1]);
                    assert(entry.chunks@[b] == pre.chunks@[b - 1]);
                }
            }
        }
    }
}

/// Concatenate an assembly's chunks in order.
fn concat_buffer(entry: &IncomingBuffer) -> (r: Vec<u8>)
    ensures
        r@ == concat_chunks(entry.chunks@),
{
    let mut out: Vec<u8> = Vec::new();
    let mut i: usize = 0;
    while i < entry.chunks.len()
        invariant
            i <= entry.chunks@.len(),
            out@ == concat_prefix(entry.chunks@, i as int),
        decreases entry.chunks@.len() - i,
    {
        proof {
            lemma_concat_prefix_step(entry.chunks@, i as int);
        }
        out.extend_from_slice(entry.chunks[i].1.as_slice());
        i = i + 1;
    }
    proof {
        lemma_concat_prefix_all(entry.chunks@);
    }
    out
}

/// The concatenation of the first `n` chunks.
pub open spec fn concat_prefix(s: Seq<(u16, Vec<u8>)>, n: int) -> Seq<u8>
    decreases n,
{
    if n <= 0 {
        Seq::empty()
    } else {
        concat_prefix(s, n - 1) + s[n - 1].1@
    }
}

proof fn lemma_concat_prefix_step(s: Seq<(u16, Vec<u8>)>, i: int)
    requires
        0 <= i < s.len(),
    ensures
        concat_prefix(s, i + 1) == concat_prefix(s, i) + s[i].1@,
{
}

/// The full prefix concatenation equals the chunk concatenation.
proof fn lemma_concat_prefix_all(s: Seq<(u16, Vec<u8>)>)
    ensures
        concat_prefix(s, s.len() as int) == concat_chunks(s),
    decreases s.len(),
{
    if s.len() == 0 {
        assert(concat_prefix(s, 0) =~= concat_chunks(s));
    } else {
        lemma_concat_prefix_all(s.skip(1));
        lemma_concat_prefix_shift(s, s.len() as int);
        assert(concat_prefix(s, s.len() as int) =~= s[0].1@ + concat_chunks(s.skip(1)));
    }
}

/// Prefix concatenations commute with dropping the head.
proof fn lemma_concat_prefix_shift(s: Seq<(u16, Vec<u8>)>, n: int)
    requires
        1 <= n <= s.len(),
    ensures
        concat_prefix(s, n) == s[0].1@ + concat_prefix(s.skip(1), n - 1),
    decreases n,
{
    if n == 1 {
        assert(concat_prefix(s, 0) == Seq::<u8>::empty());
        assert(concat_prefix(s.skip(1), 0) == Seq::<u8>::empty());
        assert(concat_prefix(s, 1) =~= s[0].1@ + concat_prefix(s.skip(1), 0));
    } else {
        lemma_concat_prefix_shift(s, n - 1);
        assert(s.skip(1)[n - 2] == s[n - 1]);
        assert(concat_prefix(s, n) =~= s[0].1@ + concat_prefix(s.skip(1), n - 1));
    }
}

} // verus!
