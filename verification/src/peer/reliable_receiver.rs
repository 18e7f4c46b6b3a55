//! In-order delivery of reliable bodies: 16-bit wrapping sequence numbers
//! are lifted to 64-bit absolute ids; bodies from the future wait in an
//! ordered buffer until every earlier body has been delivered.

use vstd::prelude::*;

use std::collections::BTreeMap;

use crate::peer::util::abs_key;
use crate::peer::util::rel_to_abs;
use crate::wire::packet::InnerBody;
use crate::wire::packet::ReliableBody;
use crate::wire::packet::SEQNUM_INITIAL;

verus! {

broadcast use vstd::std_specs::btree::group_btree_axioms, vstd::laws_cmp::group_laws_cmp;

/// Largest value `next_seqnum` may take, leaving room to lift a wrapping
/// counter around it without overflowing.
pub const SEQNUM_LIMIT: u64 = 0xFFFF_FFFF_FFFF_0000;

pub struct ReliableReceiver {
    /// Absolute id of the next body owed to the application.
    pub next_seqnum: u64,
    /// Bodies received out of order, keyed by absolute id.
    pub buffer: BTreeMap<u64, InnerBody>,
}

impl ReliableReceiver {
    /// The receiver's invariant: no buffered id is earlier than the next id
    /// owed to the application.
    pub open spec fn wf(self) -> bool {
        &&& 32768 <= self.next_seqnum <= SEQNUM_LIMIT
        &&& forall|k: u64| #[trigger] self.buffer@.contains_key(k) ==> k >= self.next_seqnum
    }

    pub fn new() -> (r: Self)
        ensures
            r.wf(),
            r.next_seqnum == SEQNUM_INITIAL as u64,
            r.buffer@ == Map::<u64, InnerBody>::empty(),
    {
        ReliableReceiver { next_seqnum: SEQNUM_INITIAL as u64, buffer: BTreeMap::new() }
    }

    /// Push a reliable body received from the remote. The body's wrapping
    /// sequence number is lifted to the absolute id nearest `next_seqnum`;
    /// ids already delivered or already buffered are dropped, everything
    /// else is buffered, first writer wins.
    pub fn push(&mut self, body: ReliableBody)
        requires
            old(self).wf(),
        ensures
            final(self).wf(),
            final(self).next_seqnum == old(self).next_seqnum,
            ({
                let k = abs_key(old(self).next_seqnum, body.seqnum);
                if k < old(self).next_seqnum || old(self).buffer@.contains_key(k) {
                    final(self).buffer@ == old(self).buffer@
                } else {
                    final(self).buffer@ == old(self).buffer@.insert(k, body.inner)
                }
            }),
    {
        let seqnum = rel_to_abs(self.next_seqnum, body.seqnum);
        if seqnum < self.next_seqnum {
            // Already delivered: a duplicate of the past. Drop it.
            return ;
        }
        if self.buffer.contains_key(&seqnum) {
            // Already buffered: first writer wins.
            return ;
        }
        self.buffer.insert(seqnum, body.inner);
    }

    /// Deliver the next body in absolute-id order, if it has arrived. After
    /// a pop that returns nothing, every buffered id is strictly greater
    /// than `next_seqnum`: the stream has no body to deliver yet.
    pub fn pop(&mut self) -> (r: Option<InnerBody>)
        requires
            old(self).wf(),
        ensures
            final(self).wf(),
            ({
                if old(self).buffer@.contains_key(old(self).next_seqnum) && old(self).next_seqnum
                    < SEQNUM_LIMIT {
                    r == Some(old(self).buffer@[old(self).next_seqnum]) && final(self).buffer@
                        == old(self).buffer@.remove(old(self).next_seqnum)
                        && final(self).next_seqnum == old(self).next_seqnum + 1
                } else {
                    r is None && final(self).buffer@ == old(self).buffer@ && final(
                        self).next_seqnum == old(self).next_seqnum
                }
            }),
            r is None ==> final(self).next_seqnum >= SEQNUM_LIMIT || (forall|k: u64|
                #[trigger] final(self).buffer@.contains_key(k) ==> k > final(self).next_seqnum),
    {
        if self.next_seqnum >= SEQNUM_LIMIT {
            return None;
        }
        proof {
            assert(vstd::laws_cmp::obeys_cmp::<u64>());
        }
        let ghost pre = *self;
        match self.buffer.remove(&self.next_seqnum) {
            Some(body) => {
                proof {
                    assert(self.buffer@ == pre.buffer@.remove(pre.next_seqnum));
                    assert(pre.buffer@.contains_key(pre.next_seqnum));
                    assert(body == pre.buffer@[pre.next_seqnum]);
                }
                self.next_seqnum = self.next_seqnum + 1;
                Some(body)
            },
            None => {
                proof {
                    assert(!pre.buffer@.contains_key(pre.next_seqnum));
                    assert(self.buffer@ == pre.buffer@.remove(pre.next_seqnum));
                    assert(self.buffer@ =~= pre.buffer@);
                }
                None
            },
        }
    }
}

} // verus!
