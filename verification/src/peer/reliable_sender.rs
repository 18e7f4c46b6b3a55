//! The sliding-window send queue: bodies queue until the window admits
//! them, stay buffered until acknowledged, and are retransmitted on fixed
//! deadlines until then.

use vstd::prelude::*;

use std::rc::Rc;

use crate::peer::util::abs_key;
use crate::peer::util::rel_to_abs;
use crate::wire::packet::AckBody;
use crate::wire::packet::InnerBody;
use crate::wire::packet::PacketBody;
use crate::wire::packet::ReliableBody;
use crate::wire::packet::SEQNUM_INITIAL;

verus! {

/// Largest value `next_seqnum` may take, leaving room to lift a wrapping
/// counter around any in-flight id without overflowing.
pub const SEND_SEQNUM_LIMIT: u64 = 0xFFFF_FFFF_FFFF_0000;

pub const START_RELIABLE_WINDOW_SIZE: u16 = 1024;

pub const MIN_RELIABLE_WINDOW_SIZE: u16 = 64;

pub const MAX_RELIABLE_WINDOW_SIZE: u16 = 32768;

pub const RESEND_TIMEOUT_START_MS: u64 = 500;

/// Timers within this many milliseconds of each other fire together.
pub const RESEND_RESOLUTION_MS: u64 = 20;

pub struct ReliableSender {
    /// The next reliable sequence number to assign.
    pub next_seqnum: u64,
    pub window_size: u16,
    /// Bodies pushed but never yet transmitted, in push order.
    pub queued: Vec<(u64, Rc<PacketBody>)>,
    /// Bodies transmitted and not yet acknowledged, keyed ascending.
    pub buffer: Vec<(u64, Rc<PacketBody>)>,
    /// Retransmit timers `(deadline, id)`, sorted, possibly stale.
    pub timeouts: Vec<(u64, u64)>,
    pub resend_timeout: u64,
}

/// Whether an id is still in flight.
pub open spec fn key_in_buffer(buf: Seq<(u64, Rc<PacketBody>)>, k: u64) -> bool {
    exists|i: int| 0 <= i < buf.len() && (#[trigger] buf[i]).0 == k
}

/// Position of the first timer whose id is still in flight; timers before
/// it are stale. Equals the length when every timer is stale.
pub open spec fn first_live(ts: Seq<(u64, u64)>, buf: Seq<(u64, Rc<PacketBody>)>) -> int
    decreases ts.len(),
{
    if ts.len() == 0 {
        0
    } else if key_in_buffer(buf, ts[0].1) {
        0
    } else {
        1 + first_live(ts.skip(1), buf)
    }
}

/// The first-live position sits within the timer table.
pub proof fn lemma_first_live_range(ts: Seq<(u64, u64)>, buf: Seq<(u64, Rc<PacketBody>)>)
    ensures
        0 <= first_live(ts, buf) <= ts.len(),
    decreases ts.len(),
{
    if ts.len() > 0 && !key_in_buffer(buf, ts[0].1) {
        lemma_first_live_range(ts.skip(1), buf);
    }
}

/// The deadline a (re)transmission at `now` is armed with.
pub open spec fn resched_deadline(now: u64) -> u64 {
    if now > u64::MAX - RESEND_TIMEOUT_START_MS {
        u64::MAX
    } else {
        (now + RESEND_TIMEOUT_START_MS) as u64
    }
}

impl ReliableSender {
    /// The sender's invariant. In particular: in-flight ids are ascending
    /// and span less than `window_size`, queued ids are ascending and all
    /// later than anything in flight, and both stay below the next id.
    pub open spec fn wf(self) -> bool {
        &&& 65500 <= self.next_seqnum <= SEND_SEQNUM_LIMIT
        &&& MIN_RELIABLE_WINDOW_SIZE <= self.window_size <= MAX_RELIABLE_WINDOW_SIZE
        &&& forall|i: int, j: int|
            0 <= i < j < self.buffer@.len() ==> #[trigger] self.buffer@[i].0
                < #[trigger] self.buffer@[j].0
        &&& forall|i: int|
            0 <= i < self.buffer@.len() ==> 65500 <= #[trigger] self.buffer@[i].0
                < self.next_seqnum
        &&& forall|i: int|
            0 <= i < self.buffer@.len() ==> #[trigger] self.buffer@[i].0 < self.buffer@[0].0
                + self.window_size
        &&& forall|i: int, j: int|
            0 <= i < j < self.queued@.len() ==> #[trigger] self.queued@[i].0
                < #[trigger] self.queued@[j].0
        &&& forall|i: int|
            0 <= i < self.queued@.len() ==> 65500 <= #[trigger] self.queued@[i].0
                < self.next_seqnum
        &&& forall|i: int, j: int|
            0 <= i < self.buffer@.len() && 0 <= j < self.queued@.len()
                ==> #[trigger] self.buffer@[i].0 < #[trigger] self.queued@[j].0
        &&& forall|i: int, j: int|
            0 <= i < j < self.timeouts@.len() ==> (#[trigger] self.timeouts@[i]).0
                < (#[trigger] self.timeouts@[j]).0 || (self.timeouts@[i].0 == self.timeouts@[j].0
                && self.timeouts@[i].1 < self.timeouts@[j].1)
        &&& self.resend_timeout == RESEND_TIMEOUT_START_MS
    }

    pub fn new() -> (r: Self)
        ensures
            r.wf(),
            r.next_seqnum == SEQNUM_INITIAL as u64,
            r.window_size == START_RELIABLE_WINDOW_SIZE,
            r.queued@.len() == 0,
            r.buffer@.len() == 0,
            r.timeouts@.len() == 0,
    {
        ReliableSender {
            next_seqnum: SEQNUM_INITIAL as u64,
            window_size: START_RELIABLE_WINDOW_SIZE,
            queued: Vec::new(),
            buffer: Vec::new(),
            timeouts: Vec::new(),
            resend_timeout: RESEND_TIMEOUT_START_MS,
        }
    }

    /// Queue a body for reliable transmission: it is wrapped in a reliable
    /// envelope under the next sequence number. Once the id space is
    /// exhausted the push is dropped.
    pub fn push(&mut self, body: InnerBody)
        requires
            old(self).wf(),
        ensures
            final(self).wf(),
            old(self).next_seqnum < SEND_SEQNUM_LIMIT ==> ({
                &&& final(self).queued@ == old(self).queued@.push(
                    (
                        old(self).next_seqnum,
                        Rc::new(
                            PacketBody::Reliable(
                                ReliableBody {
                                    seqnum: (old(self).next_seqnum % 65536) as u16,
                                    inner: body,
                                },
                            ),
                        ),
                    ),
                )
                &&& final(self).next_seqnum == old(self).next_seqnum + 1
                &&& final(self).buffer@ == old(self).buffer@
                &&& final(self).timeouts@ == old(self).timeouts@
            }),
            old(self).next_seqnum >= SEND_SEQNUM_LIMIT ==> *final(self) == *old(self),
    {
        if self.next_seqnum >= SEND_SEQNUM_LIMIT {
            return ;
        }
        let seqnum = self.next_seqnum;
        let pb = PacketBody::Reliable(
            ReliableBody { seqnum: (seqnum % 65536) as u16, inner: body },
        );
        self.queued.push((seqnum, Rc::new(pb)));
        self.next_seqnum = self.next_seqnum + 1;
    }

    /// Process an acknowledgement: the acked wrapping number is lifted
    /// around the oldest in-flight id, and that entry leaves the buffer.
    pub fn process_ack(&mut self, ack: AckBody)
        requires
            old(self).wf(),
        ensures
            final(self).wf(),
            final(self).next_seqnum == old(self).next_seqnum,
            final(self).window_size == old(self).window_size,
            final(self).queued@ == old(self).queued@,
            final(self).timeouts@ == old(self).timeouts@,
            old(self).buffer@.len() == 0 ==> final(self).buffer@ == old(self).buffer@,
            old(self).buffer@.len() > 0 ==> ({
                let k = abs_key(old(self).buffer@[0].0, ack.seqnum);
                (exists|i: int|
                    0 <= i < old(self).buffer@.len() && old(self).buffer@[i].0 == k
                        && final(self).buffer@ == old(self).buffer@.remove(i)) || ((forall|i: int|
                    0 <= i < old(self).buffer@.len() ==> #[trigger] old(self).buffer@[i].0 != k)
                    && final(self).buffer@ == old(self).buffer@)
            }),
    {
        if self.buffer.len() == 0 {
            return ;
        }
        let base = self.buffer[0].0;
        let seqnum = rel_to_abs(base, ack.seqnum);
        let ghost pre = *self;
        let mut i: usize = 0;
        while i < self.buffer.len()
            invariant
                *self == pre,
                pre == *old(self),
                old(self).wf(),
                old(self).buffer@.len() > 0,
                seqnum == abs_key(old(self).buffer@[0].0, ack.seqnum),
                i <= self.buffer@.len(),
                forall|j: int| 0 <= j < i ==> #[trigger] self.buffer@[j].0 != seqnum,
            decreases self.buffer@.len() - i,
        {
            if self.buffer[i].0 == seqnum {
                self.buffer.remove(i);
                proof {
                    assert(self.buffer@ == pre.buffer@.remove(i as int));
                    assert forall|a: int, b: int|
                        0 <= a < b < self.buffer@.len() implies #[trigger] self.buffer@[a].0
                        < #[trigger] self.buffer@[b].0 by {
                        if b < i {
                            assert(pre.buffer@[a].0 < pre.buffer@[b].0);
                        } else if a < i {
                            assert(pre.buffer@[a].0 < pre.buffer@[b + 1].0);
                        } else {
                            assert(pre.buffer@[a + 1].0 < pre.buffer@[b + 1].0);
                        }
                    }
                    assert forall|a: int|
                        0 <= a < self.buffer@.len() implies #[trigger] self.buffer@[a].0
                        < self.buffer@[0].0 + self.window_size by {
                        if i == 0 {
                            assert(self.buffer@[a] == pre.buffer@[a + 1]);
                            assert(pre.buffer@[0].0 < pre.buffer@[1].0 || pre.buffer@.len() == 1);
                        } else {
                            assert(self.buffer@[0] == pre.buffer@[0]);
                        }
                    }
                }
                return ;
            }
            i = i + 1;
        }
    }

    /// The soonest retransmission deadline, padded by the resolution so
    /// near-simultaneous timers fire together.
    pub fn next_timeout(&self) -> (r: Option<u64>)
        requires
            self.wf(),
        ensures
            self.timeouts@.len() == 0 <==> r is None,
            self.timeouts@.len() > 0 ==> r == Some(
                (self.timeouts@[0].0 + RESEND_RESOLUTION_MS) as u64,
            ) || (self.timeouts@[0].0 > u64::MAX - RESEND_RESOLUTION_MS && r == Some(u64::MAX)),
    {
        if self.timeouts.len() > 0 {
            let d = self.timeouts[0].0;
            if d > u64::MAX - RESEND_RESOLUTION_MS {
                Some(u64::MAX)
            } else {
                Some(d + RESEND_RESOLUTION_MS)
            }
        } else {
            None
        }
    }

    /// Insert a timer, keeping the set sorted and duplicate-free.
    fn insert_timeout(&mut self, deadline: u64, seqnum: u64)
        requires
            old(self).wf(),
        ensures
            final(self).wf(),
            final(self).next_seqnum == old(self).next_seqnum,
            final(self).queued@ == old(self).queued@,
            final(self).buffer@ == old(self).buffer@,
            final(self).window_size == old(self).window_size,
            forall|e: (u64, u64)|
                final(self).timeouts@.contains(e) <==> (old(self).timeouts@.contains(e) || e == (
                deadline,
                seqnum,
                )),
    {
        let ghost pre = *self;
        let mut i: usize = 0;
        while i < self.timeouts.len() && (self.timeouts[i].0 < deadline || (self.timeouts[i].0
            == deadline && self.timeouts[i].1 < seqnum))
            invariant
                *self == pre,
                i <= self.timeouts@.len(),
                forall|j: int|
                    0 <= j < i ==> (#[trigger] self.timeouts@[j]).0 < deadline || (
                    self.timeouts@[j].0 == deadline && self.timeouts@[j].1 < seqnum),
            decreases self.timeouts@.len() - i,
        {
            i = i + 1;
        }
        if i < self.timeouts.len() && self.timeouts[i].0 == deadline && self.timeouts[i].1
            == seqnum {
            proof {
                assert(pre.timeouts@[i as int] == (deadline, seqnum));
                assert(pre.timeouts@.contains((deadline, seqnum)));
            }
            return ;
        }
        self.timeouts.insert(i, (deadline, seqnum));
        proof {
            assert(self.timeouts@ == pre.timeouts@.insert(i as int, (deadline, seqnum)));
            assert forall|a: int, b: int|
                0 <= a < b < self.timeouts@.len() implies (#[trigger] self.timeouts@[a]).0
                < (#[trigger] self.timeouts@[b]).0 || (self.timeouts@[a].0 == self.timeouts@[b].0
                && self.timeouts@[a].1 < self.timeouts@[b].1) by {
                if b < i {
                    assert(pre.timeouts@[a] == self.timeouts@[a]);
                    assert(pre.timeouts@[b] == self.timeouts@[b]);
                } else if a < i && b == i {
                    assert(pre.timeouts@[a] == self.timeouts@[a]);
                } else if a < i && b > i {
                    assert(self.timeouts@[b] == pre.timeouts@[b - 1]);
                } else if a == i {
                    assert(self.timeouts@[b] == pre.timeouts@[b - 1]);
                } else {
                    assert(self.timeouts@[a] == pre.timeouts@[a - 1]);
                    assert(self.timeouts@[b] == pre.timeouts@[b - 1]);
                }
            }
            assert(self.timeouts@[i as int] == (deadline, seqnum));
            assert(self.timeouts@.contains((deadline, seqnum)));
            assert forall|e: (u64, u64)| #[trigger] self.timeouts@.contains(e) implies (
            pre.timeouts@.contains(e) || e == (deadline, seqnum)) by {
                let j = choose|j: int| 0 <= j < self.timeouts@.len() && self.timeouts@[j] == e;
                if j < i {
                    assert(pre.timeouts@[j] == e);
                } else if j > i {
                    assert(pre.timeouts@[j - 1] == e);
                }
            }
            assert forall|e: (u64, u64)| #[trigger] pre.timeouts@.contains(
                e,
            ) implies self.timeouts@.contains(e) by {
                let j = choose|j: int| 0 <= j < pre.timeouts@.len() && pre.timeouts@[j] == e;
                if j < i {
                    assert(self.timeouts@[j] == e);
                } else {
                    assert(self.timeouts@[j + 1] == e);
                }
            }
        }
    }

    /// Pop one body for immediate transmission: an expired retransmission
    /// first, else the next queued body if the window admits it. A `None`
    /// with work still queued means the window is exactly full and no
    /// retransmission is due.
    pub fn pop(&mut self, now: u64) -> (r: Option<Rc<PacketBody>>)
        requires
            old(self).wf(),
        ensures
            final(self).wf(),
            final(self).next_seqnum == old(self).next_seqnum,
            final(self).window_size == old(self).window_size,
            r matches Some(b) ==> exists|i: int|
                0 <= i < final(self).buffer@.len() && #[trigger] final(self).buffer@[i].1 == b,
            ({
                let m = first_live(old(self).timeouts@, old(self).buffer@);
                let due = m < old(self).timeouts@.len() && old(self).timeouts@[m].0 <= now;
                &&& (due ==> (r matches Some(b) && final(self).queued@ == old(self).queued@
                    && final(self).buffer@ == old(self).buffer@ && (exists|i: int|
                    0 <= i < old(self).buffer@.len() && #[trigger] old(self).buffer@[i] == (
                    old(self).timeouts@[m].1,
                    b,
                    )) && (forall|e: (u64, u64)|
                    final(self).timeouts@.contains(e) <==> (old(self).timeouts@.skip(
                        m + 1,
                    ).contains(e) || e == (resched_deadline(now), old(self).timeouts@[m].1)))))
                &&& (!due && old(self).queued@.len() > 0 && (old(self).buffer@.len() == 0
                    || old(self).queued@[0].0 < old(self).buffer@[0].0 + old(self).window_size)
                    ==> (r matches Some(b) && b == old(self).queued@[0].1
                    && final(self).queued@ == old(self).queued@.skip(1)
                    && final(self).buffer@ == old(self).buffer@.push(old(self).queued@[0]) && (
                forall|e: (u64, u64)|
                    final(self).timeouts@.contains(e) <==> (old(self).timeouts@.skip(m).contains(e)
                        || e == (resched_deadline(now), old(self).queued@[0].0)))))
                &&& (!due && !(old(self).queued@.len() > 0 && (old(self).buffer@.len() == 0
                    || old(self).queued@[0].0 < old(self).buffer@[0].0 + old(self).window_size))
                    ==> (r is None && final(self).queued@ == old(self).queued@
                    && final(self).buffer@ == old(self).buffer@
                    && final(self).timeouts@ == old(self).timeouts@.skip(m)))
            }),
    {
        proof {
            lemma_first_live_range(self.timeouts@, self.buffer@);
        }
        let resend = self.pop_resend(now);
        match resend {
            Some(b) => {
                proof {
                    let m = first_live(old(self).timeouts@, old(self).buffer@);
                    let i = choose|i: int|
                        0 <= i < old(self).buffer@.len() && #[trigger] old(self).buffer@[i] == (
                        old(self).timeouts@[m].1,
                        b,
                        );
                    assert(self.buffer@[i].1 == b);
                }
                Some(b)
            },
            None => {
                let r2 = self.pop_queued(now);
                proof {
                    if r2 is Some {
                        assert(self.buffer@[self.buffer@.len() - 1].1 == r2->0);
                    }
                }
                r2
            },
        }
    }

    /// Pop the next queued body if the window admits it, moving it into
    /// the in-flight buffer and arming its retransmission timer.
    fn pop_queued(&mut self, now: u64) -> (r: Option<Rc<PacketBody>>)
        requires
            old(self).wf(),
        ensures
            final(self).wf(),
            final(self).next_seqnum == old(self).next_seqnum,
            final(self).window_size == old(self).window_size,
            r matches Some(b) ==> old(self).queued@.len() > 0 && b == old(self).queued@[0].1 && (
            old(self).buffer@.len() == 0
                || old(self).queued@[0].0 < old(self).buffer@[0].0 + old(self).window_size)
                && final(self).queued@ == old(self).queued@.skip(1)
                && final(self).buffer@ == old(self).buffer@.push(old(self).queued@[0]) && (forall|
                e: (u64, u64),
            |
                final(self).timeouts@.contains(e) <==> (old(self).timeouts@.contains(e) || e == (
                resched_deadline(now),
                old(self).queued@[0].0,
                ))),
            r is None ==> *final(self) == *old(self) && (old(self).queued@.len() > 0
                ==> old(self).buffer@.len() > 0
                && old(self).queued@[0].0 >= old(self).buffer@[0].0 + old(self).window_size),
    {
        if self.queued.len() == 0 {
            return None;
        }
        let seqnum = self.queued[0].0;
        if self.buffer.len() > 0 {
            let oldest = self.buffer[0].0;
            if seqnum >= oldest + (self.window_size as u64) {
                return None;
            }
        }
        let (k, body) = self.queued.remove(0);
        proof {
            assert(self.queued@ =~= old(self).queued@.skip(1));
        }
        let ghost mid = *self;
        self.buffer.push((k, Rc::clone(&body)));
        proof {
            assert forall|a: int, b: int|
                0 <= a < b < self.buffer@.len() implies #[trigger] self.buffer@[a].0
                < #[trigger] self.buffer@[b].0 by {
                if b < self.buffer@.len() - 1 {
                    assert(old(self).buffer@[a].0 < old(self).buffer@[b].0);
                } else {
                    assert(old(self).queued@[0].0 == k);
                }
            }
            assert forall|a: int|
                0 <= a < self.buffer@.len() implies #[trigger] self.buffer@[a].0 < self.buffer@[0].0
                + self.window_size by {
                if old(self).buffer@.len() == 0 {
                    assert(self.buffer@.len() == 1);
                } else {
                    assert(self.buffer@[0] == old(self).buffer@[0]);
                }
            }
            assert forall|a: int, b: int|
                0 <= a < self.buffer@.len() && 0 <= b < self.queued@.len() implies (
            #[trigger] self.buffer@[a].0) < (#[trigger] self.queued@[b].0) by {
                assert(self.queued@[b] == old(self).queued@[b + 1]);
                if a < self.buffer@.len() - 1 {
                    assert(self.buffer@[a] == old(self).buffer@[a]);
                }
            }
        }
        let deadline = if now > u64::MAX - self.resend_timeout {
            u64::MAX
        } else {
            now + self.resend_timeout
        };
        proof {
            assert(self.buffer@[self.buffer@.len() - 1].1 == body);
        }
        self.insert_timeout(deadline, k);
        proof {
            assert(self.buffer@[self.buffer@.len() - 1].1 == body);
        }
        Some(body)
    }

    /// Pop an expired retransmission, discarding stale timers for ids that
    /// have been acknowledged since. The returned body is rescheduled.
    fn pop_resend(&mut self, now: u64) -> (r: Option<Rc<PacketBody>>)
        requires
            old(self).wf(),
        ensures
            final(self).wf(),
            final(self).next_seqnum == old(self).next_seqnum,
            final(self).window_size == old(self).window_size,
            final(self).queued@ == old(self).queued@,
            final(self).buffer@ == old(self).buffer@,
            ({
                let m = first_live(old(self).timeouts@, old(self).buffer@);
                if m == old(self).timeouts@.len() || old(self).timeouts@[m].0 > now {
                    // Nothing due: only the stale prefix is discarded.
                    r is None && final(self).timeouts@ == old(self).timeouts@.skip(m)
                } else {
                    // The first live timer is due: its body goes out again
                    // and a fresh deadline is armed for it.
                    r matches Some(b) && (exists|i: int|
                        0 <= i < old(self).buffer@.len() && #[trigger] old(self).buffer@[i] == (
                        old(self).timeouts@[m].1,
                        b,
                        )) && (forall|e: (u64, u64)|
                        final(self).timeouts@.contains(e) <==> (old(self).timeouts@.skip(
                            m + 1,
                        ).contains(e) || e == (resched_deadline(now), old(self).timeouts@[m].1)))
                }
            }),
        decreases old(self).timeouts@.len(),
    {
        if self.timeouts.len() == 0 {
            proof {
                assert(old(self).timeouts@.skip(0) =~= old(self).timeouts@);
            }
            return None;
        }
        let (expire_time, seqnum) = self.timeouts[0];
        // Is the id still in flight?
        let ghost pre = *self;
        let mut found: Option<usize> = None;
        let mut i: usize = 0;
        while i < self.buffer.len()
            invariant
                *self == pre,
                pre == *old(self),
                old(self).wf(),
                i <= self.buffer@.len(),
                found matches Some(j) ==> j < self.buffer@.len() && self.buffer@[j as int].0
                    == seqnum,
                found is None ==> forall|j: int|
                    0 <= j < i ==> #[trigger] self.buffer@[j].0 != seqnum,
            decreases self.buffer@.len() - i,
        {
            if self.buffer[i].0 == seqnum {
                found = Some(i);
            }
            i = i + 1;
        }
        match found {
            None => {
                // Already acknowledged: drop the stale timer and keep looking.
                proof {
                    assert(!key_in_buffer(old(self).buffer@, seqnum));
                }
                self.timeouts.remove(0);
                proof {
                    assert(self.timeouts@ == pre.timeouts@.remove(0));
                    assert(self.timeouts@ =~= pre.timeouts@.skip(1));
                    assert forall|a: int, b: int|
                        0 <= a < b < self.timeouts@.len() implies (#[trigger] self.timeouts@[a]).0
                        < (#[trigger] self.timeouts@[b]).0 || (self.timeouts@[a].0
                        == self.timeouts@[b].0 && self.timeouts@[a].1 < self.timeouts@[b].1) by {
                        assert(pre.timeouts@[a + 1] == self.timeouts@[a]);
                        assert(pre.timeouts@[b + 1] == self.timeouts@[b]);
                    }
                }
                let rec = self.pop_resend(now);
                proof {
                    let m1 = first_live(pre.timeouts@.skip(1), pre.buffer@);
                    lemma_first_live_range(pre.timeouts@.skip(1), pre.buffer@);
                    assert(first_live(pre.timeouts@, pre.buffer@) == 1 + m1);
                    assert(pre.timeouts@.skip(1).skip(m1) =~= pre.timeouts@.skip(1 + m1));
                    if m1 < pre.timeouts@.skip(1).len() {
                        assert(pre.timeouts@.skip(1)[m1] == pre.timeouts@[1 + m1]);
                        assert(pre.timeouts@.skip(1).skip(m1 + 1) =~= pre.timeouts@.skip(
                            1 + m1 + 1));
                    }
                }
                rec
            },
            Some(j) => {
                proof {
                    assert(key_in_buffer(old(self).buffer@, seqnum));
                    assert(first_live(old(self).timeouts@, old(self).buffer@) == 0);
                }
                if expire_time <= now {
                    // Due: reschedule and hand the body out again.
                    self.timeouts.remove(0);
                    proof {
                        assert(self.timeouts@ == pre.timeouts@.remove(0));
                        assert forall|a: int, b: int|
                            0 <= a < b < self.timeouts@.len() implies (
                        #[trigger] self.timeouts@[a]).0 < (#[trigger] self.timeouts@[b]).0 || (
                        self.timeouts@[a].0 == self.timeouts@[b].0 && self.timeouts@[a].1
                            < self.timeouts@[b].1) by {
                            assert(pre.timeouts@[a + 1] == self.timeouts@[a]);
                            assert(pre.timeouts@[b + 1] == self.timeouts@[b]);
                        }
                    }
                    let deadline = if now > u64::MAX - self.resend_timeout {
                        u64::MAX
                    } else {
                        now + self.resend_timeout
                    };
                    self.insert_timeout(deadline, seqnum);
                    let body = Rc::clone(&self.buffer[j].1);
                    proof {
                        assert(self.buffer@[j as int].1 == body);
                        assert(self.buffer@[j as int].0 == seqnum);
                        assert(pre.timeouts@.skip(1) =~= old(self).timeouts@.skip(1int));
                    }
                    Some(body)
                } else {
                    proof {
                        assert(old(self).timeouts@.skip(0) =~= old(self).timeouts@);
                    }
                    None
                }
            },
        }
    }
}

} // verus!
