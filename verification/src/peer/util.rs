//! Sequence-number arithmetic: 16-bit wrapping counters lifted to monotonic
//! 64-bit absolute ids.

use vstd::prelude::*;

verus! {

/// Distance from sequence number `a` to `b` on the 16-bit wrapping circle:
/// the unique `d` with `-32768 < d <= 32768` and `(a + d) % 65536 == b`.
pub fn relative_distance(a: u16, b: u16) -> (d: i64)
    ensures
        -32768 < d <= 32768,
        (a + d) % 65536 == b,
{
    let diff: u16 = b.wrapping_sub(a);
    if diff <= 32768 {
        assert((a + diff as i64) % 65536 == b) by (bit_vector)
            requires
                diff == b.wrapping_sub(a),
        ;
        diff as i64
    } else {
        assert((a + (diff as i64 - 65536)) % 65536 == b) by (bit_vector)
            requires
                diff == b.wrapping_sub(a) && diff > 32768,
        ;
        diff as i64 - 65536
    }
}

/// The distance in `relative_distance` is the only one in its range: two
/// offsets from one base that land on the same point of the circle are equal.
pub proof fn lemma_relative_distance_unique(a: u16, b: u16, d1: i64, d2: i64)
    requires
        -32768 < d1 <= 32768,
        -32768 < d2 <= 32768,
        (a + d1) % 65536 == b,
        (a + d2) % 65536 == b,
    ensures
        d1 == d2,
{
    assert(d1 == d2) by (bit_vector)
        requires
            -32768 < d1 <= 32768,
            -32768 < d2 <= 32768,
            (a + d1) % 65536 == b,
            (a + d2) % 65536 == b,
    ;
}

/// The absolute id that the wrapping counter `s` names, nearest to `base`:
/// the unique id congruent to `s` within `(base - 32768, base + 32768]`.
pub open spec fn abs_key(base: u64, s: u16) -> u64 {
    choose|k: u64| (#[trigger] (k % 65536)) == s && base - 32768 < k <= base + 32768
}

/// Two ids with the residue `s` inside one window of the circle are equal.
pub proof fn lemma_abs_key_unique(base: u64, s: u16, k1: u64, k2: u64)
    requires
        k1 % 65536 == s,
        base - 32768 < k1 <= base + 32768,
        k2 % 65536 == s,
        base - 32768 < k2 <= base + 32768,
    ensures
        k1 == k2,
{
    let m = 65536int;
    vstd::arithmetic::div_mod::lemma_fundamental_div_mod(k1 as int, m);
    vstd::arithmetic::div_mod::lemma_fundamental_div_mod(k2 as int, m);
    let q1 = k1 as int / m;
    let q2 = k2 as int / m;
    assert(k1 - k2 == m * (q1 - q2));
    assert(q1 == q2) by (nonlinear_arith)
        requires
            k1 - k2 == m * (q1 - q2),
            m == 65536,
            -65536 < k1 - k2 < 65536,
    ;
}

/// Lift the wrapping counter `seqnum` to the absolute id nearest `base`.
pub fn rel_to_abs(base: u64, seqnum: u16) -> (r: u64)
    requires
        32768 <= base,
        base + 32768 <= u64::MAX,
    ensures
        r % 65536 == seqnum,
        base - 32768 < r <= base + 32768,
        r == abs_key(base, seqnum),
{
    let d = relative_distance((base % 65536) as u16, seqnum);
    proof {
        let m = 65536int;
        let q = base as int / m;
        vstd::arithmetic::div_mod::lemma_fundamental_div_mod(base as int, m);
        vstd::arithmetic::div_mod::lemma_mod_multiples_vanish(q, (base as int) % m + (d as int), m);
        vstd::arithmetic::div_mod::lemma_small_mod(
            ((((base as int) % m) + (d as int)) % m) as nat,
            m as nat,
        );
    }
    let r = if d >= 0 {
        base + (d as u64)
    } else {
        base - ((-d) as u64)
    };
    proof {
        let k = abs_key(base, seqnum);
        assert(r % 65536 == seqnum && base - 32768 < r <= base + 32768);
        assert(k % 65536 == seqnum && base - 32768 < k <= base + 32768) by {
            assert(exists|k2: u64|
                (#[trigger] (k2 % 65536)) == seqnum && base - 32768 < k2 <= base + 32768) by {
                assert(r % 65536 == seqnum && base - 32768 < r <= base + 32768);
            }
        }
        lemma_abs_key_unique(base, seqnum, r, k);
    }
    r
}

} // verus!
