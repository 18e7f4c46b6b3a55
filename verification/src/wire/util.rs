//! The exotic helper codecs: decimal integers as bytes, the JSON-ish escaped
//! string, and hex digits.

use vstd::prelude::*;

use crate::wire::deser::DeserializeError;

verus! {

/// What `str::from_utf8` accepts: whether the bytes are valid UTF-8.
pub uninterp spec fn utf8_ok(s: Seq<u8>) -> bool;

/// Relies on std::str::from_utf8: returns Ok exactly on valid UTF-8.
#[verifier::external_body]
pub fn is_utf8(b: &[u8]) -> (r: bool)
    ensures
        r == utf8_ok(b@),
{
    std::str::from_utf8(b).is_ok()
}

/// What `String::from_utf16` accepts: whether the code units form valid
/// UTF-16 (no unpaired surrogates).
pub uninterp spec fn utf16_ok(s: Seq<u16>) -> bool;

/// Relies on std's String::from_utf16: returns Ok exactly on valid UTF-16.
#[verifier::external_body]
pub fn is_utf16(units: &[u16]) -> (r: bool)
    ensures
        r == utf16_ok(units@),
{
    std::string::String::from_utf16(units).is_ok()
}

// ---------------------------------------------------------------------------
// Decimal integers as bytes
// ---------------------------------------------------------------------------

/// The decimal digits of `n`, most significant first.
pub open spec fn dec_digits(n: nat) -> Seq<u8>
    decreases n,
{
    if n < 10 {
        seq![(48 + n) as u8]
    } else {
        dec_digits(n / 10).push((48 + n % 10) as u8)
    }
}

/// The decimal representation of `n`: a minus sign for negatives, then the
/// digits without leading zeroes.
pub open spec fn spec_itos(n: int) -> Seq<u8> {
    if n < 0 {
        seq![45u8] + dec_digits((-n) as nat)
    } else {
        dec_digits(n as nat)
    }
}

fn itos_u64(n: u64) -> (r: Vec<u8>)
    ensures
        r@ == dec_digits(n as nat),
    decreases n,
{
    if n < 10 {
        let mut v: Vec<u8> = Vec::new();
        v.push(48 + n as u8);
        assert(v@ =~= dec_digits(n as nat));
        v
    } else {
        let mut v = itos_u64(n / 10);
        v.push(48 + (n % 10) as u8);
        v
    }
}

/// Convert an integer into its decimal representation as bytes.
pub fn itos(n: i64) -> (r: Vec<u8>)
    ensures
        r@ == spec_itos(n as int),
{
    if n >= 0 {
        itos_u64(n as u64)
    } else {
        let mag: u64 = ((-(n + 1)) as u64) + 1;
        let digits = itos_u64(mag);
        let mut v: Vec<u8> = Vec::new();
        v.push(45);
        let mut i: usize = 0;
        while i < digits.len()
            invariant
                i <= digits@.len(),
                v@ == seq![45u8] + digits@.take(i as int),
            decreases digits@.len() - i,
        {
            v.push(digits[i]);
            i = i + 1;
            assert(v@ =~= seq![45u8] + digits@.take(i as int));
        }
        assert(digits@.take(digits@.len() as int) =~= digits@);
        v
    }
}

pub open spec fn is_digit(b: u8) -> bool {
    48 <= b <= 57
}

pub open spec fn all_digits(s: Seq<u8>) -> bool {
    forall|i: int| 0 <= i < s.len() ==> is_digit(#[trigger] s[i])
}

/// The value of a digit string.
pub open spec fn digits_val(s: Seq<u8>) -> int
    decreases s.len(),
{
    if s.len() == 0 {
        0
    } else {
        digits_val(s.drop_last()) * 10 + (s.last() - 48)
    }
}

/// Every digit string of `dec_digits(n)` is a digit, and its value is `n`.
pub proof fn lemma_dec_digits(n: nat)
    ensures
        dec_digits(n).len() >= 1,
        all_digits(dec_digits(n)),
        digits_val(dec_digits(n)) == n,
        dec_digits(n)[0] != 45,
    decreases n,
{
    if n < 10 {
        assert(digits_val(dec_digits(n)) == n) by {
            assert(dec_digits(n).drop_last() =~= Seq::<u8>::empty());
            assert(digits_val(Seq::<u8>::empty()) == 0);
        }
    } else {
        lemma_dec_digits(n / 10);
        assert(dec_digits(n).drop_last() =~= dec_digits(n / 10));
        assert forall|i: int| 0 <= i < dec_digits(n).len() implies is_digit(
            #[trigger] dec_digits(n)[i],
        ) by {
            if i < dec_digits(n).len() - 1 {
                assert(dec_digits(n)[i] == dec_digits(n / 10)[i]);
            }
        }
    }
}

/// A digit string's value only grows as digits are appended.
pub proof fn lemma_digits_val_prefix(s: Seq<u8>, i: int)
    requires
        0 <= i <= s.len(),
        all_digits(s),
    ensures
        digits_val(s.take(i)) <= digits_val(s),
        digits_val(s) >= 0,
    decreases s.len() - i,
{
    if i == s.len() {
        assert(s.take(i) =~= s);
        lemma_digits_val_nonneg(s);
    } else {
        lemma_digits_val_prefix(s, i + 1);
        assert(s.take(i + 1).drop_last() =~= s.take(i));
        lemma_digits_val_nonneg(s.take(i));
        assert(digits_val(s.take(i + 1)) == digits_val(s.take(i)) * 10 + (s[i] - 48));
        assert(digits_val(s.take(i)) <= digits_val(s.take(i)) * 10) by (nonlinear_arith)
            requires
                digits_val(s.take(i)) >= 0,
        ;
    }
}

pub proof fn lemma_digits_val_nonneg(s: Seq<u8>)
    requires
        all_digits(s),
    ensures
        digits_val(s) >= 0,
    decreases s.len(),
{
    if s.len() > 0 {
        assert(all_digits(s.drop_last()));
        lemma_digits_val_nonneg(s.drop_last());
        assert(digits_val(s.drop_last()) * 10 >= 0) by (nonlinear_arith)
            requires
                digits_val(s.drop_last()) >= 0,
        ;
    }
}

/// A parsable decimal: an optional minus sign, then at least one digit.
pub open spec fn stoi_valid(b: Seq<u8>) -> bool {
    b.len() >= 1 && (if b[0] == 45 {
        b.len() >= 2 && all_digits(b.skip(1))
    } else {
        all_digits(b)
    })
}

/// The number a parsable decimal denotes.
pub open spec fn stoi_val(b: Seq<u8>) -> int {
    if b[0] == 45 {
        -digits_val(b.skip(1))
    } else {
        digits_val(b)
    }
}

/// Parse a decimal integer from bytes: the exact inverse of `itos` (see
/// `lemma_stoi_itos`). Success exactly on parsable decimals whose value
/// fits; the error reports anything else.
pub fn stoi(b: &[u8]) -> (r: Result<i64, DeserializeError>)
    ensures
        r matches Ok(v) ==> stoi_valid(b@) && v as int == stoi_val(b@),
        r is Err ==> !stoi_valid(b@) || stoi_val(b@) < i64::MIN || stoi_val(b@) > i64::MAX,
{
    if b.len() == 0 {
        return Err(DeserializeError::InvalidValue);
    }
    let negative = b[0] == 45;
    let start: usize = if negative {
        1
    } else {
        0
    };
    if b.len() == start {
        return Err(DeserializeError::InvalidValue);
    }
    let ghost digits = b@.skip(start as int);
    proof {
        if !negative {
            assert(digits =~= b@);
        }
    }
    let mut acc: u64 = 0;
    let mut i: usize = start;
    while i < b.len()
        invariant
            start <= i <= b@.len(),
            start <= 1,
            b@.len() > start,
            digits == b@.skip(start as int),
            negative ==> b@[0] == 45 && start == 1,
            !negative ==> b@[0] != 45 && start == 0 && digits == b@,
            all_digits(digits.take(i - start)),
            acc <= 0x8000_0000_0000_0000,
            acc == digits_val(digits.take(i - start)),
        decreases b@.len() - i,
    {
        let c = b[i];
        if c < 48 || c > 57 {
            proof {
                assert(digits[i - start] == c);
                assert(!all_digits(digits));
                if negative {
                    assert(!stoi_valid(b@));
                } else {
                    assert(!stoi_valid(b@));
                }
            }
            return Err(DeserializeError::InvalidValue);
        }
        let d = (c - 48) as u64;
        if acc > 0x1999_9999_9999_9999 {
            // The next digit pushes the magnitude past any representable
            // value: ten times this already exceeds it.
            proof {
                if all_digits(digits) {
                    lemma_digits_val_prefix(digits, i + 1 - start);
                    assert(digits.take(i + 1 - start).drop_last() =~= digits.take(i - start));
                    assert(digits.take(i + 1 - start).last() == c);
                    assert(digits_val(digits.take(i + 1 - start)) == acc * 10 + (c - 48));
                }
            }
            return Err(DeserializeError::InvalidValue);
        }
        let mul = acc * 10;
        if mul > 0x8000_0000_0000_0000 || d > 0x8000_0000_0000_0000 - mul {
            proof {
                if all_digits(digits) {
                    lemma_digits_val_prefix(digits, i + 1 - start);
                    assert(digits.take(i + 1 - start).drop_last() =~= digits.take(i - start));
                    assert(digits.take(i + 1 - start).last() == c);
                    assert(digits_val(digits.take(i + 1 - start)) == acc * 10 + (c - 48));
                }
            }
            return Err(DeserializeError::InvalidValue);
        }
        acc = mul + d;
        i = i + 1;
        proof {
            assert(digits.take(i - start).drop_last() =~= digits.take(i - 1 - start));
            assert(digits.take(i - start).last() == c);
        }
    }
    proof {
        assert(digits.take(b@.len() - start) =~= digits);
    }
    if negative {
        if acc == 0x8000_0000_0000_0000 {
            return Ok(i64::MIN);
        }
        Ok(-(acc as i64))
    } else {
        if acc > 0x7FFF_FFFF_FFFF_FFFF {
            return Err(DeserializeError::InvalidValue);
        }
        Ok(acc as i64)
    }
}

/// Round trip of the decimal codec: parsing a rendered integer gives the
/// integer back.
pub proof fn lemma_stoi_itos(n: i64)
    ensures
        stoi_valid(spec_itos(n as int)),
        stoi_val(spec_itos(n as int)) == n,
{
    if n < 0 {
        lemma_dec_digits((-n) as nat);
        assert(spec_itos(n as int)[0] == 45);
        assert(spec_itos(n as int).skip(1) =~= dec_digits((-n) as nat));
    } else {
        lemma_dec_digits(n as nat);
    }
}


// ---------------------------------------------------------------------------
// The JSON-ish escaped string
// ---------------------------------------------------------------------------

/// Whether a byte may stand unescaped inside a quoted string.
pub open spec fn json_plain(b: u8) -> bool {
    32 <= b <= 126 && b != 34 && b != 92
}

pub open spec fn hex_digit(n: u8) -> u8 {
    if n < 10 {
        (48 + n) as u8
    } else {
        (87 + n) as u8
    }
}

/// The escape sequence of one byte inside a quoted string.
pub open spec fn json_escape(b: u8) -> Seq<u8> {
    if b == 34 {
        seq![92u8, 34u8]
    } else if b == 92 {
        seq![92u8, 92u8]
    } else if b == 8 {
        seq![92u8, 98u8]
    } else if b == 12 {
        seq![92u8, 102u8]
    } else if b == 10 {
        seq![92u8, 110u8]
    } else if b == 13 {
        seq![92u8, 114u8]
    } else if b == 9 {
        seq![92u8, 116u8]
    } else if json_plain(b) {
        seq![b]
    } else {
        seq![92u8, 117u8, 48u8, 48u8, hex_digit(b / 16), hex_digit(b % 16)]
    }
}

/// The quoted form: every byte escaped, between double quotes.
pub open spec fn json_quoted(s: Seq<u8>) -> Seq<u8>
    decreases s.len(),
{
    if s.len() == 0 {
        seq![34u8, 34u8]
    } else {
        let inner = json_quoted(s.drop_last());
        inner.take(inner.len() - 1) + json_escape(s.last()).push(34u8)
    }
}

/// Whether a value may travel bare, without quoting: nonempty, and made of
/// printable bytes other than space and the double quote.
pub open spec fn json_bare_ok(s: Seq<u8>) -> bool {
    s.len() > 0 && forall|i: int| 0 <= i < s.len() ==> 33 <= #[trigger] s[i] <= 126 && s[i] != 34
}

/// What `serialize_json_string_if_needed` emits for a value.
pub open spec fn json_enc(s: Seq<u8>) -> Seq<u8> {
    if json_bare_ok(s) {
        s
    } else {
        json_quoted(s)
    }
}

fn to_hex(index: u8) -> (r: u8)
    requires
        index < 16,
    ensures
        r == hex_digit(index),
{
    if index < 10 {
        48 + index
    } else {
        87 + index
    }
}

/// Append the quoted, escaped form of `input`.
pub fn serialize_json_string(input: &[u8], out: &mut Vec<u8>)
    ensures
        final(out)@ == old(out)@ + json_quoted(input@),
{
    out.push(34);
    let ghost base = old(out)@;
    let mut i: usize = 0;
    while i < input.len()
        invariant
            i <= input@.len(),
            out@.len() > base.len(),
            out@.push(34u8) == base + json_quoted(input@.take(i as int)),
        decreases input@.len() - i,
    {
        let ghost pre = out@;
        let b = input[i];
        if b == 34 {
            out.push(92);
            out.push(34);
        } else if b == 92 {
            out.push(92);
            out.push(92);
        } else if b == 8 {
            out.push(92);
            out.push(98);
        } else if b == 12 {
            out.push(92);
            out.push(102);
        } else if b == 10 {
            out.push(92);
            out.push(110);
        } else if b == 13 {
            out.push(92);
            out.push(114);
        } else if b == 9 {
            out.push(92);
            out.push(116);
        } else if 32 <= b && b <= 126 {
            out.push(b);
        } else {
            out.push(92);
            out.push(117);
            out.push(48);
            out.push(48);
            out.push(to_hex(b / 16));
            out.push(to_hex(b % 16));
        }
        proof {
            assert(out@ == pre + json_escape(b));
            let t1 = input@.take(i + 1);
            assert(t1.drop_last() =~= input@.take(i as int));
            assert(t1.last() == b);
            let inner = json_quoted(input@.take(i as int));
            assert(json_quoted(t1) == inner.take(inner.len() - 1) + json_escape(b).push(34u8));
            assert(pre == base + inner.take(inner.len() - 1)) by {
                assert(pre.push(34u8).take(pre.push(34u8).len() - 1) =~= pre);
                assert((base + inner).take((base + inner).len() - 1) =~= base + inner.take(
                    inner.len() - 1));
            }
            assert(out@.push(34u8) =~= base + json_quoted(t1));
        }
        i = i + 1;
    }
    out.push(34);
    proof {
        assert(input@.take(input@.len() as int) =~= input@);
    }
}

/// Append the JSON-ish form of `input`: bare when every byte is printable
/// and none is a space or quote, otherwise quoted and escaped.
pub fn serialize_json_string_if_needed(input: &[u8], out: &mut Vec<u8>)
    ensures
        final(out)@ == old(out)@ + json_enc(input@),
{
    let mut bare = input.len() > 0;
    let mut i: usize = 0;
    while i < input.len()
        invariant
            i <= input@.len(),
            bare == (input@.len() > 0 && forall|j: int|
                0 <= j < i ==> 33 <= #[trigger] input@[j] <= 126 && input@[j] != 34),
        decreases input@.len() - i,
    {
        let b = input[i];
        if b <= 32 || b >= 127 || b == 34 {
            bare = false;
        }
        i = i + 1;
    }
    if bare {
        let mut k: usize = 0;
        while k < input.len()
            invariant
                k <= input@.len(),
                out@ == old(out)@ + input@.take(k as int),
            decreases input@.len() - k,
        {
            out.push(input[k]);
            k = k + 1;
            assert(out@ =~= old(out)@ + input@.take(k as int));
        }
        assert(input@.take(input@.len() as int) =~= input@);
    } else {
        serialize_json_string(input, out);
    }
}



/// The escaped bytes between the quotes of the quoted form.
pub open spec fn json_inner(s: Seq<u8>) -> Seq<u8>
    decreases s.len(),
{
    if s.len() == 0 {
        Seq::empty()
    } else {
        json_inner(s.drop_last()) + json_escape(s.last())
    }
}

/// The quoted form is the inner form between double quotes.
pub proof fn lemma_json_quoted_inner(s: Seq<u8>)
    ensures
        json_quoted(s) == seq![34u8] + json_inner(s) + seq![34u8],
    decreases s.len(),
{
    if s.len() == 0 {
        assert(json_quoted(s) =~= seq![34u8] + json_inner(s) + seq![34u8]);
    } else {
        lemma_json_quoted_inner(s.drop_last());
        let inner = json_quoted(s.drop_last());
        assert(inner.take(inner.len() - 1) =~= seq![34u8] + json_inner(s.drop_last()));
        assert(json_quoted(s) =~= seq![34u8] + json_inner(s) + seq![34u8]);
    }
}

/// The escaped bytes of everything from position `k` on.
pub open spec fn json_inner_from(s: Seq<u8>, k: int) -> Seq<u8>
    decreases s.len() - k,
{
    if k < 0 || k >= s.len() {
        Seq::empty()
    } else {
        json_escape(s[k]) + json_inner_from(s, k + 1)
    }
}

/// The inner form splits at any position.
pub proof fn lemma_json_inner_split(s: Seq<u8>, k: int)
    requires
        0 <= k <= s.len(),
    ensures
        json_inner(s) == json_inner(s.take(k)) + json_inner_from(s, k),
    decreases s.len() - k,
{
    if k == s.len() {
        assert(s.take(k) =~= s);
        assert(json_inner(s) =~= json_inner(s.take(k)) + json_inner_from(s, k));
    } else {
        lemma_json_inner_split(s, k + 1);
        assert(s.take(k + 1).drop_last() =~= s.take(k));
        assert(s.take(k + 1).last() == s[k]);
        assert(json_inner(s.take(k + 1)) == json_inner(s.take(k)) + json_escape(s[k]));
        assert(json_inner(s) =~= json_inner(s.take(k)) + json_inner_from(s, k));
    }
}

/// No escape sequence contains a newline, and none begins with a double
/// quote.
proof fn lemma_json_escape_bytes(x: u8)
    ensures
        forall|i: int| 0 <= i < json_escape(x).len() ==> #[trigger] json_escape(x)[i] != 10,
        json_escape(x)[0] != 34,
{
}

/// The quoted form contains no newline.
proof fn lemma_json_inner_no_nl(s: Seq<u8>)
    ensures
        forall|i: int| 0 <= i < json_inner(s).len() ==> #[trigger] json_inner(s)[i] != 10,
    decreases s.len(),
{
    if s.len() > 0 {
        lemma_json_inner_no_nl(s.drop_last());
        lemma_json_escape_bytes(s.last());
        assert forall|i: int| 0 <= i < json_inner(s).len() implies #[trigger] json_inner(s)[i]
            != 10 by {
            let head = json_inner(s.drop_last());
            if i < head.len() {
                assert(json_inner(s)[i] == head[i]);
            } else {
                assert(json_inner(s)[i] == json_escape(s.last())[i - head.len()]);
            }
        }
    }
}

/// What a JSON-ish value looks like from outside: at least one byte, no
/// newline anywhere, and a first byte that is not whitespace.
pub proof fn lemma_json_enc_bytes(b: Seq<u8>)
    ensures
        json_enc(b).len() >= 1,
        forall|i: int| 0 <= i < json_enc(b).len() ==> #[trigger] json_enc(b)[i] != 10,
        json_enc(b)[0] != 32 && json_enc(b)[0] != 10,
{
    if json_bare_ok(b) {
        assert(b[0] != 32 && b[0] != 10);
        assert(forall|i: int| 0 <= i < b.len() ==> #[trigger] b[i] != 10);
    } else {
        lemma_json_quoted_inner(b);
        lemma_json_inner_no_nl(b);
        assert(json_quoted(b)[0] == 34);
        assert forall|i: int| 0 <= i < json_quoted(b).len() implies #[trigger] json_quoted(b)[i]
            != 10 by {
            if 0 < i < json_quoted(b).len() - 1 {
                assert(json_quoted(b)[i] == json_inner(b)[i - 1]);
            }
        }
    }
}

/// What a rendered integer looks like from outside: at least one byte, each
/// a digit or the minus sign; in particular no whitespace and no newline.
pub proof fn lemma_itos_bytes(n: int)
    ensures
        spec_itos(n).len() >= 1,
        forall|i: int|
            0 <= i < spec_itos(n).len() ==> (48 <= #[trigger] spec_itos(n)[i] <= 57 || spec_itos(
                n,
            )[i] == 45),
{
    if n < 0 {
        lemma_dec_digits((-n) as nat);
        assert forall|i: int|
            0 <= i < spec_itos(n).len() implies (48 <= #[trigger] spec_itos(n)[i] <= 57
            || spec_itos(n)[i] == 45) by {
            if i > 0 {
                assert(spec_itos(n)[i] == dec_digits((-n) as nat)[i - 1]);
                assert(is_digit(dec_digits((-n) as nat)[i - 1]));
            }
        }
    } else {
        lemma_dec_digits(n as nat);
        assert forall|i: int|
            0 <= i < spec_itos(n).len() implies (48 <= #[trigger] spec_itos(n)[i] <= 57
            || spec_itos(n)[i] == 45) by {
            assert(is_digit(dec_digits(n as nat)[i]));
        }
    }
}

/// Decode a hex digit.
pub fn from_hex(hex_digit_byte: u8) -> (r: Result<u8, DeserializeError>)
    ensures
        r is Ok <==> 48 <= hex_digit_byte <= 57 || 97 <= hex_digit_byte <= 102 || 65
            <= hex_digit_byte <= 70,
        r matches Ok(v) ==> v < 16 && (48 <= hex_digit_byte <= 57 ==> v == hex_digit_byte - 48) && (
        97 <= hex_digit_byte <= 102 ==> v == hex_digit_byte - 87) && (65 <= hex_digit_byte <= 70
            ==> v == hex_digit_byte - 55),
        forall|n: u8| n < 16 && hex_digit(n) == hex_digit_byte ==> r == Ok::<u8, DeserializeError>(
            n,
        ),
{
    if 48 <= hex_digit_byte && hex_digit_byte <= 57 {
        Ok(hex_digit_byte - 48)
    } else if 97 <= hex_digit_byte && hex_digit_byte <= 102 {
        Ok(hex_digit_byte - 87)
    } else if 65 <= hex_digit_byte && hex_digit_byte <= 70 {
        Ok(hex_digit_byte - 55)
    } else {
        Err(DeserializeError::InvalidValue)
    }
}

/// Decode a quoted string starting at the opening quote. Returns the bytes
/// and how much input the quoted form consumed; on the output of the
/// encoder, exactly the encoded value comes back.
pub fn deserialize_json_string(input: &[u8]) -> (r: Result<(Vec<u8>, usize), DeserializeError>)
    requires
        input@.len() >= 1,
        input@[0] == 34,
    ensures
        forall|b: Seq<u8>, junk: Seq<u8>|
            (#[trigger] json_quoted(b).add(junk)) == input@ ==> (r matches Ok(p) && p.0@ == b && p.1
                == json_quoted(b).len()),
        r matches Ok(p) ==> 2 <= p.1 <= input@.len() && input@[p.1 - 1] == 34,
{
    let ghost whole = input@;
    proof {
        assert forall|b: Seq<u8>, junk: Seq<u8>| (#[trigger] json_quoted(b).add(junk))
            == whole implies whole == seq![34u8] + json_inner(b) + seq![34u8] + junk && (forall|
            k: int,
        |
            0 <= k <= b.len() ==> json_inner(b).take(json_inner(b.take(k)).len() as int)
                == json_inner(b.take(k))) by {
            lemma_json_quoted_inner(b);
            assert(whole =~= seq![34u8] + json_inner(b) + seq![34u8] + junk);
            assert forall|k: int| 0 <= k <= b.len() implies json_inner(b).take(
                json_inner(b.take(k)).len() as int,
            ) == json_inner(b.take(k)) by {
                lemma_json_inner_split(b, k);
                assert(json_inner(b).take(json_inner(b.take(k)).len() as int) =~= json_inner(
                    b.take(k),
                ));
            }
        }
    }
    let mut result: Vec<u8> = Vec::new();
    let mut pos: usize = 1;
    loop
        invariant
            1 <= pos <= input@.len(),
            whole == input@,
            input@[0] == 34,
            forall|b: Seq<u8>, junk: Seq<u8>|
                (#[trigger] json_quoted(b).add(junk)) == whole ==> result@.len() <= b.len()
                    && result@ == b.take(result@.len() as int) && pos == 1 + json_inner(
                    b.take(result@.len() as int),
                ).len(),
        decreases input@.len() - pos,
    {
        let ghost k = result@.len() as int;
        proof {
            assert forall|b: Seq<u8>, junk: Seq<u8>| (#[trigger] json_quoted(b).add(junk))
                == whole implies ({
                if k < b.len() {
                    json_escape(b[k]).len() <= json_inner_from(b, k).len() && pos + json_inner_from(
                        b,
                        k,
                    ).len() + 1 <= whole.len() && (forall|m: int|
                        0 <= m < json_escape(b[k]).len() ==> whole[pos + m] == json_escape(b[k])[m])
                } else {
                    pos + 1 <= whole.len() && whole[pos as int] == 34
                }
            }) by {
                lemma_json_quoted_inner(b);
                lemma_json_inner_split(b, k);
                assert(whole =~= seq![34u8] + json_inner(b) + seq![34u8] + junk);
                if k < b.len() {
                    assert(json_inner_from(b, k) == json_escape(b[k]) + json_inner_from(b, k + 1));
                    assert(json_inner_from(b, k + 1).len() >= 0);
                    assert forall|m: int| 0 <= m < json_escape(b[k]).len() implies whole[pos + m]
                        == json_escape(b[k])[m] by {
                        assert(json_inner(b)[json_inner(b.take(k)).len() + m] == json_escape(
                            b[k],
                        )[m]);
                    }
                } else {
                    assert(b.take(k) =~= b);
                }
            }
        }
        if pos >= input.len() {
            // Under any encoder-produced input this cannot happen: the
            // closing quote is still ahead.
            return Err(DeserializeError::Eof);
        }
        let c = input[pos];
        if c == 34 {
            let consumed = pos + 1;
            proof {
                assert forall|b: Seq<u8>, junk: Seq<u8>| (#[trigger] json_quoted(b).add(junk))
                    == whole implies result@ == b && consumed == json_quoted(b).len() by {
                    lemma_json_quoted_inner(b);
                    lemma_json_inner_split(b, k);
                    if k < b.len() {
                        assert(whole[pos as int] == json_escape(b[k])[0]);
                        assert(json_escape(b[k])[0] != 34);
                    }
                    assert(b.take(b.len() as int) =~= b);
                }
            }
            return Ok((result, consumed));
        } else if c == 92 {
            proof {
                assert forall|b: Seq<u8>, junk: Seq<u8>| (#[trigger] json_quoted(b).add(junk))
                    == whole implies k < b.len() && whole[pos as int] == json_escape(b[k])[0]
                    && json_escape(b[k])[0] == 92 && json_escape(b[k]).len() >= 2 && pos
                    + json_escape(b[k]).len() < whole.len() by {
                    if k == b.len() {
                        assert(whole[pos as int] == 34);
                    }
                }
            }
            if input.len() - pos < 2 {
                return Err(DeserializeError::Eof);
            }
            let code = input[pos + 1];
            let (decoded, width): (u8, usize) = if code == 98 {
                (8, 2)
            } else if code == 102 {
                (12, 2)
            } else if code == 110 {
                (10, 2)
            } else if code == 114 {
                (13, 2)
            } else if code == 116 {
                (9, 2)
            } else if code == 117 {
                proof {
                    assert forall|b: Seq<u8>, junk: Seq<u8>| (#[trigger] json_quoted(b).add(junk))
                        == whole implies json_escape(b[k]).len() == 6 && whole[pos + 2] == 48
                        && whole[pos + 3] == 48 && whole[pos + 4] == hex_digit(b[k] / 16)
                        && whole[pos + 5] == hex_digit(b[k] % 16) by {
                        assert(whole[pos + 1] == json_escape(b[k])[1]);
                    }
                }
                if input.len() - pos < 6 {
                    return Err(DeserializeError::Eof);
                }
                if input[pos + 2] != 48 || input[pos + 3] != 48 {
                    return Err(DeserializeError::InvalidValue);
                }
                let hi = match from_hex(input[pos + 4]) {
                    Ok(v) => v,
                    Err(e) => {
                        proof {
                            assert forall|b: Seq<u8>, junk: Seq<u8>|
                                (#[trigger] json_quoted(b).add(junk)) == whole implies false by {
                                assert(b[k] / 16 < 16 && hex_digit(b[k] / 16) == whole[pos + 4]);
                            }
                        }
                        return Err(e);
                    },
                };
                let lo = match from_hex(input[pos + 5]) {
                    Ok(v) => v,
                    Err(e) => {
                        proof {
                            assert forall|b: Seq<u8>, junk: Seq<u8>|
                                (#[trigger] json_quoted(b).add(junk)) == whole implies false by {
                                assert(b[k] % 16 < 16 && hex_digit(b[k] % 16) == whole[pos + 5]);
                            }
                        }
                        return Err(e);
                    },
                };
                (hi * 16 + lo, 6)
            } else {
                // Any other escaped byte stands for itself.
                (code, 2)
            };
            result.push(decoded);
            pos = pos + width;
            proof {
                assert forall|b: Seq<u8>, junk: Seq<u8>| (#[trigger] json_quoted(b).add(junk))
                    == whole implies result@.len() <= b.len() && result@ == b.take(
                    result@.len() as int,
                ) && pos == 1 + json_inner(b.take(result@.len() as int)).len() by {
                    lemma_json_quoted_inner(b);
                    lemma_json_inner_split(b, k);
                    assert(k < b.len()) by {
                        if k == b.len() {
                            assert(whole[pos - width] == 34);
                        }
                    }
                    let e = json_escape(b[k]);
                    assert(e[0] == 92);
                    assert(decoded == b[k] && width == e.len());
                    assert(b.take(k + 1).drop_last() =~= b.take(k));
                    assert(b.take(k + 1).last() == b[k]);
                    assert(result@ =~= b.take(k + 1));
                }
            }
        } else {
            result.push(c);
            pos = pos + 1;
            proof {
                assert forall|b: Seq<u8>, junk: Seq<u8>| (#[trigger] json_quoted(b).add(junk))
                    == whole implies result@.len() <= b.len() && result@ == b.take(
                    result@.len() as int,
                ) && pos == 1 + json_inner(b.take(result@.len() as int)).len() by {
                    lemma_json_quoted_inner(b);
                    lemma_json_inner_split(b, k);
                    assert(k < b.len()) by {
                        if k == b.len() {
                            assert(whole[pos - 1] == 34);
                        }
                    }
                    let e = json_escape(b[k]);
                    assert(e[0] == c);
                    assert(c == b[k] && e.len() == 1);
                    assert(b.take(k + 1).drop_last() =~= b.take(k));
                    assert(b.take(k + 1).last() == b[k]);
                    assert(result@ =~= b.take(k + 1));
                }
            }
        }
    }
}

/// Decode a JSON-ish value: quoted when it starts with a double quote, else
/// the bare bytes up to whitespace or the end. On anything the encoder
/// produced, followed by nothing or whitespace, exactly the encoded value
/// comes back, and the consumed count is exactly the encoding's length.
pub fn deserialize_json_string_if_needed(input: &[u8]) -> (r: Result<
    (Vec<u8>, usize),
    DeserializeError,
>)
    ensures
        forall|b: Seq<u8>, junk: Seq<u8>|
            (#[trigger] json_enc(b).add(junk)) == input@ && (json_bare_ok(b) ==> junk.len() == 0
                || junk[0] == 32 || junk[0] == 10) ==> (r matches Ok(p) && p.0@ == b && p.1
                == json_enc(b).len()),
        r matches Ok(p) ==> p.1 <= input@.len(),
{
    if input.len() == 0 {
        proof {
            assert forall|b: Seq<u8>, junk: Seq<u8>| (#[trigger] json_enc(b).add(junk))
                == input@ implies false by {
                if !json_bare_ok(b) {
                    lemma_json_quoted_inner(b);
                }
            }
        }
        return Ok((Vec::new(), 0));
    }
    if input[0] == 34 {
        proof {
            assert forall|b: Seq<u8>, junk: Seq<u8>|
                (#[trigger] json_enc(b).add(junk)) == input@ && json_bare_ok(b) implies false by {
                assert(input@[0] == b[0]);
            }
            assert forall|b: Seq<u8>, junk: Seq<u8>|
                (#[trigger] json_enc(b).add(junk)) == input@ && !json_bare_ok(
                b,
            ) implies json_quoted(b).add(junk) == input@ by {}
        }
        return deserialize_json_string(input);
    }
    // A bare value: up to whitespace or the end.
    let mut endpos: usize = 0;
    while endpos < input.len() && input[endpos] != 32 && input[endpos] != 10
        invariant
            endpos <= input@.len(),
            forall|j: int| 0 <= j < endpos ==> input@[j] != 32 && input@[j] != 10,
        decreases input@.len() - endpos,
    {
        endpos = endpos + 1;
    }
    let mut out: Vec<u8> = Vec::new();
    let mut i: usize = 0;
    while i < endpos
        invariant
            i <= endpos <= input@.len(),
            out@ == input@.take(i as int),
        decreases endpos - i,
    {
        out.push(input[i]);
        i = i + 1;
        assert(out@ =~= input@.take(i as int));
    }
    proof {
        assert forall|b: Seq<u8>, junk: Seq<u8>|
            (#[trigger] json_enc(b).add(junk)) == input@ && (json_bare_ok(b) ==> junk.len() == 0
                || junk[0] == 32 || junk[0] == 10) implies out@ == b && endpos == json_enc(
            b).len() by {
            if json_bare_ok(b) {
                assert(endpos == b.len()) by {
                    if endpos < b.len() {
                        assert(input@[endpos as int] == b[endpos as int]);
                    }
                    if endpos > b.len() {
                        assert(input@[b.len() as int] == junk[0]);
                    }
                }
                assert(out@ =~= b);
            } else {
                lemma_json_quoted_inner(b);
                assert(input@[0] == 34);
            }
        }
    }
    Ok((out, endpos))
}


} // verus!
