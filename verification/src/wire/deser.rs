//! The read side of the byte cursor: a typed reader over a byte buffer, and
//! the `Deserialize` trait every wire type implements.
//!
//! A decoder's contract is stated against the type's spec-level encoding
//! (`Serialize::enc`): whenever the input starts with the encoding of a
//! well-formed value (for prefix-safe types; for the others, equals it), the
//! decoder returns exactly that value and leaves exactly the rest.

use vstd::prelude::*;

use crate::wire::ser::Serialize;
use crate::wire::types::CommandDirection;
use crate::wire::types::ProtocolContext;

verus! {

/// Why a decode failed.
#[derive(Debug, Clone, Copy, PartialEq, Eq, Structural)]
pub enum DeserializeError {
    /// Opcode not in the catalog for this direction.
    BadPacketId(CommandDirection, u16),
    /// A field held a value the format does not allow.
    InvalidValue,
    /// The outer packet did not carry the protocol id.
    InvalidProtocolId(u32),
    /// The outer packet named a channel outside 0..=2.
    InvalidChannel(u8),
    /// The body tag byte was none of the known kinds.
    InvalidPacketKind(u8),
    /// A zlib or zstd region did not decompress.
    DecompressionFailed,
    /// A failure outside the categories above.
    OtherError,
    /// The input ended before the value did.
    Eof,
}

pub type DeserializeResult<R> = Result<R, DeserializeError>;

/// Whitespace for the line-based textual sub-formats: space or newline.
pub open spec fn is_ws(b: u8) -> bool {
    b == 32 || b == 10
}

/// Index one past the first newline, or the whole length if there is none:
/// how many bytes the next line occupies.
pub open spec fn spec_line_len(s: Seq<u8>) -> int
    decreases s.len(),
{
    if s.len() == 0 {
        0
    } else if s[0] == 10 {
        1
    } else {
        1 + spec_line_len(s.skip(1))
    }
}

pub proof fn lemma_line_len(s: Seq<u8>)
    ensures
        0 <= spec_line_len(s) <= s.len(),
        s.len() > 0 ==> spec_line_len(s) >= 1,
        forall|i: int| 0 <= i < spec_line_len(s) - 1 ==> s[i] != 10,
        spec_line_len(s) < s.len() ==> s[spec_line_len(s) - 1] == 10,
    decreases s.len(),
{
    if s.len() > 0 && s[0] != 10 {
        lemma_line_len(s.skip(1));
        let n = spec_line_len(s);
        assert forall|i: int| 0 <= i < n - 1 implies s[i] != 10 by {
            if i > 0 {
                assert(s.skip(1)[i - 1] == s[i]);
            }
        }
        if n < s.len() {
            assert(spec_line_len(s.skip(1)) < s.skip(1).len());
            assert(s.skip(1)[n - 2] == s[n - 1]);
        }
    }
}

/// Number of leading whitespace bytes.
pub open spec fn ws_len(s: Seq<u8>) -> int
    decreases s.len(),
{
    if s.len() > 0 && is_ws(s[0]) {
        1 + ws_len(s.skip(1))
    } else {
        0
    }
}

pub proof fn lemma_ws_len(s: Seq<u8>)
    ensures
        0 <= ws_len(s) <= s.len(),
        forall|j: int| 0 <= j < ws_len(s) ==> is_ws(s[j]),
        ws_len(s) < s.len() ==> !is_ws(s[ws_len(s)]),
    decreases s.len(),
{
    if s.len() > 0 && is_ws(s[0]) {
        lemma_ws_len(s.skip(1));
        let n = ws_len(s);
        assert forall|j: int| 0 <= j < n implies is_ws(s[j]) by {
            if j > 0 {
                assert(s.skip(1)[j - 1] == s[j]);
            }
        }
        if n < s.len() {
            assert(s.skip(1)[n - 1] == s[n]);
        }
    }
}

/// Number of leading non-whitespace bytes: the length of the next word.
pub open spec fn word_len(s: Seq<u8>) -> int
    decreases s.len(),
{
    if s.len() > 0 && !is_ws(s[0]) {
        1 + word_len(s.skip(1))
    } else {
        0
    }
}

pub proof fn lemma_word_len(s: Seq<u8>)
    ensures
        0 <= word_len(s) <= s.len(),
        forall|j: int| 0 <= j < word_len(s) ==> !is_ws(s[j]),
        word_len(s) < s.len() ==> is_ws(s[word_len(s)]),
    decreases s.len(),
{
    if s.len() > 0 && !is_ws(s[0]) {
        lemma_word_len(s.skip(1));
        let n = word_len(s);
        assert forall|j: int| 0 <= j < n implies !is_ws(s[j]) by {
            if j > 0 {
                assert(s.skip(1)[j - 1] == s[j]);
            }
        }
        if n < s.len() {
            assert(s.skip(1)[n - 1] == s[n]);
        }
    }
}

/// Pin the whitespace-prefix length from its two-sided description.
pub proof fn lemma_ws_len_exact(s: Seq<u8>, n: int)
    requires
        0 <= n <= s.len(),
        forall|j: int| 0 <= j < n ==> is_ws(#[trigger] s[j]),
        n < s.len() ==> !is_ws(s[n]),
    ensures
        ws_len(s) == n,
{
    lemma_ws_len(s);
    let w = ws_len(s);
    if w < n {
        assert(is_ws(s[w]));
    }
    if w > n {
        assert(is_ws(s[n]));
    }
}

/// Pin the word length from its two-sided description.
pub proof fn lemma_word_len_exact(s: Seq<u8>, n: int)
    requires
        0 <= n <= s.len(),
        forall|j: int| 0 <= j < n ==> !is_ws(#[trigger] s[j]),
        n < s.len() ==> is_ws(s[n]),
    ensures
        word_len(s) == n,
{
    lemma_word_len(s);
    let w = word_len(s);
    if w < n {
        assert(!is_ws(s[w]));
    }
    if w > n {
        assert(!is_ws(s[n]));
    }
}

/// Pin the line length from the position of the first newline.
pub proof fn lemma_line_len_exact(s: Seq<u8>, m: int)
    requires
        0 <= m < s.len(),
        s[m] == 10,
        forall|j: int| 0 <= j < m ==> #[trigger] s[j] != 10,
    ensures
        spec_line_len(s) == m + 1,
{
    lemma_line_len(s);
    let n = spec_line_len(s);
    if n < m + 1 {
        assert(s[n - 1] == 10);
    }
    if n > m + 1 {
        assert(s[m] != 10);
    }
}

/// A typed reader over a byte buffer: the remaining input is
/// `data[pos..]`, and every read advances `pos`.
pub struct Deserializer {
    pub context: ProtocolContext,
    pub data: Vec<u8>,
    pub pos: usize,
}

impl Deserializer {
    pub open spec fn wf(self) -> bool {
        self.pos <= self.data@.len()
    }

    /// The input that is still to be read.
    pub open spec fn rem(self) -> Seq<u8> {
        self.data@.skip(self.pos as int)
    }

    pub open spec fn ctx(self) -> ProtocolContext {
        self.context
    }

    pub fn new(context: ProtocolContext, data: Vec<u8>) -> (r: Self)
        ensures
            r.wf(),
            r.rem() == data@,
            r.ctx() == context,
    {
        let r = Deserializer { context, data, pos: 0 };
        assert(r.rem() =~= r.data@);
        r
    }

    pub fn context(&self) -> (r: ProtocolContext)
        ensures
            r == self.ctx(),
    {
        self.context
    }

    pub fn direction(&self) -> (r: CommandDirection)
        ensures
            r == self.ctx().dir,
    {
        self.context.dir
    }

    pub fn remaining(&self) -> (r: usize)
        requires
            self.wf(),
        ensures
            r == self.rem().len(),
    {
        self.data.len() - self.pos
    }

    /// Take one byte.
    pub fn take_byte(&mut self) -> (r: DeserializeResult<u8>)
        requires
            old(self).wf(),
        ensures
            final(self).wf(),
            final(self).ctx() == old(self).ctx(),
            old(self).rem().len() >= 1 ==> (r matches Ok(b) && b == old(self).rem()[0]
                && final(self).rem() == old(self).rem().skip(1)),
            old(self).rem().len() == 0 ==> r == DeserializeResult::<u8>::Err(DeserializeError::Eof)
                && *final(self) == *old(self),
    {
        if self.pos < self.data.len() {
            let b = self.data[self.pos];
            self.pos = self.pos + 1;
            assert(self.rem() =~= old(self).rem().skip(1));
            Ok(b)
        } else {
            Err(DeserializeError::Eof)
        }
    }

    /// Take `count` bytes; `Eof` if fewer remain.
    pub fn take(&mut self, count: usize) -> (r: DeserializeResult<Vec<u8>>)
        requires
            old(self).wf(),
        ensures
            final(self).wf(),
            final(self).ctx() == old(self).ctx(),
            count <= old(self).rem().len() ==> (r matches Ok(v) && v@ == old(self).rem().take(
                count as int) && final(self).rem() == old(self).rem().skip(count as int)),
            count > old(self).rem().len() ==> r == DeserializeResult::<Vec<u8>>::Err(
                DeserializeError::Eof) && *final(self) == *old(self),
    {
        if count <= self.data.len() - self.pos {
            let end: usize = self.pos + count;
            let mut v: Vec<u8> = Vec::new();
            let mut j: usize = self.pos;
            while j < end
                invariant
                    self.context == old(self).context,
                    self.data == old(self).data,
                    self.pos == old(self).pos,
                    self.pos <= j <= end,
                    end == self.pos + count,
                    end <= self.data@.len(),
                    v@ == old(self).rem().take((j - self.pos) as int),
                decreases end - j,
            {
                v.push(self.data[j]);
                j = j + 1;
                assert(v@ =~= old(self).rem().take((j - self.pos) as int));
            }
            self.pos = end;
            assert(self.rem() =~= old(self).rem().skip(count as int));
            Ok(v)
        } else {
            Err(DeserializeError::Eof)
        }
    }

    /// Copy `count` bytes without advancing.
    pub fn peek(&self, count: usize) -> (r: DeserializeResult<Vec<u8>>)
        requires
            self.wf(),
        ensures
            count <= self.rem().len() ==> (r matches Ok(v) && v@ == self.rem().take(count as int)),
            count > self.rem().len() ==> r == DeserializeResult::<Vec<u8>>::Err(
                DeserializeError::Eof),
    {
        if count <= self.data.len() - self.pos {
            let end: usize = self.pos + count;
            let mut v: Vec<u8> = Vec::new();
            let mut j: usize = self.pos;
            while j < end
                invariant
                    self.pos <= j <= end,
                    end == self.pos + count,
                    end <= self.data@.len(),
                    v@ == self.rem().take((j - self.pos) as int),
                decreases end - j,
            {
                v.push(self.data[j]);
                j = j + 1;
                assert(v@ =~= self.rem().take((j - self.pos) as int));
            }
            Ok(v)
        } else {
            Err(DeserializeError::Eof)
        }
    }

    /// Copy all remaining bytes without advancing.
    pub fn peek_all(&self) -> (r: Vec<u8>)
        requires
            self.wf(),
        ensures
            r@ == self.rem(),
    {
        let r = self.peek(self.data.len() - self.pos);
        match r {
            Ok(v) => {
                assert(self.rem().take(self.rem().len() as int) =~= self.rem());
                v
            },
            Err(_) => {
                // peek of exactly the remaining length cannot fail
                assert(false);
                Vec::new()
            },
        }
    }

    /// Take all remaining bytes.
    pub fn take_all(&mut self) -> (r: Vec<u8>)
        requires
            old(self).wf(),
        ensures
            final(self).wf(),
            final(self).ctx() == old(self).ctx(),
            r@ == old(self).rem(),
            final(self).rem().len() == 0,
    {
        let n = self.data.len() - self.pos;
        match self.take(n) {
            Ok(v) => {
                assert(old(self).rem().take(n as int) =~= old(self).rem());
                v
            },
            Err(_) => {
                assert(false);
                Vec::new()
            },
        }
    }

    /// A sub-reader over exactly the next `count` bytes, same context.
    pub fn slice(&mut self, count: usize) -> (r: DeserializeResult<Deserializer>)
        requires
            old(self).wf(),
        ensures
            final(self).wf(),
            final(self).ctx() == old(self).ctx(),
            count <= old(self).rem().len() ==> (r matches Ok(d) && d.wf() && d.ctx() == old(
                self).ctx() && d.rem() == old(self).rem().take(count as int) && final(self).rem()
                == old(self).rem().skip(count as int)),
            count > old(self).rem().len() ==> (r matches Err(e) && e == DeserializeError::Eof
                && *final(self) == *old(self)),
    {
        let data = self.take(count)?;
        Ok(Deserializer::new(self.context, data))
    }

    /// Position of the first occurrence of `b` in the remaining input.
    pub fn find(&self, b: u8) -> (r: Option<usize>)
        requires
            self.wf(),
        ensures
            match r {
                Some(i) => i < self.rem().len() && self.rem()[i as int] == b && forall|j: int|
                    0 <= j < i ==> self.rem()[j] != b,
                None => forall|j: int| 0 <= j < self.rem().len() ==> self.rem()[j] != b,
            },
    {
        let mut i: usize = self.pos;
        while i < self.data.len()
            invariant
                self.wf(),
                self.pos <= i <= self.data@.len(),
                forall|j: int| 0 <= j < i - self.pos ==> self.rem()[j] != b,
            decreases self.data@.len() - i,
        {
            if self.data[i] == b {
                return Some(i - self.pos);
            }
            i = i + 1;
        }
        None
    }

    /// Length of the next line: through the first newline, or to the end.
    fn line_len(&self) -> (r: usize)
        requires
            self.wf(),
        ensures
            r == spec_line_len(self.rem()),
    {
        proof {
            lemma_line_len(self.rem());
        }
        let len = self.data.len();
        assert(self.rem().len() <= len);
        match self.find(10) {
            Some(i) => {
                proof {
                    let n = spec_line_len(self.rem());
                    if i + 1 < n {
                        assert(self.rem()[i as int] != 10);
                    }
                    if i + 1 > n {
                        assert(self.rem()[n - 1] == 10);
                    }
                }
                i + 1
            },
            None => {
                proof {
                    let n = spec_line_len(self.rem());
                    if n < self.rem().len() {
                        assert(self.rem()[n - 1] == 10);
                    }
                }
                self.data.len() - self.pos
            },
        }
    }

    /// The next line (including its newline, if any), without advancing.
    pub fn peek_line(&self) -> (r: Vec<u8>)
        requires
            self.wf(),
        ensures
            r@ == self.rem().take(spec_line_len(self.rem())),
    {
        let n = self.line_len();
        proof {
            lemma_line_len(self.rem());
        }
        match self.peek(n) {
            Ok(v) => v,
            Err(_) => {
                assert(false);
                Vec::new()
            },
        }
    }

    /// Take the next line (including its newline, if any).
    pub fn take_line(&mut self) -> (r: Vec<u8>)
        requires
            old(self).wf(),
        ensures
            final(self).wf(),
            final(self).ctx() == old(self).ctx(),
            r@ == old(self).rem().take(spec_line_len(old(self).rem())),
            final(self).rem() == old(self).rem().skip(spec_line_len(old(self).rem())),
            final(self).rem().len() <= old(self).rem().len(),
            spec_line_len(old(self).rem()) >= 0,
    {
        let n = self.line_len();
        proof {
            lemma_line_len(self.rem());
        }
        match self.take(n) {
            Ok(v) => v,
            Err(_) => {
                assert(false);
                Vec::new()
            },
        }
    }

    /// Advance past leading whitespace.
    pub fn take_space(&mut self)
        requires
            old(self).wf(),
        ensures
            final(self).wf(),
            final(self).ctx() == old(self).ctx(),
            final(self).rem() == old(self).rem().skip(ws_len(old(self).rem())),
    {
        proof {
            lemma_ws_len(self.rem());
        }
        let ghost r0 = self.rem();
        let len = self.data.len();
        let mut n: usize = 0;
        while self.pos + n < len && (self.data[self.pos + n] == 32 || self.data[self.pos + n] == 10)
            invariant
                self.context == old(self).context,
                self.data == old(self).data,
                self.pos == old(self).pos,
                self.pos <= self.data@.len(),
                len == self.data@.len(),
                n <= self.data@.len() - self.pos,
                r0 == old(self).rem(),
                n <= ws_len(r0),
                forall|j: int| 0 <= j < n ==> is_ws(r0[j]),
            decreases len - self.pos - n,
        {
            proof {
                lemma_ws_len(r0);
                if n == ws_len(r0) {
                    assert(!is_ws(r0[n as int]));
                }
            }
            n = n + 1;
        }
        proof {
            if n < ws_len(r0) {
                assert(is_ws(r0[n as int]));
                assert(n < r0.len());
            }
        }
        self.pos = self.pos + n;
        assert(self.rem() =~= r0.skip(n as int));
    }

    /// Take bytes up to the next whitespace (or the end); optionally skip
    /// leading whitespace first.
    pub fn take_word(&mut self, skip_ws: bool) -> (r: Vec<u8>)
        requires
            old(self).wf(),
        ensures
            final(self).wf(),
            final(self).ctx() == old(self).ctx(),
            ({
                let m = if skip_ws {
                    old(self).rem().skip(ws_len(old(self).rem()))
                } else {
                    old(self).rem()
                };
                r@ == m.take(word_len(m)) && final(self).rem() == m.skip(word_len(m))
            }),
    {
        if skip_ws {
            self.take_space();
        }
        let ghost mid = self.rem();
        proof {
            lemma_word_len(mid);
        }
        let ghost dsnap = self.data@;
        let ghost psnap = self.pos as int;
        let len = self.data.len();
        let mut n: usize = 0;
        while self.pos + n < len && self.data[self.pos + n] != 32 && self.data[self.pos + n] != 10
            invariant
                self.context == old(self).context,
                self.data@ == dsnap,
                self.pos == psnap,
                self.pos <= self.data@.len(),
                len == self.data@.len(),
                n <= self.data@.len() - self.pos,
                mid == self.rem(),
                n <= word_len(mid),
                forall|j: int| 0 <= j < n ==> !is_ws(mid[j]),
            decreases len - self.pos - n,
        {
            proof {
                lemma_word_len(mid);
                if n == word_len(mid) {
                    assert(is_ws(mid[n as int]));
                }
            }
            n = n + 1;
        }
        proof {
            if n < word_len(mid) {
                assert(!is_ws(mid[n as int]));
                assert(n < mid.len());
            }
        }
        match self.take(n) {
            Ok(v) => v,
            Err(_) => {
                assert(false);
                Vec::new()
            },
        }
    }
}

/// The decode half of the codec. The contract ties the decoder to the
/// encoding spec of `Serialize`: on input that begins with (for prefix-safe
/// types) or equals the encoding of a well-formed value, the decoder returns
/// exactly that value.
pub trait Deserialize: Serialize {
    /// Whether the format lets a decoder stop before the end of the input.
    /// Types whose encodings end with optional or to-end fields are only
    /// decoded from exactly-sized windows.
    spec fn prefix_safe() -> bool;

    /// Whether a value survives a round trip over the wire: it is encodable
    /// (`ser_wf`), and its encoding is unambiguous to read back (inner fields
    /// that more data follows are prefix-safe, present optionals are not
    /// encoded as nothing).
    spec fn rt_wf(&self, ctx: ProtocolContext) -> bool;

    fn deserialize(d: &mut Deserializer) -> (r: DeserializeResult<Self>)
        requires
            old(d).wf(),
        ensures
            final(d).wf(),
            final(d).ctx() == old(d).ctx(),
            final(d).rem().len() <= old(d).rem().len(),
            forall|v: Self, rest: Seq<u8>|
                (#[trigger] v.enc(old(d).ctx()).add(rest)) == old(d).rem() && v.rt_wf(
                    old(d).ctx()) && (Self::prefix_safe() || rest.len() == 0) ==> (r matches Ok(w)
                    && v.eqv(&w) && final(d).rem() == rest),
    ;
}

} // verus!
