use vstd::prelude::*;

verus! {

use vstd::string::StringExecFns;
use vstd::utf8::decode_utf8;
use vstd::utf8::encode_utf8;
use vstd::utf8::valid_utf8;

/// Error raised when a byte image cannot be decoded.
#[derive(PartialEq, Debug)]
pub struct ParseError(pub String);

/// Result type for decoding M8 records.
pub type M8Result<T> = Result<T, ParseError>;

/// A byte ends a fixed-width string field: 0x00 and 0xFF both terminate.
pub open spec fn is_str_term(b: u8) -> bool {
    b == 0u8 || b == 0xFFu8
}

/// Index of the first terminator byte in a string field, if any.
pub open spec fn find_str_term(w: Seq<u8>) -> Option<int>
    decreases w.len(),
{
    if w.len() == 0 {
        None
    } else if is_str_term(w[0]) {
        Some(0)
    } else {
        match find_str_term(w.skip(1)) {
            Some(i) => Some(i + 1),
            None => None,
        }
    }
}

/// Length of the text inside a string field: up to the first terminator,
/// and zero when no terminator occurs in the field at all.
pub open spec fn str_content_len(w: Seq<u8>) -> int {
    match find_str_term(w) {
        Some(i) => i,
        None => 0,
    }
}

/// The text bytes of a string field (terminator and trailing bytes cut).
pub open spec fn str_content(w: Seq<u8>) -> Seq<u8> {
    w.subrange(0, str_content_len(w))
}

/// A string field decodes iff its text bytes are valid UTF-8.
pub open spec fn str_decode_ok(w: Seq<u8>) -> bool {
    valid_utf8(str_content(w))
}

/// The characters a string field decodes to.
pub open spec fn spec_str_decode(w: Seq<u8>) -> Seq<char> {
    decode_utf8(str_content(w))
}

/// Bytes of a string field of width `n`: the UTF-8 bytes of the text,
/// truncated to `n` when longer, padded with 0x00 when shorter.
pub open spec fn spec_str_encode(s: Seq<char>, n: int) -> Seq<u8> {
    let b = encode_utf8(s);
    if b.len() >= n {
        b.subrange(0, n)
    } else {
        b + Seq::new((n - b.len()) as nat, |i: int| 0u8)
    }
}

/// Text fits a string field of width `n`: its UTF-8 bytes leave room for
/// a terminator and contain none themselves.
pub open spec fn fits_str_field(s: Seq<char>, n: int) -> bool {
    &&& encode_utf8(s).len() < n
    &&& forall|i: int| 0 <= i < encode_utf8(s).len() ==> !is_str_term(#[trigger] encode_utf8(s)[i])
}

proof fn lemma_find_str_term_props(w: Seq<u8>)
    ensures
        match find_str_term(w) {
            Some(i) => 0 <= i < w.len() && is_str_term(w[i]) && forall|j: int|
                0 <= j < i ==> !is_str_term(w[j]),
            None => forall|j: int| 0 <= j < w.len() ==> !is_str_term(w[j]),
        },
    decreases w.len(),
{
    if w.len() == 0 || is_str_term(w[0]) {
    } else {
        let t = w.skip(1);
        lemma_find_str_term_props(t);
        match find_str_term(t) {
            Some(i) => {
                assert(w[i + 1] == t[i]);
                assert forall|j: int| 0 <= j < i + 1 implies !is_str_term(w[j]) by {
                    if j > 0 {
                        assert(w[j] == t[j - 1]);
                    }
                }
            },
            None => {
                assert forall|j: int| 0 <= j < w.len() implies !is_str_term(w[j]) by {
                    if j > 0 {
                        assert(w[j] == t[j - 1]);
                    }
                }
            },
        }
    }
}

proof fn lemma_find_str_term_at(w: Seq<u8>, k: int)
    requires
        0 <= k < w.len(),
        is_str_term(w[k]),
        forall|j: int| 0 <= j < k ==> !is_str_term(w[j]),
    ensures
        find_str_term(w) == Some(k),
    decreases w.len(),
{
    if k > 0 {
        lemma_find_str_term_at(w.skip(1), k - 1);
    }
}

/// Writing text into a field of width `n` and reading the field back
/// yields the same text, provided the text fits the field.
pub proof fn lemma_str_round_trip(s: Seq<char>, n: int)
    requires
        fits_str_field(s, n),
    ensures
        str_decode_ok(spec_str_encode(s, n)),
        spec_str_decode(spec_str_encode(s, n)) == s,
{
    broadcast use vstd::utf8::encode_utf8_valid_utf8;
    broadcast use vstd::utf8::encode_utf8_decode_utf8;

    let b = encode_utf8(s);
    let w = spec_str_encode(s, n);
    assert(w.len() == n);
    assert(w[b.len() as int] == 0u8);
    assert(forall|j: int| 0 <= j < b.len() ==> w[j] == b[j]);
    lemma_find_str_term_at(w, b.len() as int);
    assert(str_content(w) =~= b);
}

/// Positioned reader over a byte image, with absolute seek.
pub struct Reader {
    pub buffer: Vec<u8>,
    pub position: usize,
}

impl Reader {
    /// A reader standing at the start of the given byte image.
    pub fn new(buffer: Vec<u8>) -> (r: Self)
        ensures
            r.buffer == buffer,
            r.position == 0,
    {
        Self { buffer, position: 0 }
    }

    /// Consume one byte.
    pub fn read(&mut self) -> (b: u8)
        requires
            old(self).position < old(self).buffer@.len(),
        ensures
            final(self).buffer == old(self).buffer,
            final(self).position == old(self).position + 1,
            b == old(self).buffer@[old(self).position as int],
    {
        proof {
            vstd::std_specs::vec::axiom_spec_len(&self.buffer);
        }
        let p: usize = self.position;
        let b: u8 = self.buffer[p];
        self.position = p + 1;
        b
    }

    /// Consume `n` bytes.
    pub fn read_bytes(&mut self, n: usize) -> (r: Vec<u8>)
        requires
            old(self).position + n <= old(self).buffer@.len(),
        ensures
            final(self).buffer == old(self).buffer,
            final(self).position == old(self).position + n,
            r@ == old(self).buffer@.subrange(
                old(self).position as int,
                old(self).position + n,
            ),
    {
        proof {
            vstd::std_specs::vec::axiom_spec_len(&self.buffer);
        }
        let mut out: Vec<u8> = Vec::new();
        let mut i: usize = 0;
        while i < n
            invariant
                i <= n,
                self.buffer == old(self).buffer,
                self.position == old(self).position,
                self.position + n <= self.buffer@.len(),
                self.buffer@.len() <= usize::MAX,
                out@ == self.buffer@.subrange(
                    self.position as int,
                    self.position + i,
                ),
            decreases n - i,
        {
            let b: u8 = self.buffer[self.position + i];
            out.push(b);
            i = i + 1;
            assert(out@ =~= self.buffer@.subrange(
                self.position as int,
                self.position + i,
            ));
        }
        self.position = self.position + n;
        out
    }

    /// Consume one byte; true iff it equals 1.
    pub fn read_bool(&mut self) -> (r: bool)
        requires
            old(self).position < old(self).buffer@.len(),
        ensures
            final(self).buffer == old(self).buffer,
            final(self).position == old(self).position + 1,
            r == (old(self).buffer@[old(self).position as int] == 1),
    {
        self.read() == 1
    }

    /// Consume an `n`-byte string field. The text ends at the first 0x00
    /// or 0xFF byte (exclusive); without a terminator the text is empty.
    /// The whole field is consumed either way. Text bytes that are not
    /// valid UTF-8 are a fatal decode failure.
    pub fn read_string(&mut self, n: usize) -> (r: M8Result<String>)
        requires
            old(self).position + n <= old(self).buffer@.len(),
        ensures
            final(self).buffer == old(self).buffer,
            final(self).position == old(self).position + n,
            r is Ok <==> str_decode_ok(
                old(self).buffer@.subrange(old(self).position as int, old(self).position + n),
            ),
            r matches Ok(s) ==> s@ == spec_str_decode(
                old(self).buffer@.subrange(old(self).position as int, old(self).position + n),
            ),
    {
        let mut w: Vec<u8> = self.read_bytes(n);
        let ghost wv: Seq<u8> = w@;
        let mut end: usize = 0;
        let mut found: bool = false;
        let mut i: usize = 0;
        while i < n
            invariant_except_break
                i <= n,
                n == wv.len(),
                w@ == wv,
                !found,
                end == 0,
                forall|j: int| 0 <= j < i ==> !is_str_term(wv[j]),
            ensures
                n == wv.len(),
                w@ == wv,
                found ==> 0 <= end < wv.len() && is_str_term(wv[end as int]) && forall|j: int|
                    0 <= j < end ==> !is_str_term(wv[j]),
                !found ==> end == 0 && forall|j: int| 0 <= j < wv.len() ==> !is_str_term(wv[j]),
            decreases n - i,
        {
            let b: u8 = w[i];
            if b == 0 || b == 255 {
                end = i;
                found = true;
                break;
            }
            i = i + 1;
        }
        proof {
            if found {
                lemma_find_str_term_at(wv, end as int);
            } else {
                lemma_find_str_term_props(wv);
                assert(find_str_term(wv) is None);
            }
            assert(str_content_len(wv) == end);
        }
        w.truncate(end);
        assert(w@ =~= str_content(wv));
        match string_from_utf8(w) {
            Some(s) => Ok(s),
            None => Err(ParseError(String::from_str("malformed string"))),
        }
    }

    /// Current absolute position.
    pub fn pos(&self) -> (n: usize)
        ensures
            n == self.position,
    {
        self.position
    }

    /// Absolute seek; moving backwards is permitted.
    pub fn set_pos(&mut self, n: usize)
        ensures
            final(self).buffer == old(self).buffer,
            final(self).position == n,
    {
        self.position = n;
    }
}

/// Relies on `String::from_utf8`: returns the string holding exactly the
/// given bytes when they are valid UTF-8, and an error value otherwise.
#[verifier::external_body]
fn string_from_utf8(bytes: Vec<u8>) -> (r: Option<String>)
    ensures
        r is Some <==> valid_utf8(bytes@),
        r matches Some(s) ==> s@ == decode_utf8(bytes@),
{
    match String::from_utf8(bytes) {
        Ok(s) => Some(s),
        Err(_) => None,
    }
}

/// Append-only writer that builds a byte image.
pub struct Writer {
    pub buffer: Vec<u8>,
}

impl Writer {
    /// A writer with an empty image.
    pub fn new() -> (w: Writer)
        ensures
            w.buffer@ == Seq::<u8>::empty(),
    {
        Writer { buffer: Vec::new() }
    }

    /// Append one byte.
    pub fn write(&mut self, v: u8)
        ensures
            final(self).buffer@ == old(self).buffer@.push(v),
    {
        self.buffer.push(v);
    }

    /// Append a string field of width `fill`: the UTF-8 bytes of `s`,
    /// truncated to `fill` when longer, padded with 0x00 when shorter.
    pub fn write_string(&mut self, s: &str, fill: usize)
        ensures
            final(self).buffer@ == old(self).buffer@ + spec_str_encode(s@, fill as int),
    {
        let bs: &[u8] = s.as_bytes();
        let ghost target: Seq<u8> = spec_str_encode(s@, fill as int);
        assert(bs@ == encode_utf8(s@));
        let mut i: usize = 0;
        while i < fill
            invariant
                i <= fill,
                bs@ == encode_utf8(s@),
                target == spec_str_encode(s@, fill as int),
                self.buffer@ == old(self).buffer@ + target.subrange(0, i as int),
            decreases fill - i,
        {
            if i < bs.len() {
                let b: u8 = bs[i];
                self.write(b);
            } else {
                self.write(0);
            }
            i = i + 1;
            assert(self.buffer@ =~= old(self).buffer@ + target.subrange(0, i as int));
        }
        assert(target.subrange(0, fill as int) =~= target);
    }

    /// Current length of the image, which is where the next byte lands.
    pub fn pos(&self) -> (n: usize)
        ensures
            n == self.buffer@.len(),
    {
        self.buffer.len()
    }

    /// Append copies of `v` until the image is `until` bytes long.
    pub fn fill_till(&mut self, v: u8, until: usize)
        requires
            old(self).buffer@.len() <= until,
        ensures
            final(self).buffer@ == old(self).buffer@ + Seq::new(
                (until - old(self).buffer@.len()) as nat,
                |i: int| v,
            ),
            final(self).buffer@.len() == until,
    {
        let to_fill: usize = until - self.buffer.len();
        let mut i: usize = 0;
        while i < to_fill
            invariant
                i <= to_fill,
                self.buffer@ == old(self).buffer@ + Seq::new(i as nat, |j: int| v),
            decreases to_fill - i,
        {
            self.buffer.push(v);
            i = i + 1;
            assert(self.buffer@ =~= old(self).buffer@ + Seq::new(i as nat, |j: int| v));
        }
    }
}

} // verus!
