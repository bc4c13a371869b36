//! The line decoder: from the bytes of one raw report to a line of text.

use vstd::prelude::*;
use vstd::slice::slice_subrange;
use vstd::string::*;
use vstd::utf8::*;
use crate::text::{decimal, decimal_text};

verus! {

/// Why a report could not be decoded.
#[derive(Debug, Clone, Copy, PartialEq, Eq, Structural)]
pub enum DecodeError {
    /// The report is not valid UTF-8. `valid_up_to` is the length of its
    /// longest prefix that is.
    InvalidEncoding { valid_up_to: usize },
}

/// What a decode error says of itself.
pub open spec fn decode_error_text(error: DecodeError) -> Seq<char> {
    match error {
        DecodeError::InvalidEncoding { valid_up_to } => "invalid utf-8 sequence from index "@
            + decimal(valid_up_to as nat),
    }
}

impl DecodeError {
    /// Writes what the error says of itself: where the valid text ends.
    pub fn message(&self) -> (text: String)
        ensures
            text@ == decode_error_text(*self),
    {
        match self {
            DecodeError::InvalidEncoding { valid_up_to } => {
                let index = decimal_text(*valid_up_to as u64);
                String::from_str("invalid utf-8 sequence from index ").concat(index.as_str())
            },
        }
    }
}

/// The padding character of a report.
pub open spec fn nul() -> char {
    '\0'
}

/// `text` without its leading run of NUL characters.
pub open spec fn trim_start_nul(text: Seq<char>) -> Seq<char>
    decreases text.len(),
{
    if text.len() > 0 && text.first() == nul() {
        trim_start_nul(text.drop_first())
    } else {
        text
    }
}

/// `text` without its trailing run of NUL characters.
pub open spec fn trim_end_nul(text: Seq<char>) -> Seq<char>
    decreases text.len(),
{
    if text.len() > 0 && text.last() == nul() {
        trim_end_nul(text.drop_last())
    } else {
        text
    }
}

/// `text` without its leading and trailing runs of NUL characters. NUL
/// characters between two others stay.
pub open spec fn trim_nul(text: Seq<char>) -> Seq<char> {
    trim_end_nul(trim_start_nul(text))
}

/// `k` is the length of the longest prefix of `bytes` that is valid UTF-8.
pub open spec fn is_valid_up_to(bytes: Seq<u8>, k: int) -> bool {
    &&& 0 <= k <= bytes.len()
    &&& valid_utf8(bytes.subrange(0, k))
    &&& forall|j: int| k < j <= bytes.len() ==> !valid_utf8(#[trigger] bytes.subrange(0, j))
}

/// The length of the longest prefix of `bytes` that is valid UTF-8.
pub open spec fn valid_prefix_len(bytes: Seq<u8>) -> int {
    choose|k: int| is_valid_up_to(bytes, k)
}

proof fn lemma_valid_prefix_below(bytes: Seq<u8>, bound: int)
    requires
        0 <= bound <= bytes.len(),
        forall|j: int| bound < j <= bytes.len() ==> !valid_utf8(#[trigger] bytes.subrange(0, j)),
    ensures
        exists|k: int| is_valid_up_to(bytes, k),
    decreases bound,
{
    if valid_utf8(bytes.subrange(0, bound)) {
        assert(is_valid_up_to(bytes, bound));
    } else {
        assert(bound > 0) by {
            assert(valid_utf8(Seq::<u8>::empty()));
            if bound == 0 {
                assert(bytes.subrange(0, 0) =~= Seq::<u8>::empty());
            }
        }
        lemma_valid_prefix_below(bytes, bound - 1);
    }
}

/// Every sequence has a longest valid prefix, the empty one if no other.
pub proof fn lemma_valid_prefix_len(bytes: Seq<u8>)
    ensures
        is_valid_up_to(bytes, valid_prefix_len(bytes)),
        valid_utf8(bytes) <==> valid_prefix_len(bytes) == bytes.len(),
{
    lemma_valid_prefix_below(bytes, bytes.len() as int);
    assert(bytes.subrange(0, bytes.len() as int) =~= bytes);
}

/// A sequence has one longest valid prefix only.
pub proof fn lemma_valid_up_to_unique(bytes: Seq<u8>, k: int)
    requires
        is_valid_up_to(bytes, k),
    ensures
        valid_prefix_len(bytes) == k,
{
    let c = valid_prefix_len(bytes);
    assert(is_valid_up_to(bytes, c));
    if c < k {
        assert(!valid_utf8(bytes.subrange(0, k)));
    } else if k < c {
        assert(!valid_utf8(bytes.subrange(0, c)));
    }
}

/// `core::str::from_utf8`. Believed of it: it gives a text exactly where
/// the bytes are valid UTF-8, and the text it gives is made of those bytes.
#[verifier::external_body]
fn utf8_text(bytes: &[u8]) -> (r: Option<&str>)
    ensures
        r is Some <==> valid_utf8(bytes@),
        r matches Some(text) ==> text.spec_bytes() == bytes@,
{
    match core::str::from_utf8(bytes) {
        Ok(text) => Some(text),
        Err(_) => None,
    }
}

/// Finds the length of the longest prefix of `bytes` that is valid UTF-8,
/// by trying the prefixes from the longest down. Reports are short, and
/// only one that does not decode is searched.
fn longest_valid_prefix(bytes: &[u8]) -> (k: usize)
    ensures
        is_valid_up_to(bytes@, k as int),
{
    let mut k = bytes.len();
    loop
        invariant
            k <= bytes@.len(),
            forall|j: int| k < j <= bytes@.len() ==> !valid_utf8(#[trigger] bytes@.subrange(0, j)),
        decreases k,
    {
        if utf8_text(slice_subrange(bytes, 0, k)).is_some() {
            return k;
        }
        assert(k > 0) by {
            assert(valid_utf8(Seq::<u8>::empty()));
            if k == 0 {
                assert(bytes@.subrange(0, 0) =~= Seq::<u8>::empty());
            }
        }
        k = k - 1;
    }
}

/// Every character of `text` from `from` up to `to` is NUL.
pub open spec fn all_nul(text: Seq<char>, from: int, to: int) -> bool {
    forall|i: int| from <= i < to ==> text[i] == nul()
}

/// `start..end` is the part of `text` between its leading and its trailing
/// run of NUL characters.
pub open spec fn trim_bounds(text: Seq<char>, start: int, end: int) -> bool {
    &&& 0 <= start <= end <= text.len()
    &&& all_nul(text, 0, start)
    &&& all_nul(text, end, text.len() as int)
    &&& start < end ==> text[start] != nul() && text[end - 1] != nul()
}

proof fn lemma_trim_start(text: Seq<char>, start: int)
    requires
        0 <= start <= text.len(),
        all_nul(text, 0, start),
        start < text.len() ==> text[start] != nul(),
    ensures
        trim_start_nul(text) == text.subrange(start, text.len() as int),
    decreases start,
{
    if start == 0 {
        assert(text.subrange(0, text.len() as int) =~= text);
    } else {
        let rest = text.drop_first();
        assert(text.first() == nul());
        assert forall|i: int| 0 <= i < start - 1 implies rest[i] == nul() by {
            assert(rest[i] == text[i + 1]);
        }
        lemma_trim_start(rest, start - 1);
        assert(rest.subrange(start - 1, rest.len() as int) =~= text.subrange(
            start,
            text.len() as int,
        ));
    }
}

proof fn lemma_trim_end(text: Seq<char>, end: int)
    requires
        0 <= end <= text.len(),
        all_nul(text, end, text.len() as int),
        0 < end ==> text[end - 1] != nul(),
    ensures
        trim_end_nul(text) == text.subrange(0, end),
    decreases text.len() - end,
{
    if end == text.len() {
        assert(text.subrange(0, end) =~= text);
    } else {
        let rest = text.drop_last();
        assert(text.last() == nul());
        lemma_trim_end(rest, end);
        assert(rest.subrange(0, end) =~= text.subrange(0, end));
    }
}

/// The trimmed text is the part that `trim_bounds` marks.
pub proof fn lemma_trim_nul_is_subrange(text: Seq<char>, start: int, end: int)
    requires
        trim_bounds(text, start, end),
    ensures
        trim_nul(text) == text.subrange(start, end),
{
    if start < end {
        lemma_trim_start(text, start);
        let tail = text.subrange(start, text.len() as int);
        assert forall|i: int| end - start <= i < tail.len() implies tail[i] == nul() by {
            assert(tail[i] == text[i + start]);
        }
        lemma_trim_end(tail, end - start);
        assert(tail.subrange(0, end - start) =~= text.subrange(start, end));
    } else {
        // Nothing but NUL characters: the leading run is the whole text.
        assert(all_nul(text, 0, text.len() as int));
        lemma_trim_start(text, text.len() as int);
        assert(trim_start_nul(text) =~= Seq::<char>::empty());
        assert(text.subrange(start, end) =~= Seq::<char>::empty());
    }
}

/// The part of `text` between its leading and its trailing run of NUL
/// characters.
fn trim_nul_text(text: &str) -> (trimmed: &str)
    ensures
        trimmed@ == trim_nul(text@),
{
    let total = text.unicode_len();
    let mut index: usize = 0;
    let mut start: usize = 0;
    let mut end: usize = 0;
    for c in it: text.chars()
        invariant
            it.seq() == text@,
            total == text@.len(),
            index == it.index(),
            start <= end <= index <= total,
            start == end ==> start == index,
            all_nul(text@, 0, start as int),
            all_nul(text@, end as int, index as int),
            start < end ==> text@[start as int] != nul() && text@[end - 1] != nul(),
    {
        if c != '\0' {
            if start == end {
                start = index;
            }
            end = index + 1;
        } else if start == end {
            start = index + 1;
            end = index + 1;
        }
        index = index + 1;
    }
    proof {
        lemma_trim_nul_is_subrange(text@, start as int, end as int);
    }
    text.substring_char(start, end)
}

/// What the first `length` bytes of `buffer` decode to: the text they encode,
/// without its leading and trailing NUL characters, or the reason why they
/// encode none. Nothing beyond those bytes has a part in it.
pub open spec fn decoded(buffer: Seq<u8>, length: int) -> Result<Seq<char>, DecodeError> {
    let active = buffer.subrange(0, length);
    if valid_utf8(active) {
        Ok(trim_nul(decode_utf8(active)))
    } else {
        Err(DecodeError::InvalidEncoding { valid_up_to: valid_prefix_len(active) as usize })
    }
}

/// The result of a decoding, with the line taken as its characters.
pub open spec fn outcome_view(r: Result<String, DecodeError>) -> Result<Seq<char>, DecodeError> {
    match r {
        Ok(line) => Ok(line@),
        Err(e) => Err(e),
    }
}

/// Decodes the first `length` bytes of `buffer` into a line: the bytes are
/// read as UTF-8, and the NUL characters that pad the text on either side
/// are dropped. An empty or all-NUL report gives the empty line.
pub fn decode(buffer: &[u8], length: usize) -> (r: Result<String, DecodeError>)
    requires
        length <= buffer@.len(),
    ensures
        outcome_view(r) == decoded(buffer@, length as int),
        r is Ok <==> valid_utf8(buffer@.subrange(0, length as int)),
{
    let active = slice_subrange(buffer, 0, length);
    match utf8_text(active) {
        Some(text) => {
            proof {
                encode_utf8_decode_utf8(text@);
            }
            Ok(trim_nul_text(text).to_owned())
        },
        None => {
            let valid_up_to = longest_valid_prefix(active);
            proof {
                lemma_valid_up_to_unique(active@, valid_up_to as int);
            }
            Err(DecodeError::InvalidEncoding { valid_up_to })
        },
    }
}

/// `count` NUL bytes.
pub open spec fn nul_bytes(count: nat) -> Seq<u8> {
    Seq::new(count, |i: int| 0u8)
}

/// `count` NUL characters.
pub open spec fn nul_chars(count: nat) -> Seq<char> {
    Seq::new(count, |i: int| nul())
}

/// `text` as a device pads it: its encoding, with `before` NUL bytes in
/// front of it and `after` behind it.
pub open spec fn padded(text: Seq<char>, before: nat, after: nat) -> Seq<u8> {
    nul_bytes(before) + encode_utf8(text) + nul_bytes(after)
}

proof fn lemma_encode_concat(a: Seq<char>, b: Seq<char>)
    ensures
        encode_utf8(a + b) == encode_utf8(a) + encode_utf8(b),
    decreases a.len(),
{
    if a.len() == 0 {
        assert(a + b =~= b);
        assert(encode_utf8(a) + encode_utf8(b) =~= encode_utf8(b));
    } else {
        lemma_encode_concat(a.drop_first(), b);
        assert((a + b).drop_first() =~= a.drop_first() + b);
        assert((a + b)[0] == a[0]);
        assert(encode_utf8(a + b) =~= encode_utf8(a) + encode_utf8(b));
    }
}

proof fn lemma_encode_nul_chars(count: nat)
    ensures
        encode_utf8(nul_chars(count)) == nul_bytes(count),
    decreases count,
{
    if count == 0 {
        assert(encode_utf8(nul_chars(count)) =~= nul_bytes(count));
    } else {
        let rest = (count - 1) as nat;
        lemma_encode_nul_chars(rest);
        assert(nul_chars(count).drop_first() =~= nul_chars(rest));
        assert(nul() as u32 == 0u32);
        assert((0u32 & 0x7F) as u8 == 0u8) by (bit_vector);
        assert(encode_scalar(0u32) =~= seq![0u8]);
        assert(encode_utf8(nul_chars(count)) =~= nul_bytes(count));
    }
}

/// Padding is undone: where a report holds the encoding of `text` between
/// any number of NUL bytes, and `text` neither begins nor ends with a NUL
/// character, the report decodes to `text` itself.
pub proof fn lemma_decode_padded(
    buffer: Seq<u8>,
    length: int,
    text: Seq<char>,
    before: nat,
    after: nat,
)
    requires
        0 <= length <= buffer.len(),
        buffer.subrange(0, length) == padded(text, before, after),
        text.len() > 0 ==> text.first() != nul() && text.last() != nul(),
    ensures
        decoded(buffer, length) == Ok::<Seq<char>, DecodeError>(text),
{
    let active = buffer.subrange(0, length);
    let chars = nul_chars(before) + text + nul_chars(after);
    assert(encode_utf8(chars) == active) by {
        lemma_encode_concat(nul_chars(before) + text, nul_chars(after));
        lemma_encode_concat(nul_chars(before), text);
        lemma_encode_nul_chars(before);
        lemma_encode_nul_chars(after);
    }
    encode_utf8_valid_utf8(chars);
    encode_utf8_decode_utf8(chars);
    let start = before as int;
    let end = start + text.len() as int;
    assert(trim_bounds(chars, start, end));
    lemma_trim_nul_is_subrange(chars, start, end);
    assert(chars.subrange(start, end) =~= text);
}

/// Bytes that lie beyond the length of a report have no part in what it
/// decodes to.
pub proof fn lemma_decoded_ignores_tail(first: Seq<u8>, second: Seq<u8>, length: int)
    requires
        0 <= length <= first.len(),
        length <= second.len(),
        first.subrange(0, length) == second.subrange(0, length),
    ensures
        decoded(first, length) == decoded(second, length),
{
}

} // verus!
