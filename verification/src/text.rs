//! Zero-terminated UTF-8 text inside a tag: where it ends, when it is well formed, and what
//! is reported when it is not.

use vstd::prelude::*;
use vstd::slice::slice_subrange;
use vstd::utf8::{
    decode_utf8, encode_utf8, encode_utf8_decode_utf8, encode_utf8_valid_utf8,
    length_of_first_scalar, pop_first_scalar, valid_utf8,
};

verus! {

/// The bytes of a text are not UTF-8. `valid_up_to` is the length of the longest run of bytes
/// at the start of the text that is UTF-8, and so the place of the first byte that is not part
/// of a well-formed character.
#[derive(Clone, Copy, Debug, PartialEq, Eq, Structural)]
pub struct Utf8DecodeError {
    /// The number of bytes at the start of the text that are well formed.
    pub valid_up_to: usize,
}

/// The place of the first zero byte in `s`, or the length of `s` if it holds none.
pub open spec fn nul_position(s: Seq<u8>) -> nat
    decreases s.len(),
{
    if s.len() == 0 || s[0] == 0 {
        0
    } else {
        1 + nul_position(s.drop_first())
    }
}

/// The bytes of `s` in front of its first zero byte; all of `s` if it holds none.
pub open spec fn text_bytes(s: Seq<u8>) -> Seq<u8> {
    s.take(nul_position(s) as int)
}

/// Whether `n` is the length of the longest run of bytes at the start of `s` that is UTF-8.
pub open spec fn is_valid_up_to(s: Seq<u8>, n: int) -> bool {
    &&& 0 <= n <= s.len()
    &&& valid_utf8(s.take(n))
    &&& forall|m: int| n < m <= s.len() ==> !valid_utf8(#[trigger] s.take(m))
}

/// The length of the longest run of bytes at the start of `s` that is UTF-8.
pub open spec fn utf8_valid_up_to(s: Seq<u8>) -> nat
    decreases s.len(),
{
    if valid_utf8(s) {
        s.len()
    } else {
        utf8_valid_up_to(s.drop_last())
    }
}

/// What the zero-terminated text at the start of `bytes` decodes to: its characters, or the
/// place where it stops being UTF-8.
pub open spec fn spec_text(bytes: Seq<u8>) -> Result<Seq<char>, Utf8DecodeError> {
    let text = text_bytes(bytes);
    if valid_utf8(text) {
        Ok(decode_utf8(text))
    } else {
        Err(Utf8DecodeError { valid_up_to: utf8_valid_up_to(text) as usize })
    }
}

/// A decoded text with the string taken as its characters.
pub open spec fn text_view(r: Result<&str, Utf8DecodeError>) -> Result<Seq<char>, Utf8DecodeError> {
    match r {
        Ok(s) => Ok(s@),
        Err(e) => Err(e),
    }
}

/// `nul_position` is the one place `n` with no zero byte in front of it and either a zero
/// byte at it or the end of `s`.
pub proof fn lemma_nul_position(s: Seq<u8>, n: int)
    requires
        0 <= n <= s.len(),
        forall|i: int| 0 <= i < n ==> s[i] != 0,
        n < s.len() ==> s[n] == 0,
    ensures
        nul_position(s) == n,
    decreases s.len(),
{
    if n > 0 {
        let t = s.drop_first();
        assert forall|i: int| 0 <= i < n - 1 implies t[i] != 0 by {
            assert(t[i] == s[i + 1]);
        }
        lemma_nul_position(t, n - 1);
    }
}

/// `nul_position` lies inside `s`, no byte in front of it is zero, and the byte at it is.
pub proof fn lemma_nul_position_is_first(s: Seq<u8>)
    ensures
        nul_position(s) <= s.len(),
        forall|i: int| 0 <= i < nul_position(s) ==> s[i] != 0,
        nul_position(s) < s.len() ==> s[nul_position(s) as int] == 0,
    decreases s.len(),
{
    if !(s.len() == 0 || s[0] == 0) {
        let t = s.drop_first();
        lemma_nul_position_is_first(t);
        assert forall|i: int| 0 <= i < nul_position(s) implies s[i] != 0 by {
            if i > 0 {
                assert(s[i] == t[i - 1]);
            }
        }
        if nul_position(s) < s.len() {
            assert(s[nul_position(s) as int] == t[nul_position(t) as int]);
        }
    }
}

/// `utf8_valid_up_to` is the one length that `is_valid_up_to` accepts.
pub proof fn lemma_valid_up_to(s: Seq<u8>, n: int)
    requires
        is_valid_up_to(s, n),
    ensures
        utf8_valid_up_to(s) == n,
    decreases s.len(),
{
    assert(s.take(s.len() as int) =~= s);
    if !valid_utf8(s) {
        let t = s.drop_last();
        assert(t.take(n) =~= s.take(n));
        assert forall|m: int| n < m <= t.len() implies !valid_utf8(#[trigger] t.take(m)) by {
            assert(t.take(m) =~= s.take(m));
        }
        lemma_valid_up_to(t, n);
    }
}

/// `utf8_valid_up_to` is a length that `is_valid_up_to` accepts: the bytes in front of it are
/// UTF-8, and no longer run from the start is.
pub proof fn lemma_valid_up_to_is_longest(s: Seq<u8>)
    ensures
        is_valid_up_to(s, utf8_valid_up_to(s) as int),
    decreases s.len(),
{
    assert(s.take(s.len() as int) =~= s);
    if !valid_utf8(s) {
        let t = s.drop_last();
        let n = utf8_valid_up_to(t) as int;
        lemma_valid_up_to_is_longest(t);
        assert(s.take(n) =~= t.take(n));
        assert forall|m: int| n < m <= s.len() implies !valid_utf8(#[trigger] s.take(m)) by {
            if m < s.len() {
                assert(s.take(m) =~= t.take(m));
            }
        }
    }
}

/// No byte of a UTF-8 text is 0xf8 or more.
pub proof fn lemma_utf8_bytes_are_below_f8(s: Seq<u8>, i: int)
    requires
        valid_utf8(s),
        0 <= i < s.len(),
    ensures
        s[i] < 0xf8,
    decreases s.len(),
{
    let n = length_of_first_scalar(s);
    if i >= n {
        let rest = pop_first_scalar(s);
        assert(rest[i - n] == s[i]);
        lemma_utf8_bytes_are_below_f8(rest, i - n);
    }
}

/// A byte 0xff in front of every zero byte is where decoding fails, if all in front of it is
/// UTF-8: the error names the place of that byte.
pub proof fn lemma_text_fails_at_ff(bytes: Seq<u8>, k: int)
    requires
        bytes.len() <= usize::MAX,
        0 <= k < nul_position(bytes),
        bytes[k] == 0xff,
        valid_utf8(bytes.take(k)),
    ensures
        spec_text(bytes) == Err::<Seq<char>, _>(Utf8DecodeError { valid_up_to: k as usize }),
{
    lemma_nul_position_is_first(bytes);
    let text = text_bytes(bytes);
    assert(text.take(k) =~= bytes.take(k));
    assert forall|m: int| k < m <= text.len() implies !valid_utf8(#[trigger] text.take(m)) by {
        if valid_utf8(text.take(m)) {
            lemma_utf8_bytes_are_below_f8(text.take(m), k);
        }
    }
    assert(text.take(text.len() as int) =~= text);
    lemma_valid_up_to(text, k);
}

/// UTF-8 without a zero byte, followed by a zero byte, decodes to its characters, whatever
/// comes after the zero byte: the text ends in front of it.
pub proof fn lemma_terminated_text_decodes(text: Seq<u8>, rest: Seq<u8>)
    requires
        valid_utf8(text),
        forall|i: int| 0 <= i < text.len() ==> text[i] != 0,
    ensures
        text_bytes(text + seq![0u8] + rest) == text,
        spec_text(text + seq![0u8] + rest) == Ok::<_, Utf8DecodeError>(decode_utf8(text)),
{
    let bytes = text + seq![0u8] + rest;
    lemma_nul_position(bytes, text.len() as int);
    assert(text_bytes(bytes) =~= text);
}

/// A zero byte in UTF-8 is the character NUL: where the bytes hold one, so do the characters
/// that they decode to.
pub proof fn lemma_zero_byte_is_nul(s: Seq<u8>, i: int)
    requires
        valid_utf8(s),
        0 <= i < s.len(),
        s[i] == 0,
    ensures
        decode_utf8(s).contains('\0'),
    decreases s.len(),
{
    let n = length_of_first_scalar(s);
    let rest = pop_first_scalar(s);
    let chars = decode_utf8(s);
    if i >= n {
        assert(rest[i - n] == s[i]);
        lemma_zero_byte_is_nul(rest, i - n);
        let j = choose|j: int| 0 <= j < decode_utf8(rest).len() && decode_utf8(rest)[j] == '\0';
        assert(chars[j + 1] == '\0');
    } else {
        assert(i == 0);
        assert(0u8 & 0x7f == 0) by (bit_vector);
        assert(chars[0] == '\0');
    }
}

/// Round trip: the UTF-8 bytes of any characters without NUL among them, with a zero byte
/// behind them, decode to those characters, whatever comes after the zero byte.
pub proof fn lemma_text_round_trip(chars: Seq<char>, rest: Seq<u8>)
    requires
        !chars.contains('\0'),
    ensures
        spec_text(encode_utf8(chars) + seq![0u8] + rest) == Ok::<_, Utf8DecodeError>(chars),
{
    let text = encode_utf8(chars);
    encode_utf8_valid_utf8(chars);
    encode_utf8_decode_utf8(chars);
    assert forall|i: int| 0 <= i < text.len() implies text[i] != 0 by {
        if text[i] == 0 {
            lemma_zero_byte_is_nul(text, i);
        }
    }
    lemma_terminated_text_decodes(text, rest);
}

/// What `core::str::from_utf8` makes of `bytes`. It succeeds exactly on UTF-8, with a string
/// that holds the very bytes it was given. Otherwise the error's `valid_up_to` comes back:
/// the greatest length at which a run from the start of `bytes` would have been accepted.
#[verifier::external_body]
fn from_utf8<'a>(bytes: &'a [u8]) -> (r: Result<&'a str, usize>)
    ensures
        match r {
            Ok(s) => valid_utf8(bytes@) && encode_utf8(s@) == bytes@,
            Err(n) => !valid_utf8(bytes@) && is_valid_up_to(bytes@, n as int),
        },
{
    match core::str::from_utf8(bytes) {
        Ok(s) => Ok(s),
        Err(e) => Err(e.valid_up_to()),
    }
}

/// Reads the text at the start of `bytes`: the bytes in front of the first zero byte, or all
/// of them where there is none, taken as UTF-8. The string borrows from `bytes`.
pub fn decode_text<'a>(bytes: &'a [u8]) -> (r: Result<&'a str, Utf8DecodeError>)
    ensures
        text_view(r) == spec_text(bytes@),
{
    let mut n: usize = 0;
    while n < bytes.len() && bytes[n] != 0
        invariant
            n <= bytes@.len(),
            forall|i: int| 0 <= i < n ==> bytes@[i] != 0,
        decreases bytes@.len() - n,
    {
        n = n + 1;
    }
    proof {
        lemma_nul_position(bytes@, n as int);
    }
    let text = slice_subrange(bytes, 0, n);
    match from_utf8(text) {
        Ok(s) => {
            proof {
                encode_utf8_decode_utf8(s@);
            }
            Ok(s)
        },
        Err(k) => {
            proof {
                lemma_valid_up_to(text@, k as int);
            }
            Err(Utf8DecodeError { valid_up_to: k })
        },
    }
}

} // verus!
