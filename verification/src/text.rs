//! Text on its way into and out of the interpreter.
//!
//! The interpreter takes text as a zero-terminated byte string and hands text
//! back as raw bytes. Going in, a byte string must not hold a zero byte of its
//! own; coming out, the bytes must be valid UTF-8.

use crate::error::{NulError, NulErrorView, Utf8Error, Utf8ErrorView};
use vstd::prelude::*;
use vstd::string::StringSliceAdditionalSpecFns;
use vstd::utf8::{
    decode_utf8, encode_scalar, encode_utf8, has_width_1_encoding, last_continuation_byte,
    leading_byte_width_1, leading_byte_width_2, leading_byte_width_3, leading_byte_width_4,
    second_last_continuation_byte, third_last_continuation_byte, valid_utf8,
};

verus! {

/// Some byte of `bytes` is zero.
pub open spec fn has_nul(bytes: Seq<u8>) -> bool {
    exists|i: int| 0 <= i < bytes.len() && bytes[i] == 0u8
}

/// `i` is the position of the first zero byte of `bytes`.
pub open spec fn is_first_nul(bytes: Seq<u8>, i: int) -> bool {
    &&& 0 <= i < bytes.len()
    &&& bytes[i] == 0u8
    &&& forall|j: int| 0 <= j < i ==> bytes[j] != 0u8
}

/// Position of the first zero byte of `bytes`, where there is one.
pub open spec fn first_nul(bytes: Seq<u8>) -> int {
    choose|i: int| is_first_nul(bytes, i)
}

/// The first zero byte sits at one position only.
pub proof fn lemma_first_nul_is(bytes: Seq<u8>, i: int)
    requires
        is_first_nul(bytes, i),
    ensures
        has_nul(bytes),
        first_nul(bytes) == i,
{
    let k = first_nul(bytes);
    assert(is_first_nul(bytes, k));
    if k < i {
        assert(bytes[k] != 0u8);
    }
    if i < k {
        assert(bytes[i] != 0u8);
    }
}

/// What preparing `bytes` for the interpreter yields: the bytes themselves
/// where none is zero, else a report of the first zero byte.
pub open spec fn checked(bytes: Seq<u8>) -> Result<Seq<u8>, NulErrorView> {
    if has_nul(bytes) {
        Err(NulErrorView { position: first_nul(bytes) as nat, bytes })
    } else {
        Ok(bytes)
    }
}

/// The first `n` bytes of `bytes` are valid UTF-8 and no longer prefix is.
pub open spec fn is_longest_valid_prefix(bytes: Seq<u8>, n: int) -> bool {
    &&& 0 <= n <= bytes.len()
    &&& valid_utf8(bytes.subrange(0, n))
    &&& forall|m: int| n < m <= bytes.len() ==> !valid_utf8(#[trigger] bytes.subrange(0, m))
}

/// Length of the longest prefix of `bytes` that is valid UTF-8.
pub open spec fn valid_prefix_len(bytes: Seq<u8>) -> int {
    choose|n: int| is_longest_valid_prefix(bytes, n)
}

/// The longest valid prefix has one length only.
pub proof fn lemma_valid_prefix_len_is(bytes: Seq<u8>, n: int)
    requires
        is_longest_valid_prefix(bytes, n),
    ensures
        valid_prefix_len(bytes) == n,
{
    let k = valid_prefix_len(bytes);
    assert(is_longest_valid_prefix(bytes, k));
    if k < n {
        assert(!valid_utf8(bytes.subrange(0, n)));
    }
    if n < k {
        assert(!valid_utf8(bytes.subrange(0, k)));
    }
}

/// Length of the invalid sequence that follows the longest valid prefix of
/// `bytes`, as the standard library's UTF-8 validation reports it; `None`
/// stands for input that stops in the middle of a character.
pub uninterp spec fn utf8_error_len(bytes: Seq<u8>) -> Option<nat>;

/// What reading `bytes` as text yields: the characters they encode where they
/// are valid UTF-8, else a report of where validity ends.
pub open spec fn decoded(bytes: Seq<u8>) -> Result<Seq<char>, Utf8ErrorView> {
    if valid_utf8(bytes) {
        Ok(decode_utf8(bytes))
    } else {
        Err(
            Utf8ErrorView {
                valid_up_to: valid_prefix_len(bytes) as nat,
                error_len: utf8_error_len(bytes),
            },
        )
    }
}

/// A zero byte occurs in the UTF-8 encoding of one character only when the
/// character is the zero character itself.
proof fn lemma_encoded_scalar_nul(c: char)
    ensures
        has_nul(encode_scalar(c as u32)) <==> c == '\0',
{
    let s = c as u32;
    let bytes = encode_scalar(s);
    vstd::utf8::char_is_scalar(c);
    assert(has_width_1_encoding(s) ==> (leading_byte_width_1(s) == 0u8 <==> s == 0u32))
        by (bit_vector);
    assert(leading_byte_width_2(s) != 0u8) by (bit_vector);
    assert(leading_byte_width_3(s) != 0u8) by (bit_vector);
    assert(leading_byte_width_4(s) != 0u8) by (bit_vector);
    assert(last_continuation_byte(s) != 0u8) by (bit_vector);
    assert(second_last_continuation_byte(s) != 0u8) by (bit_vector);
    assert(third_last_continuation_byte(s) != 0u8) by (bit_vector);
    if has_width_1_encoding(s) {
        if s == 0u32 {
            assert(bytes[0] == 0u8);
        }
    }
    assert(s == 0u32 <==> c == '\0') by {
        vstd::utf8::char_u32_cast(c, s);
        vstd::utf8::char_u32_cast('\0', 0u32);
    }
}

/// Text holds a zero byte, once encoded, exactly when it holds the zero
/// character.
pub proof fn lemma_encoded_nul(text: Seq<char>)
    ensures
        has_nul(encode_utf8(text)) <==> text.contains('\0'),
    decreases text.len(),
{
    if text.len() > 0 {
        let head = encode_scalar(text[0] as u32);
        let rest = text.drop_first();
        let tail = encode_utf8(rest);
        lemma_encoded_scalar_nul(text[0]);
        lemma_encoded_nul(rest);
        if has_nul(head) {
            let i = choose|i: int| 0 <= i < head.len() && head[i] == 0u8;
            assert((head + tail)[i] == 0u8);
        }
        if has_nul(tail) {
            let i = choose|i: int| 0 <= i < tail.len() && tail[i] == 0u8;
            assert((head + tail)[head.len() + i] == 0u8);
        }
        if has_nul(head + tail) {
            let i = choose|i: int| 0 <= i < (head + tail).len() && (head + tail)[i] == 0u8;
            if i < head.len() {
                assert(head[i] == 0u8);
            } else {
                assert(tail[i - head.len()] == 0u8);
            }
        }
        if text.contains('\0') {
            let i = choose|i: int| 0 <= i < text.len() && text[i] == '\0';
            if i > 0 {
                assert(rest[i - 1] == '\0');
            }
        }
        if rest.contains('\0') {
            let i = choose|i: int| 0 <= i < rest.len() && rest[i] == '\0';
            assert(text[i + 1] == '\0');
        }
    }
}

/// Looks for the first zero byte of `bytes`.
pub fn find_nul(bytes: &[u8]) -> (position: Option<usize>)
    ensures
        match position {
            Some(i) => is_first_nul(bytes@, i as int),
            None => !has_nul(bytes@),
        },
{
    let mut i: usize = 0;
    while i < bytes.len()
        invariant
            i <= bytes.len(),
            forall|j: int| 0 <= j < i ==> bytes@[j] != 0u8,
        decreases bytes.len() - i,
    {
        if bytes[i] == 0 {
            return Some(i);
        }
        i += 1;
    }
    None
}

/// A byte string in the form the interpreter reads: free of zero bytes and
/// followed by one terminating zero.
#[derive(Debug, PartialEq, Eq)]
pub struct NativeString {
    bytes: Vec<u8>,
}

impl View for NativeString {
    type V = Seq<u8>;

    /// The text itself, without the terminator.
    closed spec fn view(&self) -> Seq<u8> {
        self.bytes@.drop_last()
    }
}

impl NativeString {
    #[verifier::type_invariant]
    spec fn terminated(self) -> bool {
        &&& self.bytes@.len() >= 1
        &&& self.bytes@.last() == 0u8
        &&& !has_nul(self.bytes@.drop_last())
    }

    /// Terminates `bytes`, or reports the first zero byte found inside them.
    pub fn new(bytes: Vec<u8>) -> (result: Result<NativeString, NulError>)
        ensures
            match result {
                Ok(text) => checked(bytes@) == Ok::<Seq<u8>, NulErrorView>(text@),
                Err(e) => checked(bytes@) == Err::<Seq<u8>, NulErrorView>(e@),
            },
    {
        match find_nul(bytes.as_slice()) {
            Some(position) => {
                proof {
                    lemma_first_nul_is(bytes@, position as int);
                }
                Err(NulError::new(position, bytes))
            },
            None => {
                let ghost content = bytes@;
                let mut bytes = bytes;
                bytes.push(0);
                assert(bytes@.drop_last() =~= content);
                Ok(NativeString { bytes })
            },
        }
    }

    /// The text followed by its terminator, as the interpreter reads it.
    pub fn as_bytes_with_nul(&self) -> (bytes: &[u8])
        ensures
            bytes@ == self@.push(0u8),
            !has_nul(self@),
    {
        proof {
            use_type_invariant(self);
            assert(self.bytes@ =~= self.bytes@.drop_last().push(0u8));
        }
        self.bytes.as_slice()
    }
}

/// Validates `bytes` with `core::str::from_utf8`.
///
/// Trusted: the call succeeds exactly on valid UTF-8 and then returns the
/// same bytes as text. On failure the first number is the error's
/// `valid_up_to`, the length of the longest valid prefix, and the second is
/// its `error_len`, which is given the name [`utf8_error_len`].
#[verifier::external_body]
fn validate_utf8<'a>(bytes: &'a [u8]) -> (result: Result<&'a str, (usize, Option<usize>)>)
    ensures
        result is Ok <==> valid_utf8(bytes@),
        match result {
            Ok(text) => text.spec_bytes() == bytes@,
            Err((valid_up_to, error_len)) => {
                &&& is_longest_valid_prefix(bytes@, valid_up_to as int)
                &&& match error_len {
                    Some(n) => utf8_error_len(bytes@) == Some(n as nat),
                    None => utf8_error_len(bytes@) is None,
                }
            },
        },
{
    match core::str::from_utf8(bytes) {
        Ok(text) => Ok(text),
        Err(e) => Err((e.valid_up_to(), e.error_len())),
    }
}

/// Reads bytes that came back from the interpreter as text.
pub fn decode_text(bytes: &[u8]) -> (result: Result<String, Utf8Error>)
    ensures
        match result {
            Ok(text) => decoded(bytes@) == Ok::<Seq<char>, Utf8ErrorView>(text@),
            Err(e) => decoded(bytes@) == Err::<Seq<char>, Utf8ErrorView>(e@),
        },
{
    match validate_utf8(bytes) {
        Ok(text) => {
            proof {
                vstd::utf8::encode_utf8_decode_utf8(text@);
            }
            Ok(text.to_owned())
        },
        Err((valid_up_to, error_len)) => {
            proof {
                lemma_valid_prefix_len_is(bytes@, valid_up_to as int);
            }
            Err(Utf8Error::new(valid_up_to, error_len))
        },
    }
}

} // verus!
