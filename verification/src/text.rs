//! Text as bytes: prefixes and delimiters.
//!
//! A string is modelled by its UTF-8 bytes (`spec_bytes`): the prefix of a
//! path and the delimiter of a credential are bytes, and to take a string
//! apart at them never cuts a character in two.

use vstd::pervasive::unreached;
use vstd::prelude::*;
use vstd::string::StringSliceAdditionalSpecFns;
use vstd::utf8::*;

verus! {

#[verifier::external_type_specification]
#[verifier::external_body]
pub struct ExUtf8Error(core::str::Utf8Error);

/// Calls `std::str::from_utf8`: the text that `bytes` encode where they are
/// well-formed UTF-8, an error where they are not.
#[verifier::external_body]
pub(crate) fn utf8_text(bytes: &[u8]) -> (text: Result<&str, core::str::Utf8Error>)
    ensures
        match text {
            Ok(read) => valid_utf8(bytes@) && read.spec_bytes() == bytes@,
            Err(_) => !valid_utf8(bytes@),
        },
{
    core::str::from_utf8(bytes)
}

/// `text` without `prefix` at its front; `text` itself where it does not start with `prefix`.
pub open spec fn without_prefix(text: Seq<u8>, prefix: Seq<u8>) -> Seq<u8> {
    if prefix.is_prefix_of(text) {
        text.skip(prefix.len() as int)
    } else {
        text
    }
}

/// How many bytes of `text` stand before the first `byte`; all of them where it has none.
pub open spec fn span_before(text: Seq<u8>, byte: u8) -> nat
    decreases text.len(),
{
    if text.len() == 0 || text[0] == byte {
        0
    } else {
        1 + span_before(text.skip(1), byte)
    }
}

/// The part of `text` before the first `byte`; all of `text` where it has none.
pub open spec fn segment_before(text: Seq<u8>, byte: u8) -> Seq<u8> {
    text.take(span_before(text, byte) as int)
}

/// `span_before` is the one position that has no `byte` before it and either
/// holds `byte` or is the end of `text`.
pub proof fn lemma_span_before(text: Seq<u8>, byte: u8, n: int)
    requires
        0 <= n <= text.len(),
        forall|i: int| 0 <= i < n ==> text[i] != byte,
        n == text.len() || text[n] == byte,
    ensures
        span_before(text, byte) == n,
    decreases text.len(),
{
    if n > 0 {
        let rest = text.skip(1);
        assert forall|i: int| 0 <= i < n - 1 implies rest[i] != byte by {
            assert(rest[i] == text[i + 1]);
        }
        lemma_span_before(rest, byte, n - 1);
    }
}

/// Whether `text` starts with `prefix`.
pub fn starts_with(text: &[u8], prefix: &[u8]) -> (found: bool)
    ensures
        found == prefix@.is_prefix_of(text@),
{
    if prefix.len() > text.len() {
        return false;
    }
    let mut i: usize = 0;
    while i < prefix.len()
        invariant
            i <= prefix.len() <= text.len(),
            forall|k: int| 0 <= k < i ==> text@[k] == prefix@[k],
        decreases prefix.len() - i,
    {
        if text[i] != prefix[i] {
            assert(text@.subrange(0, prefix@.len() as int)[i as int] != prefix@[i as int]);
            return false;
        }
        i += 1;
    }
    assert(prefix@ =~= text@.subrange(0, prefix@.len() as int));
    true
}

/// Whether two byte strings are the same.
pub fn same_bytes(left: &[u8], right: &[u8]) -> (same: bool)
    ensures
        same == (left@ == right@),
{
    if left.len() != right.len() {
        return false;
    }
    let same = starts_with(left, right);
    assert(left@.subrange(0, right@.len() as int) =~= left@);
    same
}

/// Whether two strings hold the same characters.
pub fn same_text(left: &str, right: &str) -> (same: bool)
    ensures
        same == (left@ == right@),
{
    proof {
        encode_utf8_decode_utf8(left@);
        encode_utf8_decode_utf8(right@);
    }
    same_bytes(left.as_bytes(), right.as_bytes())
}

/// The position of the first `byte` in `text`, or the length of `text`.
pub fn find_byte(text: &[u8], byte: u8) -> (n: usize)
    ensures
        n == span_before(text@, byte),
        n <= text@.len(),
{
    let mut i: usize = 0;
    while i < text.len() && text[i] != byte
        invariant
            i <= text.len(),
            forall|k: int| 0 <= k < i ==> text@[k] != byte,
        decreases text.len() - i,
    {
        i += 1;
    }
    proof {
        lemma_span_before(text@, byte, i as int);
    }
    i
}

/// Bytes below 128 are UTF-8 text, one character each.
pub proof fn lemma_ascii_is_utf8(bytes: Seq<u8>)
    requires
        forall|i: int| 0 <= i < bytes.len() ==> bytes[i] <= 0x7f,
    ensures
        valid_utf8(bytes),
{
    assert(bytes.subrange(0, 0) =~= Seq::<u8>::empty());
    assert(partial_valid_utf8(bytes, 0));
    partial_valid_utf8_extend_ascii_block(bytes, 0, bytes.len() as int);
    assert(bytes.subrange(0, bytes.len() as int) =~= bytes);
}

/// Where a text starts with a prefix, what is put behind the text stays
/// behind it, byte for byte, when the prefix is taken away.
pub proof fn lemma_strip_keeps_tail(text: Seq<u8>, tail: Seq<u8>, prefix: Seq<u8>)
    requires
        prefix.is_prefix_of(text),
    ensures
        without_prefix(text + tail, prefix) == without_prefix(text, prefix) + tail,
{
    assert((text + tail).subrange(0, prefix.len() as int) =~= text.subrange(
        0,
        prefix.len() as int,
    ));
    assert((text + tail).skip(prefix.len() as int) =~= text.skip(prefix.len() as int) + tail);
}

/// Where one UTF-8 text starts with another, the shorter one ends between two
/// characters of the longer one.
pub proof fn lemma_prefix_ends_on_boundary(whole: Seq<u8>, prefix: Seq<u8>)
    requires
        valid_utf8(whole),
        valid_utf8(prefix),
        prefix.is_prefix_of(whole),
    ensures
        is_char_boundary(whole, prefix.len() as int),
    decreases prefix.len(),
{
    if prefix.len() > 0 {
        let width = length_of_first_scalar(prefix);
        assert(whole[0] == prefix[0]) by {
            assert(whole.subrange(0, prefix.len() as int)[0] == prefix[0]);
        }
        assert(length_of_first_scalar(whole) == width);
        let whole_rest = pop_first_scalar(whole);
        let prefix_rest = pop_first_scalar(prefix);
        assert(prefix_rest.is_prefix_of(whole_rest)) by {
            assert forall|i: int| 0 <= i < prefix_rest.len() implies whole_rest[i]
                == prefix_rest[i] by {
                assert(whole.subrange(0, prefix.len() as int)[i + width] == prefix[i + width]);
            }
            assert(prefix_rest =~= whole_rest.subrange(0, prefix_rest.len() as int));
        }
        lemma_prefix_ends_on_boundary(whole_rest, prefix_rest);
    }
}

/// `text` without `prefix` at its front; `text` itself where it does not start with `prefix`.
pub fn strip_prefix<'a>(text: &'a str, prefix: &str) -> (rest: &'a str)
    ensures
        rest.spec_bytes() == without_prefix(text.spec_bytes(), prefix.spec_bytes()),
{
    let front = prefix.as_bytes();
    if starts_with(text.as_bytes(), front) {
        proof {
            encode_utf8_valid_utf8(text@);
            encode_utf8_valid_utf8(prefix@);
            lemma_prefix_ends_on_boundary(text.spec_bytes(), prefix.spec_bytes());
        }
        let (_, rest) = text.split_at(front.len());
        assert(rest.spec_bytes() =~= text.spec_bytes().skip(prefix.spec_bytes().len() as int));
        rest
    } else {
        text
    }
}

/// The text that well-formed UTF-8 bytes encode.
pub(crate) fn owned_text(bytes: &[u8]) -> (text: String)
    requires
        valid_utf8(bytes@),
    ensures
        encode_utf8(text@) == bytes@,
{
    match utf8_text(bytes) {
        Ok(text) => text.to_owned(),
        Err(_) => unreached(),
    }
}

} // verus!
