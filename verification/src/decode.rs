//! Turning the bytes that the child process wrote into text.

use crate::error::{Utf8Failure, Utf8FailureView};
use vstd::prelude::*;
use vstd::utf8::{decode_utf8, valid_utf8};

verus! {

/// `index` is the length of the longest prefix of `bytes` that is UTF-8
/// text: that prefix is valid, and no longer prefix is.
pub open spec fn is_valid_up_to(bytes: Seq<u8>, index: int) -> bool {
    &&& 0 <= index <= bytes.len()
    &&& valid_utf8(bytes.subrange(0, index))
    &&& forall|longer: int|
        index < longer <= bytes.len() ==> !valid_utf8(#[trigger] bytes.subrange(0, longer))
}

/// The greatest length, not above `limit`, of a prefix of `bytes` that is
/// UTF-8 text.
pub open spec fn valid_prefix_within(bytes: Seq<u8>, limit: nat) -> nat
    decreases limit,
{
    if limit == 0 || valid_utf8(bytes.subrange(0, limit as int)) {
        limit
    } else {
        valid_prefix_within(bytes, (limit - 1) as nat)
    }
}

/// The length of the longest prefix of `bytes` that is UTF-8 text.
pub open spec fn valid_prefix_len(bytes: Seq<u8>) -> nat {
    valid_prefix_within(bytes, bytes.len())
}

/// Among the prefixes of at most `limit` bytes, the one of
/// [`valid_prefix_within`] is valid and no longer one is.
proof fn lemma_valid_prefix_within(bytes: Seq<u8>, limit: nat)
    requires
        limit <= bytes.len(),
    ensures
        valid_prefix_within(bytes, limit) <= limit,
        valid_utf8(bytes.subrange(0, valid_prefix_within(bytes, limit) as int)),
        forall|longer: int|
            valid_prefix_within(bytes, limit) < longer <= limit ==> !valid_utf8(
                #[trigger] bytes.subrange(0, longer),
            ),
    decreases limit,
{
    if limit == 0 {
        assert(bytes.subrange(0, 0).len() == 0);
    } else if !valid_utf8(bytes.subrange(0, limit as int)) {
        lemma_valid_prefix_within(bytes, (limit - 1) as nat);
    }
}

/// Every sequence of bytes has a longest valid prefix, and
/// [`valid_prefix_len`] is its length.
pub proof fn lemma_valid_prefix_len(bytes: Seq<u8>)
    ensures
        is_valid_up_to(bytes, valid_prefix_len(bytes) as int),
{
    lemma_valid_prefix_within(bytes, bytes.len());
}

/// No other index is the length of the longest valid prefix.
pub proof fn lemma_valid_up_to_unique(bytes: Seq<u8>, index: int)
    requires
        is_valid_up_to(bytes, index),
    ensures
        valid_prefix_len(bytes) == index,
{
    lemma_valid_prefix_len(bytes);
    let len = valid_prefix_len(bytes) as int;
    if len < index {
        assert(!valid_utf8(bytes.subrange(0, index)));
    }
    if index < len {
        assert(!valid_utf8(bytes.subrange(0, len)));
    }
}

/// The length that the standard library reports for the byte sequence at
/// which decoding `bytes` as UTF-8 stops: `Some` length of the offending
/// sequence, or `None` when `bytes` end in the middle of a character.
/// Meaningful only for bytes that are not valid UTF-8.
pub uninterp spec fn utf8_error_len(bytes: Seq<u8>) -> Option<usize>;

/// The text that the standard library's lossy decoding makes of `bytes`:
/// each invalid sequence is replaced by U+FFFD.
pub uninterp spec fn lossy_text(bytes: Seq<u8>) -> Seq<char>;

/// What decoding `bytes` strictly gives: the text, or the failure with the
/// bytes handed back.
pub open spec fn decoded(bytes: Seq<u8>) -> Result<Seq<char>, Utf8FailureView> {
    if valid_utf8(bytes) {
        Ok(decode_utf8(bytes))
    } else {
        Err(
            Utf8FailureView {
                bytes,
                valid_up_to: valid_prefix_len(bytes),
                error_len: utf8_error_len(bytes),
            },
        )
    }
}

/// What decoding `bytes` leniently gives: the text where the bytes are valid
/// UTF-8, and the lossy text otherwise.
pub open spec fn decoded_lossy(bytes: Seq<u8>) -> Seq<char> {
    if valid_utf8(bytes) {
        decode_utf8(bytes)
    } else {
        lossy_text(bytes)
    }
}

/// Calls `String::from_utf8`. Trusted: valid UTF-8 gives `Ok` with the
/// decoded text, anything else gives `Err`; the error hands the bytes back
/// unchanged, its `valid_up_to` is the length of the longest valid prefix
/// and its `error_len` is the value named [`utf8_error_len`].
#[verifier::external_body]
pub(crate) fn string_from_utf8(bytes: Vec<u8>) -> (res: Result<String, Utf8Failure>)
    ensures
        match res {
            Ok(text) => valid_utf8(bytes@) && text@ == decode_utf8(bytes@),
            Err(failure) => {
                &&& !valid_utf8(bytes@)
                &&& failure.bytes@ == bytes@
                &&& is_valid_up_to(bytes@, failure.valid_up_to as int)
                &&& failure.error_len == utf8_error_len(bytes@)
            },
        },
{
    match String::from_utf8(bytes) {
        Ok(text) => Ok(text),
        Err(err) => {
            let valid_up_to = err.utf8_error().valid_up_to();
            let error_len = err.utf8_error().error_len();
            Err(Utf8Failure { bytes: err.into_bytes(), valid_up_to, error_len })
        },
    }
}

/// Calls `String::from_utf8_lossy`. Trusted: the result is the text named
/// [`lossy_text`] of the bytes.
#[verifier::external_body]
pub(crate) fn string_from_utf8_lossy(bytes: &Vec<u8>) -> (text: String)
    ensures
        text@ == lossy_text(bytes@),
{
    String::from_utf8_lossy(bytes).into_owned()
}

/// Decodes the bytes of a successful run. Invalid UTF-8 is an error that
/// carries the bytes.
pub fn decode(bytes: Vec<u8>) -> (res: Result<String, Utf8Failure>)
    ensures
        match res {
            Ok(text) => decoded(bytes@) == Ok::<Seq<char>, Utf8FailureView>(text@),
            Err(failure) => decoded(bytes@) == Err::<Seq<char>, Utf8FailureView>(failure@),
        },
{
    let res = string_from_utf8(bytes);
    proof {
        if res is Err {
            lemma_valid_up_to_unique(bytes@, res->Err_0.valid_up_to as int);
        }
    }
    res
}

/// Decodes diagnostic bytes, which must give text whatever they hold:
/// valid UTF-8 is decoded as it is, anything else lossily.
pub fn decode_lossy(bytes: Vec<u8>) -> (text: String)
    ensures
        text@ == decoded_lossy(bytes@),
{
    match string_from_utf8(bytes) {
        Ok(text) => text,
        Err(failure) => string_from_utf8_lossy(&failure.bytes),
    }
}

} // verus!
