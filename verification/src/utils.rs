//! Byte-level helpers and the base64 text encoding of byte sequences.

use base64::Engine;
use vstd::prelude::*;
use vstd::string::StringSliceAdditionalSpecFns;
use vstd::utf8::{decode_utf8, valid_utf8};

verus! {

/// The base64 rendering (standard alphabet, padded) of a byte sequence.
pub uninterp spec fn b64_of(bytes: Seq<u8>) -> Seq<char>;

/// Relies on `base64::engine::general_purpose::STANDARD.encode`: the
/// rendering depends on the input bytes alone.
#[verifier::external_body]
pub fn base64_encode(bytes: &[u8]) -> (r: String)
    ensures
        r@ == b64_of(bytes@),
{
    base64::engine::general_purpose::STANDARD.encode(bytes)
}

/// Relies on `base64::engine::general_purpose::STANDARD.decode`: with this
/// engine's strict defaults (required canonical padding, no stray trailing
/// bits) decoding succeeds exactly on the encodings that `encode` produces,
/// and inverts them.
#[verifier::external_body]
pub fn base64_decode(text: &str) -> (r: Option<Vec<u8>>)
    ensures
        forall|b: Seq<u8>| text@ == b64_of(b) ==> r is Some && r->0@ == b,
        r is Some ==> text@ == b64_of(r->0@),
{
    base64::engine::general_purpose::STANDARD.decode(text).ok()
}

/// Encodes a value's text as base64, for use in headers and payloads.
pub fn encode_base64(value: &str) -> (r: String)
    ensures
        r@ == b64_of(value.spec_bytes()),
{
    base64_encode(value.as_bytes())
}

/// Relies on `String::from_utf8`: it succeeds exactly on well-formed UTF-8
/// and returns the characters those bytes encode.
#[verifier::external_body]
pub fn string_from_utf8(bytes: Vec<u8>) -> (r: Option<String>)
    ensures
        r is Some <==> valid_utf8(bytes@),
        r is Some ==> r->0@ == decode_utf8(bytes@),
{
    String::from_utf8(bytes).ok()
}

/// A copy of the bytes `from..to` of a slice.
pub fn bytes_range(bytes: &[u8], from: usize, to: usize) -> (r: Vec<u8>)
    requires
        0 <= from <= to <= bytes@.len(),
    ensures
        r@ == bytes@.subrange(from as int, to as int),
{
    let sub = vstd::slice::slice_subrange(bytes, from, to);
    vstd::slice::slice_to_vec(sub)
}

/// The position of the first `sep` byte, if there is one.
pub fn find_byte(bytes: &[u8], sep: u8) -> (r: Option<usize>)
    ensures
        match r {
            Some(i) => {
                &&& 0 <= i < bytes@.len()
                &&& bytes@[i as int] == sep
                &&& forall|j: int| 0 <= j < i ==> bytes@[j] != sep
            },
            None => forall|j: int| 0 <= j < bytes@.len() ==> bytes@[j] != sep,
        },
{
    let n = bytes.len();
    let mut i: usize = 0;
    while i < n
        invariant
            n == bytes@.len(),
            0 <= i <= n,
            forall|j: int| 0 <= j < i ==> bytes@[j] != sep,
        decreases n - i,
    {
        if bytes[i] == sep {
            return Some(i);
        }
        i += 1;
    }
    None
}

/// Whether `bytes` starts with `prefix`.
pub fn starts_with(bytes: &[u8], prefix: &[u8]) -> (r: bool)
    ensures
        r == (bytes@.len() >= prefix@.len() && bytes@.subrange(0, prefix@.len() as int)
            == prefix@),
{
    if bytes.len() < prefix.len() {
        return false;
    }
    let head = vstd::slice::slice_subrange(bytes, 0, prefix.len());
    crate::bearer::bytes_eq(head, prefix)
}

} // verus!
