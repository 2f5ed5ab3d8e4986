//! The content hash of an invocation: SHA-256 over the addressed payload,
//! written as upper-case hexadecimal.

use vstd::prelude::*;
use vstd::utf8::encode_utf8;

verus! {

/// The SHA-256 digest of `data`.
pub uninterp spec fn sha256(data: Seq<u8>) -> Seq<u8>;

/// SHA-256 is defined for inputs shorter than 2^61 bytes.
pub open spec fn digest_input_limit() -> int {
    0x2000_0000_0000_0000
}

/// The sixteen hexadecimal digits, upper case.
pub open spec fn hex_digits() -> Seq<char> {
    "0123456789ABCDEF"@
}

/// `bytes` in hexadecimal, two upper-case digits for each byte, the high
/// half first.
pub open spec fn hex_upper(bytes: Seq<u8>) -> Seq<char> {
    Seq::new(
        2 * bytes.len(),
        |i: int|
            if i % 2 == 0 {
                hex_digits()[bytes[i / 2] as int / 16]
            } else {
                hex_digits()[bytes[i / 2] as int % 16]
            },
    )
}

/// The bytes that the content hash is taken over: the origin URL, the target
/// URL and the operation in UTF-8, then the payload, in this order.
pub open spec fn hash_input(
    origin_url: Seq<char>,
    target_url: Seq<char>,
    operation: Seq<char>,
    msg: Seq<u8>,
) -> Seq<u8> {
    encode_utf8(origin_url) + encode_utf8(target_url) + encode_utf8(operation) + msg
}

/// The content hash of an invocation with these parts, where one exists.
pub open spec fn content_hash(
    origin_url: Seq<char>,
    target_url: Seq<char>,
    operation: Seq<char>,
    msg: Seq<u8>,
) -> Option<Seq<char>> {
    let input = hash_input(origin_url, target_url, operation, msg);
    if input.len() < digest_input_limit() {
        Some(hex_upper(sha256(input)))
    } else {
        None
    }
}

/// Calls `ring::digest::digest` with `SHA256`, which panics on an input of
/// 2^61 bytes or more. The contract names the digest and gives its length,
/// 32 bytes.
#[verifier::external_body]
pub(crate) fn sha256_digest(data: &[u8]) -> (digest: Vec<u8>)
    requires
        data@.len() < digest_input_limit(),
    ensures
        digest@ == sha256(data@),
        digest@.len() == 32,
{
    ring::digest::digest(&ring::digest::SHA256, data).as_ref().to_vec()
}

/// Calls `data_encoding::HEXUPPER.encode`, the base16 encoding of RFC 4648 with
/// the digits `0123456789ABCDEF`. The crate documents no panic for inputs
/// of up to 8388607 bytes.
#[verifier::external_body]
pub(crate) fn hex_encode(bytes: &[u8]) -> (text: String)
    requires
        bytes@.len() <= 8_388_607,
    ensures
        text@ == hex_upper(bytes@),
{
    data_encoding::HEXUPPER.encode(bytes)
}

/// The content hash over the given parts, 64 hexadecimal digits, or `None`
/// where the parts are too long to be hashed.
pub fn invocation_hash(
    target_url: &str,
    origin_url: &str,
    msg: &[u8],
    op: &str,
) -> (hash: Option<String>)
    ensures
        (match hash {
            Some(text) => Some(text@),
            None => None,
        }) == content_hash(origin_url@, target_url@, op@, msg@),
        hash matches Some(text) ==> text@.len() == 64,
{
    let origin = origin_url.as_bytes();
    let target = target_url.as_bytes();
    let operation = op.as_bytes();
    let total: u128 = origin.len() as u128 + target.len() as u128 + operation.len() as u128
        + msg.len() as u128;
    if total >= 0x2000_0000_0000_0000u128 {
        return None;
    }
    let mut input: Vec<u8> = Vec::new();
    input.extend_from_slice(origin);
    input.extend_from_slice(target);
    input.extend_from_slice(operation);
    input.extend_from_slice(msg);
    assert(input@ =~= hash_input(origin_url@, target_url@, op@, msg@));
    let digest = sha256_digest(input.as_slice());
    Some(hex_encode(digest.as_slice()))
}

} // verus!
