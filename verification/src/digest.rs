//! The keyed hash of the pipeline: SHA-256, written in lower-case
//! hexadecimal.

use sha2::Digest;
use vstd::prelude::*;
use vstd::string::StringSliceAdditionalSpecFns;
use vstd::utf8::encode_utf8;

verus! {

/// The SHA-256 digest of `data`.
pub uninterp spec fn sha256(data: Seq<u8>) -> Seq<u8>;

/// `Sha256::digest` of the `sha2` crate. The contract claims that the
/// bytes handed back are the SHA-256 digest of `data`, and that there are
/// 32 of them.
#[verifier::external_body]
pub(crate) fn sha256_digest(data: &[u8]) -> (digest: Vec<u8>)
    ensures
        digest@ == sha256(data@),
        digest@.len() == 32,
{
    sha2::Sha256::digest(data).to_vec()
}

/// The lower-case hexadecimal digit of a value below 16.
pub open spec fn hex_digit(nibble: int) -> char {
    if nibble == 0 {
        '0'
    } else if nibble == 1 {
        '1'
    } else if nibble == 2 {
        '2'
    } else if nibble == 3 {
        '3'
    } else if nibble == 4 {
        '4'
    } else if nibble == 5 {
        '5'
    } else if nibble == 6 {
        '6'
    } else if nibble == 7 {
        '7'
    } else if nibble == 8 {
        '8'
    } else if nibble == 9 {
        '9'
    } else if nibble == 10 {
        'a'
    } else if nibble == 11 {
        'b'
    } else if nibble == 12 {
        'c'
    } else if nibble == 13 {
        'd'
    } else if nibble == 14 {
        'e'
    } else {
        'f'
    }
}

/// Whether `c` is a lower-case hexadecimal digit.
pub open spec fn is_hex_char(c: char) -> bool {
    ('0' <= c <= '9') || ('a' <= c <= 'f')
}

/// Two lower-case hexadecimal digits for each byte, the high half first.
pub open spec fn hex_lower(bytes: Seq<u8>) -> Seq<char> {
    Seq::new(
        2 * bytes.len(),
        |i: int|
            if i % 2 == 0 {
                hex_digit(bytes[i / 2] as int / 16)
            } else {
                hex_digit(bytes[i / 2] as int % 16)
            },
    )
}

/// `hex::encode` of the `hex` crate. The contract claims that each byte
/// comes out as two lower-case hexadecimal digits, the high half first, in
/// the order of the bytes.
#[verifier::external_body]
pub(crate) fn hex_encode(bytes: &[u8]) -> (text: String)
    ensures
        text@ == hex_lower(bytes@),
{
    hex::encode(bytes)
}

/// The hexadecimal SHA-256 digest of the UTF-8 bytes of `text`.
pub open spec fn fingerprint(text: Seq<char>) -> Seq<char> {
    hex_lower(sha256(encode_utf8(text)))
}

/// Every character of a hexadecimal rendering is a hexadecimal digit.
pub proof fn lemma_hex_lower_chars(bytes: Seq<u8>)
    ensures
        hex_lower(bytes).len() == 2 * bytes.len(),
        forall|i: int|
            0 <= i < hex_lower(bytes).len() ==> is_hex_char(#[trigger] hex_lower(bytes)[i]),
{
}

/// The hexadecimal SHA-256 digest of `text`: 64 hexadecimal digits.
pub fn sha256_hex(text: &str) -> (hash: String)
    ensures
        hash@ == fingerprint(text@),
        hash@.len() == 64,
{
    let digest = sha256_digest(text.as_bytes());
    hex_encode(digest.as_slice())
}

} // verus!
