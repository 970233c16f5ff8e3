//! Checksums.
use crate::text;
use vstd::prelude::*;

verus! {

/// What `sha2::Sha256::digest` gives for some bytes.
pub uninterp spec fn sha256(data: Seq<u8>) -> Seq<u8>;

/// Bytes in hexadecimal: two lower-case digits for each byte.
pub open spec fn hex_text(bytes: Seq<u8>) -> Seq<char> {
    Seq::new(
        2 * bytes.len(),
        |i: int|
            text::digit_char(
                if i % 2 == 0 {
                    (bytes[i / 2] / 16) as nat
                } else {
                    (bytes[i / 2] % 16) as nat
                },
            ),
    )
}

/// Calls `sha2::Sha256::digest`: 32 bytes that depend on the data alone.
#[verifier::external_body]
fn sha256_digest(data: &Vec<u8>) -> (r: Vec<u8>)
    ensures
        r@ == sha256(data@),
        r@.len() == 32,
{
    <sha2::Sha256 as sha2::Digest>::digest(data.as_slice()).to_vec()
}

/// Calls `hex::encode`, which writes two lower-case hexadecimal digits for each
/// byte, the higher half first.
#[verifier::external_body]
fn hex_encode(data: &Vec<u8>) -> (r: String)
    ensures
        r@ == hex_text(data@),
{
    hex::encode(data)
}

/// The SHA-256 checksum of some bytes, in hexadecimal.
pub fn checksum(data: &Vec<u8>) -> (r: String)
    ensures
        r@ == hex_text(sha256(data@)),
        r@.len() == 64,
{
    let digest = sha256_digest(data);
    hex_encode(&digest)
}

} // verus!
