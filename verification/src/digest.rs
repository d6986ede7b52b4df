//! SHA3-256 and lowercase hexadecimal, as the `sha3` and `hex` crates compute
//! them.

use vstd::prelude::*;

verus! {

/// The SHA3-256 digest of a byte string. The library does not define it: it
/// names what the `sha3` crate returns.
pub uninterp spec fn sha3_256(data: Seq<u8>) -> Seq<u8>;

/// The character of one hexadecimal digit, lowercase.
pub open spec fn hex_digit(v: int) -> char
    recommends
        0 <= v < 16,
{
    if v < 10 {
        ((48 + v) as u8) as char
    } else {
        ((87 + v) as u8) as char
    }
}

/// Lowercase hexadecimal: two digits for each byte, the high half first.
pub open spec fn hex_of(bytes: Seq<u8>) -> Seq<char> {
    Seq::new(
        2 * bytes.len(),
        |i: int|
            if i % 2 == 0 {
                hex_digit(bytes[i / 2] as int / 16)
            } else {
                hex_digit(bytes[i / 2] as int % 16)
            },
    )
}

/// Trusted: `sha3::Sha3_256` fed with `data` through `Digest::update` and
/// closed with `Digest::finalize`. The contract gives the digest its name and
/// its size, which the crate fixes at 32 bytes; nothing is claimed of what
/// the bytes are.
#[verifier::external_body]
pub(crate) fn sha3_256_digest(data: &[u8]) -> (digest: Vec<u8>)
    ensures
        digest@ == sha3_256(data@),
        digest@.len() == 32,
{
    let mut hasher = <sha3::Sha3_256 as sha3::Digest>::new();
    sha3::Digest::update(&mut hasher, data);
    sha3::Digest::finalize(hasher).to_vec()
}

/// Trusted: `hex::encode`, which writes each byte as two digits taken from
/// the table `0123456789abcdef`, the byte's high four bits first.
#[verifier::external_body]
pub(crate) fn hex_encode(bytes: &[u8]) -> (text: String)
    ensures
        text@ == hex_of(bytes@),
{
    hex::encode(bytes)
}

} // verus!
