//! Raw deflate streams, as the `miniz_oxide` crate writes and reads them.

use vstd::prelude::*;

verus! {

/// The deflate stream that `miniz_oxide` writes for `data` at `level`. The
/// library does not define it: it names what the crate returns.
pub uninterp spec fn deflated(data: Seq<u8>, level: u8) -> Seq<u8>;

/// What `miniz_oxide` reads out of `stream`, or `None` where it rejects the
/// bytes. The library does not define it: it names what the crate returns.
pub uninterp spec fn inflated(stream: Seq<u8>) -> Option<Seq<u8>>;

/// Trusted: `miniz_oxide::deflate::compress_to_vec`. The contract only gives
/// the bytes their name.
#[verifier::external_body]
pub(crate) fn compress(data: &[u8], level: u8) -> (stream: Vec<u8>)
    ensures
        stream@ == deflated(data@, level),
{
    miniz_oxide::deflate::compress_to_vec(data, level)
}

/// Trusted: `miniz_oxide::inflate::decompress_to_vec`, with its error turned
/// into `None`. The contract only gives the outcome its name.
#[verifier::external_body]
pub(crate) fn decompress(stream: &[u8]) -> (data: Option<Vec<u8>>)
    ensures
        match data {
            Some(bytes) => inflated(stream@) == Some(bytes@),
            None => inflated(stream@) is None,
        },
{
    match miniz_oxide::inflate::decompress_to_vec(stream) {
        Ok(bytes) => Some(bytes),
        Err(_) => None,
    }
}

} // verus!
