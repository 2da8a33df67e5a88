//! Raw-deflate decompression of the section stream, delegated to flate2.

use vstd::prelude::*;
use crate::error::SectionError;

verus! {

/// What raw-deflate decompression yields for a byte sequence: the decoded
/// bytes, or nothing when the sequence is not a valid raw-deflate stream.
/// Decompression is deterministic, so the result is a function of the input
/// bytes alone; it is named, not restated.
pub uninterp spec fn inflated_of(data: Seq<u8>) -> Option<Seq<u8>>;

/// Relies on flate2's `read::DeflateDecoder` (raw deflate: no zlib or gzip
/// framing, no checksum) read to completion: it decodes a valid stream in
/// full and fails on an invalid one, as a function of the input bytes alone.
#[verifier::external_body]
pub(crate) fn inflate(data: &Vec<u8>) -> (r: Result<Vec<u8>, SectionError>)
    ensures
        (r is Ok) == (inflated_of(data@) is Some),
        r matches Ok(out) ==> Some(out@) == inflated_of(data@),
        r matches Err(e) ==> e == SectionError::DecompressionFailure,
{
    let mut decoder = flate2::read::DeflateDecoder::new(data.as_slice());
    let mut out: Vec<u8> = Vec::new();
    match std::io::Read::read_to_end(&mut decoder, &mut out) {
        Ok(_) => Ok(out),
        Err(_) => Err(SectionError::DecompressionFailure),
    }
}

} // verus!
