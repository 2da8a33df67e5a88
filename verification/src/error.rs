//! The error taxonomy of the section decoder. Every stage surfaces its
//! failure to the caller; a corrupt section fails as a whole.

use vstd::prelude::*;

verus! {

/// Why decoding a section failed.
#[derive(Debug, Clone, Copy, PartialEq, Eq, Structural)]
pub enum SectionError {
    /// The leading distributed-data record has an unexpected tag identifier
    /// or a declared payload size other than 256.
    MalformedRecord,
    /// Fewer bytes are available than a declared record requires.
    TruncatedStream,
    /// The ciphertext is not a multiple of the cipher block size.
    DecryptionFailure,
    /// The data is not a valid raw-deflate stream.
    DecompressionFailure,
    /// Reserved for future format variants.
    UnsupportedVersion,
}

} // verus!
