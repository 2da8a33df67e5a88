//! What the document-level header supplies to section decoding: the format
//! version token and the flags that select the decoding path. Parsing the
//! document header itself is outside this library.

use vstd::prelude::*;

verus! {

/// The document format version, passed through to paragraph decoding.
#[derive(Debug, Clone, Copy, PartialEq, Eq, Structural)]
pub struct Version {
    pub major: u8,
    pub minor: u8,
    pub build: u8,
    pub revision: u8,
}

/// The document-level flags this library reads: whether the section stream
/// is raw-deflate-compressed, and whether it is the distributed
/// (DRM-protected) variant.
#[derive(Debug, Clone, Copy, PartialEq, Eq, Structural)]
pub struct Flags {
    pub compressed: bool,
    pub distributed: bool,
}

/// The document-level header, as far as section decoding reads it.
#[derive(Debug, Clone, Copy, PartialEq, Eq, Structural)]
pub struct Header {
    pub version: Version,
    pub flags: Flags,
}

} // verus!
