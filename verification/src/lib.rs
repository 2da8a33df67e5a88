//! Decoder for one section stream of the HWP word-processor container
//! format: record framing, the legacy pseudo-random generator, derivation
//! of the cipher key hidden in an obfuscated header block, ECB decryption,
//! raw-deflate decompression, and assembly of records into paragraphs.

pub mod buffer;
pub mod cipher;
pub mod endian;
pub mod error;
pub mod header;
pub mod inflate;
pub mod keygen;
pub mod paragraph;
pub mod random;
pub mod record;
pub mod section;

pub use error::SectionError;
pub use header::Flags;
pub use header::Header;
pub use header::Version;
pub use paragraph::Paragraph;
pub use random::SRand;
pub use record::HWPTAG_DISTRIBUTE_DOC_DATA;
pub use record::Record;
pub use section::Section;
