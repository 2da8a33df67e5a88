//! The section orchestrator: the plain and the distributed decoding paths.
//!
//! The plain path optionally decompresses the stream and assembles its
//! records into paragraphs. The distributed path first checks the leading
//! distributed-document-data record, derives the cipher key from its
//! 256-byte obfuscated payload, and decrypts the remaining bytes before
//! taking the plain path.

use vstd::prelude::*;
use crate::buffer::copy_range;
use crate::cipher::decrypt_aes_128_ecb;
use crate::cipher::ecb_decrypted_of;
use crate::error::SectionError;
use crate::header::Header;
use crate::header::Version;
use crate::inflate::inflate;
use crate::inflate::inflated_of;
use crate::keygen::derive_key;
use crate::keygen::key_of;
use crate::paragraph::Paragraph;
use crate::paragraph::ParagraphView;
use crate::paragraph::paragraph_of;
use crate::record::HWPTAG_DISTRIBUTE_DOC_DATA;
use crate::record::RecordView;
use crate::record::parse_header;
use crate::record::parse_records;
use crate::record::read_header_at;
use crate::record::read_records;
use crate::record::records_view;

verus! {

/// A decoded section: its paragraphs, in document reading order.
#[derive(Debug)]
pub struct Section {
    pub paragraphs: Vec<Paragraph>,
}

impl View for Section {
    type V = Seq<ParagraphView>;

    open spec fn view(&self) -> Seq<ParagraphView> {
        self.paragraphs@.map_values(|p: Paragraph| p@)
    }
}

/// What assembling a plain record stream yields: one paragraph per record,
/// in record order; `TruncatedStream` when framing fails.
pub open spec fn assembled_of(data: Seq<u8>) -> Result<Seq<ParagraphView>, SectionError> {
    match parse_records(data) {
        Some(rs) => Ok(rs.map_values(|r: RecordView| paragraph_of(r))),
        None => Err(SectionError::TruncatedStream),
    }
}

/// What decoding a plain (non-distributed) section stream yields: the
/// stream, raw-deflate-decompressed when the document-level compression
/// flag is set, assembled into paragraphs.
pub open spec fn plain_decoded_of(data: Seq<u8>, compressed: bool) -> Result<
    Seq<ParagraphView>,
    SectionError,
> {
    if compressed {
        match inflated_of(data) {
            Some(d) => assembled_of(d),
            None => Err(SectionError::DecompressionFailure),
        }
    } else {
        assembled_of(data)
    }
}

/// What decoding a distributed section stream yields. The leading record
/// must carry the distributed-document-data tag and declare exactly 256
/// bytes — else `MalformedRecord`, before any cipher work. Its payload
/// yields the cipher key; the remaining bytes must be block-aligned — else
/// `DecryptionFailure` — and are decrypted and decoded as a plain stream.
pub open spec fn distributed_decoded_of(data: Seq<u8>, compressed: bool) -> Result<
    Seq<ParagraphView>,
    SectionError,
> {
    match parse_header(data) {
        None => Err(SectionError::TruncatedStream),
        Some(h) => {
            if h.tag_id != HWPTAG_DISTRIBUTE_DOC_DATA || h.size != 256 {
                Err(SectionError::MalformedRecord)
            } else if data.len() < h.header_len + 256 {
                Err(SectionError::TruncatedStream)
            } else {
                let block = data.subrange(h.header_len, h.header_len + 256);
                let rest = data.subrange(h.header_len + 256, data.len() as int);
                if rest.len() % 16 != 0 {
                    Err(SectionError::DecryptionFailure)
                } else {
                    plain_decoded_of(ecb_decrypted_of(key_of(block), rest), compressed)
                }
            }
        },
    }
}

/// The image of a section result: the paragraph images on success.
pub open spec fn section_result_view(r: Result<Section, SectionError>) -> Result<
    Seq<ParagraphView>,
    SectionError,
> {
    match r {
        Ok(s) => Ok(s@),
        Err(e) => Err(e),
    }
}

impl Section {
    /// Assemble a plain record stream into a section: split it into records
    /// and map each, with the document version, to a paragraph, preserving
    /// record order as paragraph order.
    pub fn from_reader(data: &Vec<u8>, version: &Version) -> (r: Result<Section, SectionError>)
        ensures
            section_result_view(r) == assembled_of(data@),
    {
        let records = match read_records(data) {
            Ok(rs) => rs,
            Err(e) => return Err(e),
        };
        let mut paragraphs: Vec<Paragraph> = Vec::new();
        let mut i: usize = 0;
        while i < records.len()
            invariant
                i <= records@.len(),
                paragraphs@.len() == i,
                forall|k: int| 0 <= k < i ==> paragraphs@[k]@ == paragraph_of(records@[k]@),
            decreases records@.len() - i,
        {
            let p = Paragraph::from_record(&records[i], version);
            paragraphs.push(p);
            i = i + 1;
        }
        let sec = Section { paragraphs };
        proof {
            let target = records_view(records@).map_values(|rv: RecordView| paragraph_of(rv));
            assert forall|k: int| 0 <= k < sec@.len() implies sec@[k] == target[k] by {}
            assert(sec@ =~= target);
        }
        Ok(sec)
    }

    /// Decode a plain (non-distributed) section stream: decompress it when
    /// the document-level compression flag is set, then assemble.
    pub fn from_stream(data: &Vec<u8>, header: &Header) -> (r: Result<Section, SectionError>)
        ensures
            section_result_view(r) == plain_decoded_of(data@, header.flags.compressed),
    {
        if header.flags.compressed {
            let plain = match inflate(data) {
                Ok(d) => d,
                Err(e) => return Err(e),
            };
            Section::from_reader(&plain, &header.version)
        } else {
            Section::from_reader(data, &header.version)
        }
    }

    /// Decode a distributed (DRM-protected) section stream: check the
    /// leading distributed-document-data record, derive the cipher key from
    /// its obfuscated 256-byte payload, decrypt the remaining bytes with it,
    /// and decode them as a plain stream.
    pub fn from_distributed(data: &Vec<u8>, header: &Header) -> (r: Result<Section, SectionError>)
        ensures
            section_result_view(r) == distributed_decoded_of(data@, header.flags.compressed),
    {
        proof {
            assert(data@.skip(0) =~= data@);
        }
        let (tag, _level, size, hlen) = match read_header_at(data, 0) {
            Ok(h) => h,
            Err(e) => return Err(e),
        };
        if tag != HWPTAG_DISTRIBUTE_DOC_DATA || size != 256 {
            return Err(SectionError::MalformedRecord);
        }
        if data.len() - hlen < 256 {
            return Err(SectionError::TruncatedStream);
        }
        let block = copy_range(data, hlen, hlen + 256);
        let rest = copy_range(data, hlen + 256, data.len());
        if rest.len() % 16 != 0 {
            return Err(SectionError::DecryptionFailure);
        }
        let key = derive_key(&block);
        let plain = decrypt_aes_128_ecb(&key, &rest);
        Section::from_stream(&plain, header)
    }
}

} // verus!
