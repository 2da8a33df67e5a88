//! Paragraphs, one per record of the plain section stream.
//!
//! Field-level decoding of a paragraph's content is outside this library;
//! a paragraph carries its record's content verbatim, as an opaque unit.

use vstd::prelude::*;
use crate::buffer::copy_range;
use crate::header::Version;
use crate::record::Record;
use crate::record::RecordView;

verus! {

/// One paragraph of a section: the tag identifier, nesting level and
/// content bytes of the record that frames it.
#[derive(Debug)]
pub struct Paragraph {
    pub tag_id: u32,
    pub level: u16,
    pub content: Vec<u8>,
}

/// The mathematical image of a paragraph.
pub struct ParagraphView {
    pub tag_id: u32,
    pub level: u16,
    pub content: Seq<u8>,
}

impl View for Paragraph {
    type V = ParagraphView;

    open spec fn view(&self) -> ParagraphView {
        ParagraphView { tag_id: self.tag_id, level: self.level, content: self.content@ }
    }
}

/// The paragraph a record maps to: the record's fields, carried verbatim.
pub open spec fn paragraph_of(r: RecordView) -> ParagraphView {
    ParagraphView { tag_id: r.tag_id, level: r.level, content: r.payload }
}

impl Paragraph {
    /// Map one record, with the document version, to a paragraph. The
    /// version steers field layouts in content decoding, which happens
    /// outside this library, so the content is carried verbatim.
    pub fn from_record(record: &Record, _version: &Version) -> (p: Paragraph)
        ensures
            p@ == paragraph_of(record@),
    {
        let content = copy_range(&record.payload, 0, record.payload.len());
        proof {
            assert(content@ =~= record.payload@);
        }
        Paragraph { tag_id: record.tag_id, level: record.level, content }
    }
}

} // verus!
