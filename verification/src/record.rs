//! Record framing: splitting a plain section stream into tagged records.
//!
//! A record starts with a 32-bit little-endian header word: the tag
//! identifier in the low 10 bits, the nesting level in the next 10, and the
//! declared payload size in the top 12. A declared size of 0xFFF means the
//! true size follows as a second 32-bit little-endian word. The payload is
//! the next `size` bytes.

use vstd::prelude::*;
use vstd::bytes::spec_u32_from_le_bytes;
use crate::buffer::copy_range;
use crate::endian::read_le_u32_at;
use crate::error::SectionError;

verus! {

/// The tag identifier of the distributed-document-data record.
pub const HWPTAG_DISTRIBUTE_DOC_DATA: u32 = 28;

/// One framed record: tag identifier, nesting level, and payload bytes.
#[derive(Debug)]
pub struct Record {
    pub tag_id: u32,
    pub level: u16,
    pub payload: Vec<u8>,
}

/// The mathematical image of a record.
pub struct RecordView {
    pub tag_id: u32,
    pub level: u16,
    pub payload: Seq<u8>,
}

impl View for Record {
    type V = RecordView;

    open spec fn view(&self) -> RecordView {
        RecordView { tag_id: self.tag_id, level: self.level, payload: self.payload@ }
    }
}

/// The tag identifier packed into a header word: its low 10 bits.
pub open spec fn word_tag(w: u32) -> u32 {
    w & 0x3FF
}

/// The nesting level packed into a header word: bits 10 to 19.
pub open spec fn word_level(w: u32) -> u16 {
    ((w >> 10) & 0x3FF) as u16
}

/// The declared payload size packed into a header word: its top 12 bits.
pub open spec fn word_size(w: u32) -> u32 {
    (w >> 20) & 0xFFF
}

/// A parsed record header: tag, level, declared payload size, and how many
/// bytes the header itself took.
pub struct HeaderView {
    pub tag_id: u32,
    pub level: u16,
    pub size: u32,
    pub header_len: int,
}

/// Parse the record header at the head of `s`; nothing when too few bytes
/// are left for it.
pub open spec fn parse_header(s: Seq<u8>) -> Option<HeaderView> {
    if s.len() < 4 {
        None
    } else {
        let w = spec_u32_from_le_bytes(s.subrange(0, 4));
        if word_size(w) == 0xFFF {
            if s.len() < 8 {
                None
            } else {
                Some(
                    HeaderView {
                        tag_id: word_tag(w),
                        level: word_level(w),
                        size: spec_u32_from_le_bytes(s.subrange(4, 8)),
                        header_len: 8,
                    },
                )
            }
        } else {
            Some(
                HeaderView {
                    tag_id: word_tag(w),
                    level: word_level(w),
                    size: word_size(w),
                    header_len: 4,
                },
            )
        }
    }
}

/// Parse one whole record at the head of `s`: its header, then `size`
/// payload bytes. Yields the record and the bytes consumed; nothing when
/// the declared size exceeds the bytes remaining.
pub open spec fn parse_record(s: Seq<u8>) -> Option<(RecordView, int)> {
    match parse_header(s) {
        None => None,
        Some(h) => {
            if s.len() < h.header_len + h.size {
                None
            } else {
                Some(
                    (
                        RecordView {
                            tag_id: h.tag_id,
                            level: h.level,
                            payload: s.subrange(h.header_len, h.header_len + h.size),
                        },
                        h.header_len + h.size,
                    ),
                )
            }
        },
    }
}

/// Split a byte stream into its complete sequence of records; nothing when
/// any record is truncated.
pub open spec fn parse_records(s: Seq<u8>) -> Option<Seq<RecordView>>
    decreases s.len(),
{
    if s.len() == 0 {
        Some(Seq::empty())
    } else {
        match parse_record(s) {
            None => None,
            Some((r, n)) => {
                if 0 < n <= s.len() {
                    match parse_records(s.skip(n)) {
                        None => None,
                        Some(rest) => Some(seq![r] + rest),
                    }
                } else {
                    None
                }
            },
        }
    }
}

/// The images of a sequence of records.
pub open spec fn records_view(rs: Seq<Record>) -> Seq<RecordView> {
    rs.map_values(|r: Record| r@)
}

/// Read the record header at `pos`: the tag identifier, level, declared
/// payload size, and the header's own length in bytes.
pub(crate) fn read_header_at(data: &Vec<u8>, pos: usize) -> (r: Result<
    (u32, u16, u32, usize),
    SectionError,
>)
    requires
        pos <= data@.len(),
    ensures
        match r {
            Ok(h) => {
                &&& parse_header(data@.skip(pos as int)) == Some(
                    HeaderView { tag_id: h.0, level: h.1, size: h.2, header_len: h.3 as int },
                )
                &&& pos + h.3 <= data@.len()
                &&& h.3 == 4 || h.3 == 8
            },
            Err(e) => {
                &&& parse_header(data@.skip(pos as int)) is None
                &&& e == SectionError::TruncatedStream
            },
        },
{
    if data.len() - pos < 4 {
        return Err(SectionError::TruncatedStream);
    }
    let w = read_le_u32_at(data, pos);
    proof {
        assert(data@.skip(pos as int).subrange(0, 4) =~= data@.subrange(
            pos as int,
            pos as int + 4,
        ));
        assert((w >> 10) & 0x3FF < 0x10000) by (bit_vector);
    }
    let tag = w & 0x3FF;
    let level = ((w >> 10) & 0x3FF) as u16;
    let size = (w >> 20) & 0xFFF;
    if size == 0xFFF {
        if data.len() - pos < 8 {
            return Err(SectionError::TruncatedStream);
        }
        let full_size = read_le_u32_at(data, pos + 4);
        proof {
            assert(data@.skip(pos as int).subrange(4, 8) =~= data@.subrange(
                pos as int + 4,
                pos as int + 8,
            ));
        }
        Ok((tag, level, full_size, 8))
    } else {
        Ok((tag, level, size, 4))
    }
}

/// Read the whole record at `pos`: its fields and payload, and the position
/// just past it.
pub(crate) fn read_record_at(data: &Vec<u8>, pos: usize) -> (r: Result<
    (Record, usize),
    SectionError,
>)
    requires
        pos <= data@.len(),
    ensures
        match r {
            Ok(p) => {
                &&& parse_record(data@.skip(pos as int)) == Some((p.0@, p.1 - pos))
                &&& pos < p.1 <= data@.len()
            },
            Err(e) => {
                &&& parse_record(data@.skip(pos as int)) is None
                &&& e == SectionError::TruncatedStream
            },
        },
{
    let (tag, level, size, hlen) = match read_header_at(data, pos) {
        Ok(h) => h,
        Err(e) => return Err(e),
    };
    if (data.len() - pos) - hlen < size as usize {
        return Err(SectionError::TruncatedStream);
    }
    let start = pos + hlen;
    let end = start + size as usize;
    let payload = copy_range(data, start, end);
    proof {
        assert(data@.skip(pos as int).subrange(hlen as int, hlen as int + size) =~= data@.subrange(
            start as int,
            end as int,
        ));
    }
    Ok((Record { tag_id: tag, level, payload }, end))
}

/// Split a plain byte stream into its records, in order. Fails with
/// `TruncatedStream` exactly when some record is cut short.
pub fn read_records(data: &Vec<u8>) -> (r: Result<Vec<Record>, SectionError>)
    ensures
        match r {
            Ok(recs) => parse_records(data@) == Some(records_view(recs@)),
            Err(e) => {
                &&& parse_records(data@) is None
                &&& e == SectionError::TruncatedStream
            },
        },
{
    let mut out: Vec<Record> = Vec::new();
    let mut pos: usize = 0;
    proof {
        assert(data@.skip(0) =~= data@);
        assert(records_view(out@) + parse_records(data@).unwrap() =~= parse_records(
            data@,
        ).unwrap());
    }
    while pos < data.len()
        invariant
            pos <= data@.len(),
            (parse_records(data@) is Some) == (parse_records(data@.skip(pos as int)) is Some),
            parse_records(data@) is Some ==> parse_records(data@) == Some(
                records_view(out@) + parse_records(data@.skip(pos as int)).unwrap(),
            ),
        decreases data@.len() - pos,
    {
        let ghost s = data@.skip(pos as int);
        match read_record_at(data, pos) {
            Ok((rec, end)) => {
                proof {
                    assert(s.skip(end - pos) =~= data@.skip(end as int));
                }
                let ghost pre = out@;
                out.push(rec);
                pos = end;
                proof {
                    let rest = parse_records(data@.skip(pos as int));
                    assert(parse_records(s) == if rest is None {
                        None::<Seq<RecordView>>
                    } else {
                        Some(seq![out@[out@.len() - 1]@] + rest.unwrap())
                    });
                    if rest is Some {
                        assert(records_view(pre) + (seq![out@[out@.len() - 1]@] + rest.unwrap())
                            =~= records_view(out@) + rest.unwrap());
                    }
                }
            },
            Err(e) => {
                return Err(e);
            },
        }
    }
    proof {
        assert(data@.skip(pos as int) =~= Seq::<u8>::empty());
        assert(records_view(out@) + Seq::<RecordView>::empty() =~= records_view(out@));
    }
    Ok(out)
}

} // verus!
