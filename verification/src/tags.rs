//! The v6 tag layer: a wire tag is one varint packing a zero-based field
//! index (high bits) and a kind (low four bits), and gates the value that
//! follows it.

use vstd::prelude::*;

use crate::error::ParseError;
use crate::model::CrdtId;
use crate::primitives::{
    cursor_ok, matches_spec, read_u32, read_u64, read_u8, read_varuint, spec_read_u32,
    spec_read_u64, spec_read_u8, spec_varuint, spec_varuint_from,
};

verus! {

/// The five tag kinds the wire can carry.
#[derive(Clone, Copy, Debug, PartialEq, Eq, Structural)]
pub enum TagKind {
    /// A single byte.
    Byte1,
    /// A 32-bit value.
    Byte4,
    /// A 64-bit value.
    Byte8,
    /// A length-delimited sub-block; its u32 length follows.
    Length4,
    /// A CrdtId: one byte, then a varint.
    Id,
}

/// The kind, if any, the low four tag bits denote.
pub open spec fn spec_tag_kind_from_bits(bits: u64) -> Option<TagKind> {
    if bits == 0xf {
        Some(TagKind::Id)
    } else if bits == 0xc {
        Some(TagKind::Length4)
    } else if bits == 0x8 {
        Some(TagKind::Byte8)
    } else if bits == 0x4 {
        Some(TagKind::Byte4)
    } else if bits == 0x1 {
        Some(TagKind::Byte1)
    } else {
        None
    }
}

impl TagKind {
    /// Decode the low four bits of a packed tag.
    pub fn from_bits(bits: u64) -> (r: Option<TagKind>)
        ensures
            r == spec_tag_kind_from_bits(bits),
    {
        match bits {
            0xf => Some(TagKind::Id),
            0xc => Some(TagKind::Length4),
            0x8 => Some(TagKind::Byte8),
            0x4 => Some(TagKind::Byte4),
            0x1 => Some(TagKind::Byte1),
            _ => None,
        }
    }
}

/// On success a varint ends past its start and inside the segment.
pub proof fn lemma_varuint_from_bounds(s: Seq<u8>, i: int, end: int, shift: nat, acc: u64)
    requires
        cursor_ok(s, i, end),
    ensures
        spec_varuint_from(s, i, end, shift, acc) matches Ok((j, _v)) ==> i < j <= end,
    decreases 10 - shift,
{
    if shift < 10 && i + 1 <= end {
        let b = s[i];
        if b & 0x80 != 0 {
            let acc2 = acc | (((b & 0x7f) as u64) << (7 * shift as u64));
            lemma_varuint_from_bounds(s, i + 1, end, shift + 1, acc2);
        }
    }
}

/// On success a varint read ends past its start and inside the segment.
pub proof fn lemma_varuint_bounds(s: Seq<u8>, i: int, end: int)
    requires
        cursor_ok(s, i, end),
    ensures
        spec_varuint(s, i, end) matches Ok((j, _v)) ==> i < j <= end,
{
    lemma_varuint_from_bounds(s, i, end, 0, 0);
}

/// One expected tag: read a varint, and demand that its field index and
/// kind are exactly the expected ones; anything else is `TagMismatch`.
pub open spec fn spec_stream_tag(
    s: Seq<u8>,
    i: int,
    end: int,
    index: u64,
    kind: TagKind,
) -> Result<(int, ()), ParseError> {
    match spec_varuint(s, i, end) {
        Err(e) => Err(e),
        Ok((j, packed)) => match spec_tag_kind_from_bits(packed & 0xf) {
            None => Err(ParseError::TagMismatch),
            Some(k) => if packed >> 4 == index && k == kind {
                Ok((j, ()))
            } else {
                Err(ParseError::TagMismatch)
            },
        },
    }
}

pub fn read_stream_tag(s: &[u8], i: usize, end: usize, index: u64, kind: TagKind) -> (r: Result<
    (usize, ()),
    ParseError,
>)
    requires
        cursor_ok(s@, i as int, end as int),
    ensures
        matches_spec(r, spec_stream_tag(s@, i as int, end as int, index, kind)),
{
    let (j, packed) = read_varuint(s, i, end)?;
    match TagKind::from_bits(packed & 0xf) {
        None => Err(ParseError::TagMismatch),
        Some(k) => {
            if packed >> 4u64 == index && k == kind {
                Ok((j, ()))
            } else {
                Err(ParseError::TagMismatch)
            }
        },
    }
}

/// On success a tag ends past its start and inside the segment.
pub proof fn lemma_stream_tag_bounds(s: Seq<u8>, i: int, end: int, index: u64, kind: TagKind)
    requires
        cursor_ok(s, i, end),
    ensures
        spec_stream_tag(s, i, end, index, kind) matches Ok((j, _u)) ==> i < j <= end,
{
    lemma_varuint_bounds(s, i, end);
}

/// A tagged 32-bit value: the expected `(index, Byte4)` tag, then four
/// little-endian bytes.  Also how a tagged single's bit pattern is read.
pub open spec fn spec_tagged_u32(s: Seq<u8>, i: int, end: int, index: u64) -> Result<
    (int, u32),
    ParseError,
> {
    match spec_stream_tag(s, i, end, index, TagKind::Byte4) {
        Err(e) => Err(e),
        Ok((j, _)) => spec_read_u32(s, j, end),
    }
}

pub fn read_tagged_u32(s: &[u8], i: usize, end: usize, index: u64) -> (r: Result<
    (usize, u32),
    ParseError,
>)
    requires
        cursor_ok(s@, i as int, end as int),
    ensures
        matches_spec(r, spec_tagged_u32(s@, i as int, end as int, index)),
{
    let (j, _) = read_stream_tag(s, i, end, index, TagKind::Byte4)?;
    proof {
        lemma_stream_tag_bounds(s@, i as int, end as int, index, TagKind::Byte4);
    }
    read_u32(s, j, end)
}

/// On success a tagged 32-bit read ends past its start and inside the
/// segment.
pub proof fn lemma_tagged_u32_bounds(s: Seq<u8>, i: int, end: int, index: u64)
    requires
        cursor_ok(s, i, end),
    ensures
        spec_tagged_u32(s, i, end, index) matches Ok((j, _v)) ==> i < j <= end,
{
    lemma_stream_tag_bounds(s, i, end, index, TagKind::Byte4);
}

/// A tagged 64-bit value: the expected `(index, Byte8)` tag, then eight
/// little-endian bytes.  This is how a tagged double's bit pattern is read.
pub open spec fn spec_tagged_u64(s: Seq<u8>, i: int, end: int, index: u64) -> Result<
    (int, u64),
    ParseError,
> {
    match spec_stream_tag(s, i, end, index, TagKind::Byte8) {
        Err(e) => Err(e),
        Ok((j, _)) => spec_read_u64(s, j, end),
    }
}

pub fn read_tagged_u64(s: &[u8], i: usize, end: usize, index: u64) -> (r: Result<
    (usize, u64),
    ParseError,
>)
    requires
        cursor_ok(s@, i as int, end as int),
    ensures
        matches_spec(r, spec_tagged_u64(s@, i as int, end as int, index)),
{
    let (j, _) = read_stream_tag(s, i, end, index, TagKind::Byte8)?;
    proof {
        lemma_stream_tag_bounds(s@, i as int, end as int, index, TagKind::Byte8);
    }
    read_u64(s, j, end)
}

/// On success a tagged 64-bit read ends past its start and inside the
/// segment.
pub proof fn lemma_tagged_u64_bounds(s: Seq<u8>, i: int, end: int, index: u64)
    requires
        cursor_ok(s, i, end),
    ensures
        spec_tagged_u64(s, i, end, index) matches Ok((j, _v)) ==> i < j <= end,
{
    lemma_stream_tag_bounds(s, i, end, index, TagKind::Byte8);
}

/// A tagged CrdtId: the expected `(index, Id)` tag, one byte, one varint.
pub open spec fn spec_tagged_id(s: Seq<u8>, i: int, end: int, index: u64) -> Result<
    (int, CrdtId),
    ParseError,
> {
    match spec_stream_tag(s, i, end, index, TagKind::Id) {
        Err(e) => Err(e),
        Ok((j, _)) => match spec_read_u8(s, j, end) {
            Err(e) => Err(e),
            Ok((j2, part1)) => match spec_varuint(s, j2, end) {
                Err(e) => Err(e),
                Ok((j3, part2)) => Ok((j3, CrdtId { part1, part2 })),
            },
        },
    }
}

pub fn read_tagged_id(s: &[u8], i: usize, end: usize, index: u64) -> (r: Result<
    (usize, CrdtId),
    ParseError,
>)
    requires
        cursor_ok(s@, i as int, end as int),
    ensures
        matches_spec(r, spec_tagged_id(s@, i as int, end as int, index)),
{
    let (j, _) = read_stream_tag(s, i, end, index, TagKind::Id)?;
    proof {
        lemma_stream_tag_bounds(s@, i as int, end as int, index, TagKind::Id);
    }
    let (j2, part1) = read_u8(s, j, end)?;
    let (j3, part2) = read_varuint(s, j2, end)?;
    Ok((j3, CrdtId { part1, part2 }))
}

/// On success a tagged id read ends past its start and inside the segment.
pub proof fn lemma_tagged_id_bounds(s: Seq<u8>, i: int, end: int, index: u64)
    requires
        cursor_ok(s, i, end),
    ensures
        spec_tagged_id(s, i, end, index) matches Ok((j, _v)) ==> i < j <= end,
{
    lemma_stream_tag_bounds(s, i, end, index, TagKind::Id);
    match spec_stream_tag(s, i, end, index, TagKind::Id) {
        Ok((j, _u)) => {
            match spec_read_u8(s, j, end) {
                Ok((j2, _b)) => {
                    lemma_varuint_bounds(s, j2, end);
                },
                Err(_) => {},
            }
        },
        Err(_) => {},
    }
}

} // verus!
