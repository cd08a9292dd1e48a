//! The version-6 page decoder: a stream of length-prefixed blocks, each
//! parsed inside a fixed-length segment so that unknown or partly
//! understood content can never misalign the outer stream.

use vstd::prelude::*;

use crate::error::ParseError;
use crate::model::{
    spec_brush_from_code, spec_color_from_code, BrushType, Color, CrdtId, Layer, LayerV, Line,
    LineV, Point, PointExtra, ScalarBits,
};
use crate::primitives::{
    cursor_ok, le16, le32, matches_spec, matches_spec_dv, matches_spec_v, read_u16, read_u32,
    read_u64, read_u8, read_varuint, spec_read_u16, spec_read_u32, spec_read_u8, spec_varuint,
};
use crate::tags::{
    lemma_stream_tag_bounds, lemma_tagged_id_bounds, lemma_tagged_u32_bounds,
    lemma_tagged_u64_bounds, lemma_varuint_bounds, read_stream_tag, read_tagged_id,
    read_tagged_u32, read_tagged_u64, spec_stream_tag, spec_tagged_id, spec_tagged_u32,
    spec_tagged_u64, TagKind,
};

verus! {

/// The content of a line sub-block inside a scene-item block.
pub struct LineItem {
    pub brush_type: BrushType,
    pub color: Color,
    /// Bit pattern of the 64-bit thickness scale.
    pub thickness_scale_bits: u64,
    /// Bit pattern of the 32-bit starting length.
    pub starting_length_bits: u32,
    pub points: Vec<Point>,
}

/// The mathematical value of a [`LineItem`].
pub struct LineItemV {
    pub brush_type: BrushType,
    pub color: Color,
    pub thickness_scale_bits: u64,
    pub starting_length_bits: u32,
    pub points: Seq<Point>,
}

impl View for LineItem {
    type V = LineItemV;

    open spec fn view(&self) -> LineItemV {
        LineItemV {
            brush_type: self.brush_type,
            color: self.color,
            thickness_scale_bits: self.thickness_scale_bits,
            starting_length_bits: self.starting_length_bits,
            points: self.points@,
        }
    }
}

impl DeepView for LineItem {
    type V = LineItemV;

    open spec fn deep_view(&self) -> LineItemV {
        self@
    }
}

/// A decoded scene-item block: four node identities, the deleted length,
/// and the line its sub-block carried, if any.
pub struct SceneItem {
    pub parent_id: CrdtId,
    pub item_id: CrdtId,
    pub left_id: CrdtId,
    pub right_id: CrdtId,
    pub deleted_length: u32,
    pub line: Option<LineItem>,
}

/// The mathematical value of a [`SceneItem`].
pub struct SceneItemV {
    pub parent_id: CrdtId,
    pub item_id: CrdtId,
    pub left_id: CrdtId,
    pub right_id: CrdtId,
    pub deleted_length: u32,
    pub line: Option<LineItemV>,
}

impl DeepView for SceneItem {
    type V = SceneItemV;

    open spec fn deep_view(&self) -> SceneItemV {
        SceneItemV {
            parent_id: self.parent_id,
            item_id: self.item_id,
            left_id: self.left_id,
            right_id: self.right_id,
            deleted_length: self.deleted_length,
            line: self.line.deep_view(),
        }
    }
}

/// The counters of a page-info block; read, then discarded by the page
/// decoder.
#[derive(Clone, Copy, Debug, PartialEq, Eq, Structural)]
pub struct PageInfo {
    pub loads_count: u32,
    pub merges_count: u32,
    pub text_chars_count: u32,
    pub text_lines_count: u32,
    pub extra: Option<u32>,
}

/// Bytes each point occupies on the wire: 24 for a scene-item block of
/// version 1, 14 for version 2, nothing otherwise.
pub open spec fn spec_point_size(version: u8) -> Option<u32> {
    if version == 1 {
        Some(24)
    } else if version == 2 {
        Some(14)
    } else {
        None
    }
}

/// Executable point-size table.
pub fn point_size(version: u8) -> (r: Option<u32>)
    ensures
        r == spec_point_size(version),
{
    match version {
        1 => Some(24),
        2 => Some(14),
        _ => None,
    }
}

/// One v6 point.  Version 1 stores six singles in wire order
/// `x, y, speed, width, direction, pressure`; version 2 stores the two
/// coordinate singles and then four raw integers.
pub open spec fn spec_point_v6(s: Seq<u8>, i: int, end: int, version: u8) -> Result<
    (int, Point),
    ParseError,
> {
    if version == 1 {
        if i + 24 <= end {
            Ok(
                (
                    i + 24,
                    Point {
                        x_bits: le32(s, i),
                        y_bits: le32(s, i + 4),
                        extra: PointExtra::Wide {
                            speed_bits: le32(s, i + 8),
                            width_bits: le32(s, i + 12),
                            direction_bits: le32(s, i + 16),
                            pressure_bits: le32(s, i + 20),
                        },
                    },
                ),
            )
        } else {
            Err(ParseError::UnexpectedEnd)
        }
    } else if version == 2 {
        if i + 14 <= end {
            Ok(
                (
                    i + 14,
                    Point {
                        x_bits: le32(s, i),
                        y_bits: le32(s, i + 4),
                        extra: PointExtra::Narrow {
                            speed: le16(s, i + 8),
                            width: le16(s, i + 10),
                            direction: s[i + 12],
                            pressure: s[i + 13],
                        },
                    },
                ),
            )
        } else {
            Err(ParseError::UnexpectedEnd)
        }
    } else {
        Err(ParseError::UnknownBlockVersion)
    }
}

pub fn read_point_v6(s: &[u8], i: usize, end: usize, version: u8) -> (r: Result<
    (usize, Point),
    ParseError,
>)
    requires
        cursor_ok(s@, i as int, end as int),
    ensures
        matches_spec(r, spec_point_v6(s@, i as int, end as int, version)),
{
    if version == 1 {
        let (j1, x_bits) = read_u32(s, i, end)?;
        let (j2, y_bits) = read_u32(s, j1, end)?;
        let (j3, speed_bits) = read_u32(s, j2, end)?;
        let (j4, width_bits) = read_u32(s, j3, end)?;
        let (j5, direction_bits) = read_u32(s, j4, end)?;
        let (j6, pressure_bits) = read_u32(s, j5, end)?;
        Ok(
            (
                j6,
                Point {
                    x_bits,
                    y_bits,
                    extra: PointExtra::Wide {
                        speed_bits,
                        width_bits,
                        direction_bits,
                        pressure_bits,
                    },
                },
            ),
        )
    } else if version == 2 {
        let (j1, x_bits) = read_u32(s, i, end)?;
        let (j2, y_bits) = read_u32(s, j1, end)?;
        let (j3, speed) = read_u16(s, j2, end)?;
        let (j4, width) = read_u16(s, j3, end)?;
        let (j5, direction) = read_u8(s, j4, end)?;
        let (j6, pressure) = read_u8(s, j5, end)?;
        Ok((j6, Point { x_bits, y_bits, extra: PointExtra::Narrow { speed, width, direction, pressure } }))
    } else {
        Err(ParseError::UnknownBlockVersion)
    }
}

/// `n` consecutive v6 points.
pub open spec fn spec_points_v6(s: Seq<u8>, i: int, end: int, version: u8, n: nat) -> Result<
    (int, Seq<Point>),
    ParseError,
>
    decreases n,
{
    if n == 0 {
        Ok((i, Seq::empty()))
    } else {
        match spec_point_v6(s, i, end, version) {
            Err(e) => Err(e),
            Ok((j, p)) => match spec_points_v6(s, j, end, version, (n - 1) as nat) {
                Err(e) => Err(e),
                Ok((j2, ps)) => Ok((j2, seq![p] + ps)),
            },
        }
    }
}

/// On success, a v6 point run ends inside the segment and yields exactly
/// `n` points.
pub proof fn lemma_points_v6_bounds(s: Seq<u8>, i: int, end: int, version: u8, n: nat)
    requires
        cursor_ok(s, i, end),
    ensures
        spec_points_v6(s, i, end, version, n) matches Ok((j, ps)) ==> i <= j <= end && ps.len()
            == n,
    decreases n,
{
    if n > 0 {
        match spec_point_v6(s, i, end, version) {
            Ok((j, _p)) => {
                lemma_points_v6_bounds(s, j, end, version, (n - 1) as nat);
            },
            Err(_) => {},
        }
    }
}

pub fn read_points_v6(s: &[u8], i: usize, end: usize, version: u8, n: u32) -> (r: Result<
    (usize, Vec<Point>),
    ParseError,
>)
    requires
        cursor_ok(s@, i as int, end as int),
    ensures
        matches_spec_v(r, spec_points_v6(s@, i as int, end as int, version, n as nat)),
{
    let mut pos = i;
    let mut acc: Vec<Point> = Vec::new();
    let mut k: u32 = 0;
    proof {
        match spec_points_v6(s@, i as int, end as int, version, n as nat) {
            Ok((j, ps)) => {
                assert(Seq::<Point>::empty() + ps =~= ps);
            },
            Err(_) => {},
        }
    }
    while k < n
        invariant
            cursor_ok(s@, pos as int, end as int),
            k <= n,
            spec_points_v6(s@, i as int, end as int, version, n as nat) == (match spec_points_v6(
                s@,
                pos as int,
                end as int,
                version,
                (n - k) as nat,
            ) {
                Ok((j, ps)) => Ok::<(int, Seq<Point>), ParseError>((j, acc@ + ps)),
                Err(e) => Err::<(int, Seq<Point>), ParseError>(e),
            }),
        decreases n - k,
    {
        match read_point_v6(s, pos, end, version) {
            Err(e) => {
                return Err(e);
            },
            Ok((j, p)) => {
                let ghost prefix = acc@;
                acc.push(p);
                proof {
                    match spec_points_v6(s@, j as int, end as int, version, (n - k - 1) as nat) {
                        Ok((j2, ps)) => {
                            assert(prefix + (seq![p] + ps) =~= acc@ + ps);
                        },
                        Err(_) => {},
                    }
                }
                pos = j;
                k = k + 1;
            },
        }
    }
    proof {
        assert(acc@ + Seq::<Point>::empty() =~= acc@);
    }
    Ok((pos, acc))
}

/// A line sub-block: tagged brush, color, thickness scale and starting
/// length, then the points array inside its own fixed-length segment.
/// The point count is the segment length divided by the point size; a
/// remainder is ignored, and the cursor moves to the segment's end no
/// matter how many bytes the points consumed.
pub open spec fn spec_line_item(s: Seq<u8>, i: int, end: int, version: u8) -> Result<
    (int, LineItemV),
    ParseError,
> {
    match spec_tagged_u32(s, i, end, 1) {
        Err(e) => Err(e),
        Ok((j1, brush_code)) => match spec_brush_from_code(brush_code) {
            None => Err(ParseError::UnknownEnum),
            Some(brush_type) => match spec_tagged_u32(s, j1, end, 2) {
                Err(e) => Err(e),
                Ok((j2, color_code)) => match spec_color_from_code(color_code) {
                    None => Err(ParseError::UnknownEnum),
                    Some(color) => match spec_tagged_u64(s, j2, end, 3) {
                        Err(e) => Err(e),
                        Ok((j3, thickness_scale_bits)) => match spec_tagged_u32(s, j3, end, 4) {
                            Err(e) => Err(e),
                            Ok((j4, starting_length_bits)) => match spec_stream_tag(
                                s,
                                j4,
                                end,
                                5,
                                TagKind::Length4,
                            ) {
                                Err(e) => Err(e),
                                Ok((j5, _)) => match spec_read_u32(s, j5, end) {
                                    Err(e) => Err(e),
                                    Ok((j6, seg_len)) => match spec_point_size(version) {
                                        None => Err(ParseError::UnknownBlockVersion),
                                        Some(psize) => if j6 + seg_len > end {
                                            Err(ParseError::Truncated)
                                        } else {
                                            match spec_points_v6(
                                                s,
                                                j6,
                                                j6 + seg_len,
                                                version,
                                                (seg_len / psize) as nat,
                                            ) {
                                                Err(e) => Err(e),
                                                Ok((_j7, points)) => Ok(
                                                    (
                                                        j6 + seg_len,
                                                        LineItemV {
                                                            brush_type,
                                                            color,
                                                            thickness_scale_bits,
                                                            starting_length_bits,
                                                            points,
                                                        },
                                                    ),
                                                ),
                                            }
                                        },
                                    },
                                },
                            },
                        },
                    },
                },
            },
        },
    }
}

pub fn read_line_item(s: &[u8], i: usize, end: usize, version: u8) -> (r: Result<
    (usize, LineItem),
    ParseError,
>)
    requires
        cursor_ok(s@, i as int, end as int),
    ensures
        matches_spec_dv(r, spec_line_item(s@, i as int, end as int, version)),
{
    let (j1, brush_code) = read_tagged_u32(s, i, end, 1)?;
    proof {
        lemma_tagged_u32_bounds(s@, i as int, end as int, 1);
    }
    let brush_type = BrushType::from_code(brush_code)?;
    let (j2, color_code) = read_tagged_u32(s, j1, end, 2)?;
    proof {
        lemma_tagged_u32_bounds(s@, j1 as int, end as int, 2);
    }
    let color = Color::from_code(color_code)?;
    let (j3, thickness_scale_bits) = read_tagged_u64(s, j2, end, 3)?;
    proof {
        lemma_tagged_u64_bounds(s@, j2 as int, end as int, 3);
    }
    let (j4, starting_length_bits) = read_tagged_u32(s, j3, end, 4)?;
    proof {
        lemma_tagged_u32_bounds(s@, j3 as int, end as int, 4);
    }
    let (j5, _) = read_stream_tag(s, j4, end, 5, TagKind::Length4)?;
    proof {
        lemma_stream_tag_bounds(s@, j4 as int, end as int, 5, TagKind::Length4);
    }
    let (j6, seg_len) = read_u32(s, j5, end)?;
    let psize = match point_size(version) {
        None => {
            return Err(ParseError::UnknownBlockVersion);
        },
        Some(p) => p,
    };
    if seg_len as usize > end - j6 {
        return Err(ParseError::Truncated);
    }
    let seg_end = j6 + seg_len as usize;
    let (_j7, points) = read_points_v6(s, j6, seg_end, version, seg_len / psize)?;
    Ok(
        (
            seg_end,
            LineItem { brush_type, color, thickness_scale_bits, starting_length_bits, points },
        ),
    )
}

/// A scene-item block's payload: four tagged identities and the deleted
/// length, then an optional sub-block.  A missing or mismatched field-6 tag
/// means no line; a sub-block whose item type is not a line is drained and
/// yields no line; a line sub-block is decoded.  Either way the cursor
/// moves to the sub-block's declared end.
pub open spec fn spec_scene_item(s: Seq<u8>, i: int, end: int, version: u8) -> Result<
    (int, SceneItemV),
    ParseError,
> {
    match spec_tagged_id(s, i, end, 1) {
        Err(e) => Err(e),
        Ok((j1, parent_id)) => match spec_tagged_id(s, j1, end, 2) {
            Err(e) => Err(e),
            Ok((j2, item_id)) => match spec_tagged_id(s, j2, end, 3) {
                Err(e) => Err(e),
                Ok((j3, left_id)) => match spec_tagged_id(s, j3, end, 4) {
                    Err(e) => Err(e),
                    Ok((j4, right_id)) => match spec_tagged_u32(s, j4, end, 5) {
                        Err(e) => Err(e),
                        Ok((j5, deleted_length)) => match spec_stream_tag(
                            s,
                            j5,
                            end,
                            6,
                            TagKind::Length4,
                        ) {
                            Err(_) => Ok(
                                (
                                    j5,
                                    SceneItemV {
                                        parent_id,
                                        item_id,
                                        left_id,
                                        right_id,
                                        deleted_length,
                                        line: None,
                                    },
                                ),
                            ),
                            Ok((j6, _)) => match spec_read_u32(s, j6, end) {
                                Err(e) => Err(e),
                                Ok((j7, sub_len)) => if j7 + sub_len > end {
                                    Err(ParseError::Truncated)
                                } else {
                                    let sub_end = j7 + sub_len;
                                    match spec_read_u8(s, j7, sub_end) {
                                        Err(e) => Err(e),
                                        Ok((j8, item_type)) => if item_type != 3 {
                                            Ok(
                                                (
                                                    sub_end,
                                                    SceneItemV {
                                                        parent_id,
                                                        item_id,
                                                        left_id,
                                                        right_id,
                                                        deleted_length,
                                                        line: None,
                                                    },
                                                ),
                                            )
                                        } else {
                                            match spec_line_item(s, j8, sub_end, version) {
                                                Err(e) => Err(e),
                                                Ok((_j9, li)) => Ok(
                                                    (
                                                        sub_end,
                                                        SceneItemV {
                                                            parent_id,
                                                            item_id,
                                                            left_id,
                                                            right_id,
                                                            deleted_length,
                                                            line: Some(li),
                                                        },
                                                    ),
                                                ),
                                            }
                                        },
                                    }
                                },
                            },
                        },
                    },
                },
            },
        },
    }
}

pub fn read_scene_item(s: &[u8], i: usize, end: usize, version: u8) -> (r: Result<
    (usize, SceneItem),
    ParseError,
>)
    requires
        cursor_ok(s@, i as int, end as int),
    ensures
        matches_spec_dv(r, spec_scene_item(s@, i as int, end as int, version)),
{
    let (j1, parent_id) = read_tagged_id(s, i, end, 1)?;
    proof {
        lemma_tagged_id_bounds(s@, i as int, end as int, 1);
    }
    let (j2, item_id) = read_tagged_id(s, j1, end, 2)?;
    proof {
        lemma_tagged_id_bounds(s@, j1 as int, end as int, 2);
    }
    let (j3, left_id) = read_tagged_id(s, j2, end, 3)?;
    proof {
        lemma_tagged_id_bounds(s@, j2 as int, end as int, 3);
    }
    let (j4, right_id) = read_tagged_id(s, j3, end, 4)?;
    proof {
        lemma_tagged_id_bounds(s@, j3 as int, end as int, 4);
    }
    let (j5, deleted_length) = read_tagged_u32(s, j4, end, 5)?;
    proof {
        lemma_tagged_u32_bounds(s@, j4 as int, end as int, 5);
    }
    match read_stream_tag(s, j5, end, 6, TagKind::Length4) {
        Err(_) => Ok(
            (j5, SceneItem { parent_id, item_id, left_id, right_id, deleted_length, line: None }),
        ),
        Ok((j6, _)) => {
            proof {
                lemma_stream_tag_bounds(s@, j5 as int, end as int, 6, TagKind::Length4);
            }
            let (j7, sub_len) = read_u32(s, j6, end)?;
            if sub_len as usize > end - j7 {
                return Err(ParseError::Truncated);
            }
            let sub_end = j7 + sub_len as usize;
            let (j8, item_type) = read_u8(s, j7, sub_end)?;
            if item_type != 3 {
                Ok(
                    (
                        sub_end,
                        SceneItem {
                            parent_id,
                            item_id,
                            left_id,
                            right_id,
                            deleted_length,
                            line: None,
                        },
                    ),
                )
            } else {
                let (_j9, li) = read_line_item(s, j8, sub_end, version)?;
                Ok(
                    (
                        sub_end,
                        SceneItem {
                            parent_id,
                            item_id,
                            left_id,
                            right_id,
                            deleted_length,
                            line: Some(li),
                        },
                    ),
                )
            }
        },
    }
}

/// One author entry: a `(0, Length4)` tag and length, then inside that
/// segment a varint uuid length, sixteen uuid bytes, and the 16-bit author
/// id, which is the value kept.  The cursor moves to the segment's end.
pub open spec fn spec_author_entry(s: Seq<u8>, i: int, end: int) -> Result<(int, u16), ParseError> {
    match spec_stream_tag(s, i, end, 0, TagKind::Length4) {
        Err(e) => Err(e),
        Ok((j, _)) => match spec_read_u32(s, j, end) {
            Err(e) => Err(e),
            Ok((j2, sub_len)) => if j2 + sub_len > end {
                Err(ParseError::Truncated)
            } else {
                let sub_end = j2 + sub_len;
                match spec_varuint(s, j2, sub_end) {
                    Err(e) => Err(e),
                    Ok((j3, _uuid_len)) => if j3 + 16 > sub_end {
                        Err(ParseError::UnexpectedEnd)
                    } else {
                        match spec_read_u16(s, j3 + 16, sub_end) {
                            Err(e) => Err(e),
                            Ok((_j4, author_id)) => Ok((sub_end, author_id)),
                        }
                    },
                }
            },
        },
    }
}

pub fn read_author_entry(s: &[u8], i: usize, end: usize) -> (r: Result<(usize, u16), ParseError>)
    requires
        cursor_ok(s@, i as int, end as int),
    ensures
        matches_spec(r, spec_author_entry(s@, i as int, end as int)),
{
    let (j, _) = read_stream_tag(s, i, end, 0, TagKind::Length4)?;
    proof {
        lemma_stream_tag_bounds(s@, i as int, end as int, 0, TagKind::Length4);
    }
    let (j2, sub_len) = read_u32(s, j, end)?;
    if sub_len as usize > end - j2 {
        return Err(ParseError::Truncated);
    }
    let sub_end = j2 + sub_len as usize;
    let (j3, _uuid_len) = read_varuint(s, j2, sub_end)?;
    proof {
        lemma_varuint_bounds(s@, j2 as int, sub_end as int);
    }
    if sub_end - j3 < 16 {
        return Err(ParseError::UnexpectedEnd);
    }
    let (_j4, author_id) = read_u16(s, j3 + 16, sub_end)?;
    Ok((sub_end, author_id))
}

/// On success an author entry ends inside the segment.
pub proof fn lemma_author_entry_bounds(s: Seq<u8>, i: int, end: int)
    requires
        cursor_ok(s, i, end),
    ensures
        spec_author_entry(s, i, end) matches Ok((j, _v)) ==> i <= j <= end,
{
    lemma_stream_tag_bounds(s, i, end, 0, TagKind::Length4);
}

/// `n` consecutive author entries.
pub open spec fn spec_author_entries(s: Seq<u8>, i: int, end: int, n: nat) -> Result<
    (int, Seq<u16>),
    ParseError,
>
    decreases n,
{
    if n == 0 {
        Ok((i, Seq::empty()))
    } else {
        match spec_author_entry(s, i, end) {
            Err(e) => Err(e),
            Ok((j, a)) => match spec_author_entries(s, j, end, (n - 1) as nat) {
                Err(e) => Err(e),
                Ok((j2, rest)) => Ok((j2, seq![a] + rest)),
            },
        }
    }
}

/// An author-info block's payload: a varint entry count, then the entries.
/// The decoder reads the author ids and then lets them go; the values
/// matter only to tools that ask for them.
pub open spec fn spec_author_ids(s: Seq<u8>, i: int, end: int) -> Result<
    (int, Seq<u16>),
    ParseError,
> {
    match spec_varuint(s, i, end) {
        Err(e) => Err(e),
        Ok((j, n)) => spec_author_entries(s, j, end, n as nat),
    }
}

pub fn read_author_ids(s: &[u8], i: usize, end: usize) -> (r: Result<(usize, Vec<u16>), ParseError>)
    requires
        cursor_ok(s@, i as int, end as int),
    ensures
        matches_spec_v(r, spec_author_ids(s@, i as int, end as int)),
{
    let (j, n) = read_varuint(s, i, end)?;
    proof {
        lemma_varuint_bounds(s@, i as int, end as int);
    }
    let mut pos = j;
    let mut acc: Vec<u16> = Vec::new();
    let mut k: u64 = 0;
    proof {
        match spec_author_entries(s@, j as int, end as int, n as nat) {
            Ok((j2, rest)) => {
                assert(Seq::<u16>::empty() + rest =~= rest);
            },
            Err(_) => {},
        }
    }
    while k < n
        invariant
            cursor_ok(s@, pos as int, end as int),
            k <= n,
            spec_author_ids(s@, i as int, end as int) == spec_author_entries(
                s@,
                j as int,
                end as int,
                n as nat,
            ),
            spec_author_entries(s@, j as int, end as int, n as nat) == (match spec_author_entries(
                s@,
                pos as int,
                end as int,
                (n - k) as nat,
            ) {
                Ok((j2, rest)) => Ok::<(int, Seq<u16>), ParseError>((j2, acc@ + rest)),
                Err(e) => Err::<(int, Seq<u16>), ParseError>(e),
            }),
        decreases n - k,
    {
        match read_author_entry(s, pos, end) {
            Err(e) => {
                return Err(e);
            },
            Ok((j2, a)) => {
                let ghost prefix = acc@;
                acc.push(a);
                proof {
                    lemma_author_entry_bounds(s@, pos as int, end as int);
                    match spec_author_entries(s@, j2 as int, end as int, (n - k - 1) as nat) {
                        Ok((j3, rest)) => {
                            assert(prefix + (seq![a] + rest) =~= acc@ + rest);
                        },
                        Err(_) => {},
                    }
                }
                pos = j2;
                k = k + 1;
            },
        }
    }
    proof {
        assert(acc@ + Seq::<u16>::empty() =~= acc@);
    }
    Ok((pos, acc))
}

/// A page-info block's payload: four tagged counters, and a fifth tagged
/// value only when payload remains after them.
pub open spec fn spec_page_info(s: Seq<u8>, i: int, end: int) -> Result<
    (int, PageInfo),
    ParseError,
> {
    match spec_tagged_u32(s, i, end, 1) {
        Err(e) => Err(e),
        Ok((j1, loads_count)) => match spec_tagged_u32(s, j1, end, 2) {
            Err(e) => Err(e),
            Ok((j2, merges_count)) => match spec_tagged_u32(s, j2, end, 3) {
                Err(e) => Err(e),
                Ok((j3, text_chars_count)) => match spec_tagged_u32(s, j3, end, 4) {
                    Err(e) => Err(e),
                    Ok((j4, text_lines_count)) => if j4 >= end {
                        Ok(
                            (
                                j4,
                                PageInfo {
                                    loads_count,
                                    merges_count,
                                    text_chars_count,
                                    text_lines_count,
                                    extra: None,
                                },
                            ),
                        )
                    } else {
                        match spec_tagged_u32(s, j4, end, 5) {
                            Err(e) => Err(e),
                            Ok((j5, extra)) => Ok(
                                (
                                    j5,
                                    PageInfo {
                                        loads_count,
                                        merges_count,
                                        text_chars_count,
                                        text_lines_count,
                                        extra: Some(extra),
                                    },
                                ),
                            ),
                        }
                    },
                },
            },
        },
    }
}

pub fn read_page_info(s: &[u8], i: usize, end: usize) -> (r: Result<(usize, PageInfo), ParseError>)
    requires
        cursor_ok(s@, i as int, end as int),
    ensures
        matches_spec(r, spec_page_info(s@, i as int, end as int)),
{
    let (j1, loads_count) = read_tagged_u32(s, i, end, 1)?;
    proof {
        lemma_tagged_u32_bounds(s@, i as int, end as int, 1);
    }
    let (j2, merges_count) = read_tagged_u32(s, j1, end, 2)?;
    proof {
        lemma_tagged_u32_bounds(s@, j1 as int, end as int, 2);
    }
    let (j3, text_chars_count) = read_tagged_u32(s, j2, end, 3)?;
    proof {
        lemma_tagged_u32_bounds(s@, j2 as int, end as int, 3);
    }
    let (j4, text_lines_count) = read_tagged_u32(s, j3, end, 4)?;
    proof {
        lemma_tagged_u32_bounds(s@, j3 as int, end as int, 4);
    }
    if j4 >= end {
        Ok(
            (
                j4,
                PageInfo {
                    loads_count,
                    merges_count,
                    text_chars_count,
                    text_lines_count,
                    extra: None,
                },
            ),
        )
    } else {
        let (j5, extra) = read_tagged_u32(s, j4, end, 5)?;
        Ok(
            (
                j5,
                PageInfo {
                    loads_count,
                    merges_count,
                    text_chars_count,
                    text_lines_count,
                    extra: Some(extra),
                },
            ),
        )
    }
}

/// One block: a u32 payload length, four meta bytes (unknown, minimum
/// version, current version, block type), then the payload inside a
/// fixed-length segment.  A scene-item payload is decoded strictly; every
/// other block type, the author-info and page-info kinds included, is
/// tolerant: whatever stands inside it, the cursor moves to the block's end
/// and no line is produced.  A payload that would pass the buffer's end is
/// `Truncated`.
pub open spec fn spec_read_block(s: Seq<u8>, i: int, end: int) -> Result<
    (int, Option<SceneItemV>),
    ParseError,
> {
    match spec_read_u32(s, i, end) {
        Err(e) => Err(e),
        Ok((j, block_len)) => if j + 4 > end {
            Err(ParseError::UnexpectedEnd)
        } else {
            let current_version = s[j + 2];
            let block_type = s[j + 3];
            let p = j + 4;
            if p + block_len > end {
                Err(ParseError::Truncated)
            } else {
                let pend = p + block_len;
                if block_type == 5 {
                    match spec_scene_item(s, p, pend, current_version) {
                        Err(e) => Err(e),
                        Ok((_j2, sc)) => Ok((pend, Some(sc))),
                    }
                } else {
                    Ok((pend, Option::<SceneItemV>::None))
                }
            }
        },
    }
}

pub fn read_block_v6(s: &[u8], i: usize, end: usize) -> (r: Result<
    (usize, Option<SceneItem>),
    ParseError,
>)
    requires
        cursor_ok(s@, i as int, end as int),
    ensures
        matches_spec_dv(r, spec_read_block(s@, i as int, end as int)),
{
    let (j, block_len) = read_u32(s, i, end)?;
    if end - j < 4 {
        return Err(ParseError::UnexpectedEnd);
    }
    let current_version = s[j + 2];
    let block_type = s[j + 3];
    let p = j + 4;
    if block_len as usize > end - p {
        return Err(ParseError::Truncated);
    }
    let pend = p + block_len as usize;
    if block_type == 0x05 {
        let (_j2, sc) = read_scene_item(s, p, pend, current_version)?;
        Ok((pend, Some(sc)))
    } else {
        if block_type == 0x09 {
            let _ = read_author_ids(s, p, pend);
        } else if block_type == 0x0a {
            let _ = read_page_info(s, p, pend);
        }
        Ok((pend, None))
    }
}

/// On success a block ends at least eight bytes past its start and inside
/// the buffer.
pub proof fn lemma_read_block_bounds(s: Seq<u8>, i: int, end: int)
    requires
        cursor_ok(s, i, end),
    ensures
        spec_read_block(s, i, end) matches Ok((j, _b)) ==> i + 8 <= j <= end,
{
}

/// The whole block stream from `i` to `end`: blocks back to back until no
/// byte remains.
pub open spec fn spec_blocks(s: Seq<u8>, i: int, end: int) -> Result<
    (int, Seq<Option<SceneItemV>>),
    ParseError,
>
    decreases end - i,
{
    if i >= end {
        Ok((i, Seq::empty()))
    } else {
        match spec_read_block(s, i, end) {
            Err(e) => Err(e),
            // A successful block always lands in (i, end]; see
            // `lemma_read_block_bounds`.  The guard only makes the
            // recursion visibly well founded.
            Ok((j, ob)) => if j <= i || end < j {
                Err(ParseError::Truncated)
            } else {
                match spec_blocks(s, j, end) {
                    Err(e) => Err(e),
                    Ok((j2, obs)) => Ok((j2, seq![ob] + obs)),
                }
            },
        }
    }
}

/// The line a block contributes to the page: one for a scene-item block
/// whose sub-block carried a line, none otherwise.
pub open spec fn spec_block_lines(ob: Option<SceneItemV>) -> Seq<LineV> {
    match ob {
        Some(sc) => match sc.line {
            Some(li) => seq![spec_line_of_item(li)],
            None => Seq::empty(),
        },
        None => Seq::empty(),
    }
}

/// How a line sub-block becomes an output line: the brush size is the
/// 64-bit thickness scale's bit pattern.
pub open spec fn spec_line_of_item(li: LineItemV) -> LineV {
    LineV {
        brush_type: li.brush_type,
        color: li.color,
        brush_size: ScalarBits::Double(li.thickness_scale_bits),
        points: li.points,
    }
}

/// All lines of a block stream, in block arrival order.
pub open spec fn spec_lines_of(items: Seq<Option<SceneItemV>>) -> Seq<LineV>
    decreases items.len(),
{
    if items.len() == 0 {
        Seq::empty()
    } else {
        spec_block_lines(items[0]) + spec_lines_of(items.drop_first())
    }
}

/// Appending a block appends its lines.
pub proof fn lemma_lines_of_snoc(items: Seq<Option<SceneItemV>>, b: Option<SceneItemV>)
    ensures
        spec_lines_of(items.push(b)) == spec_lines_of(items) + spec_block_lines(b),
    decreases items.len(),
{
    if items.len() == 0 {
        assert(items.push(b)[0] == b);
        assert(items.push(b).drop_first() =~= Seq::<Option<SceneItemV>>::empty());
        assert(spec_lines_of(Seq::<Option<SceneItemV>>::empty()) == Seq::<LineV>::empty());
        assert(spec_lines_of(items) == Seq::<LineV>::empty());
        assert(spec_block_lines(b) + Seq::<LineV>::empty() =~= spec_block_lines(b));
        assert(Seq::<LineV>::empty() + spec_block_lines(b) =~= spec_block_lines(b));
    } else {
        assert(items.push(b)[0] == items[0]);
        assert(items.push(b).drop_first() =~= items.drop_first().push(b));
        lemma_lines_of_snoc(items.drop_first(), b);
        assert(spec_block_lines(items[0]) + (spec_lines_of(items.drop_first())
            + spec_block_lines(b)) =~= (spec_block_lines(items[0]) + spec_lines_of(
            items.drop_first(),
        )) + spec_block_lines(b));
    }
}

/// A whole v6 page body: at least one block, blocks until the buffer's
/// end, and exactly one layer holding every line in block arrival order.
pub open spec fn spec_page_v6(s: Seq<u8>, i: int, end: int) -> Result<
    (int, Seq<LayerV>),
    ParseError,
> {
    if i >= end {
        Err(ParseError::UnexpectedEnd)
    } else {
        match spec_blocks(s, i, end) {
            Err(e) => Err(e),
            Ok((j, obs)) => Ok((j, seq![LayerV { lines: spec_lines_of(obs) }])),
        }
    }
}

/// Decode a v6 page body.  On success the whole buffer is consumed and the
/// result is a single layer with the retained lines in block order.
#[verifier::rlimit(50)]
pub fn read_page_v6(s: &[u8], i: usize, end: usize) -> (r: Result<
    (usize, Vec<Layer>),
    ParseError,
>)
    requires
        cursor_ok(s@, i as int, end as int),
    ensures
        matches_spec_dv(r, spec_page_v6(s@, i as int, end as int)),
{
    if i >= end {
        return Err(ParseError::UnexpectedEnd);
    }
    let mut pos = i;
    let mut lines: Vec<Line> = Vec::new();
    let ghost mut gblocks: Seq<Option<SceneItemV>> = Seq::empty();
    proof {
        match spec_blocks(s@, i as int, end as int) {
            Ok((j, obs)) => {
                assert(Seq::<Option<SceneItemV>>::empty() + obs =~= obs);
            },
            Err(_) => {},
        }
        assert(lines.deep_view() =~= Seq::<LineV>::empty());
    }
    while pos < end
        invariant
            cursor_ok(s@, pos as int, end as int),
            i < end,
            spec_blocks(s@, i as int, end as int) == (match spec_blocks(
                s@,
                pos as int,
                end as int,
            ) {
                Ok((j, obs)) => Ok::<(int, Seq<Option<SceneItemV>>), ParseError>(
                    (j, gblocks + obs),
                ),
                Err(e) => Err::<(int, Seq<Option<SceneItemV>>), ParseError>(e),
            }),
            lines.deep_view() == spec_lines_of(gblocks),
        decreases end - pos,
    {
        match read_block_v6(s, pos, end) {
            Err(e) => {
                return Err(e);
            },
            Ok((j, ob)) => {
                proof {
                    lemma_read_block_bounds(s@, pos as int, end as int);
                }
                let ghost obv = ob.deep_view();
                let ghost old_lines = lines.deep_view();
                let ghost old_blocks = gblocks;
                match ob {
                    Some(scene) => match scene.line {
                        Some(li) => {
                            lines.push(
                                Line {
                                    brush_type: li.brush_type,
                                    color: li.color,
                                    brush_size: ScalarBits::Double(li.thickness_scale_bits),
                                    points: li.points,
                                },
                            );
                        },
                        None => {},
                    },
                    None => {},
                }
                proof {
                    gblocks = old_blocks.push(obv);
                    lemma_lines_of_snoc(old_blocks, obv);
                    assert(lines.deep_view() =~= old_lines + spec_block_lines(obv));
                    match spec_blocks(s@, j as int, end as int) {
                        Ok((j2, obs)) => {
                            assert(old_blocks + (seq![obv] + obs) =~= gblocks + obs);
                        },
                        Err(_) => {},
                    }
                }
                pos = j;
            },
        }
    }
    proof {
        assert(gblocks + Seq::<Option<SceneItemV>>::empty() =~= gblocks);
    }
    let mut layers: Vec<Layer> = Vec::new();
    layers.push(Layer { lines });
    proof {
        assert(layers.deep_view() =~= seq![LayerV { lines: spec_lines_of(gblocks) }]);
    }
    Ok((pos, layers))
}

} // verus!
