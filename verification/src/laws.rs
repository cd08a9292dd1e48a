//! The decoder's stated laws: consumption accounting, totality of the
//! decoded enum tables over the output, the point-count bound of a line
//! sub-block, and the fate of a page made of unknown blocks.

use vstd::prelude::*;

use crate::error::ParseError;
use crate::model::{
    spec_brush_from_code, spec_color_from_code, BrushType, Color, LayerV, LineV, Version,
};
use crate::page::spec_parse;
use crate::primitives::{cursor_ok, le32, spec_header, spec_read_u32};
use crate::v5::lemma_layers_v5_bounds;
use crate::v6::{
    spec_block_lines, spec_blocks, spec_lines_of, spec_page_v6, spec_point_size, spec_read_block,
    SceneItemV,
};

verus! {

/// A successful block stream always ends exactly at the buffer's end.
pub proof fn lemma_blocks_consume_all(s: Seq<u8>, i: int, end: int)
    requires
        cursor_ok(s, i, end),
    ensures
        spec_blocks(s, i, end) matches Ok((j, obs)) ==> j == end,
    decreases end - i,
{
    if i < end {
        match spec_read_block(s, i, end) {
            Ok((j, _ob)) => {
                if i < j <= end {
                    lemma_blocks_consume_all(s, j, end);
                }
            },
            Err(_) => {},
        }
    }
}

/// Consumption accounting for a successful parse: the header takes 43
/// bytes, decoding stops at the reported position `j`, never past the
/// input's end, so the bytes consumed are exactly the input's length minus
/// the trailing unparsed bytes `s.len() - j`.  A v6 page consumes the
/// input whole.
pub proof fn lemma_parse_consumes(s: Seq<u8>)
    ensures
        spec_parse(s) matches Ok((j, vl)) ==> 43 <= j <= s.len() && (vl.0 is V6 ==> j
            == s.len()),
{
    let end = s.len() as int;
    match spec_header(s, 0, end) {
        Ok((h, version)) => {
            match version {
                Version::V3 => {},
                Version::V5 => {
                    match spec_read_u32(s, h, end) {
                        Ok((j0, n)) => {
                            lemma_layers_v5_bounds(s, j0, end, n as nat);
                        },
                        Err(_) => {},
                    }
                },
                Version::V6 => {
                    if h < end {
                        lemma_blocks_consume_all(s, h, end);
                    }
                },
            }
        },
        Err(_) => {},
    }
}

/// A brush value that some wire code decodes to.
pub open spec fn brush_in_table(b: BrushType) -> bool {
    exists|code: u32| spec_brush_from_code(code) == Some(b)
}

/// A color value that some wire code decodes to.
pub open spec fn color_in_table(c: Color) -> bool {
    exists|code: u32| spec_color_from_code(code) == Some(c)
}

/// Every brush value is one of the ten the wire table defines.
pub proof fn lemma_brush_in_table(b: BrushType)
    ensures
        brush_in_table(b),
{
    match b {
        BrushType::Eraser => {
            assert(spec_brush_from_code(0x06) == Some(BrushType::Eraser));
        },
        BrushType::EraserArea => {
            assert(spec_brush_from_code(0x08) == Some(BrushType::EraserArea));
        },
        BrushType::Marker => {
            assert(spec_brush_from_code(0x03) == Some(BrushType::Marker));
        },
        BrushType::Fineliner => {
            assert(spec_brush_from_code(0x04) == Some(BrushType::Fineliner));
        },
        BrushType::Paintbrush => {
            assert(spec_brush_from_code(0x00) == Some(BrushType::Paintbrush));
        },
        BrushType::MechanicalPencil => {
            assert(spec_brush_from_code(0x07) == Some(BrushType::MechanicalPencil));
        },
        BrushType::Pencil => {
            assert(spec_brush_from_code(0x01) == Some(BrushType::Pencil));
        },
        BrushType::Ballpoint => {
            assert(spec_brush_from_code(0x02) == Some(BrushType::Ballpoint));
        },
        BrushType::Highlighter => {
            assert(spec_brush_from_code(0x05) == Some(BrushType::Highlighter));
        },
        BrushType::Calligraphy => {
            assert(spec_brush_from_code(0x15) == Some(BrushType::Calligraphy));
        },
    }
}

/// Every color value is one of the nine the wire table defines.
pub proof fn lemma_color_in_table(c: Color)
    ensures
        color_in_table(c),
{
    match c {
        Color::Black => {
            assert(spec_color_from_code(0) == Some(Color::Black));
        },
        Color::Grey => {
            assert(spec_color_from_code(1) == Some(Color::Grey));
        },
        Color::White => {
            assert(spec_color_from_code(2) == Some(Color::White));
        },
        Color::Yellow => {
            assert(spec_color_from_code(3) == Some(Color::Yellow));
        },
        Color::Green => {
            assert(spec_color_from_code(4) == Some(Color::Green));
        },
        Color::Pink => {
            assert(spec_color_from_code(5) == Some(Color::Pink));
        },
        Color::Blue => {
            assert(spec_color_from_code(6) == Some(Color::Blue));
        },
        Color::Red => {
            assert(spec_color_from_code(7) == Some(Color::Red));
        },
        Color::GreyOverlap => {
            assert(spec_color_from_code(8) == Some(Color::GreyOverlap));
        },
    }
}

/// Every line of a successfully decoded page carries a brush from the
/// ten-entry brush table and a color from the nine-entry color table.
pub proof fn lemma_parse_enums_defined(s: Seq<u8>)
    ensures
        spec_parse(s) matches Ok((j, vl)) ==> forall|a: int, b: int|
            0 <= a < vl.1.len() && 0 <= b < vl.1[a].lines.len() ==> brush_in_table(
                (#[trigger] vl.1[a].lines[b]).brush_type,
            ) && color_in_table(vl.1[a].lines[b].color),
{
    match spec_parse(s) {
        Ok((j, vl)) => {
            assert forall|a: int, b: int|
                0 <= a < vl.1.len() && 0 <= b < vl.1[a].lines.len() implies brush_in_table(
                (#[trigger] vl.1[a].lines[b]).brush_type,
            ) && color_in_table(vl.1[a].lines[b].color) by {
                lemma_brush_in_table(vl.1[a].lines[b].brush_type);
                lemma_color_in_table(vl.1[a].lines[b].color);
            }
        },
        Err(_) => {},
    }
}

/// The point count a line sub-block keeps is its declared segment length
/// divided by the point size, so the kept points fill the segment up to a
/// remainder smaller than one point:
/// `n * point_size <= seg_len < (n + 1) * point_size`.
pub proof fn lemma_point_count_sandwich(seg_len: u32, version: u8)
    requires
        spec_point_size(version) is Some,
    ensures
        ({
            let psize = spec_point_size(version).unwrap() as int;
            let n = (seg_len / spec_point_size(version).unwrap()) as int;
            n * psize <= seg_len < (n + 1) * psize
        }),
{
    let psize = spec_point_size(version).unwrap() as int;
    vstd::arithmetic::div_mod::lemma_fundamental_div_mod(seg_len as int, psize);
    vstd::arithmetic::div_mod::lemma_mod_division_less_than_divisor(seg_len as int, psize);
}

/// Whether the region `[i, end)` is a well-formed chain of blocks none of
/// which has a recognised block type (scene item, author info, page info).
pub open spec fn spec_only_unknown_blocks(s: Seq<u8>, i: int, end: int) -> bool
    decreases end - i,
{
    if i >= end {
        true
    } else if end - i < 8 {
        false
    } else {
        let block_len = le32(s, i) as int;
        let block_type = s[i + 7];
        i + 8 + block_len <= end && block_type != 5 && block_type != 9 && block_type != 10
            && spec_only_unknown_blocks(s, i + 8 + block_len, end)
    }
}

/// A chain of unknown blocks parses successfully to a stream with no
/// scene items and no lines.
proof fn lemma_unknown_blocks(s: Seq<u8>, i: int, end: int)
    requires
        cursor_ok(s, i, end),
        spec_only_unknown_blocks(s, i, end),
    ensures
        spec_blocks(s, i, end) is Ok,
        spec_blocks(s, i, end) matches Ok((j, obs)) ==> spec_lines_of(obs)
            == Seq::<LineV>::empty(),
    decreases end - i,
{
    if i >= end {
        assert(spec_lines_of(Seq::<Option<SceneItemV>>::empty()) == Seq::<LineV>::empty());
    } else {
        let block_len = le32(s, i) as int;
        let pend = i + 8 + block_len;
        assert(spec_read_block(s, i, end) == Ok::<(int, Option<SceneItemV>), ParseError>(
            (pend, Option::<SceneItemV>::None),
        ));
        lemma_unknown_blocks(s, pend, end);
        match spec_blocks(s, pend, end) {
            Ok((j2, obs2)) => {
                let whole = seq![Option::<SceneItemV>::None] + obs2;
                assert(whole.len() > 0);
                assert(whole[0] == Option::<SceneItemV>::None);
                assert(whole.drop_first() =~= obs2);
                assert(spec_lines_of(whole) == spec_block_lines(whole[0]) + spec_lines_of(
                    whole.drop_first(),
                ));
                assert(spec_block_lines(Option::<SceneItemV>::None) + spec_lines_of(obs2)
                    =~= Seq::<LineV>::empty());
            },
            Err(_) => {},
        }
    }
}

/// A v6 page body holding only blocks of unknown type decodes without
/// failure to a single empty layer.
pub proof fn lemma_unknown_blocks_give_empty_layer(s: Seq<u8>, i: int, end: int)
    requires
        cursor_ok(s, i, end),
        i < end,
        spec_only_unknown_blocks(s, i, end),
    ensures
        spec_page_v6(s, i, end) == Ok::<(int, Seq<LayerV>), ParseError>(
            (end, seq![LayerV { lines: Seq::<LineV>::empty() }]),
        ),
{
    lemma_unknown_blocks(s, i, end);
    lemma_blocks_consume_all(s, i, end);
}

} // verus!
