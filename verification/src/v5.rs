//! The version-5 page decoder: a fixed positional layout of layers, lines
//! and points, with no tags and no coordinate shift.

use vstd::prelude::*;

use crate::error::ParseError;
use crate::model::{
    spec_brush_from_code, spec_color_from_code, BrushType, Color, Layer, LayerV, Line, LineV,
    Point, PointExtra, ScalarBits,
};
use crate::primitives::{
    cursor_ok, le32, matches_spec, matches_spec_dv, matches_spec_v, read_u32, spec_read_u32,
};

verus! {

/// One v5 point: six little-endian singles in wire order
/// `x, y, speed, direction, width, pressure`.
pub open spec fn spec_point_v5(s: Seq<u8>, i: int, end: int) -> Result<(int, Point), ParseError> {
    if i + 24 <= end {
        Ok(
            (
                i + 24,
                Point {
                    x_bits: le32(s, i),
                    y_bits: le32(s, i + 4),
                    extra: PointExtra::Wide {
                        speed_bits: le32(s, i + 8),
                        direction_bits: le32(s, i + 12),
                        width_bits: le32(s, i + 16),
                        pressure_bits: le32(s, i + 20),
                    },
                },
            ),
        )
    } else {
        Err(ParseError::UnexpectedEnd)
    }
}

pub fn read_point_v5(s: &[u8], i: usize, end: usize) -> (r: Result<(usize, Point), ParseError>)
    requires
        cursor_ok(s@, i as int, end as int),
    ensures
        matches_spec(r, spec_point_v5(s@, i as int, end as int)),
{
    let (j1, x_bits) = read_u32(s, i, end)?;
    let (j2, y_bits) = read_u32(s, j1, end)?;
    let (j3, speed_bits) = read_u32(s, j2, end)?;
    let (j4, direction_bits) = read_u32(s, j3, end)?;
    let (j5, width_bits) = read_u32(s, j4, end)?;
    let (j6, pressure_bits) = read_u32(s, j5, end)?;
    Ok(
        (
            j6,
            Point {
                x_bits,
                y_bits,
                extra: PointExtra::Wide { speed_bits, direction_bits, width_bits, pressure_bits },
            },
        ),
    )
}

/// `n` consecutive v5 points.
pub open spec fn spec_points_v5(s: Seq<u8>, i: int, end: int, n: nat) -> Result<
    (int, Seq<Point>),
    ParseError,
>
    decreases n,
{
    if n == 0 {
        Ok((i, Seq::empty()))
    } else {
        match spec_point_v5(s, i, end) {
            Err(e) => Err(e),
            Ok((j, p)) => match spec_points_v5(s, j, end, (n - 1) as nat) {
                Err(e) => Err(e),
                Ok((j2, ps)) => Ok((j2, seq![p] + ps)),
            },
        }
    }
}

pub fn read_points_v5(s: &[u8], i: usize, end: usize, n: u32) -> (r: Result<
    (usize, Vec<Point>),
    ParseError,
>)
    requires
        cursor_ok(s@, i as int, end as int),
    ensures
        matches_spec_v(r, spec_points_v5(s@, i as int, end as int, n as nat)),
{
    let mut pos = i;
    let mut acc: Vec<Point> = Vec::new();
    let mut k: u32 = 0;
    proof {
        match spec_points_v5(s@, i as int, end as int, n as nat) {
            Ok((j, ps)) => {
                assert(Seq::<Point>::empty() + ps =~= ps);
            },
            Err(_) => {},
        }
    }
    while k < n
        invariant
            cursor_ok(s@, pos as int, end as int),
            k <= n,
            spec_points_v5(s@, i as int, end as int, n as nat) == (match spec_points_v5(
                s@,
                pos as int,
                end as int,
                (n - k) as nat,
            ) {
                Ok((j, ps)) => Ok::<(int, Seq<Point>), ParseError>((j, acc@ + ps)),
                Err(e) => Err::<(int, Seq<Point>), ParseError>(e),
            }),
        decreases n - k,
    {
        match read_point_v5(s, pos, end) {
            Err(e) => {
                return Err(e);
            },
            Ok((j, p)) => {
                let ghost prefix = acc@;
                acc.push(p);
                proof {
                    match spec_points_v5(s@, j as int, end as int, (n - k - 1) as nat) {
                        Ok((j2, ps)) => {
                            assert(prefix + (seq![p] + ps) =~= acc@ + ps);
                        },
                        Err(_) => {},
                    }
                }
                pos = j;
                k = k + 1;
            },
        }
    }
    proof {
        assert(acc@ + Seq::<Point>::empty() =~= acc@);
    }
    Ok((pos, acc))
}

/// On success, a v5 point run ends inside the segment and yields exactly
/// `n` points.
pub proof fn lemma_points_v5_bounds(s: Seq<u8>, i: int, end: int, n: nat)
    requires
        cursor_ok(s, i, end),
    ensures
        spec_points_v5(s, i, end, n) matches Ok((j, ps)) ==> i <= j <= end && ps.len() == n,
    decreases n,
{
    if n > 0 {
        match spec_point_v5(s, i, end) {
            Ok((j, _p)) => {
                lemma_points_v5_bounds(s, j, end, (n - 1) as nat);
            },
            Err(_) => {},
        }
    }
}

/// One v5 line: brush code, color code, padding, brush size, padding,
/// point count, then the points.  Unknown brush or color codes fail with
/// `UnknownEnum`.
pub open spec fn spec_line_v5(s: Seq<u8>, i: int, end: int) -> Result<(int, LineV), ParseError> {
    match spec_read_u32(s, i, end) {
        Err(e) => Err(e),
        Ok((j1, brush_code)) => match spec_brush_from_code(brush_code) {
            None => Err(ParseError::UnknownEnum),
            Some(brush_type) => match spec_read_u32(s, j1, end) {
                Err(e) => Err(e),
                Ok((j2, color_code)) => match spec_color_from_code(color_code) {
                    None => Err(ParseError::UnknownEnum),
                    Some(color) => match spec_read_u32(s, j2, end) {
                        Err(e) => Err(e),
                        Ok((j3, _pad1)) => match spec_read_u32(s, j3, end) {
                            Err(e) => Err(e),
                            Ok((j4, size_bits)) => match spec_read_u32(s, j4, end) {
                                Err(e) => Err(e),
                                Ok((j5, _pad2)) => match spec_read_u32(s, j5, end) {
                                    Err(e) => Err(e),
                                    Ok((j6, n)) => match spec_points_v5(s, j6, end, n as nat) {
                                        Err(e) => Err(e),
                                        Ok((j7, points)) => Ok(
                                            (
                                                j7,
                                                LineV {
                                                    brush_type,
                                                    color,
                                                    brush_size: ScalarBits::Single(size_bits),
                                                    points,
                                                },
                                            ),
                                        ),
                                    },
                                },
                            },
                        },
                    },
                },
            },
        },
    }
}

pub fn read_line_v5(s: &[u8], i: usize, end: usize) -> (r: Result<(usize, Line), ParseError>)
    requires
        cursor_ok(s@, i as int, end as int),
    ensures
        matches_spec_dv(r, spec_line_v5(s@, i as int, end as int)),
{
    let (j1, brush_code) = read_u32(s, i, end)?;
    let brush_type = BrushType::from_code(brush_code)?;
    let (j2, color_code) = read_u32(s, j1, end)?;
    let color = Color::from_code(color_code)?;
    let (j3, _pad1) = read_u32(s, j2, end)?;
    let (j4, size_bits) = read_u32(s, j3, end)?;
    let (j5, _pad2) = read_u32(s, j4, end)?;
    let (j6, n) = read_u32(s, j5, end)?;
    let (j7, points) = read_points_v5(s, j6, end, n)?;
    Ok((j7, Line { brush_type, color, brush_size: ScalarBits::Single(size_bits), points }))
}

/// On success, a v5 line ends inside the segment.
pub proof fn lemma_line_v5_bounds(s: Seq<u8>, i: int, end: int)
    requires
        cursor_ok(s, i, end),
    ensures
        spec_line_v5(s, i, end) matches Ok((j, _l)) ==> i <= j <= end,
{
    if spec_line_v5(s, i, end) is Ok {
        lemma_points_v5_bounds(s, i + 24, end, le32(s, i + 20) as nat);
    }
}

/// `n` consecutive v5 lines.
pub open spec fn spec_lines_v5(s: Seq<u8>, i: int, end: int, n: nat) -> Result<
    (int, Seq<LineV>),
    ParseError,
>
    decreases n,
{
    if n == 0 {
        Ok((i, Seq::empty()))
    } else {
        match spec_line_v5(s, i, end) {
            Err(e) => Err(e),
            Ok((j, l)) => match spec_lines_v5(s, j, end, (n - 1) as nat) {
                Err(e) => Err(e),
                Ok((j2, ls)) => Ok((j2, seq![l] + ls)),
            },
        }
    }
}

pub fn read_lines_v5(s: &[u8], i: usize, end: usize, n: u32) -> (r: Result<
    (usize, Vec<Line>),
    ParseError,
>)
    requires
        cursor_ok(s@, i as int, end as int),
    ensures
        matches_spec_dv(r, spec_lines_v5(s@, i as int, end as int, n as nat)),
{
    let mut pos = i;
    let mut acc: Vec<Line> = Vec::new();
    let mut k: u32 = 0;
    proof {
        assert(acc.deep_view() =~= Seq::<LineV>::empty());
        match spec_lines_v5(s@, i as int, end as int, n as nat) {
            Ok((j, ls)) => {
                assert(Seq::<LineV>::empty() + ls =~= ls);
            },
            Err(_) => {},
        }
    }
    while k < n
        invariant
            cursor_ok(s@, pos as int, end as int),
            k <= n,
            spec_lines_v5(s@, i as int, end as int, n as nat) == (match spec_lines_v5(
                s@,
                pos as int,
                end as int,
                (n - k) as nat,
            ) {
                Ok((j, ls)) => Ok::<(int, Seq<LineV>), ParseError>((j, acc.deep_view() + ls)),
                Err(e) => Err::<(int, Seq<LineV>), ParseError>(e),
            }),
        decreases n - k,
    {
        match read_line_v5(s, pos, end) {
            Err(e) => {
                return Err(e);
            },
            Ok((j, l)) => {
                let ghost prefix = acc.deep_view();
                let ghost lv = l.deep_view();
                acc.push(l);
                proof {
                    lemma_line_v5_bounds(s@, pos as int, end as int);
                    assert(acc.deep_view() =~= prefix + seq![lv]);
                    match spec_lines_v5(s@, j as int, end as int, (n - k - 1) as nat) {
                        Ok((j2, ls)) => {
                            assert(prefix + (seq![lv] + ls) =~= (prefix + seq![lv]) + ls);
                        },
                        Err(_) => {},
                    }
                }
                pos = j;
                k = k + 1;
            },
        }
    }
    proof {
        assert(acc.deep_view() + Seq::<LineV>::empty() =~= acc.deep_view());
    }
    Ok((pos, acc))
}

/// On success, a v5 line run ends inside the segment and yields exactly
/// `n` lines.
pub proof fn lemma_lines_v5_bounds(s: Seq<u8>, i: int, end: int, n: nat)
    requires
        cursor_ok(s, i, end),
    ensures
        spec_lines_v5(s, i, end, n) matches Ok((j, ls)) ==> i <= j <= end && ls.len() == n,
    decreases n,
{
    if n > 0 {
        lemma_line_v5_bounds(s, i, end);
        match spec_line_v5(s, i, end) {
            Ok((j, _l)) => {
                lemma_lines_v5_bounds(s, j, end, (n - 1) as nat);
            },
            Err(_) => {},
        }
    }
}

/// One v5 layer: a line count, then that many lines.
pub open spec fn spec_layer_v5(s: Seq<u8>, i: int, end: int) -> Result<(int, LayerV), ParseError> {
    match spec_read_u32(s, i, end) {
        Err(e) => Err(e),
        Ok((j, n)) => match spec_lines_v5(s, j, end, n as nat) {
            Err(e) => Err(e),
            Ok((j2, ls)) => Ok((j2, LayerV { lines: ls })),
        },
    }
}

pub fn read_layer_v5(s: &[u8], i: usize, end: usize) -> (r: Result<(usize, Layer), ParseError>)
    requires
        cursor_ok(s@, i as int, end as int),
    ensures
        matches_spec_dv(r, spec_layer_v5(s@, i as int, end as int)),
{
    let (j, n) = read_u32(s, i, end)?;
    let (j2, lines) = read_lines_v5(s, j, end, n)?;
    Ok((j2, Layer { lines }))
}

/// On success, a v5 layer ends inside the segment.
pub proof fn lemma_layer_v5_bounds(s: Seq<u8>, i: int, end: int)
    requires
        cursor_ok(s, i, end),
    ensures
        spec_layer_v5(s, i, end) matches Ok((j, _l)) ==> i <= j <= end,
{
    if spec_layer_v5(s, i, end) is Ok {
        lemma_lines_v5_bounds(s, i + 4, end, le32(s, i) as nat);
    }
}

/// `n` consecutive v5 layers.
pub open spec fn spec_layers_v5(s: Seq<u8>, i: int, end: int, n: nat) -> Result<
    (int, Seq<LayerV>),
    ParseError,
>
    decreases n,
{
    if n == 0 {
        Ok((i, Seq::empty()))
    } else {
        match spec_layer_v5(s, i, end) {
            Err(e) => Err(e),
            Ok((j, l)) => match spec_layers_v5(s, j, end, (n - 1) as nat) {
                Err(e) => Err(e),
                Ok((j2, ls)) => Ok((j2, seq![l] + ls)),
            },
        }
    }
}

pub fn read_layers_v5(s: &[u8], i: usize, end: usize, n: u32) -> (r: Result<
    (usize, Vec<Layer>),
    ParseError,
>)
    requires
        cursor_ok(s@, i as int, end as int),
    ensures
        matches_spec_dv(r, spec_layers_v5(s@, i as int, end as int, n as nat)),
{
    let mut pos = i;
    let mut acc: Vec<Layer> = Vec::new();
    let mut k: u32 = 0;
    proof {
        assert(acc.deep_view() =~= Seq::<LayerV>::empty());
        match spec_layers_v5(s@, i as int, end as int, n as nat) {
            Ok((j, ls)) => {
                assert(Seq::<LayerV>::empty() + ls =~= ls);
            },
            Err(_) => {},
        }
    }
    while k < n
        invariant
            cursor_ok(s@, pos as int, end as int),
            k <= n,
            spec_layers_v5(s@, i as int, end as int, n as nat) == (match spec_layers_v5(
                s@,
                pos as int,
                end as int,
                (n - k) as nat,
            ) {
                Ok((j, ls)) => Ok::<(int, Seq<LayerV>), ParseError>((j, acc.deep_view() + ls)),
                Err(e) => Err::<(int, Seq<LayerV>), ParseError>(e),
            }),
        decreases n - k,
    {
        match read_layer_v5(s, pos, end) {
            Err(e) => {
                return Err(e);
            },
            Ok((j, l)) => {
                let ghost prefix = acc.deep_view();
                let ghost lv = l.deep_view();
                acc.push(l);
                proof {
                    lemma_layer_v5_bounds(s@, pos as int, end as int);
                    assert(acc.deep_view() =~= prefix + seq![lv]);
                    match spec_layers_v5(s@, j as int, end as int, (n - k - 1) as nat) {
                        Ok((j2, ls)) => {
                            assert(prefix + (seq![lv] + ls) =~= (prefix + seq![lv]) + ls);
                        },
                        Err(_) => {},
                    }
                }
                pos = j;
                k = k + 1;
            },
        }
    }
    proof {
        assert(acc.deep_view() + Seq::<LayerV>::empty() =~= acc.deep_view());
    }
    Ok((pos, acc))
}

/// On success, a v5 layer run ends inside the segment and yields exactly
/// `n` layers.
pub proof fn lemma_layers_v5_bounds(s: Seq<u8>, i: int, end: int, n: nat)
    requires
        cursor_ok(s, i, end),
    ensures
        spec_layers_v5(s, i, end, n) matches Ok((j, ls)) ==> i <= j <= end && ls.len() == n,
    decreases n,
{
    if n > 0 {
        lemma_layer_v5_bounds(s, i, end);
        match spec_layer_v5(s, i, end) {
            Ok((j, _l)) => {
                lemma_layers_v5_bounds(s, j, end, (n - 1) as nat);
            },
            Err(_) => {},
        }
    }
}

/// A whole v5 page body: a layer count, then that many layers.
pub open spec fn spec_page_v5(s: Seq<u8>, i: int, end: int) -> Result<
    (int, Seq<LayerV>),
    ParseError,
> {
    match spec_read_u32(s, i, end) {
        Err(e) => Err(e),
        Ok((j, n)) => spec_layers_v5(s, j, end, n as nat),
    }
}

/// Decode a v5 page body, returning the position after the declared
/// structure (trailing bytes stay unconsumed) and the layers in order.
pub fn read_page_v5(s: &[u8], i: usize, end: usize) -> (r: Result<
    (usize, Vec<Layer>),
    ParseError,
>)
    requires
        cursor_ok(s@, i as int, end as int),
    ensures
        matches_spec_dv(r, spec_page_v5(s@, i as int, end as int)),
{
    let (j, n) = read_u32(s, i, end)?;
    read_layers_v5(s, j, end, n)
}

} // verus!
