//! The decoded page model: versions, brushes, colors, points, lines, layers,
//! pages and notebooks, together with the views their contracts speak of.

use vstd::prelude::*;

use crate::error::ParseError;

verus! {

/// The format generation a page header declares.
#[derive(Clone, Copy, Debug, PartialEq, Eq, Structural)]
pub enum Version {
    V3,
    V5,
    V6,
}

/// Which version, if any, an ASCII header digit denotes.
pub open spec fn spec_version_from_digit(digit: u8) -> Option<Version> {
    if digit == 0x33 {
        Some(Version::V3)
    } else if digit == 0x35 {
        Some(Version::V5)
    } else if digit == 0x36 {
        Some(Version::V6)
    } else {
        None
    }
}

impl Version {
    /// Decode the header's ASCII version digit: `'3'`, `'5'` or `'6'`.
    pub fn from_digit(digit: u8) -> (r: Option<Version>)
        ensures
            r == spec_version_from_digit(digit),
    {
        match digit {
            0x33 => Some(Version::V3),
            0x35 => Some(Version::V5),
            0x36 => Some(Version::V6),
            _ => None,
        }
    }
}

/// The nine ink colors, with wire ordinals 0 through 8.
#[derive(Clone, Copy, Debug, PartialEq, Eq, Structural)]
pub enum Color {
    Black,
    Grey,
    White,
    Yellow,
    Green,
    Pink,
    Blue,
    Red,
    GreyOverlap,
}

/// The color a wire ordinal denotes, if any.
pub open spec fn spec_color_from_code(code: u32) -> Option<Color> {
    if code == 0 {
        Some(Color::Black)
    } else if code == 1 {
        Some(Color::Grey)
    } else if code == 2 {
        Some(Color::White)
    } else if code == 3 {
        Some(Color::Yellow)
    } else if code == 4 {
        Some(Color::Green)
    } else if code == 5 {
        Some(Color::Pink)
    } else if code == 6 {
        Some(Color::Blue)
    } else if code == 7 {
        Some(Color::Red)
    } else if code == 8 {
        Some(Color::GreyOverlap)
    } else {
        None
    }
}

impl Color {
    /// Decode a wire ordinal; anything outside 0..=8 is a hard parse error.
    pub fn from_code(code: u32) -> (r: Result<Color, ParseError>)
        ensures
            r == match spec_color_from_code(code) {
                Some(c) => Ok::<Color, ParseError>(c),
                None => Err::<Color, ParseError>(ParseError::UnknownEnum),
            },
    {
        match code {
            0 => Ok(Color::Black),
            1 => Ok(Color::Grey),
            2 => Ok(Color::White),
            3 => Ok(Color::Yellow),
            4 => Ok(Color::Green),
            5 => Ok(Color::Pink),
            6 => Ok(Color::Blue),
            7 => Ok(Color::Red),
            8 => Ok(Color::GreyOverlap),
            _ => Err(ParseError::UnknownEnum),
        }
    }
}

/// The ten brush kinds a line can be drawn with.
#[derive(Clone, Copy, Debug, PartialEq, Eq, Structural)]
pub enum BrushType {
    Eraser,
    EraserArea,
    Marker,
    Fineliner,
    Paintbrush,
    MechanicalPencil,
    Pencil,
    Ballpoint,
    Highlighter,
    Calligraphy,
}

/// The brush a wire code denotes, if any; the table is fixed and
/// non-contiguous, with two codes for most brushes.
pub open spec fn spec_brush_from_code(code: u32) -> Option<BrushType> {
    if code == 0x06 {
        Some(BrushType::Eraser)
    } else if code == 0x08 {
        Some(BrushType::EraserArea)
    } else if code == 0x03 || code == 0x10 {
        Some(BrushType::Marker)
    } else if code == 0x04 || code == 0x11 {
        Some(BrushType::Fineliner)
    } else if code == 0x00 || code == 0x0C {
        Some(BrushType::Paintbrush)
    } else if code == 0x07 || code == 0x0D {
        Some(BrushType::MechanicalPencil)
    } else if code == 0x01 || code == 0x0E {
        Some(BrushType::Pencil)
    } else if code == 0x02 || code == 0x0F {
        Some(BrushType::Ballpoint)
    } else if code == 0x05 || code == 0x12 {
        Some(BrushType::Highlighter)
    } else if code == 0x15 {
        Some(BrushType::Calligraphy)
    } else {
        None
    }
}

impl BrushType {
    /// Decode a wire code through the fixed brush table; any code outside
    /// it is a hard parse error.
    pub fn from_code(code: u32) -> (r: Result<BrushType, ParseError>)
        ensures
            r == match spec_brush_from_code(code) {
                Some(b) => Ok::<BrushType, ParseError>(b),
                None => Err::<BrushType, ParseError>(ParseError::UnknownEnum),
            },
    {
        match code {
            0x06 => Ok(BrushType::Eraser),
            0x08 => Ok(BrushType::EraserArea),
            0x03 | 0x10 => Ok(BrushType::Marker),
            0x04 | 0x11 => Ok(BrushType::Fineliner),
            0x00 | 0x0C => Ok(BrushType::Paintbrush),
            0x07 | 0x0D => Ok(BrushType::MechanicalPencil),
            0x01 | 0x0E => Ok(BrushType::Pencil),
            0x02 | 0x0F => Ok(BrushType::Ballpoint),
            0x05 | 0x12 => Ok(BrushType::Highlighter),
            0x15 => Ok(BrushType::Calligraphy),
            _ => Err(ParseError::UnknownEnum),
        }
    }

    /// Whether the renderer draws lines of this brush; the two eraser kinds
    /// are skipped.
    pub fn should_draw(&self) -> (r: bool)
        ensures
            r == !(self is Eraser || self is EraserArea),
    {
        match self {
            BrushType::Eraser | BrushType::EraserArea => false,
            _ => true,
        }
    }
}

/// A node identity in the device's replicated data type; parsed, carried
/// through, and otherwise treated as opaque.
#[derive(Clone, Copy, Debug, PartialEq, Eq, Hash, Structural)]
pub struct CrdtId {
    pub part1: u8,
    pub part2: u64,
}

/// The per-point channels beyond the coordinates, in the two wire layouts.
///
/// The 24-byte layout stores each channel as an IEEE-754 single, carried
/// here as its bit pattern; the 14-byte layout stores raw integers.
#[derive(Clone, Copy, Debug, PartialEq, Eq, Structural)]
pub enum PointExtra {
    /// 24-byte layout: v5 pages and v6 scene-item blocks of version 1.
    Wide { speed_bits: u32, width_bits: u32, direction_bits: u32, pressure_bits: u32 },
    /// 14-byte layout: v6 scene-item blocks of version 2.
    Narrow { speed: u16, width: u16, direction: u8, pressure: u8 },
}

/// One sampled pen position.  `x_bits` and `y_bits` are the bit patterns of
/// the two IEEE-754 singles every layout starts with; no shift or scaling is
/// applied by the parser.
#[derive(Clone, Copy, Debug, PartialEq, Eq, Structural)]
pub struct Point {
    pub x_bits: u32,
    pub y_bits: u32,
    pub extra: PointExtra,
}

/// A brush size as it stands on the wire: v5 lines carry an IEEE-754
/// single, v6 lines an IEEE-754 double (the thickness scale).
#[derive(Clone, Copy, Debug, PartialEq, Eq, Structural)]
pub enum ScalarBits {
    Single(u32),
    Double(u64),
}

/// One stroke: a brush, a color, a brush size and its points in stroke order.
#[derive(Clone, Debug, PartialEq)]
pub struct Line {
    pub brush_type: BrushType,
    pub color: Color,
    pub brush_size: ScalarBits,
    pub points: Vec<Point>,
}

/// The mathematical value of a [`Line`].
pub struct LineV {
    pub brush_type: BrushType,
    pub color: Color,
    pub brush_size: ScalarBits,
    pub points: Seq<Point>,
}

impl View for Line {
    type V = LineV;

    open spec fn view(&self) -> LineV {
        LineV {
            brush_type: self.brush_type,
            color: self.color,
            brush_size: self.brush_size,
            points: self.points@,
        }
    }
}

impl DeepView for Line {
    type V = LineV;

    open spec fn deep_view(&self) -> LineV {
        self@
    }
}

/// One layer of strokes.  v5 pages may hold several; a v6 page always
/// decodes to exactly one.
#[derive(Clone, Debug, PartialEq)]
pub struct Layer {
    pub lines: Vec<Line>,
}

/// The mathematical value of a [`Layer`].
pub struct LayerV {
    pub lines: Seq<LineV>,
}

impl View for Layer {
    type V = LayerV;

    open spec fn view(&self) -> LayerV {
        LayerV { lines: self.lines.deep_view() }
    }
}

impl DeepView for Layer {
    type V = LayerV;

    open spec fn deep_view(&self) -> LayerV {
        self@
    }
}

/// One decoded page: the caller-supplied id, the header version and the
/// layers in order.
#[derive(Clone, Debug, PartialEq)]
pub struct Page {
    pub id: String,
    pub version: Version,
    pub layers: Vec<Layer>,
}

/// The mathematical value of a [`Page`].
pub struct PageV {
    pub id: Seq<char>,
    pub version: Version,
    pub layers: Seq<LayerV>,
}

impl View for Page {
    type V = PageV;

    open spec fn view(&self) -> PageV {
        PageV { id: self.id@, version: self.version, layers: self.layers.deep_view() }
    }
}

impl DeepView for Page {
    type V = PageV;

    open spec fn deep_view(&self) -> PageV {
        self@
    }
}

/// A notebook: its name and its successfully decoded pages in order.
#[derive(Clone, Debug, PartialEq)]
pub struct Notebook {
    pub id: String,
    pub pages: Vec<Page>,
}

/// The mathematical value of a [`Notebook`].
pub struct NotebookV {
    pub id: Seq<char>,
    pub pages: Seq<PageV>,
}

impl View for Notebook {
    type V = NotebookV;

    open spec fn view(&self) -> NotebookV {
        NotebookV { id: self.id@, pages: self.pages.deep_view() }
    }
}

/// Which pages of a notebook a conversion keeps, evaluated against each
/// page's zero-based ordinal position.
#[derive(Clone, Copy, Debug, PartialEq, Eq, Structural)]
pub enum PageFilter {
    /// Keep every page.
    All,
    /// Keep the single page at this position.
    Single(usize),
    /// Keep the positions of the half-open range `start..end`.
    Range(usize, usize),
}

/// Whether a filter keeps the page at position `idx`.
pub open spec fn spec_filter_matches(f: PageFilter, idx: usize) -> bool {
    match f {
        PageFilter::All => true,
        PageFilter::Single(n) => idx == n,
        PageFilter::Range(a, b) => a <= idx && idx < b,
    }
}

impl PageFilter {
    /// Evaluate the filter at a page position.
    pub fn matches(&self, idx: usize) -> (r: bool)
        ensures
            r == spec_filter_matches(*self, idx),
    {
        match self {
            PageFilter::All => true,
            PageFilter::Single(n) => idx == *n,
            PageFilter::Range(a, b) => *a <= idx && idx < *b,
        }
    }
}

} // verus!
