//! The error kinds a page decode can end with.

use vstd::prelude::*;

verus! {

/// Why a parse failed.
///
/// Every decoding function in this crate reports exactly one of these kinds,
/// and its contract states on which inputs each kind is returned.
#[derive(Clone, Copy, Debug, PartialEq, Eq, Structural)]
pub enum ParseError {
    /// A primitive or segment read would pass the end of the buffer.
    UnexpectedEnd,
    /// Header prelude mismatch, unknown version digit, or wrong padding.
    BadHeader,
    /// The expected `(field index, kind)` does not match the wire tag.
    TagMismatch,
    /// A brush-type or color ordinal outside the defined tables.
    UnknownEnum,
    /// A scene-item block whose `current_version` is not 1 or 2.
    UnknownBlockVersion,
    /// A variable-length integer that runs past ten bytes.
    VarintOverflow,
    /// A declared block or sub-block length that exceeds the remaining bytes.
    Truncated,
    /// A header version this decoder recognises but does not support.
    UnsupportedVersion,
}

impl ParseError {
    /// A short human-readable name for the error kind.
    pub fn describe(&self) -> (s: &'static str)
        ensures
            s@.len() > 0,
    {
        let s = match self {
            ParseError::UnexpectedEnd => "unexpected end of input",
            ParseError::BadHeader => "bad header",
            ParseError::TagMismatch => "tag mismatch",
            ParseError::UnknownEnum => "unknown enum ordinal",
            ParseError::UnknownBlockVersion => "unknown block version",
            ParseError::VarintOverflow => "varint overflow",
            ParseError::Truncated => "truncated block",
            ParseError::UnsupportedVersion => "unsupported version",
        };
        proof {
            reveal_strlit("unexpected end of input");
            reveal_strlit("bad header");
            reveal_strlit("tag mismatch");
            reveal_strlit("unknown enum ordinal");
            reveal_strlit("unknown block version");
            reveal_strlit("varint overflow");
            reveal_strlit("truncated block");
            reveal_strlit("unsupported version");
        }
        s
    }
}

} // verus!
