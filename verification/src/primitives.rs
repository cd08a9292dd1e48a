//! Primitive readers: fixed-width little-endian integers, the
//! variable-length unsigned integer, and the fixed 43-byte header.
//!
//! Every reader works on a cursor `(s, i, end)`: the bytes `s`, the next
//! position `i` and an exclusive limit `end` (the current segment's end).
//! It returns the position after the value together with the value, or a
//! [`ParseError`].  Each reader's contract equates it with a spec function
//! of the same shape over `Seq<u8>`.

use vstd::prelude::*;

use crate::error::ParseError;
use crate::model::{spec_version_from_digit, Version};

verus! {

/// How an executable reader's result relates to its spec function: same
/// success or failure, same final position, same value.
pub open spec fn matches_spec<T>(
    r: Result<(usize, T), ParseError>,
    sr: Result<(int, T), ParseError>,
) -> bool {
    match r {
        Ok((j, v)) => sr == Ok::<(int, T), ParseError>((j as int, v)),
        Err(e) => sr == Err::<(int, T), ParseError>(e),
    }
}

/// As [`matches_spec`], for readers whose value is compared through its view.
pub open spec fn matches_spec_v<T: View>(
    r: Result<(usize, T), ParseError>,
    sr: Result<(int, T::V), ParseError>,
) -> bool {
    match r {
        Ok((j, v)) => sr == Ok::<(int, T::V), ParseError>((j as int, v@)),
        Err(e) => sr == Err::<(int, T::V), ParseError>(e),
    }
}

/// As [`matches_spec`], for readers whose value is compared through its
/// deep view (collections of viewed values).
pub open spec fn matches_spec_dv<T: DeepView>(
    r: Result<(usize, T), ParseError>,
    sr: Result<(int, T::V), ParseError>,
) -> bool {
    match r {
        Ok((j, v)) => sr == Ok::<(int, T::V), ParseError>((j as int, v.deep_view())),
        Err(e) => sr == Err::<(int, T::V), ParseError>(e),
    }
}

/// A cursor is well formed when it lies inside the buffer.
pub open spec fn cursor_ok(s: Seq<u8>, i: int, end: int) -> bool {
    0 <= i <= end <= s.len()
}

/// One byte.
pub open spec fn spec_read_u8(s: Seq<u8>, i: int, end: int) -> Result<(int, u8), ParseError> {
    if i + 1 <= end {
        Ok((i + 1, s[i]))
    } else {
        Err(ParseError::UnexpectedEnd)
    }
}

pub fn read_u8(s: &[u8], i: usize, end: usize) -> (r: Result<(usize, u8), ParseError>)
    requires
        cursor_ok(s@, i as int, end as int),
    ensures
        matches_spec(r, spec_read_u8(s@, i as int, end as int)),
{
    if i < end {
        Ok((i + 1, s[i]))
    } else {
        Err(ParseError::UnexpectedEnd)
    }
}

/// The little-endian 16-bit value at position `i`.
pub open spec fn le16(s: Seq<u8>, i: int) -> u16 {
    ((s[i + 1] as int) * 0x100 + (s[i] as int)) as u16
}

/// The little-endian 32-bit value at position `i`.
pub open spec fn le32(s: Seq<u8>, i: int) -> u32 {
    ((s[i + 3] as int) * 0x1000000 + (s[i + 2] as int) * 0x10000 + (s[i + 1] as int) * 0x100 + (
    s[i] as int)) as u32
}

/// The little-endian 64-bit value at position `i`.
pub open spec fn le64(s: Seq<u8>, i: int) -> u64 {
    ((s[i + 7] as int) * 0x100000000000000 + (s[i + 6] as int) * 0x1000000000000 + (s[i + 5] as int)
        * 0x10000000000 + (s[i + 4] as int) * 0x100000000 + (s[i + 3] as int) * 0x1000000 + (s[i
        + 2] as int) * 0x10000 + (s[i + 1] as int) * 0x100 + (s[i] as int)) as u64
}

/// Two bytes, little endian.
pub open spec fn spec_read_u16(s: Seq<u8>, i: int, end: int) -> Result<(int, u16), ParseError> {
    if i + 2 <= end {
        Ok((i + 2, le16(s, i)))
    } else {
        Err(ParseError::UnexpectedEnd)
    }
}

pub fn read_u16(s: &[u8], i: usize, end: usize) -> (r: Result<(usize, u16), ParseError>)
    requires
        cursor_ok(s@, i as int, end as int),
    ensures
        matches_spec(r, spec_read_u16(s@, i as int, end as int)),
{
    if end - i >= 2 {
        let v: u16 = (s[i + 1] as u16) * 0x100 + (s[i] as u16);
        Ok((i + 2, v))
    } else {
        Err(ParseError::UnexpectedEnd)
    }
}

/// Four bytes, little endian.
pub open spec fn spec_read_u32(s: Seq<u8>, i: int, end: int) -> Result<(int, u32), ParseError> {
    if i + 4 <= end {
        Ok((i + 4, le32(s, i)))
    } else {
        Err(ParseError::UnexpectedEnd)
    }
}

pub fn read_u32(s: &[u8], i: usize, end: usize) -> (r: Result<(usize, u32), ParseError>)
    requires
        cursor_ok(s@, i as int, end as int),
    ensures
        matches_spec(r, spec_read_u32(s@, i as int, end as int)),
{
    if end - i >= 4 {
        let v: u32 = (s[i + 3] as u32) * 0x1000000 + (s[i + 2] as u32) * 0x10000 + (s[i + 1]
            as u32) * 0x100 + (s[i] as u32);
        Ok((i + 4, v))
    } else {
        Err(ParseError::UnexpectedEnd)
    }
}

/// Eight bytes, little endian.
pub open spec fn spec_read_u64(s: Seq<u8>, i: int, end: int) -> Result<(int, u64), ParseError> {
    if i + 8 <= end {
        Ok((i + 8, le64(s, i)))
    } else {
        Err(ParseError::UnexpectedEnd)
    }
}

pub fn read_u64(s: &[u8], i: usize, end: usize) -> (r: Result<(usize, u64), ParseError>)
    requires
        cursor_ok(s@, i as int, end as int),
    ensures
        matches_spec(r, spec_read_u64(s@, i as int, end as int)),
{
    if end - i >= 8 {
        let v: u64 = (s[i + 7] as u64) * 0x100000000000000 + (s[i + 6] as u64) * 0x1000000000000 + (
        s[i + 5] as u64) * 0x10000000000 + (s[i + 4] as u64) * 0x100000000 + (s[i + 3] as u64)
            * 0x1000000 + (s[i + 2] as u64) * 0x10000 + (s[i + 1] as u64) * 0x100 + (s[i] as u64);
        Ok((i + 8, v))
    } else {
        Err(ParseError::UnexpectedEnd)
    }
}

/// The variable-length unsigned integer, continued from `shift` bytes
/// already read into `acc`: seven data bits per byte, least significant
/// first, the top bit marking continuation.  An eleventh byte is an
/// overflow.
pub open spec fn spec_varuint_from(
    s: Seq<u8>,
    i: int,
    end: int,
    shift: nat,
    acc: u64,
) -> Result<(int, u64), ParseError>
    decreases 10 - shift,
{
    if shift >= 10 {
        Err(ParseError::VarintOverflow)
    } else if i + 1 > end {
        Err(ParseError::UnexpectedEnd)
    } else {
        let b = s[i];
        let acc2 = acc | (((b & 0x7f) as u64) << (7 * shift as u64));
        if b & 0x80 == 0 {
            Ok((i + 1, acc2))
        } else {
            spec_varuint_from(s, i + 1, end, shift + 1, acc2)
        }
    }
}

/// A whole variable-length unsigned integer.
pub open spec fn spec_varuint(s: Seq<u8>, i: int, end: int) -> Result<(int, u64), ParseError> {
    spec_varuint_from(s, i, end, 0, 0)
}

pub fn read_varuint(s: &[u8], i: usize, end: usize) -> (r: Result<(usize, u64), ParseError>)
    requires
        cursor_ok(s@, i as int, end as int),
    ensures
        matches_spec(r, spec_varuint(s@, i as int, end as int)),
{
    let mut pos = i;
    let mut shift: u64 = 0;
    let mut acc: u64 = 0;
    loop
        invariant
            cursor_ok(s@, pos as int, end as int),
            shift <= 10,
            spec_varuint(s@, i as int, end as int) == spec_varuint_from(
                s@,
                pos as int,
                end as int,
                shift as nat,
                acc,
            ),
        decreases 10 - shift,
    {
        if shift >= 10 {
            return Err(ParseError::VarintOverflow);
        }
        if pos >= end {
            return Err(ParseError::UnexpectedEnd);
        }
        let b = s[pos];
        let acc2: u64 = acc | (((b & 0x7f) as u64) << (7 * shift));
        if b & 0x80 == 0 {
            return Ok((pos + 1, acc2));
        }
        pos = pos + 1;
        shift = shift + 1;
        acc = acc2;
    }
}

/// The byte at position `k` of the 32-byte header prelude,
/// `reMarkable .lines file, version=` in ASCII.
pub open spec fn spec_prelude_byte(k: int) -> u8 {
    if k == 0 {
        0x72
    } else if k == 1 {
        0x65
    } else if k == 2 {
        0x4d
    } else if k == 3 {
        0x61
    } else if k == 4 {
        0x72
    } else if k == 5 {
        0x6b
    } else if k == 6 {
        0x61
    } else if k == 7 {
        0x62
    } else if k == 8 {
        0x6c
    } else if k == 9 {
        0x65
    } else if k == 10 {
        0x20
    } else if k == 11 {
        0x2e
    } else if k == 12 {
        0x6c
    } else if k == 13 {
        0x69
    } else if k == 14 {
        0x6e
    } else if k == 15 {
        0x65
    } else if k == 16 {
        0x73
    } else if k == 17 {
        0x20
    } else if k == 18 {
        0x66
    } else if k == 19 {
        0x69
    } else if k == 20 {
        0x6c
    } else if k == 21 {
        0x65
    } else if k == 22 {
        0x2c
    } else if k == 23 {
        0x20
    } else if k == 24 {
        0x76
    } else if k == 25 {
        0x65
    } else if k == 26 {
        0x72
    } else if k == 27 {
        0x73
    } else if k == 28 {
        0x69
    } else if k == 29 {
        0x6f
    } else if k == 30 {
        0x6e
    } else {
        0x3d
    }
}

/// Executable table of the prelude bytes.
fn prelude_byte(k: usize) -> (b: u8)
    requires
        k < 32,
    ensures
        b == spec_prelude_byte(k as int),
{
    match k {
        0 => 0x72,
        1 => 0x65,
        2 => 0x4d,
        3 => 0x61,
        4 => 0x72,
        5 => 0x6b,
        6 => 0x61,
        7 => 0x62,
        8 => 0x6c,
        9 => 0x65,
        10 => 0x20,
        11 => 0x2e,
        12 => 0x6c,
        13 => 0x69,
        14 => 0x6e,
        15 => 0x65,
        16 => 0x73,
        17 => 0x20,
        18 => 0x66,
        19 => 0x69,
        20 => 0x6c,
        21 => 0x65,
        22 => 0x2c,
        23 => 0x20,
        24 => 0x76,
        25 => 0x65,
        26 => 0x72,
        27 => 0x73,
        28 => 0x69,
        29 => 0x6f,
        30 => 0x6e,
        _ => 0x3d,
    }
}

/// Whether the 32 prelude bytes stand at position `i`.
pub open spec fn spec_prelude_at(s: Seq<u8>, i: int) -> bool {
    forall|k: int| 0 <= k < 32 ==> s[i + k] == spec_prelude_byte(k)
}

/// Whether the ten padding spaces stand at position `i`.
pub open spec fn spec_padding_at(s: Seq<u8>, i: int) -> bool {
    forall|k: int| 0 <= k < 10 ==> #[trigger] s[i + k] == 0x20
}

/// The 43-byte header: the prelude, one ASCII version digit, ten spaces.
/// A buffer too short for it is `UnexpectedEnd`; any content mismatch or an
/// unknown digit is `BadHeader`.
pub open spec fn spec_header(s: Seq<u8>, i: int, end: int) -> Result<(int, Version), ParseError> {
    if i + 43 > end {
        Err(ParseError::UnexpectedEnd)
    } else if !spec_prelude_at(s, i) {
        Err(ParseError::BadHeader)
    } else {
        match spec_version_from_digit(s[i + 32]) {
            None => Err(ParseError::BadHeader),
            Some(v) => if spec_padding_at(s, i + 33) {
                Ok((i + 43, v))
            } else {
                Err(ParseError::BadHeader)
            },
        }
    }
}

pub fn read_header(s: &[u8], i: usize, end: usize) -> (r: Result<(usize, Version), ParseError>)
    requires
        cursor_ok(s@, i as int, end as int),
    ensures
        matches_spec(r, spec_header(s@, i as int, end as int)),
{
    if end - i < 43 {
        return Err(ParseError::UnexpectedEnd);
    }
    let mut k: usize = 0;
    while k < 32
        invariant
            k <= 32,
            cursor_ok(s@, i as int, end as int),
            i + 43 <= end,
            forall|j: int| 0 <= j < k ==> s@[i + j] == spec_prelude_byte(j),
        decreases 32 - k,
    {
        if s[i + k] != prelude_byte(k) {
            proof {
                assert(s@[i + k as int] != spec_prelude_byte(k as int));
            }
            return Err(ParseError::BadHeader);
        }
        k = k + 1;
    }
    let version = match Version::from_digit(s[i + 32]) {
        Some(v) => v,
        None => {
            return Err(ParseError::BadHeader);
        },
    };
    let mut k2: usize = 0;
    while k2 < 10
        invariant
            k2 <= 10,
            cursor_ok(s@, i as int, end as int),
            i + 43 <= end,
            forall|j: int| 0 <= j < k2 ==> #[trigger] s@[i + 33 + j] == 0x20,
        decreases 10 - k2,
    {
        if s[i + 33 + k2] != 0x20 {
            proof {
                assert(s@[i + 33 + k2 as int] != 0x20);
            }
            return Err(ParseError::BadHeader);
        }
        k2 = k2 + 1;
    }
    Ok((i + 43, version))
}

} // verus!
