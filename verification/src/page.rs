//! The page-level entry points: parse the header, dispatch on the version
//! digit, and assemble a [`Page`].

use vstd::prelude::*;

use crate::error::ParseError;
use crate::model::{Layer, LayerV, Page, PageV, Version};
use crate::primitives::{matches_spec_dv, read_header, spec_header};
use crate::v5::{read_page_v5, spec_page_v5};
use crate::v6::{read_page_v6, spec_page_v6};

verus! {

impl DeepView for Version {
    type V = Version;

    open spec fn deep_view(&self) -> Version {
        *self
    }
}

/// A whole page buffer: the 43-byte header, then the body of the version
/// the header names.  A v3 page is recognised and refused with
/// `UnsupportedVersion`; v5 may leave trailing bytes unconsumed; v6
/// consumes the buffer whole.
pub open spec fn spec_parse(s: Seq<u8>) -> Result<(int, (Version, Seq<LayerV>)), ParseError> {
    match spec_header(s, 0, s.len() as int) {
        Err(e) => Err(e),
        Ok((h, version)) => match version {
            Version::V3 => Err(ParseError::UnsupportedVersion),
            Version::V5 => match spec_page_v5(s, h, s.len() as int) {
                Err(e) => Err(e),
                Ok((j, layers)) => Ok((j, (Version::V5, layers))),
            },
            Version::V6 => match spec_page_v6(s, h, s.len() as int) {
                Err(e) => Err(e),
                Ok((j, layers)) => Ok((j, (Version::V6, layers))),
            },
        },
    }
}

/// Decode one page buffer from its first byte.  On success the returned
/// position is where decoding stopped; everything after it is trailing
/// input the format does not claim.
pub fn parse(s: &[u8]) -> (r: Result<(usize, (Version, Vec<Layer>)), ParseError>)
    ensures
        matches_spec_dv(r, spec_parse(s@)),
{
    let end = s.len();
    let (h, version) = read_header(s, 0, end)?;
    match version {
        Version::V3 => Err(ParseError::UnsupportedVersion),
        Version::V5 => {
            let (j, layers) = read_page_v5(s, h, end)?;
            Ok((j, (Version::V5, layers)))
        },
        Version::V6 => {
            let (j, layers) = read_page_v6(s, h, end)?;
            Ok((j, (Version::V6, layers)))
        },
    }
}

/// Decode one page buffer and attach the caller-supplied page id.
pub fn parse_page(s: &[u8], id: String) -> (r: Result<Page, ParseError>)
    ensures
        spec_parse(s@) matches Ok((j, vl)) ==> r matches Ok(p) && p@ == (PageV {
            id: id@,
            version: vl.0,
            layers: vl.1,
        }),
        spec_parse(s@) matches Err(e) ==> r == Err::<Page, ParseError>(e),
{
    match parse(s) {
        Ok((_consumed, (version, layers))) => Ok(Page { id, version, layers }),
        Err(e) => Err(e),
    }
}

} // verus!
