//! Reading unsigned integers out of ASCII text: the decimal form a
//! process id arrives in, and the hexadecimal form of an address in a
//! memory map listing.

use vstd::prelude::*;

verus! {

/// The value of an ASCII decimal digit, if the byte is one.
pub open spec fn spec_dec_digit(b: u8) -> Option<u8> {
    if 0x30 <= b <= 0x39 {
        Some((b - 0x30) as u8)
    } else {
        None
    }
}

/// The value of an ASCII hexadecimal digit of either case, if the byte is
/// one.
pub open spec fn spec_hex_digit(b: u8) -> Option<u8> {
    if 0x30 <= b <= 0x39 {
        Some((b - 0x30) as u8)
    } else if 0x61 <= b <= 0x66 {
        Some((b - 0x61 + 10) as u8)
    } else if 0x41 <= b <= 0x46 {
        Some((b - 0x41 + 10) as u8)
    } else {
        None
    }
}

/// Whether every byte is a decimal digit.
pub open spec fn all_dec_digits(s: Seq<u8>) -> bool {
    forall|k: int| 0 <= k < s.len() ==> (#[trigger] spec_dec_digit(s[k])) is Some
}

/// Whether every byte is a hexadecimal digit.
pub open spec fn all_hex_digits(s: Seq<u8>) -> bool {
    forall|k: int| 0 <= k < s.len() ==> (#[trigger] spec_hex_digit(s[k])) is Some
}

/// The number the digits spell in base ten; a byte that is no digit
/// counts as zero, and the callers only speak of this value under
/// [`all_dec_digits`].
pub open spec fn spec_dec_value(s: Seq<u8>) -> int
    decreases s.len(),
{
    if s.len() == 0 {
        0
    } else {
        spec_dec_value(s.drop_last()) * 10 + (match spec_dec_digit(s.last()) {
            Some(d) => d as int,
            None => 0,
        })
    }
}

/// The number the digits spell in base sixteen, under the same reading.
pub open spec fn spec_hex_value(s: Seq<u8>) -> int
    decreases s.len(),
{
    if s.len() == 0 {
        0
    } else {
        spec_hex_value(s.drop_last()) * 16 + (match spec_hex_digit(s.last()) {
            Some(d) => d as int,
            None => 0,
        })
    }
}

/// A spelled number is never negative.
pub proof fn lemma_dec_value_nonneg(s: Seq<u8>)
    ensures
        spec_dec_value(s) >= 0,
    decreases s.len(),
{
    if s.len() > 0 {
        lemma_dec_value_nonneg(s.drop_last());
    }
}

/// A spelled number is never negative.
pub proof fn lemma_hex_value_nonneg(s: Seq<u8>)
    ensures
        spec_hex_value(s) >= 0,
    decreases s.len(),
{
    if s.len() > 0 {
        lemma_hex_value_nonneg(s.drop_last());
    }
}

/// Reading further digits never shrinks the value.
pub proof fn lemma_dec_value_take_le(s: Seq<u8>, k: int)
    requires
        0 <= k <= s.len(),
    ensures
        spec_dec_value(s.take(k)) <= spec_dec_value(s),
    decreases s.len() - k,
{
    if k < s.len() {
        assert(s.take(k + 1).drop_last() =~= s.take(k));
        assert(s.take(k + 1).last() == s[k]);
        lemma_dec_value_nonneg(s.take(k));
        lemma_dec_value_take_le(s, k + 1);
    } else {
        assert(s.take(k) =~= s);
    }
}

/// Reading further digits never shrinks the value.
pub proof fn lemma_hex_value_take_le(s: Seq<u8>, k: int)
    requires
        0 <= k <= s.len(),
    ensures
        spec_hex_value(s.take(k)) <= spec_hex_value(s),
    decreases s.len() - k,
{
    if k < s.len() {
        assert(s.take(k + 1).drop_last() =~= s.take(k));
        assert(s.take(k + 1).last() == s[k]);
        lemma_hex_value_nonneg(s.take(k));
        lemma_hex_value_take_le(s, k + 1);
    } else {
        assert(s.take(k) =~= s);
    }
}

/// Executable decimal digit table.
fn dec_digit(b: u8) -> (r: Option<u8>)
    ensures
        r == spec_dec_digit(b),
{
    if 0x30 <= b && b <= 0x39 {
        Some(b - 0x30)
    } else {
        None
    }
}

/// Executable hexadecimal digit table.
fn hex_digit(b: u8) -> (r: Option<u8>)
    ensures
        r == spec_hex_digit(b),
{
    if 0x30 <= b && b <= 0x39 {
        Some(b - 0x30)
    } else if 0x61 <= b && b <= 0x66 {
        Some(b - 0x61 + 10)
    } else if 0x41 <= b && b <= 0x46 {
        Some(b - 0x41 + 10)
    } else {
        None
    }
}

/// Read an unsigned base-ten number, as a process id arrives on a
/// command's standard output.  The whole slice must be digits, at least
/// one, and the value must fit; exactly then the value is returned.
pub fn parse_decimal_u32(s: &[u8]) -> (r: Option<u32>)
    ensures
        r matches Some(v) ==> s@.len() > 0 && all_dec_digits(s@) && spec_dec_value(s@) == v,
        r is None ==> s@.len() == 0 || !all_dec_digits(s@) || spec_dec_value(s@) > u32::MAX,
{
    if s.len() == 0 {
        return None;
    }
    let mut acc: u64 = 0;
    let mut k: usize = 0;
    proof {
        assert(s@.take(0) =~= Seq::<u8>::empty());
    }
    while k < s.len()
        invariant
            k <= s@.len(),
            acc <= u32::MAX,
            acc == spec_dec_value(s@.take(k as int)),
            forall|q: int| 0 <= q < k ==> (#[trigger] spec_dec_digit(s@[q])) is Some,
        decreases s@.len() - k,
    {
        let d = match dec_digit(s[k]) {
            Some(d) => d,
            None => {
                return None;
            },
        };
        let acc2: u64 = acc * 10 + d as u64;
        proof {
            assert(s@.take(k + 1).drop_last() =~= s@.take(k as int));
            assert(s@.take(k + 1).last() == s@[k as int]);
        }
        if acc2 > u32::MAX as u64 {
            proof {
                lemma_dec_value_take_le(s@, k + 1);
            }
            return None;
        }
        acc = acc2;
        k = k + 1;
    }
    proof {
        assert(s@.take(s@.len() as int) =~= s@);
    }
    Some(acc as u32)
}

/// Read an unsigned base-sixteen number, as an address stands in a
/// process's memory map listing.  The whole slice must be hexadecimal
/// digits, at least one, and the value must fit; exactly then the value
/// is returned.
pub fn parse_hex_usize(s: &[u8]) -> (r: Option<usize>)
    ensures
        r matches Some(v) ==> s@.len() > 0 && all_hex_digits(s@) && spec_hex_value(s@) == v,
        r is None ==> s@.len() == 0 || !all_hex_digits(s@) || spec_hex_value(s@) > usize::MAX,
{
    if s.len() == 0 {
        return None;
    }
    let mut acc: u128 = 0;
    let mut k: usize = 0;
    proof {
        assert(s@.take(0) =~= Seq::<u8>::empty());
    }
    while k < s.len()
        invariant
            k <= s@.len(),
            acc <= usize::MAX,
            acc == spec_hex_value(s@.take(k as int)),
            forall|q: int| 0 <= q < k ==> (#[trigger] spec_hex_digit(s@[q])) is Some,
        decreases s@.len() - k,
    {
        let d = match hex_digit(s[k]) {
            Some(d) => d,
            None => {
                return None;
            },
        };
        let acc2: u128 = acc * 16 + d as u128;
        proof {
            assert(s@.take(k + 1).drop_last() =~= s@.take(k as int));
            assert(s@.take(k + 1).last() == s@[k as int]);
        }
        if acc2 > usize::MAX as u128 {
            proof {
                lemma_hex_value_take_le(s@, k + 1);
            }
            return None;
        }
        acc = acc2;
        k = k + 1;
    }
    proof {
        assert(s@.take(s@.len() as int) =~= s@);
    }
    Some(acc as usize)
}

} // verus!
