//! Decoding the fixed-size UTF-16 name buffers the OS fills.
//!
//! The OS returns a monitor's friendly name as a fixed-size buffer of UTF-16
//! code units padded with trailing nulls. The padding is trimmed here before
//! decoding; the buffer is never assumed to be null-free or exactly sized.

use vstd::prelude::*;

verus! {

/// What `String::from_utf16_lossy` decodes a sequence of UTF-16 code units
/// to. The decoding depends on the units alone.
pub uninterp spec fn utf16_lossy_of(units: Seq<u16>) -> Seq<char>;

/// Relies on `String::from_utf16_lossy`: decodes UTF-16 code units,
/// replacing invalid sequences with the replacement character; the result is
/// a function of the units alone, and an empty slice decodes to the empty
/// string.
#[verifier::external_body]
fn utf16_lossy_prefix(units: &Vec<u16>, len: usize) -> (r: String)
    requires
        len <= units.len(),
    ensures
        r@ == utf16_lossy_of(units@.subrange(0, len as int)),
        len == 0 ==> r@.len() == 0,
{
    String::from_utf16_lossy(&units[..len])
}

/// `units` with its trailing zero code units removed.
pub open spec fn spec_trim_trailing_zeros(units: Seq<u16>) -> Seq<u16>
    decreases units.len(),
{
    if units.len() > 0 && units[units.len() - 1] == 0 {
        spec_trim_trailing_zeros(units.drop_last())
    } else {
        units
    }
}

/// Decode a fixed-size UTF-16 name buffer, trimming the trailing null
/// padding first. Zero units before the last non-zero unit are content, not
/// padding, and are kept.
pub fn decode_friendly_name(units: &Vec<u16>) -> (r: String)
    ensures
        r@ == utf16_lossy_of(spec_trim_trailing_zeros(units@)),
{
    let mut n: usize = units.len();
    proof {
        assert(units@.subrange(0, n as int) =~= units@);
    }
    while n > 0 && units[n - 1] == 0
        invariant
            n <= units.len(),
            spec_trim_trailing_zeros(units@) == spec_trim_trailing_zeros(
                units@.subrange(0, n as int),
            ),
        decreases n,
    {
        proof {
            assert(units@.subrange(0, n as int).drop_last() =~= units@.subrange(0, n - 1));
        }
        n = n - 1;
    }
    proof {
        assert(spec_trim_trailing_zeros(units@) == units@.subrange(0, n as int));
    }
    utf16_lossy_prefix(units, n)
}

} // verus!
