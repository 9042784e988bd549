//! A single-precision scalar as the converter reads it: the IEEE-754 bit
//! pattern, which decides every comparison, and the text the host's default
//! formatter prints for the value, which is what the output document carries.
//! The strict `<` of single precision is decided here on the bit pattern
//! alone, in verified integer code: two non-NaN values compare as their
//! signed magnitudes do, the two zeros are equal, and a NaN compares below
//! and above nothing.

use vstd::prelude::*;
use vstd::string::StringExecFns;

verus! {

/// Bit pattern of the largest finite single-precision value, the sentinel
/// that bounding-box minima start from.
pub const MAX_FINITE_BITS: u32 = 0x7f7f_ffff;

/// Bit pattern of the smallest finite single-precision value, the sentinel
/// that bounding-box maxima start from.
pub const MIN_FINITE_BITS: u32 = 0xff7f_ffff;

/// One scalar: its bit pattern and its printed text.
pub struct Scalar {
    pub bits: u32,
    pub text: String,
}

/// The mathematical view of a scalar.
pub struct ScalarView {
    pub bits: u32,
    pub text: Seq<char>,
}

impl View for Scalar {
    type V = ScalarView;

    open spec fn view(&self) -> ScalarView {
        ScalarView { bits: self.bits, text: self.text@ }
    }
}

impl Clone for Scalar {
    fn clone(&self) -> (r: Self)
        ensures
            r@ == self@,
    {
        Scalar { bits: self.bits, text: self.text.clone() }
    }
}

/// The views of a sequence of scalars.
pub open spec fn scalars_view(v: Seq<Scalar>) -> Seq<ScalarView> {
    Seq::new(v.len(), |i: int| v[i]@)
}

/// Whether `a` is the bit pattern of a NaN: exponent all ones and a
/// non-zero mantissa.
pub open spec fn is_nan_bits(a: u32) -> bool {
    a & 0x7f80_0000 == 0x7f80_0000 && a & 0x007f_ffff != 0
}

/// The signed magnitude that a single-precision bit pattern stands for.
/// Non-NaN values compare under the host's `<` exactly as their keys do,
/// and the two zeros share the key 0.
pub open spec fn scalar_key(a: u32) -> int {
    if a & 0x8000_0000 != 0 {
        -((a & 0x7fff_ffff) as int)
    } else {
        (a & 0x7fff_ffff) as int
    }
}

/// The strict `<` of IEEE-754 single precision, on bit patterns: false
/// whenever either side is a NaN, otherwise the order of the signed
/// magnitudes.
pub open spec fn scalar_lt(a: u32, b: u32) -> bool {
    !is_nan_bits(a) && !is_nan_bits(b) && scalar_key(a) < scalar_key(b)
}

/// Between two non-NaN values the strict comparison decides the order
/// completely: "not below" means "at least" on the signed magnitudes. So a
/// bounding box that no referenced coordinate compares below (or above)
/// brackets every non-NaN referenced coordinate in the value order.
pub proof fn lemma_not_lt_means_ge(a: u32, b: u32)
    requires
        !is_nan_bits(a),
        !is_nan_bits(b),
        !scalar_lt(a, b),
    ensures
        scalar_key(b) <= scalar_key(a),
{
}

/// Decides `scalar_lt` on two bit patterns.
pub fn lt_bits(a: u32, b: u32) -> (r: bool)
    ensures
        r == scalar_lt(a, b),
{
    let a_nan = (a & 0x7f80_0000) == 0x7f80_0000 && (a & 0x007f_ffff) != 0;
    let b_nan = (b & 0x7f80_0000) == 0x7f80_0000 && (b & 0x007f_ffff) != 0;
    if a_nan || b_nan {
        false
    } else {
        let a_neg = (a & 0x8000_0000) != 0;
        let b_neg = (b & 0x8000_0000) != 0;
        let a_mag = a & 0x7fff_ffff;
        let b_mag = b & 0x7fff_ffff;
        if a_neg && b_neg {
            b_mag < a_mag
        } else if a_neg && !b_neg {
            !(a_mag == 0 && b_mag == 0)
        } else if !a_neg && b_neg {
            false
        } else {
            a_mag < b_mag
        }
    }
}

/// The text the host formatter prints for the largest finite
/// single-precision value.
pub open spec fn max_finite_text() -> Seq<char> {
    "340282350000000000000000000000000000000"@
}

/// The text the host formatter prints for the smallest finite
/// single-precision value.
pub open spec fn min_finite_text() -> Seq<char> {
    "-340282350000000000000000000000000000000"@
}

/// The view of the largest finite single-precision scalar.
pub open spec fn max_finite_view() -> ScalarView {
    ScalarView { bits: MAX_FINITE_BITS, text: max_finite_text() }
}

/// The view of the smallest finite single-precision scalar.
pub open spec fn min_finite_view() -> ScalarView {
    ScalarView { bits: MIN_FINITE_BITS, text: min_finite_text() }
}

/// The largest finite single-precision scalar.
pub fn max_finite() -> (s: Scalar)
    ensures
        s@ == max_finite_view(),
{
    Scalar {
        bits: MAX_FINITE_BITS,
        text: String::from_str("340282350000000000000000000000000000000"),
    }
}

/// The smallest finite single-precision scalar.
pub fn min_finite() -> (s: Scalar)
    ensures
        s@ == min_finite_view(),
{
    Scalar {
        bits: MIN_FINITE_BITS,
        text: String::from_str("-340282350000000000000000000000000000000"),
    }
}

} // verus!
