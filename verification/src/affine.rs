//! The affine transform of the drawing state, carried as `kurbo` made it.

use piet::kurbo::Affine;
use vstd::prelude::*;

verus! {

/// `kurbo::Affine`, a 2D affine transform of six double coefficients.
#[verifier::external_type_specification]
#[verifier::external_body]
pub struct ExAffine(Affine);

/// The six coefficients of a transform, each as the bit pattern of its
/// IEEE 754 double, in the order in which `Affine::as_coeffs` lists them.
pub uninterp spec fn affine_bits(a: Affine) -> Seq<u64>;

/// Bit pattern of the double 1.0.
pub const ONE_BITS: u64 = 0x3FF0_0000_0000_0000;

/// The coefficients of the transform that maps every point to itself.
pub open spec fn identity_bits() -> Seq<u64> {
    seq![ONE_BITS, 0, 0, ONE_BITS, 0, 0]
}

/// `Affine::default()`: kurbo makes it as a uniform scaling by 1.0, whose
/// coefficients are `[1.0, 0.0, 0.0, 1.0, 0.0, 0.0]`.
#[verifier::external_body]
pub(crate) fn identity() -> (a: Affine)
    ensures
        affine_bits(a) == identity_bits(),
{
    Affine::default()
}

/// Whether the bit pattern of a double stands for a number, that is for no
/// NaN.
pub open spec fn is_number(bits: u64) -> bool {
    bits % 0x8000_0000_0000_0000 <= 0x7FF0_0000_0000_0000
}

/// Whether every coefficient of a transform is a number.
pub open spec fn all_numbers(coeffs: Seq<u64>) -> bool {
    forall|i: int| 0 <= i < coeffs.len() ==> is_number(#[trigger] coeffs[i])
}

/// The coefficients of the product of two transforms, the first applied
/// after the second, as IEEE 754 arithmetic on doubles gives them from the
/// coefficients of the two.
pub uninterp spec fn product_bits(a: Seq<u64>, b: Seq<u64>) -> Seq<u64>;

/// The product `a * b` as kurbo's `Mul` for `Affine` computes it: each
/// coefficient is a sum of products of coefficients of `a` and `b`, in
/// doubles. The arithmetic fixes every result but the bits of a NaN, so the
/// coefficients are claimed only of a product in which all are numbers.
#[verifier::external_body]
pub(crate) fn compose(a: Affine, b: Affine) -> (c: Affine)
    ensures
        all_numbers(affine_bits(c)) ==> affine_bits(c) == product_bits(
            affine_bits(a),
            affine_bits(b),
        ),
{
    a * b
}

} // verus!
