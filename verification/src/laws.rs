//! Algebraic laws of the operators, stated over the bit-level model and
//! proved for every 32-bit word.

use vstd::prelude::*;

use crate::l32::{
    spec_add, spec_div, spec_mul, spec_neg, spec_sqrt, spec_sub, sign_of, NAR_BITS, ZERO_BITS,
};

verus! {

/// Commutativity: for all words `a` and `b`, both the product and the sum
/// are the same in either operand order.
pub proof fn lemma_commutative(a: u32, b: u32)
    ensures
        spec_mul(a, b) == spec_mul(b, a),
        spec_add(a, b) == spec_add(b, a),
{
    assert(a ^ b == b ^ a) by (bit_vector);
}

/// Sentinel absorption: NaR propagates through every operator, whatever the
/// other operand.
pub proof fn lemma_nar_absorbs(a: u32)
    ensures
        spec_mul(a, NAR_BITS) == NAR_BITS,
        spec_div(a, NAR_BITS) == NAR_BITS,
        spec_div(NAR_BITS, a) == NAR_BITS,
        spec_add(a, NAR_BITS) == NAR_BITS,
        spec_sub(a, NAR_BITS) == NAR_BITS,
        spec_sqrt(NAR_BITS) == NAR_BITS,
{
    assert(0xC000_0000u32 & 0x8000_0000u32 != 0) by (bit_vector);
}

/// Zero identity: for every non-NaR word, zero absorbs the product and is
/// the identity of the sum; zero's square root and negation are zero.
pub proof fn lemma_zero_identity(a: u32)
    requires
        a != NAR_BITS,
    ensures
        spec_mul(a, ZERO_BITS) == ZERO_BITS,
        spec_add(a, ZERO_BITS) == a,
        spec_sqrt(ZERO_BITS) == ZERO_BITS,
        spec_neg(ZERO_BITS) == ZERO_BITS,
{
}

/// Negative square root: every negative value — the outer sign bit set, and
/// not the zero code — has NaR as its square root.
pub proof fn lemma_negative_sqrt(a: u32)
    requires
        sign_of(a) != 0,
        a != ZERO_BITS,
    ensures
        spec_sqrt(a) == NAR_BITS,
{
    assert(0x4000_0000u32 & 0x8000_0000u32 == 0) by (bit_vector);
}

/// Division by zero: every dividend that is neither sentinel gives NaR when
/// divided by zero.
pub proof fn lemma_div_by_zero(a: u32)
    requires
        a != ZERO_BITS,
        a != NAR_BITS,
    ensures
        spec_div(a, ZERO_BITS) == NAR_BITS,
{
}

} // verus!
