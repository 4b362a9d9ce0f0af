//! The `L32` value type: its bit layout, sentinel codes, and operators.

use vstd::prelude::*;

verus! {

/// Bit pattern of the real value zero: only the log field's own sign bit set,
/// outer sign clear.
pub const ZERO_BITS: u32 = 0x4000_0000;

/// Bit pattern of "not a real" (NaR), the propagating error sentinel: the same
/// boundary magnitude as zero, with the outer sign bit set.
pub const NAR_BITS: u32 = 0xC000_0000;

/// Bit pattern of the real value 1.0 (log2(1) = 0, non-negative).
pub const ONE_BITS: u32 = 0x0000_0000;

/// Mask of the outer sign bit (bit 31): set for negative real values.
pub const SIGN_MASK: u32 = 0x8000_0000;

/// Mask of the 31-bit log field (bits 0..=30).
pub const FIELD_MASK: u32 = 0x7FFF_FFFF;

/// The outer sign bit of a word, in place.
pub open spec fn sign_of(w: u32) -> u32 {
    w & SIGN_MASK
}

/// The raw 31-bit log field of a word.
pub open spec fn field_of(w: u32) -> u32 {
    w & FIELD_MASK
}

/// The signed value of a word's log field: the 31-bit two's-complement
/// reading of `field_of(w)`, in `[-0x4000_0000, 0x3FFF_FFFF]`.
pub open spec fn log_of(w: u32) -> int {
    if field_of(w) >= 0x4000_0000 {
        field_of(w) - 0x8000_0000
    } else {
        field_of(w) as int
    }
}

/// The 31-bit two's-complement pattern of a signed log value.
pub open spec fn encode_field(l: int) -> u32
    recommends
        -0x4000_0000 <= l < 0x4000_0000,
{
    if l < 0 {
        (l + 0x8000_0000) as u32
    } else {
        l as u32
    }
}

/// A signed log value reduced into the representable range modulo `2^31`.
/// One step suffices: the sums and differences of two log fields stay within
/// `(-2^31, 2^31)`.
pub open spec fn wrap_log(s: int) -> int {
    if s < -0x4000_0000 {
        s + 0x8000_0000
    } else if s >= 0x4000_0000 {
        s - 0x8000_0000
    } else {
        s
    }
}

/// A 32-bit logarithmic-number-system value.
///
/// Bit 31 is the sign of the real value; bits 0..=30 are a 31-bit
/// two's-complement fixed-point encoding of `log2(|value|)`. The two
/// boundary codes [`ZERO_BITS`] and [`NAR_BITS`] are sentinels for the real
/// value zero and for "not a real". Equality is exact bit-pattern equality,
/// so NaR compares equal to itself.
#[derive(Clone, Copy, PartialEq, Eq, Structural, Hash, Debug)]
pub struct L32(u32);

impl View for L32 {
    type V = u32;

    closed spec fn view(&self) -> u32 {
        self.0
    }
}

/// The value holding a given raw 32-bit word.
pub closed spec fn spec_from_bits(bits: u32) -> L32 {
    L32(bits)
}

impl L32 {
    /// Raw transmutation to `u32`.
    pub fn to_bits(self) -> (r: u32)
        ensures
            r == self@,
    {
        self.0
    }

    /// Raw transmutation from `u32`. Total: any word is accepted as a
    /// (possibly sentinel) value.
    pub fn from_bits(bits: u32) -> (r: Self)
        ensures
            r == spec_from_bits(bits),
            r@ == bits,
    {
        L32(bits)
    }
}

/// The product of two values: the signs multiply (exclusive or) and the log
/// fields add, wrapping modulo `2^31`. Overrides, in order: NaR propagates;
/// a zero factor gives zero. A wrapped sum may land on a boundary code; that
/// word is the accepted overflow result.
pub open spec fn spec_mul(a: u32, b: u32) -> u32 {
    if a == NAR_BITS || b == NAR_BITS {
        NAR_BITS
    } else if a == ZERO_BITS || b == ZERO_BITS {
        ZERO_BITS
    } else {
        sign_of(a ^ b) | encode_field(wrap_log(log_of(a) + log_of(b)))
    }
}

/// The quotient of two values: the signs multiply and the log fields
/// subtract, wrapping modulo `2^31`. Overrides, in order: NaR propagates; a
/// zero dividend gives zero; a zero divisor gives NaR.
pub open spec fn spec_div(a: u32, b: u32) -> u32 {
    if a == NAR_BITS || b == NAR_BITS {
        NAR_BITS
    } else if a == ZERO_BITS {
        ZERO_BITS
    } else if b == ZERO_BITS {
        NAR_BITS
    } else {
        sign_of(a ^ b) | encode_field(wrap_log(log_of(a) - log_of(b)))
    }
}

/// The square root of a value: zero stays zero; NaR and every negative value
/// give NaR; otherwise the log field is halved, rounding toward negative
/// infinity, and the result is non-negative.
pub open spec fn spec_sqrt(a: u32) -> u32 {
    if a == ZERO_BITS {
        ZERO_BITS
    } else if sign_of(a) != 0 {
        NAR_BITS
    } else {
        encode_field(log_of(a) / 2)
    }
}

/// The additive operator: the signs multiply and the signed log fields are
/// summed exactly. A sum past either end of the representable range
/// saturates to the boundary magnitude `0x4000_0000`, so an overflowing
/// result lands on a boundary code as an accepted artifact. Overrides, in
/// order: NaR propagates; a zero operand leaves the other unchanged.
pub open spec fn spec_add(a: u32, b: u32) -> u32 {
    if a == NAR_BITS || b == NAR_BITS {
        NAR_BITS
    } else if a == ZERO_BITS {
        b
    } else if b == ZERO_BITS {
        a
    } else {
        let s = log_of(a) + log_of(b);
        if s < -0x4000_0000 || s >= 0x4000_0000 {
            sign_of(a ^ b) | 0x4000_0000
        } else {
            sign_of(a ^ b) | encode_field(s)
        }
    }
}

/// Negation: flips the outer sign bit; both sentinels are fixed points, since
/// the two differ only in that bit and neither may arise from a sign flip.
pub open spec fn spec_neg(a: u32) -> u32 {
    if a == ZERO_BITS || a == NAR_BITS {
        a
    } else {
        a ^ SIGN_MASK
    }
}

/// Subtraction is addition of the negated right operand.
pub open spec fn spec_sub(a: u32, b: u32) -> u32 {
    spec_add(a, spec_neg(b))
}

impl L32 {
    /// Multiplication. The raw result is computed for normal operands, then
    /// the sentinel overrides take precedence.
    pub fn mul(self, rhs: L32) -> (r: L32)
        ensures
            r@ == spec_mul(self@, rhs@),
    {
        if self.0 == NAR_BITS || rhs.0 == NAR_BITS {
            L32(NAR_BITS)
        } else if self.0 == ZERO_BITS || rhs.0 == ZERO_BITS {
            L32(ZERO_BITS)
        } else {
            let fa: u32 = self.0 & FIELD_MASK;
            let fb: u32 = rhs.0 & FIELD_MASK;
            proof {
                lemma_field_bounded(self.0);
                lemma_field_bounded(rhs.0);
                lemma_mul_raw(self.0, rhs.0);
            }
            let f: u32 = (fa + fb) & FIELD_MASK;
            L32(((self.0 ^ rhs.0) & SIGN_MASK) | f)
        }
    }

    /// Division. The raw result is computed for normal operands, then the
    /// sentinel overrides take precedence.
    pub fn div(self, rhs: L32) -> (r: L32)
        ensures
            r@ == spec_div(self@, rhs@),
    {
        if self.0 == NAR_BITS || rhs.0 == NAR_BITS {
            L32(NAR_BITS)
        } else if self.0 == ZERO_BITS {
            L32(ZERO_BITS)
        } else if rhs.0 == ZERO_BITS {
            L32(NAR_BITS)
        } else {
            let fa: u32 = self.0 & FIELD_MASK;
            let fb: u32 = rhs.0 & FIELD_MASK;
            proof {
                lemma_field_bounded(self.0);
                lemma_field_bounded(rhs.0);
                lemma_div_raw(self.0, rhs.0);
            }
            let f: u32 = (fa + 0x8000_0000 - fb) & FIELD_MASK;
            L32(((self.0 ^ rhs.0) & SIGN_MASK) | f)
        }
    }

    /// Square root. Works on the log field alone: an arithmetic halving that
    /// rounds toward negative infinity, with the outer sign cleared.
    pub fn sqrt(self) -> (r: L32)
        ensures
            r@ == spec_sqrt(self@),
    {
        if self.0 == ZERO_BITS {
            L32(ZERO_BITS)
        } else if self.0 & SIGN_MASK != 0 {
            L32(NAR_BITS)
        } else {
            proof {
                lemma_sqrt_raw(self.0);
            }
            let e: i32 = ((self.0 << 1u32) as i32) >> 2u32;
            L32((e as u32) & FIELD_MASK)
        }
    }
}

/// The computed (pre-override) word of the additive operator: the signs
/// multiply; the 31-bit fields are added modulo `2^31`, and a sum that
/// overflowed the signed range — detected from the operands' and the sum's
/// field sign bits — is replaced by the boundary magnitude.
spec fn raw_add(a: u32, b: u32) -> u32 {
    let fa = a & FIELD_MASK;
    let fb = b & FIELD_MASK;
    let t = ((fa + fb) as u32) & FIELD_MASK;
    let f = if ((fa ^ t) & (fb ^ t)) & 0x4000_0000 != 0 {
        0x4000_0000u32
    } else {
        t
    };
    ((a ^ b) & SIGN_MASK) | f
}

impl L32 {
    /// The additive operator. For normal operands the signed log fields are
    /// summed exactly, saturating to the boundary magnitude on overflow; the
    /// sentinel overrides take precedence.
    pub fn add(self, rhs: L32) -> (r: L32)
        ensures
            r@ == spec_add(self@, rhs@),
    {
        if self.0 == NAR_BITS || rhs.0 == NAR_BITS {
            L32(NAR_BITS)
        } else if self.0 == ZERO_BITS {
            rhs
        } else if rhs.0 == ZERO_BITS {
            self
        } else {
            proof {
                lemma_field_bounded(self.0);
                lemma_field_bounded(rhs.0);
                lemma_add_raw(self.0, rhs.0);
            }
            let fa: u32 = self.0 & FIELD_MASK;
            let fb: u32 = rhs.0 & FIELD_MASK;
            let t: u32 = (fa + fb) & FIELD_MASK;
            let f: u32 = if ((fa ^ t) & (fb ^ t)) & 0x4000_0000 != 0 {
                0x4000_0000
            } else {
                t
            };
            L32(((self.0 ^ rhs.0) & SIGN_MASK) | f)
        }
    }

    /// Negation. Flipping the outer sign bit alone would turn one sentinel
    /// into the other, so both are fixed explicitly.
    pub fn neg(self) -> (r: L32)
        ensures
            r@ == spec_neg(self@),
    {
        if self.0 == ZERO_BITS || self.0 == NAR_BITS {
            self
        } else {
            L32(self.0 ^ SIGN_MASK)
        }
    }

    /// Subtraction: adds the negated right operand.
    pub fn sub(self, rhs: L32) -> (r: L32)
        ensures
            r@ == spec_sub(self@, rhs@),
    {
        self.add(rhs.neg())
    }

    /// In-place multiplication: `a.mul_assign(b)` is `a = a.mul(b)`.
    pub fn mul_assign(&mut self, rhs: L32)
        ensures
            final(self)@ == spec_mul(old(self)@, rhs@),
    {
        let v: L32 = *self;
        *self = v.mul(rhs);
    }

    /// In-place division: `a.div_assign(b)` is `a = a.div(b)`.
    pub fn div_assign(&mut self, rhs: L32)
        ensures
            final(self)@ == spec_div(old(self)@, rhs@),
    {
        let v: L32 = *self;
        *self = v.div(rhs);
    }

    /// In-place addition: `a.add_assign(b)` is `a = a.add(b)`.
    pub fn add_assign(&mut self, rhs: L32)
        ensures
            final(self)@ == spec_add(old(self)@, rhs@),
    {
        let v: L32 = *self;
        *self = v.add(rhs);
    }

    /// In-place subtraction: `a.sub_assign(b)` is `a = a.sub(b)`.
    pub fn sub_assign(&mut self, rhs: L32)
        ensures
            final(self)@ == spec_sub(old(self)@, rhs@),
    {
        let v: L32 = *self;
        *self = v.sub(rhs);
    }
}

impl Default for L32 {
    /// The default value is zero.
    fn default() -> (r: Self)
        ensures
            r@ == ZERO_BITS,
    {
        L32(ZERO_BITS)
    }
}

/// For non-sentinel operands the computed word of the additive operator is
/// the exact, saturating signed sum of the log fields.
proof fn lemma_add_raw(a: u32, b: u32)
    by (bit_vector)
    requires
        a != 0x4000_0000,
        a != 0xC000_0000,
        b != 0x4000_0000,
        b != 0xC000_0000,
    ensures
        raw_add(a, b) == (if log_of(a) + log_of(b) < -0x4000_0000 || log_of(a) + log_of(b)
            >= 0x4000_0000 {
            sign_of(a ^ b) | 0x4000_0000
        } else {
            sign_of(a ^ b) | encode_field(log_of(a) + log_of(b))
        }),
{
}

/// The masked log field fits in 31 bits.
proof fn lemma_field_bounded(a: u32)
    by (bit_vector)
    ensures
        a & 0x7FFF_FFFF <= 0x7FFF_FFFF,
{
}

/// The masked 32-bit sum of two log fields is their wrapped signed sum.
proof fn lemma_mul_raw(a: u32, b: u32)
    by (bit_vector)
    ensures
        ((a ^ b) & 0x8000_0000) | (((a & 0x7FFF_FFFF) + (b & 0x7FFF_FFFF)) as u32 & 0x7FFF_FFFF)
            == sign_of(a ^ b) | encode_field(wrap_log(log_of(a) + log_of(b))),
{
}

/// The masked 32-bit difference of two log fields is their wrapped signed
/// difference.
proof fn lemma_div_raw(a: u32, b: u32)
    by (bit_vector)
    ensures
        ((a ^ b) & 0x8000_0000) | (((a & 0x7FFF_FFFF) + 0x8000_0000 - (b & 0x7FFF_FFFF)) as u32
            & 0x7FFF_FFFF) == sign_of(a ^ b) | encode_field(wrap_log(log_of(a) - log_of(b))),
{
}

/// The arithmetic right shift of the doubled word halves the signed log
/// field, rounding toward negative infinity.
proof fn lemma_sqrt_raw(a: u32)
    by (bit_vector)
    requires
        a & 0x8000_0000 == 0,
    ensures
        ((((a << 1u32) as i32) >> 2u32) as u32) & 0x7FFF_FFFF == encode_field(log_of(a) / 2),
{
}

/// Two values with the same bits are the same value.
pub proof fn lemma_bits_determine_value(a: L32, b: L32)
    ensures
        a == b <==> a@ == b@,
{
}

/// Round trip: rebuilding a value from its own raw bits gives the value back,
/// for every 32-bit word.
pub proof fn lemma_round_trip(x: u32)
    ensures
        spec_from_bits(x)@ == x,
        spec_from_bits(spec_from_bits(x)@) == spec_from_bits(x),
{
}

} // verus!
