//! Floating-point numbers held by their bit patterns, and their images in
//! the latent carrier.

use vstd::prelude::*;
use vstd::arithmetic::power2::{
    lemma_pow2_pos,
    lemma_pow2_strictly_increases,
    lemma_pow2_unfold,
    pow2,
};
use crate::data_types::Latent;

verus! {

/// The absolute value of a float, as a multiple of the smallest positive
/// subnormal: `hidden` is the weight of the implicit leading bit,
/// `exponent` the biased exponent field and `mantissa` the fraction field.
pub open spec fn magnitude(hidden: nat, exponent: nat, mantissa: nat) -> nat {
    if exponent == 0 {
        mantissa
    } else {
        (hidden + mantissa) * pow2((exponent - 1) as nat)
    }
}

/// The magnitude grows with the exponent field, and with the fraction
/// field where the exponents agree.
pub proof fn lemma_magnitude_monotonic(hidden: nat, e1: nat, m1: nat, e2: nat, m2: nat)
    requires
        m1 < hidden,
        m2 < hidden,
        e1 < e2 || (e1 == e2 && m1 <= m2),
    ensures
        magnitude(hidden, e1, m1) <= magnitude(hidden, e2, m2),
{
    if e1 == e2 {
        if e1 != 0 {
            let p = pow2((e1 - 1) as nat);
            assert((hidden + m1) * p <= (hidden + m2) * p) by (nonlinear_arith)
                requires
                    m1 <= m2,
            ;
        }
    } else {
        let p2 = pow2((e2 - 1) as nat);
        lemma_pow2_pos((e2 - 1) as nat);
        assert(hidden * p2 <= (hidden + m2) * p2) by (nonlinear_arith);
        if e1 == 0 {
            assert(hidden <= hidden * p2) by (nonlinear_arith)
                requires
                    p2 >= 1,
            ;
        } else {
            let p1 = pow2((e1 - 1) as nat);
            lemma_pow2_unfold(e1);
            if e1 < e2 - 1 {
                lemma_pow2_strictly_increases(e1, (e2 - 1) as nat);
            }
            assert(pow2(e1) <= p2);
            assert((hidden + m1) * p1 <= hidden * (2 * p1)) by (nonlinear_arith)
                requires
                    m1 < hidden,
            ;
            assert(hidden * pow2(e1) <= hidden * p2) by (nonlinear_arith)
                requires
                    pow2(e1) <= p2,
            ;
        }
    }
}

/// A floating-point type whose values have an image in a latent carrier of
/// the same width.
pub trait FloatLike: Copy + Sized {
    /// The latent carrier of this float type.
    type L: Latent;

    /// The number of significant bits, the implicit leading one included.
    spec fn spec_precision_bits() -> nat;

    /// Neither infinite nor NaN.
    spec fn is_finite(self) -> bool;

    /// Finite, not zero and not subnormal.
    spec fn is_normal(self) -> bool;

    /// The number that a finite float stands for, as a multiple of the
    /// smallest positive subnormal of the type.
    spec fn scaled_value(self) -> int;

    /// The ordered-bit image of a float: the sign bit flipped for a float
    /// whose sign bit is clear, every bit flipped for one whose sign bit is
    /// set.
    spec fn spec_to_latent_ordered(self) -> Self::L;

    /// The float with the given ordered-bit image.
    spec fn spec_from_latent_bits(l: Self::L) -> Self;

    /// Decoding the ordered-bit image of a float gives the float back, bit
    /// for bit.
    proof fn lemma_round_trip(self)
        ensures
            Self::spec_from_latent_bits(self.spec_to_latent_ordered()) == self,
    ;

    /// Every latent is the ordered-bit image of the float it decodes to.
    proof fn lemma_round_trip_latent(l: Self::L)
        ensures
            Self::spec_from_latent_bits(l).spec_to_latent_ordered() == l,
    ;

    /// On finite floats the ordered-bit image grows strictly with the
    /// number that the float stands for.
    proof fn lemma_ordered_monotonic(self, other: Self)
        requires
            self.is_finite(),
            other.is_finite(),
            self.scaled_value() < other.scaled_value(),
        ensures
            self.spec_to_latent_ordered().value() < other.spec_to_latent_ordered().value(),
    ;

    /// The ordered-bit image of the float.
    fn to_latent_ordered(self) -> (l: Self::L)
        ensures
            l == self.spec_to_latent_ordered(),
    ;

    /// The float with the given ordered-bit image.
    fn from_latent_bits(l: Self::L) -> (f: Self)
        ensures
            f == Self::spec_from_latent_bits(l),
    ;
}

/// An IEEE 754 single-precision float, held by its bit pattern.
#[derive(Clone, Copy, Debug, PartialEq, Eq, Structural)]
pub struct Binary32 {
    pub bits: u32,
}

impl Binary32 {
    /// Whether the sign bit is set.
    pub open spec fn sign_bit(self) -> bool {
        self.bits & 0x8000_0000 != 0
    }

    /// The biased exponent field.
    pub open spec fn exponent(self) -> nat {
        ((self.bits >> 23) & 0xff) as nat
    }

    /// The fraction field.
    pub open spec fn mantissa(self) -> nat {
        (self.bits & 0x7f_ffff) as nat
    }

    /// The float with the given bit pattern.
    pub fn from_bits(bits: u32) -> (f: Self)
        ensures
            f.bits == bits,
    {
        Binary32 { bits }
    }

    /// The bit pattern of the float.
    pub fn to_bits(self) -> (bits: u32)
        ensures
            bits == self.bits,
    {
        self.bits
    }
}

impl FloatLike for Binary32 {
    type L = u32;

    open spec fn spec_precision_bits() -> nat {
        24
    }

    open spec fn is_finite(self) -> bool {
        self.exponent() != 0xff
    }

    open spec fn is_normal(self) -> bool {
        self.exponent() != 0 && self.exponent() != 0xff
    }

    open spec fn scaled_value(self) -> int {
        let m = magnitude(0x80_0000, self.exponent(), self.mantissa());
        if self.sign_bit() {
            -(m as int)
        } else {
            m as int
        }
    }

    open spec fn spec_to_latent_ordered(self) -> u32 {
        if self.sign_bit() {
            !self.bits
        } else {
            self.bits ^ 0x8000_0000
        }
    }

    open spec fn spec_from_latent_bits(l: u32) -> Self {
        if l & 0x8000_0000 != 0 {
            Binary32 { bits: l ^ 0x8000_0000 }
        } else {
            Binary32 { bits: !l }
        }
    }

    proof fn lemma_round_trip(self) {
        let b = self.bits;
        assert(b & 0x8000_0000 != 0 ==> (!b) & 0x8000_0000 == 0 && !(!b) == b) by (bit_vector);
        assert(b & 0x8000_0000 == 0 ==> (b ^ 0x8000_0000) & 0x8000_0000 != 0 && (b ^ 0x8000_0000)
            ^ 0x8000_0000 == b) by (bit_vector);
    }

    proof fn lemma_round_trip_latent(l: u32) {
        assert(l & 0x8000_0000 != 0 ==> (l ^ 0x8000_0000) & 0x8000_0000 == 0 && (l ^ 0x8000_0000)
            ^ 0x8000_0000 == l) by (bit_vector);
        assert(l & 0x8000_0000 == 0 ==> (!l) & 0x8000_0000 != 0 && !(!l) == l) by (bit_vector);
    }

    proof fn lemma_ordered_monotonic(self, other: Self) {
        let a = self.bits;
        let b = other.bits;
        let ea = (a >> 23) & 0xff;
        let eb = (b >> 23) & 0xff;
        let ma = a & 0x7f_ffff;
        let mb = b & 0x7f_ffff;
        assert(ma < 0x80_0000 && mb < 0x80_0000) by (bit_vector)
            requires
                ma == a & 0x7f_ffff,
                mb == b & 0x7f_ffff,
        ;
        if self.sign_bit() && !other.sign_bit() {
            assert(!a < b ^ 0x8000_0000) by (bit_vector)
                requires
                    a & 0x8000_0000 != 0,
                    b & 0x8000_0000 == 0,
            ;
        } else if !self.sign_bit() && other.sign_bit() {
        } else {
            // Equal signs: were the fields of the smaller float not below
            // those of the larger, its magnitude would not be below either.
            let up = ea < eb || (ea == eb && ma < mb);
            let down = eb < ea || (eb == ea && mb <= ma);
            assert(up || down);
            if !self.sign_bit() {
                if down {
                    lemma_magnitude_monotonic(
                        0x80_0000,
                        eb as nat,
                        mb as nat,
                        ea as nat,
                        ma as nat,
                    );
                }
                assert(a ^ 0x8000_0000 < b ^ 0x8000_0000) by (bit_vector)
                    requires
                        a & 0x8000_0000 == 0,
                        b & 0x8000_0000 == 0,
                        ea == (a >> 23) & 0xff,
                        eb == (b >> 23) & 0xff,
                        ma == a & 0x7f_ffff,
                        mb == b & 0x7f_ffff,
                        ea < eb || (ea == eb && ma < mb),
                ;
            } else {
                let up_rev = eb < ea || (eb == ea && mb < ma);
                let down_rev = ea < eb || (ea == eb && ma <= mb);
                assert(up_rev || down_rev);
                if down_rev {
                    lemma_magnitude_monotonic(
                        0x80_0000,
                        ea as nat,
                        ma as nat,
                        eb as nat,
                        mb as nat,
                    );
                }
                assert(!a < !b) by (bit_vector)
                    requires
                        a & 0x8000_0000 != 0,
                        b & 0x8000_0000 != 0,
                        ea == (a >> 23) & 0xff,
                        eb == (b >> 23) & 0xff,
                        ma == a & 0x7f_ffff,
                        mb == b & 0x7f_ffff,
                        eb < ea || (eb == ea && mb < ma),
                ;
            }
        }
    }

    fn to_latent_ordered(self) -> (l: u32) {
        if self.bits & 0x8000_0000 != 0 {
            !self.bits
        } else {
            self.bits ^ 0x8000_0000
        }
    }

    fn from_latent_bits(l: u32) -> (f: Self) {
        if l & 0x8000_0000 != 0 {
            Binary32 { bits: l ^ 0x8000_0000 }
        } else {
            Binary32 { bits: !l }
        }
    }
}

/// An IEEE 754 double-precision float, held by its bit pattern.
#[derive(Clone, Copy, Debug, PartialEq, Eq, Structural)]
pub struct Binary64 {
    pub bits: u64,
}

impl Binary64 {
    /// Whether the sign bit is set.
    pub open spec fn sign_bit(self) -> bool {
        self.bits & 0x8000_0000_0000_0000 != 0
    }

    /// The biased exponent field.
    pub open spec fn exponent(self) -> nat {
        ((self.bits >> 52) & 0x7ff) as nat
    }

    /// The fraction field.
    pub open spec fn mantissa(self) -> nat {
        (self.bits & 0xf_ffff_ffff_ffff) as nat
    }

    /// The float with the given bit pattern.
    pub fn from_bits(bits: u64) -> (f: Self)
        ensures
            f.bits == bits,
    {
        Binary64 { bits }
    }

    /// The bit pattern of the float.
    pub fn to_bits(self) -> (bits: u64)
        ensures
            bits == self.bits,
    {
        self.bits
    }
}

impl FloatLike for Binary64 {
    type L = u64;

    open spec fn spec_precision_bits() -> nat {
        53
    }

    open spec fn is_finite(self) -> bool {
        self.exponent() != 0x7ff
    }

    open spec fn is_normal(self) -> bool {
        self.exponent() != 0 && self.exponent() != 0x7ff
    }

    open spec fn scaled_value(self) -> int {
        let m = magnitude(0x10_0000_0000_0000, self.exponent(), self.mantissa());
        if self.sign_bit() {
            -(m as int)
        } else {
            m as int
        }
    }

    open spec fn spec_to_latent_ordered(self) -> u64 {
        if self.sign_bit() {
            !self.bits
        } else {
            self.bits ^ 0x8000_0000_0000_0000
        }
    }

    open spec fn spec_from_latent_bits(l: u64) -> Self {
        if l & 0x8000_0000_0000_0000 != 0 {
            Binary64 { bits: l ^ 0x8000_0000_0000_0000 }
        } else {
            Binary64 { bits: !l }
        }
    }

    proof fn lemma_round_trip(self) {
        let b = self.bits;
        assert(b & 0x8000_0000_0000_0000 != 0 ==> (!b) & 0x8000_0000_0000_0000 == 0 && !(!b)
            == b) by (bit_vector);
        assert(b & 0x8000_0000_0000_0000 == 0 ==> (b ^ 0x8000_0000_0000_0000)
            & 0x8000_0000_0000_0000 != 0 && (b ^ 0x8000_0000_0000_0000) ^ 0x8000_0000_0000_0000
            == b) by (bit_vector);
    }

    proof fn lemma_round_trip_latent(l: u64) {
        assert(l & 0x8000_0000_0000_0000 != 0 ==> (l ^ 0x8000_0000_0000_0000)
            & 0x8000_0000_0000_0000 == 0 && (l ^ 0x8000_0000_0000_0000) ^ 0x8000_0000_0000_0000
            == l) by (bit_vector);
        assert(l & 0x8000_0000_0000_0000 == 0 ==> (!l) & 0x8000_0000_0000_0000 != 0 && !(!l)
            == l) by (bit_vector);
    }

    proof fn lemma_ordered_monotonic(self, other: Self) {
        let a = self.bits;
        let b = other.bits;
        let ea = (a >> 52) & 0x7ff;
        let eb = (b >> 52) & 0x7ff;
        let ma = a & 0xf_ffff_ffff_ffff;
        let mb = b & 0xf_ffff_ffff_ffff;
        assert(ma < 0x10_0000_0000_0000 && mb < 0x10_0000_0000_0000) by (bit_vector)
            requires
                ma == a & 0xf_ffff_ffff_ffff,
                mb == b & 0xf_ffff_ffff_ffff,
        ;
        if self.sign_bit() && !other.sign_bit() {
            assert(!a < b ^ 0x8000_0000_0000_0000) by (bit_vector)
                requires
                    a & 0x8000_0000_0000_0000 != 0,
                    b & 0x8000_0000_0000_0000 == 0,
            ;
        } else if !self.sign_bit() && other.sign_bit() {
        } else {
            // Equal signs: were the fields of the smaller float not below
            // those of the larger, its magnitude would not be below either.
            let up = ea < eb || (ea == eb && ma < mb);
            let down = eb < ea || (eb == ea && mb <= ma);
            assert(up || down);
            if !self.sign_bit() {
                if down {
                    lemma_magnitude_monotonic(
                        0x10_0000_0000_0000,
                        eb as nat,
                        mb as nat,
                        ea as nat,
                        ma as nat,
                    );
                }
                assert(a ^ 0x8000_0000_0000_0000 < b ^ 0x8000_0000_0000_0000) by (bit_vector)
                    requires
                        a & 0x8000_0000_0000_0000 == 0,
                        b & 0x8000_0000_0000_0000 == 0,
                        ea == (a >> 52) & 0x7ff,
                        eb == (b >> 52) & 0x7ff,
                        ma == a & 0xf_ffff_ffff_ffff,
                        mb == b & 0xf_ffff_ffff_ffff,
                        ea < eb || (ea == eb && ma < mb),
                ;
            } else {
                let up_rev = eb < ea || (eb == ea && mb < ma);
                let down_rev = ea < eb || (ea == eb && ma <= mb);
                assert(up_rev || down_rev);
                if down_rev {
                    lemma_magnitude_monotonic(
                        0x10_0000_0000_0000,
                        ea as nat,
                        ma as nat,
                        eb as nat,
                        mb as nat,
                    );
                }
                assert(!a < !b) by (bit_vector)
                    requires
                        a & 0x8000_0000_0000_0000 != 0,
                        b & 0x8000_0000_0000_0000 != 0,
                        ea == (a >> 52) & 0x7ff,
                        eb == (b >> 52) & 0x7ff,
                        ma == a & 0xf_ffff_ffff_ffff,
                        mb == b & 0xf_ffff_ffff_ffff,
                        eb < ea || (eb == ea && mb < ma),
                ;
            }
        }
    }

    fn to_latent_ordered(self) -> (l: u64) {
        if self.bits & 0x8000_0000_0000_0000 != 0 {
            !self.bits
        } else {
            self.bits ^ 0x8000_0000_0000_0000
        }
    }

    fn from_latent_bits(l: u64) -> (f: Self) {
        if l & 0x8000_0000_0000_0000 != 0 {
            Binary64 { bits: l ^ 0x8000_0000_0000_0000 }
        } else {
            Binary64 { bits: !l }
        }
    }
}

} // verus!
