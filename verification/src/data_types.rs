//! The unsigned integer types that carry latent variables.

use vstd::prelude::*;
use vstd::arithmetic::div_mod::lemma_small_mod;
use vstd::arithmetic::power2::{lemma2_to64, pow2};

verus! {

/// An unsigned integer type that holds latent variables.
pub trait Latent: Copy + Sized {
    /// The width of the type in bits.
    spec fn spec_bits() -> nat;

    /// The number that a latent stands for.
    spec fn value(self) -> nat;

    /// The latent made of the low bits of `x`.
    spec fn spec_from_u64(x: u64) -> Self;

    /// The latent made of `x` stands for `x` cut to the width of the type,
    /// so for `x` itself wherever `x` fits.
    proof fn lemma_from_u64_value(x: u64)
        ensures
            Self::spec_from_u64(x).value() == x as nat % pow2(Self::spec_bits()),
            (x as nat) < pow2(Self::spec_bits()) ==> Self::spec_from_u64(x).value() == x,
    ;

    /// Makes a latent of a small integer. Bits of `x` beyond the width of
    /// the type are dropped.
    fn from_u64(x: u64) -> (l: Self)
        ensures
            l == Self::spec_from_u64(x),
    ;
}

impl Latent for u16 {
    open spec fn spec_bits() -> nat {
        16
    }

    open spec fn value(self) -> nat {
        self as nat
    }

    open spec fn spec_from_u64(x: u64) -> u16 {
        (x & 0xffff) as u16
    }

    proof fn lemma_from_u64_value(x: u64) {
        lemma2_to64();
        assert(x & 0xffff == x % 0x1_0000) by (bit_vector);
    }

    fn from_u64(x: u64) -> (l: u16) {
        assert(x & 0xffff <= 0xffff) by (bit_vector);
        (x & 0xffff) as u16
    }
}

impl Latent for u32 {
    open spec fn spec_bits() -> nat {
        32
    }

    open spec fn value(self) -> nat {
        self as nat
    }

    open spec fn spec_from_u64(x: u64) -> u32 {
        (x & 0xffff_ffff) as u32
    }

    proof fn lemma_from_u64_value(x: u64) {
        lemma2_to64();
        assert(x & 0xffff_ffff == x % 0x1_0000_0000) by (bit_vector);
    }

    fn from_u64(x: u64) -> (l: u32) {
        assert(x & 0xffff_ffff <= 0xffff_ffff) by (bit_vector);
        (x & 0xffff_ffff) as u32
    }
}

impl Latent for u64 {
    open spec fn spec_bits() -> nat {
        64
    }

    open spec fn value(self) -> nat {
        self as nat
    }

    open spec fn spec_from_u64(x: u64) -> u64 {
        x
    }

    proof fn lemma_from_u64_value(x: u64) {
        lemma2_to64();
        lemma_small_mod(x as nat, 0x1_0000_0000_0000_0000);
    }

    fn from_u64(x: u64) -> (l: u64) {
        x
    }
}

} // verus!
