use vstd::prelude::*;
use vstd::arithmetic::power2::{lemma2_to64, lemma_pow2_strictly_increases};
use vstd::pervasive::unreached;
use crate::constants::Bitlen;
use crate::data_types::Latent;
use crate::floats::FloatLike;

verus! {

/// A variation of how numbers are decomposed into latent variables before
/// they are compressed.
#[derive(Clone, Copy, Debug, PartialEq, Eq)]
pub enum Mode<L: Latent> {
    /// Each number is its own single latent variable.
    Classic,
    /// Each integer `x` is split into the quotient `x / base` and the
    /// remainder `x % base`. The base is at least 2.
    IntMult(L),
    /// Each float `x` is split into the nearest multiple of a base and an
    /// adjustment in units in the last place. The base is held as its
    /// ordered-bit image; it is finite, not zero and not subnormal.
    FloatMult(L),
    /// The bit pattern of each float is split into its high bits and its
    /// `k` low bits, where `k` is at least 1 and below the precision of
    /// the float type.
    FloatDecomp(L),
}

impl<L: Latent> Default for Mode<L> {
    fn default() -> (mode: Self)
        ensures
            mode == Mode::<L>::Classic,
    {
        Mode::Classic
    }
}

impl<L: Latent> Mode<L> {
    /// The number of latent variables that the mode makes of each number.
    pub open spec fn spec_n_latent_vars(self) -> usize {
        match self {
            Mode::Classic => 1,
            Mode::IntMult(_) => 2,
            Mode::FloatMult(_) => 2,
            Mode::FloatDecomp(_) => 2,
        }
    }

    /// The delta order of one latent variable: the first is encoded with
    /// the order asked for, the second is never delta-encoded.
    pub open spec fn spec_delta_order_for_latent_var(
        self,
        latent_var_idx: usize,
        delta_order: usize,
    ) -> usize
        recommends
            latent_var_idx < self.spec_n_latent_vars(),
    {
        if latent_var_idx == 0 {
            delta_order
        } else {
            0
        }
    }

    /// Whether the mode and its parameter suit integer data.
    pub open spec fn valid_for_ints(self) -> bool {
        match self {
            Mode::Classic => true,
            Mode::IntMult(base) => base.value() >= 2,
            Mode::FloatMult(_) => false,
            Mode::FloatDecomp(_) => false,
        }
    }

    /// Whether the mode and its parameter suit data of the float type `F`.
    pub open spec fn valid_for_floats<F: FloatLike<L = L>>(self) -> bool {
        match self {
            Mode::Classic => true,
            Mode::IntMult(_) => false,
            Mode::FloatMult(base) => F::spec_from_latent_bits(base).is_normal(),
            Mode::FloatDecomp(k) => 1 <= k.value() && k.value() + 1 <= F::spec_precision_bits(),
        }
    }

    /// The number of latent variables that the mode makes of each number:
    /// one for `Classic`, two for every other mode.
    pub fn n_latent_vars(&self) -> (n: usize)
        ensures
            n == self.spec_n_latent_vars(),
            n == 1 || n == 2,
            n == 2 <==> (self is IntMult || self is FloatMult || self is FloatDecomp),
    {
        match self {
            Mode::Classic => 1,
            Mode::FloatMult(_) | Mode::IntMult(_) => 2,
            Mode::FloatDecomp(_) => 2,
        }
    }

    /// The delta order to encode a latent variable with, where the user
    /// asked for `delta_order`. The index must be one of the mode's latent
    /// variables: any other index is a bug in the caller, which verified
    /// callers cannot have and which stops every other caller.
    pub fn delta_order_for_latent_var(
        &self,
        latent_var_idx: usize,
        delta_order: usize,
    ) -> (order: usize)
        requires
            latent_var_idx < self.spec_n_latent_vars(),
        ensures
            order == self.spec_delta_order_for_latent_var(latent_var_idx, delta_order),
            latent_var_idx == 0 ==> order == delta_order,
            latent_var_idx == 1 ==> order == 0,
    {
        match self {
            Mode::Classic => {
                if latent_var_idx == 0 {
                    delta_order
                } else {
                    unreached()
                }
            },
            Mode::IntMult(_) | Mode::FloatMult(_) | Mode::FloatDecomp(_) => {
                if latent_var_idx == 0 {
                    delta_order
                } else if latent_var_idx == 1 {
                    0
                } else {
                    unreached()
                }
            },
        }
    }

    /// The mode that splits floats by multiples of `base`.
    pub fn float_mult<F: FloatLike<L = L>>(base: F) -> (mode: Self)
        ensures
            mode == Mode::FloatMult(base.spec_to_latent_ordered()),
            mode.valid_for_floats::<F>() <==> base.is_normal(),
    {
        proof {
            base.lemma_round_trip();
        }
        Mode::FloatMult(base.to_latent_ordered())
    }

    /// The mode that splits off the `k` low bits of each float. A latent
    /// type of 32 bits or more holds every `k` unchanged, and the mode is
    /// then valid exactly if `k` is at least 1 and below the precision of
    /// the float type.
    pub fn float_decomp<F: FloatLike<L = L>>(k: Bitlen) -> (mode: Self)
        ensures
            mode == Mode::FloatDecomp(L::spec_from_u64(k as u64)),
            L::spec_bits() >= 32 ==> (mode.valid_for_floats::<F>() <==> 1 <= k && k + 1
                <= F::spec_precision_bits()),
    {
        proof {
            L::lemma_from_u64_value(k as u64);
            lemma2_to64();
            if L::spec_bits() > 32 {
                lemma_pow2_strictly_increases(32, L::spec_bits());
            }
        }
        Mode::FloatDecomp(L::from_u64(k as u64))
    }
}

} // verus!
