//! Laws of the derivation engine, stated once over every precision.
//!
//! Each law is a proof function over the spec-level mirror of the engine;
//! [`Coefficients::from_params`](crate::Coefficients::from_params) is proved
//! to return exactly that mirror, so each law holds of every value the
//! executable derivation returns.

use vstd::prelude::*;

use crate::coefficients::{
    nyquist_exceeded, raw_all_pass, raw_notch, raw_peaking_eq, spec_from_params, spec_normalized,
    spec_omega, spec_raw, Coefficients, Type,
};
use crate::primitives::Real;
use crate::Errors;

verus! {

/// Validation: a derivation succeeds exactly when the cutoff passes the
/// Nyquist check and Q is not negative, whatever the filter type; the Nyquist
/// check is made first, so it wins when both parameters are invalid, and each
/// error is returned if and only if its condition holds.
pub proof fn lemma_validation<T: Real>(filter: Type<T>, fs: T, f0: T, q_value: T)
    ensures
        spec_from_params(filter, fs, f0, q_value) is Ok <==> !nyquist_exceeded(fs, f0)
            && !q_value.lt_spec(T::zero_spec()),
        spec_from_params(filter, fs, f0, q_value) == Err::<Coefficients<T>, Errors>(
            Errors::OutsideNyquist,
        ) <==> nyquist_exceeded(fs, f0),
        spec_from_params(filter, fs, f0, q_value) == Err::<Coefficients<T>, Errors>(
            Errors::NegativeQ,
        ) <==> !nyquist_exceeded(fs, f0) && q_value.lt_spec(T::zero_spec()),
{
}

/// The two first-order responses are Q-independent: any two accepted Q values
/// derive the same coefficient set.
pub proof fn lemma_single_pole_q_independent<T: Real>(
    filter: Type<T>,
    fs: T,
    f0: T,
    q_first: T,
    q_second: T,
)
    requires
        filter is SinglePoleLowPassApprox || filter is SinglePoleLowPass,
        !q_first.lt_spec(T::zero_spec()),
        !q_second.lt_spec(T::zero_spec()),
    ensures
        spec_from_params(filter, fs, f0, q_first) == spec_from_params(filter, fs, f0, q_second),
{
}

/// Normalization invariant: every successful second-order derivation returns
/// its unnormalized cookbook row with all six entries divided by that row's
/// own `a0`.
pub proof fn lemma_normalization<T: Real>(filter: Type<T>, fs: T, f0: T, q_value: T)
    requires
        !nyquist_exceeded(fs, f0),
        !q_value.lt_spec(T::zero_spec()),
        spec_raw(filter, spec_omega(fs, f0), q_value) is Some,
    ensures
        ({
            let raw = spec_raw(filter, spec_omega(fs, f0), q_value)->Some_0;
            let co = spec_from_params(filter, fs, f0, q_value)->Ok_0;
            &&& spec_from_params(filter, fs, f0, q_value) is Ok
            &&& co == spec_normalized(raw)
            &&& co.a1 == raw.a1.over_spec(raw.a0)
            &&& co.a2 == raw.a2.over_spec(raw.a0)
            &&& co.b0 == raw.b0.over_spec(raw.a0)
            &&& co.b1 == raw.b1.over_spec(raw.a0)
            &&& co.b2 == raw.b2.over_spec(raw.a0)
        }),
{
}

/// All-pass symmetry: in the unnormalized all-pass row the numerator is the
/// reverse of the denominator, term for term.
pub proof fn lemma_all_pass_symmetry<T: Real>(cos_omega: T, alpha: T)
    ensures
        raw_all_pass(cos_omega, alpha).b0 == raw_all_pass(cos_omega, alpha).a2,
        raw_all_pass(cos_omega, alpha).b1 == raw_all_pass(cos_omega, alpha).a1,
        raw_all_pass(cos_omega, alpha).b2 == raw_all_pass(cos_omega, alpha).a0,
{
}

/// All-pass symmetry, seen on the returned coefficient set: after
/// normalization `b0` equals `a2` and `b1` equals `a1` (and `b2` is the raw
/// `a0` divided by itself, the reflection of the implicit leading `1`).
pub proof fn lemma_all_pass_coefficients<T: Real>(fs: T, f0: T, q_value: T)
    requires
        spec_from_params(Type::<T>::AllPass, fs, f0, q_value) is Ok,
    ensures
        ({
            let co = spec_from_params(Type::<T>::AllPass, fs, f0, q_value)->Ok_0;
            &&& co.b0 == co.a2
            &&& co.b1 == co.a1
        }),
{
}

/// Unit-gain peaking EQ: when the amplitude `a` leaves `α` unchanged under
/// multiplication and division — as the amplitude of a zero-decibel gain
/// does — the peaking row's numerator equals its denominator, so the filter
/// is the identity transfer function.
pub proof fn lemma_peaking_eq_unit_gain<T: Real>(cos_omega: T, alpha: T, a: T)
    requires
        alpha.times_spec(a) == alpha,
        alpha.over_spec(a) == alpha,
    ensures
        raw_peaking_eq(cos_omega, alpha, a).b0 == raw_peaking_eq(cos_omega, alpha, a).a0,
        raw_peaking_eq(cos_omega, alpha, a).b1 == raw_peaking_eq(cos_omega, alpha, a).a1,
        raw_peaking_eq(cos_omega, alpha, a).b2 == raw_peaking_eq(cos_omega, alpha, a).a2,
        raw_peaking_eq(cos_omega, alpha, a).a1 == raw_notch(cos_omega, alpha).a1,
{
}

} // verus!
