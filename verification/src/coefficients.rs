//! Coefficient derivation for the supported filter responses.
//!
//! The second-order responses follow the Audio EQ Cookbook biquad formulas;
//! the first-order low-pass responses follow the discrete-time realization of
//! an RC low-pass filter. Every formula is stated as a spec function over the
//! primitives of [`Real`], and the executable derivation is proved to return
//! exactly the stated expression.

use vstd::prelude::*;

use crate::frequency::Hertz;
use crate::primitives::Real;
use crate::Errors;

verus! {

/// The supported filter responses. Note that single pole low pass filters are
/// cheaper to retune, as all other responses require evaluations of sine and
/// cosine. `LowShelf`, `HighShelf` and `PeakingEQ` carry the gain, in
/// decibels, that the filter provides.
#[derive(Clone, Copy, Debug)]
pub enum Type<DBGain> {
    SinglePoleLowPassApprox,
    SinglePoleLowPass,
    LowPass,
    HighPass,
    BandPass,
    Notch,
    AllPass,
    LowShelf(DBGain),
    HighShelf(DBGain),
    PeakingEQ(DBGain),
}

/// Holder of the biquad coefficients in normalized form: the denominator's
/// leading coefficient a0 is implicitly `1`, every stored coefficient having
/// been divided by the raw a0 of its formula.
#[derive(Clone, Copy, Debug)]
pub struct Coefficients<T> {
    /// First denominator (feedback) coefficient.
    pub a1: T,
    /// Second denominator (feedback) coefficient.
    pub a2: T,
    /// First numerator (feedforward) coefficient.
    pub b0: T,
    /// Second numerator (feedforward) coefficient.
    pub b1: T,
    /// Third numerator (feedforward) coefficient.
    pub b2: T,
}

/// One unnormalized row of the cookbook table: the six coefficients as the
/// closed-form formulas produce them, before division by `a0`.
pub struct RawCoefficients<T> {
    /// First numerator coefficient.
    pub b0: T,
    /// Second numerator coefficient.
    pub b1: T,
    /// Third numerator coefficient.
    pub b2: T,
    /// Leading denominator coefficient, the normalization divisor.
    pub a0: T,
    /// Second denominator coefficient.
    pub a1: T,
    /// Third denominator coefficient.
    pub a2: T,
}

/// Whether the cutoff frequency `f0` lies beyond the Nyquist limit of the
/// sampling frequency `fs`, that is whether `2·f0 > fs`.
pub open spec fn nyquist_exceeded<T: Real>(fs: T, f0: T) -> bool {
    T::two_spec().times_spec(f0).gt_spec(fs)
}

/// The normalized angular frequency `ω = 2π·f0/fs` of a cutoff frequency
/// `f0` under a sampling frequency `fs`.
pub open spec fn spec_omega<T: Real>(fs: T, f0: T) -> T {
    T::two_spec().times_spec(T::pi_spec()).times_spec(f0).over_spec(fs)
}

/// The resonance term `α = sin(ω)/(2·Q)` shared by all second-order rows.
pub open spec fn spec_alpha<T: Real>(omega: T, q_value: T) -> T {
    omega.sine_spec().over_spec(T::two_spec().times_spec(q_value))
}

/// The linear amplitude `A = 10^(gain/40)` of a shelf or peaking gain given
/// in decibels.
pub open spec fn spec_amplitude<T: Real>(db_gain: T) -> T {
    T::ten_spec().power_spec(db_gain.over_spec(T::forty_spec()))
}

/// The unnormalized low-pass row of the cookbook table.
pub open spec fn raw_low_pass<T: Real>(cos_omega: T, alpha: T) -> RawCoefficients<T> {
    RawCoefficients {
        b0: T::one_spec().minus_spec(cos_omega).times_spec(T::half_spec()),
        b1: T::one_spec().minus_spec(cos_omega),
        b2: T::one_spec().minus_spec(cos_omega).times_spec(T::half_spec()),
        a0: T::one_spec().plus_spec(alpha),
        a1: T::two_spec().neg_spec().times_spec(cos_omega),
        a2: T::one_spec().minus_spec(alpha),
    }
}

/// The unnormalized high-pass row of the cookbook table.
pub open spec fn raw_high_pass<T: Real>(cos_omega: T, alpha: T) -> RawCoefficients<T> {
    RawCoefficients {
        b0: T::one_spec().plus_spec(cos_omega).times_spec(T::half_spec()),
        b1: T::one_spec().plus_spec(cos_omega).neg_spec(),
        b2: T::one_spec().plus_spec(cos_omega).times_spec(T::half_spec()),
        a0: T::one_spec().plus_spec(alpha),
        a1: T::two_spec().neg_spec().times_spec(cos_omega),
        a2: T::one_spec().minus_spec(alpha),
    }
}

/// The unnormalized band-pass row of the cookbook table (constant skirt
/// gain, peak gain Q).
pub open spec fn raw_band_pass<T: Real>(sin_omega: T, cos_omega: T, alpha: T) -> RawCoefficients<
    T,
> {
    RawCoefficients {
        b0: sin_omega.over_spec(T::two_spec()),
        b1: T::zero_spec(),
        b2: sin_omega.over_spec(T::two_spec()).neg_spec(),
        a0: T::one_spec().plus_spec(alpha),
        a1: T::two_spec().neg_spec().times_spec(cos_omega),
        a2: T::one_spec().minus_spec(alpha),
    }
}

/// The unnormalized notch row of the cookbook table.
pub open spec fn raw_notch<T: Real>(cos_omega: T, alpha: T) -> RawCoefficients<T> {
    RawCoefficients {
        b0: T::one_spec(),
        b1: T::two_spec().neg_spec().times_spec(cos_omega),
        b2: T::one_spec(),
        a0: T::one_spec().plus_spec(alpha),
        a1: T::two_spec().neg_spec().times_spec(cos_omega),
        a2: T::one_spec().minus_spec(alpha),
    }
}

/// The unnormalized all-pass row of the cookbook table.
pub open spec fn raw_all_pass<T: Real>(cos_omega: T, alpha: T) -> RawCoefficients<T> {
    RawCoefficients {
        b0: T::one_spec().minus_spec(alpha),
        b1: T::two_spec().neg_spec().times_spec(cos_omega),
        b2: T::one_spec().plus_spec(alpha),
        a0: T::one_spec().plus_spec(alpha),
        a1: T::two_spec().neg_spec().times_spec(cos_omega),
        a2: T::one_spec().minus_spec(alpha),
    }
}

/// The unnormalized low-shelf row of the cookbook table, for linear
/// amplitude `a`.
pub open spec fn raw_low_shelf<T: Real>(cos_omega: T, alpha: T, a: T) -> RawCoefficients<T> {
    let root = a.square_root_spec();
    RawCoefficients {
        b0: a.times_spec(
            a.plus_spec(T::one_spec()).minus_spec(
                a.minus_spec(T::one_spec()).times_spec(cos_omega),
            ).plus_spec(T::two_spec().times_spec(alpha).times_spec(root)),
        ),
        b1: T::two_spec().times_spec(a).times_spec(
            a.minus_spec(T::one_spec()).minus_spec(
                a.plus_spec(T::one_spec()).times_spec(cos_omega),
            ),
        ),
        b2: a.times_spec(
            a.plus_spec(T::one_spec()).minus_spec(
                a.minus_spec(T::one_spec()).times_spec(cos_omega),
            ).minus_spec(T::two_spec().times_spec(alpha).times_spec(root)),
        ),
        a0: a.plus_spec(T::one_spec()).plus_spec(
            a.minus_spec(T::one_spec()).times_spec(cos_omega),
        ).plus_spec(T::two_spec().times_spec(alpha).times_spec(root)),
        a1: T::two_spec().neg_spec().times_spec(
            a.minus_spec(T::one_spec()).plus_spec(
                a.plus_spec(T::one_spec()).times_spec(cos_omega),
            ),
        ),
        a2: a.plus_spec(T::one_spec()).plus_spec(
            a.minus_spec(T::one_spec()).times_spec(cos_omega),
        ).minus_spec(T::two_spec().times_spec(alpha).times_spec(root)),
    }
}

/// The unnormalized high-shelf row of the cookbook table, for linear
/// amplitude `a`.
pub open spec fn raw_high_shelf<T: Real>(cos_omega: T, alpha: T, a: T) -> RawCoefficients<T> {
    let root = a.square_root_spec();
    RawCoefficients {
        b0: a.times_spec(
            a.plus_spec(T::one_spec()).plus_spec(
                a.minus_spec(T::one_spec()).times_spec(cos_omega),
            ).plus_spec(T::two_spec().times_spec(alpha).times_spec(root)),
        ),
        b1: T::two_spec().neg_spec().times_spec(a).times_spec(
            a.minus_spec(T::one_spec()).plus_spec(
                a.plus_spec(T::one_spec()).times_spec(cos_omega),
            ),
        ),
        b2: a.times_spec(
            a.plus_spec(T::one_spec()).plus_spec(
                a.minus_spec(T::one_spec()).times_spec(cos_omega),
            ).minus_spec(T::two_spec().times_spec(alpha).times_spec(root)),
        ),
        a0: a.plus_spec(T::one_spec()).minus_spec(
            a.minus_spec(T::one_spec()).times_spec(cos_omega),
        ).plus_spec(T::two_spec().times_spec(alpha).times_spec(root)),
        a1: T::two_spec().times_spec(
            a.minus_spec(T::one_spec()).minus_spec(
                a.plus_spec(T::one_spec()).times_spec(cos_omega),
            ),
        ),
        a2: a.plus_spec(T::one_spec()).minus_spec(
            a.minus_spec(T::one_spec()).times_spec(cos_omega),
        ).minus_spec(T::two_spec().times_spec(alpha).times_spec(root)),
    }
}

/// The unnormalized peaking-EQ row of the cookbook table, for linear
/// amplitude `a`.
pub open spec fn raw_peaking_eq<T: Real>(cos_omega: T, alpha: T, a: T) -> RawCoefficients<T> {
    RawCoefficients {
        b0: T::one_spec().plus_spec(alpha.times_spec(a)),
        b1: T::two_spec().neg_spec().times_spec(cos_omega),
        b2: T::one_spec().minus_spec(alpha.times_spec(a)),
        a0: T::one_spec().plus_spec(alpha.over_spec(a)),
        a1: T::two_spec().neg_spec().times_spec(cos_omega),
        a2: T::one_spec().minus_spec(alpha.over_spec(a)),
    }
}

/// The unnormalized cookbook row of a second-order response at angular
/// frequency `omega` and quality `q_value`; `None` for the two first-order
/// responses, which do not follow the raw/normalize pattern.
pub open spec fn spec_raw<T: Real>(filter: Type<T>, omega: T, q_value: T) -> Option<
    RawCoefficients<T>,
> {
    let s = omega.sine_spec();
    let c = omega.cosine_spec();
    let alpha = spec_alpha(omega, q_value);
    match filter {
        Type::SinglePoleLowPassApprox => None,
        Type::SinglePoleLowPass => None,
        Type::LowPass => Some(raw_low_pass(c, alpha)),
        Type::HighPass => Some(raw_high_pass(c, alpha)),
        Type::BandPass => Some(raw_band_pass(s, c, alpha)),
        Type::Notch => Some(raw_notch(c, alpha)),
        Type::AllPass => Some(raw_all_pass(c, alpha)),
        Type::LowShelf(db_gain) => Some(raw_low_shelf(c, alpha, spec_amplitude(db_gain))),
        Type::HighShelf(db_gain) => Some(raw_high_shelf(c, alpha, spec_amplitude(db_gain))),
        Type::PeakingEQ(db_gain) => Some(raw_peaking_eq(c, alpha, spec_amplitude(db_gain))),
    }
}

/// A raw row divided through by its own `a0`: the normalized coefficient set
/// that a derivation returns.
pub open spec fn spec_normalized<T: Real>(raw: RawCoefficients<T>) -> Coefficients<T> {
    Coefficients {
        a1: raw.a1.over_spec(raw.a0),
        a2: raw.a2.over_spec(raw.a0),
        b0: raw.b0.over_spec(raw.a0),
        b1: raw.b1.over_spec(raw.a0),
        b2: raw.b2.over_spec(raw.a0),
    }
}

/// The first-order low-pass approximation `α = ω/(ω+1)`: Q-independent and
/// free of transcendental terms, hence the cheapest response to retune.
pub open spec fn spec_single_pole_low_pass_approx<T: Real>(omega: T) -> Coefficients<T> {
    let alpha = omega.over_spec(omega.plus_spec(T::one_spec()));
    Coefficients {
        a1: alpha.minus_spec(T::one_spec()),
        a2: T::zero_spec(),
        b0: alpha,
        b1: T::zero_spec(),
        b2: T::zero_spec(),
    }
}

/// The exact first-order low-pass via the bilinear transform,
/// `ωt = tan(ω/2)`, normalized by `a0 = 1 + ωt`.
pub open spec fn spec_single_pole_low_pass<T: Real>(omega: T) -> Coefficients<T> {
    let omega_t = omega.over_spec(T::two_spec()).tangent_spec();
    let a0 = T::one_spec().plus_spec(omega_t);
    Coefficients {
        a1: omega_t.minus_spec(T::one_spec()).over_spec(a0),
        a2: T::zero_spec(),
        b0: omega_t.over_spec(a0),
        b1: omega_t.over_spec(a0),
        b2: T::zero_spec(),
    }
}

/// What a derivation returns: the validation outcome, and on success the
/// coefficient set of the requested response. Validation is checked in
/// order, Nyquist before Q, first failure winning, before any formula term
/// is formed.
pub open spec fn spec_from_params<T: Real>(
    filter: Type<T>,
    fs: T,
    f0: T,
    q_value: T,
) -> Result<Coefficients<T>, Errors> {
    if nyquist_exceeded(fs, f0) {
        Err(Errors::OutsideNyquist)
    } else if q_value.lt_spec(T::zero_spec()) {
        Err(Errors::NegativeQ)
    } else {
        let omega = spec_omega(fs, f0);
        match filter {
            Type::SinglePoleLowPassApprox => Ok(spec_single_pole_low_pass_approx(omega)),
            Type::SinglePoleLowPass => Ok(spec_single_pole_low_pass(omega)),
            _ => Ok(spec_normalized(spec_raw(filter, omega, q_value)->Some_0)),
        }
    }
}

impl<T: Real> Coefficients<T> {
    /// Creates coefficients based on the biquad filter type, sampling and
    /// cutoff frequency, and Q value. The cutoff frequency must not exceed
    /// half the sampling frequency and Q may not be negative; either yields
    /// an `Err()`, and the checks are made in that order before any formula
    /// is evaluated.
    pub fn from_params(
        filter: Type<T>,
        fs: Hertz<T>,
        f0: Hertz<T>,
        q_value: T,
    ) -> (r: Result<Coefficients<T>, Errors>)
        ensures
            r == spec_from_params(filter, fs.spec_hz(), f0.spec_hz(), q_value),
    {
        if T::two().times(f0.hz()).gt(fs.hz()) {
            return Err(Errors::OutsideNyquist);
        }

        if q_value.lt(T::zero()) {
            return Err(Errors::NegativeQ);
        }

        let omega = T::two().times(T::pi()).times(f0.hz()).over(fs.hz());

        match filter {
            Type::SinglePoleLowPassApprox => {
                let alpha = omega.over(omega.plus(T::one()));

                Ok(
                    Coefficients {
                        a1: alpha.minus(T::one()),
                        a2: T::zero(),
                        b0: alpha,
                        b1: T::zero(),
                        b2: T::zero(),
                    },
                )
            },
            Type::SinglePoleLowPass => {
                let omega_t = omega.over(T::two()).tangent();
                let a0 = T::one().plus(omega_t);

                Ok(
                    Coefficients {
                        a1: omega_t.minus(T::one()).over(a0),
                        a2: T::zero(),
                        b0: omega_t.over(a0),
                        b1: omega_t.over(a0),
                        b2: T::zero(),
                    },
                )
            },
            Type::LowPass => {
                let omega_c = omega.cosine();
                let alpha = omega.sine().over(T::two().times(q_value));

                let b0 = T::one().minus(omega_c).times(T::half());
                let b1 = T::one().minus(omega_c);
                let b2 = T::one().minus(omega_c).times(T::half());
                let a0 = T::one().plus(alpha);
                let a1 = T::two().neg().times(omega_c);
                let a2 = T::one().minus(alpha);

                Ok(
                    Coefficients {
                        a1: a1.over(a0),
                        a2: a2.over(a0),
                        b0: b0.over(a0),
                        b1: b1.over(a0),
                        b2: b2.over(a0),
                    },
                )
            },
            Type::HighPass => {
                let omega_c = omega.cosine();
                let alpha = omega.sine().over(T::two().times(q_value));

                let b0 = T::one().plus(omega_c).times(T::half());
                let b1 = T::one().plus(omega_c).neg();
                let b2 = T::one().plus(omega_c).times(T::half());
                let a0 = T::one().plus(alpha);
                let a1 = T::two().neg().times(omega_c);
                let a2 = T::one().minus(alpha);

                Ok(
                    Coefficients {
                        a1: a1.over(a0),
                        a2: a2.over(a0),
                        b0: b0.over(a0),
                        b1: b1.over(a0),
                        b2: b2.over(a0),
                    },
                )
            },
            Type::BandPass => {
                let omega_s = omega.sine();
                let omega_c = omega.cosine();
                let alpha = omega_s.over(T::two().times(q_value));

                let b0 = omega_s.over(T::two());
                let b1 = T::zero();
                let b2 = omega_s.over(T::two()).neg();
                let a0 = T::one().plus(alpha);
                let a1 = T::two().neg().times(omega_c);
                let a2 = T::one().minus(alpha);

                Ok(
                    Coefficients {
                        a1: a1.over(a0),
                        a2: a2.over(a0),
                        b0: b0.over(a0),
                        b1: b1.over(a0),
                        b2: b2.over(a0),
                    },
                )
            },
            Type::Notch => {
                let omega_c = omega.cosine();
                let alpha = omega.sine().over(T::two().times(q_value));

                let b0 = T::one();
                let b1 = T::two().neg().times(omega_c);
                let b2 = T::one();
                let a0 = T::one().plus(alpha);
                let a1 = T::two().neg().times(omega_c);
                let a2 = T::one().minus(alpha);

                Ok(
                    Coefficients {
                        a1: a1.over(a0),
                        a2: a2.over(a0),
                        b0: b0.over(a0),
                        b1: b1.over(a0),
                        b2: b2.over(a0),
                    },
                )
            },
            Type::AllPass => {
                let omega_c = omega.cosine();
                let alpha = omega.sine().over(T::two().times(q_value));

                let b0 = T::one().minus(alpha);
                let b1 = T::two().neg().times(omega_c);
                let b2 = T::one().plus(alpha);
                let a0 = T::one().plus(alpha);
                let a1 = T::two().neg().times(omega_c);
                let a2 = T::one().minus(alpha);

                Ok(
                    Coefficients {
                        a1: a1.over(a0),
                        a2: a2.over(a0),
                        b0: b0.over(a0),
                        b1: b1.over(a0),
                        b2: b2.over(a0),
                    },
                )
            },
            Type::LowShelf(db_gain) => {
                let a = T::ten().power(db_gain.over(T::forty()));
                let omega_c = omega.cosine();
                let alpha = omega.sine().over(T::two().times(q_value));
                let root = a.square_root();

                let b0 = a.times(
                    a.plus(T::one()).minus(a.minus(T::one()).times(omega_c)).plus(
                        T::two().times(alpha).times(root),
                    ),
                );
                let b1 = T::two().times(a).times(
                    a.minus(T::one()).minus(a.plus(T::one()).times(omega_c)),
                );
                let b2 = a.times(
                    a.plus(T::one()).minus(a.minus(T::one()).times(omega_c)).minus(
                        T::two().times(alpha).times(root),
                    ),
                );
                let a0 = a.plus(T::one()).plus(a.minus(T::one()).times(omega_c)).plus(
                    T::two().times(alpha).times(root),
                );
                let a1 = T::two().neg().times(
                    a.minus(T::one()).plus(a.plus(T::one()).times(omega_c)),
                );
                let a2 = a.plus(T::one()).plus(a.minus(T::one()).times(omega_c)).minus(
                    T::two().times(alpha).times(root),
                );

                Ok(
                    Coefficients {
                        a1: a1.over(a0),
                        a2: a2.over(a0),
                        b0: b0.over(a0),
                        b1: b1.over(a0),
                        b2: b2.over(a0),
                    },
                )
            },
            Type::HighShelf(db_gain) => {
                let a = T::ten().power(db_gain.over(T::forty()));
                let omega_c = omega.cosine();
                let alpha = omega.sine().over(T::two().times(q_value));
                let root = a.square_root();

                let b0 = a.times(
                    a.plus(T::one()).plus(a.minus(T::one()).times(omega_c)).plus(
                        T::two().times(alpha).times(root),
                    ),
                );
                let b1 = T::two().neg().times(a).times(
                    a.minus(T::one()).plus(a.plus(T::one()).times(omega_c)),
                );
                let b2 = a.times(
                    a.plus(T::one()).plus(a.minus(T::one()).times(omega_c)).minus(
                        T::two().times(alpha).times(root),
                    ),
                );
                let a0 = a.plus(T::one()).minus(a.minus(T::one()).times(omega_c)).plus(
                    T::two().times(alpha).times(root),
                );
                let a1 = T::two().times(
                    a.minus(T::one()).minus(a.plus(T::one()).times(omega_c)),
                );
                let a2 = a.plus(T::one()).minus(a.minus(T::one()).times(omega_c)).minus(
                    T::two().times(alpha).times(root),
                );

                Ok(
                    Coefficients {
                        a1: a1.over(a0),
                        a2: a2.over(a0),
                        b0: b0.over(a0),
                        b1: b1.over(a0),
                        b2: b2.over(a0),
                    },
                )
            },
            Type::PeakingEQ(db_gain) => {
                let a = T::ten().power(db_gain.over(T::forty()));
                let omega_c = omega.cosine();
                let alpha = omega.sine().over(T::two().times(q_value));

                let b0 = T::one().plus(alpha.times(a));
                let b1 = T::two().neg().times(omega_c);
                let b2 = T::one().minus(alpha.times(a));
                let a0 = T::one().plus(alpha.over(a));
                let a1 = T::two().neg().times(omega_c);
                let a2 = T::one().minus(alpha.over(a));

                Ok(
                    Coefficients {
                        a1: a1.over(a0),
                        a2: a2.over(a0),
                        b0: b0.over(a0),
                        b1: b1.over(a0),
                        b2: b2.over(a0),
                    },
                )
            },
        }
    }
}

} // verus!
