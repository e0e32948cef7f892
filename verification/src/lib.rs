//! Coefficient derivation for second-order (and first-order) digital IIR
//! filters, the "biquad" sections with Z-domain transfer function
//!
//! ```text
//!         b0 + b1 * z^-1 + b2 * z^-2
//! H(z) =  --------------------------
//!          1 + a1 * z^-1 + a2 * z^-2
//! ```
//!
//! The engine is generic over the numeric precision: callers supply the
//! arithmetic and transcendental primitives through the [`Real`] trait, and
//! every derivation is specified and verified against the spec-level mirror
//! of those primitives.

use vstd::prelude::*;

pub mod coefficients;
pub mod frequency;
pub mod laws;
pub mod primitives;

pub use coefficients::{Coefficients, RawCoefficients, Type};
pub use frequency::Hertz;
pub use primitives::Real;

verus! {

/// The ways a set of design parameters can be rejected. Both conditions are
/// detected before any formula is evaluated.
#[derive(Clone, Copy, Debug, PartialEq, Eq, Structural)]
pub enum Errors {
    /// The cutoff or center frequency exceeds half the sampling frequency.
    OutsideNyquist,
    /// The quality factor is negative.
    NegativeQ,
}

} // verus!
