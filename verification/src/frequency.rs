//! A semantic wrapper for a frequency expressed in Hertz.

use vstd::prelude::*;

verus! {

/// A frequency in Hertz. Immutable once constructed; the engine only ever
/// reads the magnitude back out.
#[derive(Clone, Copy, Debug)]
pub struct Hertz<T> {
    hz: T,
}

impl<T: Copy> Hertz<T> {
    /// The magnitude in Hertz held by this wrapper.
    pub closed spec fn spec_hz(self) -> T {
        self.hz
    }

    /// Wraps a magnitude in Hertz.
    pub fn from_hz(hz: T) -> (r: Self)
        ensures
            r.spec_hz() == hz,
    {
        Hertz { hz }
    }

    /// Reads the magnitude in Hertz back out.
    pub fn hz(&self) -> (r: T)
        ensures
            r == self.spec_hz(),
    {
        self.hz
    }
}

} // verus!
