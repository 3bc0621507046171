use crate::fraction::Fraction;
use vstd::prelude::*;

verus! {

/// A broadcast timecode: hours, minutes and seconds stored as 8-bit
/// integers, plus a sub-second [`Fraction`].
///
/// Minutes and seconds are expected to lie below 60, but neither the
/// constructor nor the binary decoders enforce it: out-of-range values
/// decoded from malformed timecode words are passed through unchanged, and
/// conversion results that exceed the 8-bit range wrap silently. Values are
/// immutable and compare structurally.
#[derive(Clone, Copy, Debug, PartialEq, Eq, Structural)]
pub struct Timecode {
    pub hours: u8,
    pub minutes: u8,
    pub seconds: u8,
    pub fraction: Fraction,
}

impl Timecode {
    pub fn new(hours: u8, minutes: u8, seconds: u8, fraction: Fraction) -> (r: Self)
        ensures
            r == (Timecode { hours, minutes, seconds, fraction }),
    {
        Self { hours, minutes, seconds, fraction }
    }

    pub fn hours(&self) -> (h: u8)
        ensures
            h == self.hours,
    {
        self.hours
    }

    pub fn minutes(&self) -> (m: u8)
        ensures
            m == self.minutes,
    {
        self.minutes
    }

    pub fn seconds(&self) -> (s: u8)
        ensures
            s == self.seconds,
    {
        self.seconds
    }

    pub fn fraction(&self) -> (f: &Fraction)
        ensures
            f == &self.fraction,
    {
        &self.fraction
    }
}

} // verus!
