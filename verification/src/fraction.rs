use crate::timecode_frames::TimecodeFrames;
use vstd::prelude::*;

verus! {

/// The sub-second part of a timecode: either a frame count bound to a frame
/// rate, or a plain millisecond count. Exactly one representation is active.
///
/// A millisecond value is expected to lie below 1000; values produced by the
/// duration conversion always do.
#[derive(Clone, Copy, Debug, PartialEq, Eq, Structural)]
pub enum Fraction {
    Frames(TimecodeFrames),
    MilliSeconds(u16),
}

impl Fraction {
    /// Separator written between the seconds field and the fractional field:
    /// the frame-count separator for frames, `.` for milliseconds.
    pub open spec fn spec_separator(self) -> char {
        match self {
            Fraction::Frames(timecode_frames) => timecode_frames.spec_separator(),
            Fraction::MilliSeconds(_) => '.',
        }
    }

    /// Width of the formatted fractional field.
    pub open spec fn spec_number_of_digits(self) -> usize {
        match self {
            Fraction::Frames(_) => 2,
            Fraction::MilliSeconds(_) => 3,
        }
    }

    pub fn number_of_digits(&self) -> (n: usize)
        ensures
            n == self.spec_number_of_digits(),
    {
        match self {
            Fraction::Frames(timecode_frames) => timecode_frames.number_of_digits(),
            Fraction::MilliSeconds(_) => 3,
        }
    }

    pub fn separator(&self) -> (c: char)
        ensures
            c == self.spec_separator(),
    {
        match self {
            Fraction::Frames(timecode_frames) => timecode_frames.separator(),
            Fraction::MilliSeconds(_) => '.',
        }
    }
}

} // verus!
