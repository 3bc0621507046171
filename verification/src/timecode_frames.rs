use crate::rate::FrameRate;
use vstd::prelude::*;

verus! {

/// The frame-granular sub-second part of a timecode: a frame count bound to
/// its frame rate, plus the drop-frame and color-frame flag bits.
///
/// The frame count is expected to stay below the rate's whole
/// frames-per-second count, but values decoded from binary timecode words are
/// passed through unvalidated, so the invariant is documented rather than
/// enforced.
#[derive(Clone, Copy, Debug, PartialEq, Eq, Structural)]
pub struct TimecodeFrames {
    pub frame_rate: FrameRate,
    pub number_of_frames: u8,
    pub drop_frame: bool,
    pub color_frame: bool,
}

impl TimecodeFrames {
    /// Separator written between the seconds field and the frame count:
    /// `;` for drop-frame timecode, `:` otherwise.
    pub open spec fn spec_separator(self) -> char {
        if self.drop_frame {
            ';'
        } else {
            ':'
        }
    }

    pub fn new(
        frame_rate: FrameRate,
        number_of_frames: u8,
        drop_frame: bool,
        color_frame: bool,
    ) -> (r: Self)
        ensures
            r == (TimecodeFrames { frame_rate, number_of_frames, drop_frame, color_frame }),
    {
        Self { frame_rate, number_of_frames, drop_frame, color_frame }
    }

    pub fn frame_rate(&self) -> (r: FrameRate)
        ensures
            r == self.frame_rate,
    {
        self.frame_rate
    }

    pub fn number_of_frames(&self) -> (n: u8)
        ensures
            n == self.number_of_frames,
    {
        self.number_of_frames
    }

    pub fn drop_frame(&self) -> (b: bool)
        ensures
            b == self.drop_frame,
    {
        self.drop_frame
    }

    pub fn color_frame(&self) -> (b: bool)
        ensures
            b == self.color_frame,
    {
        self.color_frame
    }

    /// Width of the formatted frame-count field.
    pub fn number_of_digits(&self) -> (n: usize)
        ensures
            n == 2,
    {
        2
    }

    pub fn separator(&self) -> (c: char)
        ensures
            c == self.spec_separator(),
    {
        if self.drop_frame {
            ';'
        } else {
            ':'
        }
    }
}

} // verus!
