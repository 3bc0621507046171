//! Frame-accurate broadcast timecode model.
//!
//! The crate represents timecodes (hours, minutes, seconds and a sub-second
//! fraction), converts raw frame counts and wall-clock durations into that
//! representation, decodes the SMPTE 12M and SMPTE 331M binary wire formats
//! as well as the flat EBU STL time-and-control field, turns a timecode back
//! into an exact rational duration, and formats timecodes for display.
//!
//! The mapping from a nominal frame rate to its exact frames-per-second
//! ratio is supplied by the `frame-rate` crate; everything computed from
//! that table is verified here.

mod convert;
mod decode;
mod display;
mod fraction;
mod rate;
mod rational;
mod timecode;
mod timecode_frames;

pub use convert::lemma_exact_duration_round_trip;
pub use convert::lemma_exact_round_trip;
pub use convert::lemma_frame_field;
pub use decode::lemma_smpte_331m_embeds_smpte_12m;
pub use fraction::Fraction;
pub use rate::FrameRate;
pub use rational::Rational;
pub use timecode::Timecode;
pub use timecode_frames::TimecodeFrames;
