use crate::fraction::Fraction;
use crate::rate::FrameRate;
use crate::rational::Rational;
use crate::timecode::Timecode;
use crate::timecode_frames::TimecodeFrames;
use vstd::arithmetic::div_mod::{
    lemma_div_denominator, lemma_div_pos_is_pos, lemma_fundamental_div_mod, lemma_mod_bound,
    lemma_mod_mod, lemma_multiply_divide_lt, lemma_small_mod,
};
use vstd::prelude::*;

verus! {

impl Timecode {
    /// Hours extracted from a frame count `n` at `f` whole frames per
    /// second. Each of the four time units is computed from the original
    /// frame count, not from a running remainder.
    pub open spec fn spec_hours_value(n: int, f: int) -> int {
        n / (3600 * f)
    }

    pub open spec fn spec_minutes_value(n: int, f: int) -> int {
        n / (60 * f) - Self::spec_hours_value(n, f) * 60
    }

    pub open spec fn spec_seconds_value(n: int, f: int) -> int {
        n / f - Self::spec_minutes_value(n, f) * 60 - Self::spec_hours_value(n, f) * 3600
    }

    pub open spec fn spec_frames_value(n: int, f: int) -> int {
        n - Self::spec_seconds_value(n, f) * f - Self::spec_minutes_value(n, f) * 60 * f
            - Self::spec_hours_value(n, f) * 3600 * f
    }

    /// The timecode denoted by a raw frame count at a nominal rate: the
    /// count is decomposed with the rate's whole frames-per-second value,
    /// each unit is narrowed to 8 bits (values of 256 and above wrap
    /// silently, which only the hours can reach), and the flag bits default
    /// to clear.
    pub open spec fn spec_from_frames(number_of_frames: u32, frame_rate: FrameRate) -> Timecode {
        let f = frame_rate.fps() as int;
        let n = number_of_frames as int;
        Timecode {
            hours: (Self::spec_hours_value(n, f) % 256) as u8,
            minutes: (Self::spec_minutes_value(n, f) % 256) as u8,
            seconds: (Self::spec_seconds_value(n, f) % 256) as u8,
            fraction: Fraction::Frames(
                TimecodeFrames {
                    frame_rate,
                    number_of_frames: (Self::spec_frames_value(n, f) % 256) as u8,
                    drop_frame: false,
                    color_frame: false,
                },
            ),
        }
    }

    /// The timecode denoted by a wall-clock duration in whole milliseconds:
    /// hours (wrapping at 256), minutes and seconds of the whole-second
    /// part, and the sub-second remainder as a millisecond fraction.
    pub open spec fn spec_from_duration(milliseconds: u64) -> Timecode {
        let total_seconds = milliseconds as int / 1000;
        Timecode {
            hours: ((total_seconds / 3600) % 256) as u8,
            minutes: ((total_seconds % 3600) / 60) as u8,
            seconds: (total_seconds % 60) as u8,
            fraction: Fraction::MilliSeconds((milliseconds as int % 1000) as u16),
        }
    }

    /// Whole seconds denoted by the hour, minute and second fields.
    pub open spec fn spec_whole_seconds(self) -> int {
        (self.hours as int * 60 + self.minutes as int) * 60 + self.seconds as int
    }

    /// The exact duration in seconds denoted by this timecode, as a
    /// rational number: the whole seconds plus, for a frame-granular
    /// fraction, the frame count times the exact frame duration (the
    /// reciprocal of the rate's true ratio), or, for a millisecond fraction,
    /// the milliseconds over 1000.
    pub open spec fn spec_to_rational(self) -> Rational {
        match self.fraction {
            Fraction::Frames(tf) => Rational {
                numer: (self.spec_whole_seconds() * tf.frame_rate.numerator()
                    + tf.number_of_frames * tf.frame_rate.denominator()) as u64,
                denom: tf.frame_rate.numerator() as u64,
            },
            Fraction::MilliSeconds(ms) => Rational {
                numer: (self.spec_whole_seconds() * 1000 + ms) as u64,
                denom: 1000u64,
            },
        }
    }

    pub fn from_frames(number_of_frames: u32, frame_rate: FrameRate) -> (r: Timecode)
        ensures
            r == Self::spec_from_frames(number_of_frames, frame_rate),
    {
        let fps = frame_rate.frames_per_second();
        proof {
            lemma_frame_decomposition(number_of_frames as int, fps as int);
        }

        let hours = number_of_frames / (60 * 60 * fps);
        let minutes = number_of_frames / (60 * fps) - hours * 60;
        let seconds = (number_of_frames / fps) - minutes * 60 - hours * 60 * 60;
        let frames = number_of_frames - seconds * fps - minutes * 60 * fps - hours * 60 * 60
            * fps;

        let fraction = Fraction::Frames(
            TimecodeFrames::new(frame_rate, (frames % 256) as u8, false, false),
        );

        Timecode {
            hours: (hours % 256) as u8,
            minutes: (minutes % 256) as u8,
            seconds: (seconds % 256) as u8,
            fraction,
        }
    }

    pub fn from_duration(milliseconds: u64) -> (r: Timecode)
        ensures
            r == Self::spec_from_duration(milliseconds),
    {
        let remaining = milliseconds / 1000;
        let hours = ((remaining / 3600) % 256) as u8;
        let remaining = remaining % 3600;
        let minutes = (remaining / 60) as u8;
        let seconds = (remaining % 60) as u8;
        proof {
            lemma_mod_bound(milliseconds as int / 1000, 3600);
            lemma_mod_mod(milliseconds as int / 1000, 60, 60);
            lemma_mod_bound((milliseconds as int / 1000) % 3600, 60);
        }
        let fraction = Fraction::MilliSeconds((milliseconds % 1000) as u16);

        Self { hours, minutes, seconds, fraction }
    }

    /// Whole seconds denoted by the hour, minute and second fields, the
    /// sub-second fraction left aside.
    pub fn whole_seconds(&self) -> (s: u64)
        ensures
            s == self.spec_whole_seconds(),
    {
        (self.hours as u64 * 60 + self.minutes as u64) * 60 + self.seconds as u64
    }

    pub fn to_rational(&self) -> (r: Rational)
        ensures
            r == self.spec_to_rational(),
            r.is_valid(),
    {
        let whole_seconds = self.whole_seconds();
        match &self.fraction {
            Fraction::Frames(tf) => {
                let (numerator, denominator) = tf.frame_rate().to_rational();
                proof {
                    crate::rate::lemma_rate_table_bounds(tf.frame_rate);
                    assert(whole_seconds * numerator <= 933555 * 60000) by (nonlinear_arith)
                        requires
                            whole_seconds <= 933555,
                            numerator <= 60000,
                    ;
                    assert(tf.number_of_frames * denominator <= 255 * 1001) by (nonlinear_arith)
                        requires
                            tf.number_of_frames <= 255,
                            denominator <= 1001,
                    ;
                }
                let numer = whole_seconds * (numerator as u64) + (tf.number_of_frames() as u64)
                    * (denominator as u64);
                Rational::new(numer, numerator as u64)
            },
            Fraction::MilliSeconds(milli_seconds) => {
                Rational::new(whole_seconds * 1000 + *milli_seconds as u64, 1000)
            },
        }
    }
}

/// Soundness of the order-sensitive decomposition of a frame count `n` into
/// hours, minutes, seconds and frames at `f` whole frames per second: each
/// unit is computed from the original count, the minute and second fields
/// stay below 60, the frame field equals `n % f`, and the subtractions the
/// decomposition performs can never underflow.
proof fn lemma_frame_decomposition(n: int, f: int)
    requires
        0 <= n,
        1 <= f,
    ensures
        0 <= Timecode::spec_hours_value(n, f),
        Timecode::spec_hours_value(n, f) == (n / f) / 3600,
        0 <= Timecode::spec_minutes_value(n, f) < 60,
        0 <= Timecode::spec_seconds_value(n, f) < 60,
        0 <= Timecode::spec_frames_value(n, f) < f,
        Timecode::spec_frames_value(n, f) == n % f,
        Timecode::spec_hours_value(n, f) * 60 <= n / (60 * f),
        Timecode::spec_minutes_value(n, f) * 60 + Timecode::spec_hours_value(n, f) * 3600 <= n
            / f,
        Timecode::spec_seconds_value(n, f) * f + Timecode::spec_minutes_value(n, f) * 60 * f
            + Timecode::spec_hours_value(n, f) * 3600 * f <= n,
        Timecode::spec_seconds_value(n, f) + Timecode::spec_minutes_value(n, f) * 60
            + Timecode::spec_hours_value(n, f) * 3600 == n / f,
{
    let q = n / f;
    let p = q / 60;
    let h = Timecode::spec_hours_value(n, f);
    let m = Timecode::spec_minutes_value(n, f);
    let s = Timecode::spec_seconds_value(n, f);

    lemma_div_pos_is_pos(n, f);
    lemma_div_pos_is_pos(q, 60);
    lemma_div_pos_is_pos(p, 60);
    lemma_div_denominator(n, f, 60);
    lemma_div_denominator(n, f, 3600);
    lemma_div_denominator(q, 60, 60);
    lemma_fundamental_div_mod(q, 60);
    lemma_fundamental_div_mod(p, 60);
    lemma_fundamental_div_mod(n, f);
    lemma_mod_bound(q, 60);
    lemma_mod_bound(p, 60);
    lemma_mod_bound(n, f);

    assert(h == p / 60);
    assert(m == p % 60);
    assert(s == q % 60);
    assert(s + m * 60 + h * 3600 == q);
    assert(s * f + m * 60 * f + h * 3600 * f == q * f) by (nonlinear_arith)
        requires
            s + m * 60 + h * 3600 == q,
    ;
    assert(q * f == f * q) by (nonlinear_arith);
}

/// The frame field of a converted frame count: for every count `n` and
/// every rate, the decomposition stores `n` modulo the rate's whole
/// frames-per-second value, which always fits its 8-bit field.
pub proof fn lemma_frame_field(n: u32, frame_rate: FrameRate)
    ensures
        Timecode::spec_from_frames(n, frame_rate).fraction matches Fraction::Frames(tf)
            && tf.number_of_frames == n as int % frame_rate.fps() as int,
{
    let f = frame_rate.fps() as int;
    crate::rate::lemma_fps_bounds(frame_rate);
    lemma_frame_decomposition(n as int, f);
    lemma_small_mod(Timecode::spec_frames_value(n as int, f) as nat, 256);
}

/// Exact round trip of a wall-clock duration: converting a millisecond
/// count below the 8-bit hour limit into a timecode and taking that
/// timecode's exact rational duration yields precisely the original
/// milliseconds over 1000, with no drift.
pub proof fn lemma_exact_duration_round_trip(milliseconds: u64)
    requires
        milliseconds < 256 * 3600 * 1000,
    ensures
        Timecode::spec_from_duration(milliseconds).spec_to_rational() == (Rational {
            numer: milliseconds,
            denom: 1000u64,
        }),
{
    let ms = milliseconds as int;
    let secs = ms / 1000;
    lemma_div_pos_is_pos(ms, 1000);
    lemma_fundamental_div_mod(ms, 1000);
    lemma_fundamental_div_mod(secs, 3600);
    lemma_fundamental_div_mod(secs % 3600, 60);
    lemma_mod_mod(secs, 60, 60);
    lemma_mod_bound(ms, 1000);
    lemma_mod_bound(secs, 3600);
    lemma_mod_bound(secs % 3600, 60);
    lemma_mod_bound(secs, 60);
    lemma_div_pos_is_pos(secs % 3600, 60);
    lemma_div_pos_is_pos(secs, 3600);
    assert(ms < 1000 * (256 * 3600)) by (nonlinear_arith)
        requires
            ms < 256 * 3600 * 1000,
    ;
    lemma_multiply_divide_lt(ms, 1000, 256int * 3600);
    lemma_multiply_divide_lt(secs, 3600, 256int);
    lemma_small_mod((secs / 3600) as nat, 256);

    let tc = Timecode::spec_from_duration(milliseconds);
    assert((secs % 3600) / 60 < 60) by {
        lemma_multiply_divide_lt(secs % 3600, 60, 60int);
    }
    assert(tc.spec_whole_seconds() == secs);
}

/// Exact round trip at an integer frame rate: converting a frame count `n`
/// below the 8-bit hour limit into a timecode and taking that timecode's
/// exact rational duration yields precisely `n` frame durations, the
/// fraction `n / f`, and the timecode's frame field holds `n % f`.
pub proof fn lemma_exact_round_trip(n: u32, frame_rate: FrameRate)
    requires
        frame_rate.is_integer_rate(),
        n < 256 * 3600 * frame_rate.fps(),
    ensures
        Timecode::spec_from_frames(n, frame_rate).spec_to_rational() == (Rational {
            numer: n as u64,
            denom: frame_rate.numerator() as u64,
        }),
        Timecode::spec_from_frames(n, frame_rate).fraction matches Fraction::Frames(tf)
            && tf.number_of_frames == n as int % frame_rate.fps() as int,
{
    let f = frame_rate.fps() as int;
    assert(frame_rate.computational() == frame_rate && f == frame_rate.numerator()) by {
        match frame_rate {
            FrameRate::_24_00 => {},
            FrameRate::_25_00 => {},
            FrameRate::_30_00 => {},
            FrameRate::_50_00 => {},
            FrameRate::_60_00 => {},
            FrameRate::_120_00 => {},
            FrameRate::_23_97 => {},
            FrameRate::_24_97 => {},
            FrameRate::_29_97 => {},
            FrameRate::_59_94 => {},
        }
    }
    lemma_frame_decomposition(n as int, f);
    let h = Timecode::spec_hours_value(n as int, f);
    let m = Timecode::spec_minutes_value(n as int, f);
    let s = Timecode::spec_seconds_value(n as int, f);
    let fr = Timecode::spec_frames_value(n as int, f);
    let q = n as int / f;

    assert(n < f * (256 * 3600)) by (nonlinear_arith)
        requires
            n < 256 * 3600 * f,
    ;
    lemma_multiply_divide_lt(n as int, f, 256int * 3600);
    lemma_multiply_divide_lt(q, 3600, 256int);
    assert(h < 256);
    lemma_small_mod(h as nat, 256);
    lemma_small_mod(m as nat, 256);
    lemma_small_mod(s as nat, 256);
    lemma_small_mod(fr as nat, 256);

    let tc = Timecode::spec_from_frames(n, frame_rate);
    assert(tc.spec_whole_seconds() == q);
    lemma_fundamental_div_mod(n as int, f);
    assert(q * f == f * q) by (nonlinear_arith);
    assert(tc.spec_whole_seconds() * frame_rate.numerator() + fr * frame_rate.denominator()
        == n);
}

} // verus!
