use vstd::prelude::*;

verus! {

/// Closed set of nominal broadcast frame rates, mirroring the rate table of
/// the `frame-rate` crate. Each rate maps to an exact frames-per-second
/// ratio; the ratio, never a floating-point approximation, is the source of
/// truth for duration arithmetic.
#[derive(Clone, Copy, Debug, PartialEq, Eq, Structural)]
pub enum FrameRate {
    _24_00,
    _25_00,
    _30_00,
    _50_00,
    _60_00,
    _120_00,
    _23_97,
    _24_97,
    _29_97,
    _59_94,
}

impl FrameRate {
    /// Numerator of the exact frames-per-second ratio.
    pub open spec fn numerator(self) -> u32 {
        match self {
            FrameRate::_24_00 => 24,
            FrameRate::_25_00 => 25,
            FrameRate::_30_00 => 30,
            FrameRate::_50_00 => 50,
            FrameRate::_60_00 => 60,
            FrameRate::_120_00 => 120,
            FrameRate::_23_97 => 24000,
            FrameRate::_24_97 => 25000,
            FrameRate::_29_97 => 30000,
            FrameRate::_59_94 => 60000,
        }
    }

    /// Denominator of the exact frames-per-second ratio.
    pub open spec fn denominator(self) -> u32 {
        match self {
            FrameRate::_23_97 => 1001,
            FrameRate::_24_97 => 1001,
            FrameRate::_29_97 => 1001,
            FrameRate::_59_94 => 1001,
            _ => 1,
        }
    }

    /// A rate whose frames-per-second ratio is a whole number.
    pub open spec fn is_integer_rate(self) -> bool {
        self.denominator() == 1
    }

    /// The rate whose whole frames-per-second count drives the decomposition
    /// of a frame count into hours, minutes, seconds and frames: a
    /// non-integer rate is decomposed with its parent integer rate (23.976
    /// with 24, and so on), while exact duration arithmetic keeps the true
    /// ratio.
    pub open spec fn computational(self) -> FrameRate {
        match self {
            FrameRate::_23_97 => FrameRate::_24_00,
            FrameRate::_24_97 => FrameRate::_25_00,
            FrameRate::_29_97 => FrameRate::_30_00,
            FrameRate::_59_94 => FrameRate::_60_00,
            _ => self,
        }
    }

    /// Whole frames-per-second count used by the frame-count decomposition.
    pub open spec fn fps(self) -> u32 {
        (self.computational().numerator() / self.computational().denominator()) as u32
    }

    /// Relies on the `frame-rate` crate's conversion of a nominal rate into a
    /// `Ratio<u32>` (`From<FrameRate> for Ratio<u32>`) together with
    /// `Ratio::numer` and `Ratio::denom`: the table maps the integer rates to
    /// `n/1` and the NTSC-derived rates to `24000/1001`, `25000/1001`,
    /// `30000/1001` and `60000/1001`, all already in lowest terms.
    #[verifier::external_body]
    fn rational_from_table(&self) -> (r: (u32, u32))
        ensures
            r.0 == self.numerator(),
            r.1 == self.denominator(),
    {
        let nominal = match self {
            FrameRate::_24_00 => frame_rate::FrameRate::_24_00,
            FrameRate::_25_00 => frame_rate::FrameRate::_25_00,
            FrameRate::_30_00 => frame_rate::FrameRate::_30_00,
            FrameRate::_50_00 => frame_rate::FrameRate::_50_00,
            FrameRate::_60_00 => frame_rate::FrameRate::_60_00,
            FrameRate::_120_00 => frame_rate::FrameRate::_120_00,
            FrameRate::_23_97 => frame_rate::FrameRate::_23_97,
            FrameRate::_24_97 => frame_rate::FrameRate::_24_97,
            FrameRate::_29_97 => frame_rate::FrameRate::_29_97,
            FrameRate::_59_94 => frame_rate::FrameRate::_59_94,
        };
        let ratio: frame_rate::Ratio<u32> = nominal.into();
        (*ratio.numer(), *ratio.denom())
    }

    /// Exact frames-per-second ratio of this rate, as a
    /// (numerator, denominator) pair.
    pub fn to_rational(&self) -> (r: (u32, u32))
        ensures
            r.0 == self.numerator(),
            r.1 == self.denominator(),
            r.1 >= 1,
    {
        self.rational_from_table()
    }

    /// The rate used for frame-count decomposition; see [`Self::computational`].
    pub fn computational_rate(&self) -> (r: FrameRate)
        ensures
            r == self.computational(),
            r.is_integer_rate(),
    {
        match self {
            FrameRate::_23_97 => FrameRate::_24_00,
            FrameRate::_24_97 => FrameRate::_25_00,
            FrameRate::_29_97 => FrameRate::_30_00,
            FrameRate::_59_94 => FrameRate::_60_00,
            _ => *self,
        }
    }

    /// Whole frames-per-second count used by the frame-count decomposition.
    pub fn frames_per_second(&self) -> (f: u32)
        ensures
            f == self.fps(),
            24 <= f <= 120,
    {
        let computational = self.computational_rate();
        let (numerator, denominator) = computational.to_rational();
        numerator / denominator
    }
}

/// The whole frames-per-second count of every nominal rate lies between 24
/// and 120.
pub proof fn lemma_fps_bounds(frame_rate: FrameRate)
    ensures
        24 <= frame_rate.fps() <= 120,
{
    let computational = frame_rate.computational();
    assert(computational.numerator() / computational.denominator() == frame_rate.fps());
    match frame_rate {
        FrameRate::_24_00 => assert(computational == FrameRate::_24_00),
        FrameRate::_25_00 => assert(computational == FrameRate::_25_00),
        FrameRate::_30_00 => assert(computational == FrameRate::_30_00),
        FrameRate::_50_00 => assert(computational == FrameRate::_50_00),
        FrameRate::_60_00 => assert(computational == FrameRate::_60_00),
        FrameRate::_120_00 => assert(computational == FrameRate::_120_00),
        FrameRate::_23_97 => assert(computational == FrameRate::_24_00),
        FrameRate::_24_97 => assert(computational == FrameRate::_25_00),
        FrameRate::_29_97 => assert(computational == FrameRate::_30_00),
        FrameRate::_59_94 => assert(computational == FrameRate::_60_00),
    }
    assert(computational.denominator() == 1 && 24 <= computational.numerator() <= 120);
    vstd::arithmetic::div_mod::lemma_div_basics(computational.numerator() as int);
}

/// The rate table's range: every nominal rate has a numerator between 24
/// and 60000 and a denominator of 1 or 1001.
pub proof fn lemma_rate_table_bounds(frame_rate: FrameRate)
    ensures
        24 <= frame_rate.numerator() <= 60000,
        1 <= frame_rate.denominator() <= 1001,
{
}

} // verus!
