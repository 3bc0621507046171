use crate::fraction::Fraction;
use crate::timecode::Timecode;
use crate::timecode_frames::TimecodeFrames;
use vstd::prelude::*;
use vstd::string::StrSliceExecFns;
use vstd::string::StringExecFns;

verus! {

/// The character of a single decimal digit.
pub open spec fn spec_digit_char(d: int) -> char {
    if d == 0 {
        '0'
    } else if d == 1 {
        '1'
    } else if d == 2 {
        '2'
    } else if d == 3 {
        '3'
    } else if d == 4 {
        '4'
    } else if d == 5 {
        '5'
    } else if d == 6 {
        '6'
    } else if d == 7 {
        '7'
    } else if d == 8 {
        '8'
    } else {
        '9'
    }
}

/// The decimal digits of `n`, most significant first, without leading
/// zeros (a lone zero for `n == 0`).
pub open spec fn spec_decimal(n: nat) -> Seq<char>
    decreases n,
{
    if n < 10 {
        seq![spec_digit_char(n as int)]
    } else {
        spec_decimal(n / 10).push(spec_digit_char((n % 10) as int))
    }
}

/// The decimal digits of `n`, left-padded with zeros to at least `width`
/// characters; a value with more digits than `width` keeps them all.
pub open spec fn spec_zero_padded(n: nat, width: nat) -> Seq<char> {
    if spec_decimal(n).len() >= width {
        spec_decimal(n)
    } else {
        Seq::new((width - spec_decimal(n).len()) as nat, |i: int| '0') + spec_decimal(n)
    }
}

/// The single-character string of one decimal digit.
fn digit_str(d: u16) -> (s: &'static str)
    requires
        d < 10,
    ensures
        s@ == seq![spec_digit_char(d as int)],
{
    proof {
        reveal_strlit("0");
        reveal_strlit("1");
        reveal_strlit("2");
        reveal_strlit("3");
        reveal_strlit("4");
        reveal_strlit("5");
        reveal_strlit("6");
        reveal_strlit("7");
        reveal_strlit("8");
        reveal_strlit("9");
    }
    let s: &'static str = match d {
        0 => "0",
        1 => "1",
        2 => "2",
        3 => "3",
        4 => "4",
        5 => "5",
        6 => "6",
        7 => "7",
        8 => "8",
        _ => "9",
    };
    proof {
        assert(s@ =~= seq![spec_digit_char(d as int)]);
    }
    s
}

/// The decimal digits of `n`, most significant first.
fn decimal_string(n: u16) -> (s: String)
    ensures
        s@ == spec_decimal(n as nat),
    decreases n,
{
    let digit = digit_str(n % 10);
    if n < 10 {
        String::from_str(digit)
    } else {
        let mut s = decimal_string(n / 10);
        s.append(digit);
        proof {
            assert(s@ =~= spec_decimal(n as nat));
        }
        s
    }
}

/// The decimal digits of `n`, zero-padded on the left to `width`
/// characters.
fn zero_padded(n: u16, width: usize) -> (s: String)
    ensures
        s@ == spec_zero_padded(n as nat, width as nat),
{
    let digits = decimal_string(n);
    let length = digits.as_str().unicode_len();
    let mut s = String::new();
    let mut i: usize = length;
    proof {
        reveal_strlit("0");
        assert(s@ =~= Seq::new((i - length) as nat, |j: int| '0'));
    }
    while i < width
        invariant
            length <= i,
            i <= width || i == length,
            s@ == Seq::new((i - length) as nat, |j: int| '0'),
        decreases width - i,
    {
        s.append("0");
        i = i + 1;
        proof {
            reveal_strlit("0");
            assert(s@ =~= Seq::new((i - length) as nat, |j: int| '0'));
        }
    }
    s.append(digits.as_str());
    proof {
        assert(s@ =~= spec_zero_padded(n as nat, width as nat));
    }
    s
}

impl TimecodeFrames {
    /// Text of the frame-granular fraction: the drop-frame-dependent
    /// separator followed by the zero-padded frame count.
    pub open spec fn spec_text(self) -> Seq<char> {
        seq![self.spec_separator()] + spec_zero_padded(self.number_of_frames as nat, 2)
    }

    pub fn to_string(&self) -> (s: String)
        ensures
            s@ == self.spec_text(),
    {
        let separator = if self.drop_frame {
            ";"
        } else {
            ":"
        };
        proof {
            reveal_strlit(";");
            reveal_strlit(":");
        }
        let width = self.number_of_digits();
        let mut s = String::from_str(separator);
        s.append(zero_padded(self.number_of_frames as u16, width).as_str());
        proof {
            assert(s@ =~= self.spec_text());
        }
        s
    }
}

impl Fraction {
    /// Text of the fractional field, separator included: the frame text
    /// for frames, or `.` followed by the zero-padded millisecond count.
    pub open spec fn spec_text(self) -> Seq<char> {
        match self {
            Fraction::Frames(timecode_frames) => timecode_frames.spec_text(),
            Fraction::MilliSeconds(milli_seconds) => seq!['.'] + spec_zero_padded(
                milli_seconds as nat,
                3,
            ),
        }
    }

    pub fn to_string(&self) -> (s: String)
        ensures
            s@ == self.spec_text(),
    {
        match self {
            Fraction::Frames(timecode_frames) => timecode_frames.to_string(),
            Fraction::MilliSeconds(milli_seconds) => {
                proof {
                    reveal_strlit(".");
                }
                let width = self.number_of_digits();
                let mut s = String::from_str(".");
                s.append(zero_padded(*milli_seconds, width).as_str());
                proof {
                    assert(s@ =~= self.spec_text());
                }
                s
            },
        }
    }
}

impl Timecode {
    /// Canonical display text: two-digit hours, minutes and seconds joined
    /// by `:`, followed by the fraction's text with its own separator.
    pub open spec fn spec_text(self) -> Seq<char> {
        spec_zero_padded(self.hours as nat, 2) + seq![':'] + spec_zero_padded(
            self.minutes as nat,
            2,
        ) + seq![':'] + spec_zero_padded(self.seconds as nat, 2) + self.fraction.spec_text()
    }

    pub fn to_string(&self) -> (s: String)
        ensures
            s@ == self.spec_text(),
    {
        proof {
            reveal_strlit(":");
        }
        let mut s = zero_padded(self.hours as u16, 2);
        s.append(":");
        s.append(zero_padded(self.minutes as u16, 2).as_str());
        s.append(":");
        s.append(zero_padded(self.seconds as u16, 2).as_str());
        s.append(self.fraction.to_string().as_str());
        proof {
            assert(s@ =~= self.spec_text());
        }
        s
    }
}

} // verus!
