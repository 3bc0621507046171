use crate::fraction::Fraction;
use crate::rate::FrameRate;
use crate::timecode::Timecode;
use crate::timecode_frames::TimecodeFrames;
use vstd::prelude::*;

verus! {

impl Timecode {
    /// The two-digit value packed into one byte of a SMPTE 12M word: the
    /// tens digit sits in the bits selected by `mask_tens` (above the low
    /// nibble), the units digit in the low nibble. No range check is applied:
    /// a byte whose tens bits exceed the field's nominal range decodes to an
    /// out-of-range value and is passed through as such.
    pub open spec fn spec_get_number(data: u8, mask_tens: u8) -> u8 {
        (10 * ((data & mask_tens) >> 4) + (data & 0x0F)) as u8
    }

    /// A SMPTE 12M timecode word: frame count and flag bits, seconds,
    /// minutes, hours, one byte each, each field decoded as
    /// `10 * tens + units` without range clamping. Inputs shorter than four
    /// bytes decode to nothing; extra bytes are ignored.
    pub open spec fn spec_parse_smpte_12m(data: Seq<u8>, frame_rate: FrameRate) -> Option<
        Timecode,
    > {
        if data.len() < 4 {
            None
        } else {
            Some(
                Timecode {
                    hours: Self::spec_get_number(data[3], 0x30),
                    minutes: Self::spec_get_number(data[2], 0x70),
                    seconds: Self::spec_get_number(data[1], 0x70),
                    fraction: Fraction::Frames(
                        TimecodeFrames {
                            frame_rate,
                            number_of_frames: Self::spec_get_number(data[0], 0x30),
                            drop_frame: (data[0] & 0x40) != 0,
                            color_frame: (data[0] & 0x80) != 0,
                        },
                    ),
                },
            )
        }
    }

    /// A SMPTE 331M ancillary packet: exactly 17 bytes whose first byte is
    /// the marker `0x81`, followed by a SMPTE 12M word. Any other length or
    /// marker decodes to nothing.
    pub open spec fn spec_parse_smpte_331m(data: Seq<u8>, frame_rate: FrameRate) -> Option<
        Timecode,
    > {
        if data.len() == 17 && data[0] == 0x81 {
            Self::spec_parse_smpte_12m(data.subrange(1, 17), frame_rate)
        } else {
            None
        }
    }

    /// An EBU STL time-and-control field: four raw bytes mapped directly to
    /// hours, minutes, seconds and frame count, with both flag bits clear.
    pub open spec fn spec_from_ebu(data: Seq<u8>, frame_rate: FrameRate) -> Timecode {
        Timecode {
            hours: data[0],
            minutes: data[1],
            seconds: data[2],
            fraction: Fraction::Frames(
                TimecodeFrames {
                    frame_rate,
                    number_of_frames: data[3],
                    drop_frame: false,
                    color_frame: false,
                },
            ),
        }
    }

    pub fn get_number(data: u8, mask_tens: u8) -> (r: u8)
        ensures
            r == Self::spec_get_number(data, mask_tens),
    {
        let mask_unit: u8 = 0x0F;

        let tens = (data & mask_tens) >> 4;
        let unit = data & mask_unit;
        proof {
            assert((data & mask_tens) >> 4 <= 15 && data & 0x0F <= 15) by (bit_vector);
        }

        (10 * tens) + unit
    }

    pub fn parse_smpte_12m(data: &[u8], frame_rate: FrameRate) -> (r: Option<Self>)
        ensures
            r == Self::spec_parse_smpte_12m(data@, frame_rate),
    {
        if data.len() < 4 {
            return None;
        }

        let mask_tens_2: u8 = 0b0011_0000;
        let mask_tens_3: u8 = 0b0111_0000;
        let color_frame = (data[0] & 0b1000_0000) != 0;
        let drop_frame = (data[0] & 0b0100_0000) != 0;

        let fraction = Fraction::Frames(
            TimecodeFrames::new(
                frame_rate,
                Self::get_number(data[0], mask_tens_2),
                drop_frame,
                color_frame,
            ),
        );
        let seconds = Self::get_number(data[1], mask_tens_3);
        let minutes = Self::get_number(data[2], mask_tens_3);
        let hours = Self::get_number(data[3], mask_tens_2);

        Some(Self { hours, minutes, seconds, fraction })
    }

    pub fn parse_smpte_331m(data: &[u8], frame_rate: FrameRate) -> (r: Option<Self>)
        ensures
            r == Self::spec_parse_smpte_331m(data@, frame_rate),
    {
        if data.len() != 17 {
            return None;
        }
        match data[0] {
            0x81 => Self::parse_smpte_12m(&data[1..17], frame_rate),
            _ => None,
        }
    }

    /// Timecode of the time-and-control field of an EBU STL subtitle block.
    pub fn from_ebu_smpte_time_and_control(data: &[u8; 4], frame_rate: FrameRate) -> (r: Self)
        ensures
            r == Self::spec_from_ebu(data@, frame_rate),
    {
        let fraction = Fraction::Frames(TimecodeFrames::new(frame_rate, data[3], false, false));

        Self { hours: data[0], minutes: data[1], seconds: data[2], fraction }
    }
}

/// A SMPTE 331M packet carries an embedded SMPTE 12M word: whenever a packet
/// decodes to a timecode, that timecode is exactly the SMPTE 12M decoding of
/// the packet's remaining sixteen bytes, and a packet of any other length or
/// leading byte decodes to nothing.
pub proof fn lemma_smpte_331m_embeds_smpte_12m(data: Seq<u8>, frame_rate: FrameRate)
    ensures
        Timecode::spec_parse_smpte_331m(data, frame_rate) == if data.len() == 17 && data[0]
            == 0x81 {
            Timecode::spec_parse_smpte_12m(data.subrange(1, 17), frame_rate)
        } else {
            Option::<Timecode>::None
        },
{
}

} // verus!
