//! Display colors carried by chat messages as six hexadecimal digits.

use vstd::prelude::*;
use vstd::string::StringSliceAdditionalSpecFns;

verus! {

/// A 24-bit color.
#[derive(Clone, Copy, Debug, PartialEq, Eq, Structural)]
pub struct Rgb {
    pub r: u8,
    pub g: u8,
    pub b: u8,
}

/// The channel value used wherever a channel cannot be read.
pub const BRIGHT: u8 = 255;

/// The value of one hexadecimal digit, in either case.
pub open spec fn hex_digit(b: u8) -> Option<int> {
    if 0x30 <= b <= 0x39 {
        Some(b - 0x30)
    } else if 0x61 <= b <= 0x66 {
        Some(b - 0x61 + 10)
    } else if 0x41 <= b <= 0x46 {
        Some(b - 0x41 + 10)
    } else {
        None
    }
}

/// The number written by the two bytes `hi lo` in base 16: two digits, or a
/// plus sign followed by one digit.
pub open spec fn parse_channel(hi: u8, lo: u8) -> Option<int> {
    match (hex_digit(hi), hex_digit(lo)) {
        (Some(h), Some(l)) => Some(16 * h + l),
        (None, Some(l)) => if hi == 0x2b {
            Some(l)
        } else {
            None
        },
        _ => None,
    }
}

/// One channel of a color: the parsed number, or `BRIGHT` where the two
/// bytes do not parse.
pub open spec fn channel(hi: u8, lo: u8) -> int {
    match parse_channel(hi, lo) {
        Some(v) => v,
        None => BRIGHT as int,
    }
}

/// The color written by the bytes of a string: three channels when there are
/// exactly six bytes, white otherwise.
pub open spec fn color_of(bytes: Seq<u8>) -> Rgb {
    if bytes.len() == 6 {
        Rgb {
            r: channel(bytes[0], bytes[1]) as u8,
            g: channel(bytes[2], bytes[3]) as u8,
            b: channel(bytes[4], bytes[5]) as u8,
        }
    } else {
        Rgb { r: BRIGHT, g: BRIGHT, b: BRIGHT }
    }
}

fn digit_value(b: u8) -> (d: Option<u8>)
    ensures
        d is Some <==> hex_digit(b) is Some,
        d is Some ==> d->0 as int == hex_digit(b)->0 && d->0 < 16,
{
    if 0x30 <= b && b <= 0x39 {
        Some(b - 0x30)
    } else if 0x61 <= b && b <= 0x66 {
        Some(b - 0x61 + 10)
    } else if 0x41 <= b && b <= 0x46 {
        Some(b - 0x41 + 10)
    } else {
        None
    }
}

/// Reads one channel from its two bytes.
pub fn decode_channel(hi: u8, lo: u8) -> (v: u8)
    ensures
        v as int == channel(hi, lo),
{
    match digit_value(lo) {
        Some(l) => match digit_value(hi) {
            Some(h) => 16 * h + l,
            None => if hi == 0x2b {
                l
            } else {
                BRIGHT
            },
        },
        None => BRIGHT,
    }
}

/// Decodes the color of a message.
pub fn decode_color(hex: &str) -> (rgb: Rgb)
    ensures
        rgb == color_of(hex.spec_bytes()),
{
    let bytes = hex.as_bytes();
    if bytes.len() == 6 {
        Rgb {
            r: decode_channel(bytes[0], bytes[1]),
            g: decode_channel(bytes[2], bytes[3]),
            b: decode_channel(bytes[4], bytes[5]),
        }
    } else {
        Rgb { r: BRIGHT, g: BRIGHT, b: BRIGHT }
    }
}

} // verus!
