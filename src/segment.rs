use vstd::prelude::*;

verus! {

/// How the display module is mounted.
///
/// `Inverted` means rotated by 180 degrees: every digit is drawn with a
/// different segment wiring and the digit registers run the other way.
#[derive(Clone, Copy, Debug, PartialEq, Eq, Structural)]
pub enum DigitOrientation {
    Normal,
    Inverted,
}

/// Segment bitmap of a decimal digit on an upright module; 0 (blank)
/// for anything that is not a decimal digit.
pub open spec fn normal_segments(digit: u8) -> u8 {
    if digit == 0 { 126 }
    else if digit == 1 { 48 }
    else if digit == 2 { 109 }
    else if digit == 3 { 121 }
    else if digit == 4 { 51 }
    else if digit == 5 { 91 }
    else if digit == 6 { 95 }
    else if digit == 7 { 112 }
    else if digit == 8 { 127 }
    else if digit == 9 { 123 }
    else { 0 }
}

/// Segment bitmap of a decimal digit on a module mounted upside down;
/// 0 (blank) for anything that is not a decimal digit.
pub open spec fn inverted_segments(digit: u8) -> u8 {
    if digit == 0 { 126 }
    else if digit == 1 { 6 }
    else if digit == 2 { 109 }
    else if digit == 3 { 79 }
    else if digit == 4 { 23 }
    else if digit == 5 { 91 }
    else if digit == 6 { 123 }
    else if digit == 7 { 14 }
    else if digit == 8 { 127 }
    else if digit == 9 { 95 }
    else { 0 }
}

/// The segment bitmap of `digit` for the given orientation, without
/// the decimal point.
pub open spec fn digit_segments(digit: u8, orientation: DigitOrientation) -> u8 {
    match orientation {
        DigitOrientation::Normal => normal_segments(digit),
        DigitOrientation::Inverted => inverted_segments(digit),
    }
}

/// The byte written to a digit register: the digit's bitmap, plus one
/// when the decimal point is lit. A value that is not a decimal digit
/// is blank, decimal point included.
pub open spec fn encoded_digit(digit: u8, orientation: DigitOrientation, dp: bool) -> u8 {
    if digit > 9 {
        0
    } else if dp {
        (digit_segments(digit, orientation) + 1) as u8
    } else {
        digit_segments(digit, orientation)
    }
}

/// Encodes one decimal digit as the segment bitmap of a digit register.
pub fn decode_digit(digit: u8, orientation: DigitOrientation, dp: bool) -> (r: u8)
    ensures
        r == encoded_digit(digit, orientation, dp),
{
    let base: u8 = match orientation {
        DigitOrientation::Normal => match digit {
            0 => 126,
            1 => 48,
            2 => 109,
            3 => 121,
            4 => 51,
            5 => 91,
            6 => 95,
            7 => 112,
            8 => 127,
            9 => 123,
            _ => 0,
        },
        DigitOrientation::Inverted => match digit {
            0 => 126,
            1 => 6,
            2 => 109,
            3 => 79,
            4 => 23,
            5 => 91,
            6 => 123,
            7 => 14,
            8 => 127,
            9 => 95,
            _ => 0,
        },
    };
    if dp && digit <= 9 {
        base + 1
    } else {
        base
    }
}

/// Every table entry stays below 128, so the decimal point always adds
/// exactly one to the bitmap of a decimal digit, and anything that is
/// not a decimal digit is blank whether or not the point is asked for.
pub proof fn lemma_decimal_point_adds_one(digit: u8, orientation: DigitOrientation)
    ensures
        digit <= 9 ==> encoded_digit(digit, orientation, true) as int
            == encoded_digit(digit, orientation, false) as int + 1,
        digit <= 9 ==> encoded_digit(digit, orientation, false) == digit_segments(digit, orientation),
        digit > 9 ==> encoded_digit(digit, orientation, true) == 0,
        digit > 9 ==> encoded_digit(digit, orientation, false) == 0,
{
}

} // verus!
