use vstd::prelude::*;
use crate::segment::{DigitOrientation, decode_digit, encoded_digit};

verus! {

/// Value written to the two separator registers: the decimal point
/// between two digit groups, always lit.
pub const SEPARATOR: u8 = 0x1;

/// A wall-clock time of day on a 24-hour clock.
#[derive(Clone, Copy, Debug, PartialEq, Eq, Structural)]
pub struct TimeOfDay {
    pub hour: u8,
    pub minute: u8,
    pub second: u8,
}

impl TimeOfDay {
    /// Hour 0..=23, minute and second 0..=59.
    pub open spec fn wf(&self) -> bool {
        &&& self.hour < 24
        &&& self.minute < 60
        &&& self.second < 60
    }
}

/// The bitmap of one time digit, without decimal point.
pub open spec fn time_digit(digit: u8, orientation: DigitOrientation) -> u8 {
    encoded_digit(digit, orientation, false)
}

/// The eight (register, value) commands that show `t`, in the order in
/// which they are submitted.
///
/// Upright, registers 1 to 8 hold the second units, second tens, a
/// separator, minute units, minute tens, a separator, hour units and hour
/// tens. Upside down the same values go to registers 8 down to 1, each
/// drawn with the inverted segment table.
pub open spec fn clock_commands(t: TimeOfDay, orientation: DigitOrientation) -> Seq<(u8, u8)> {
    let s_lo = time_digit(t.second % 10, orientation);
    let s_hi = time_digit(t.second / 10, orientation);
    let m_lo = time_digit(t.minute % 10, orientation);
    let m_hi = time_digit(t.minute / 10, orientation);
    let h_lo = time_digit(t.hour % 10, orientation);
    let h_hi = time_digit(t.hour / 10, orientation);
    match orientation {
        DigitOrientation::Normal => seq![
            (0x1u8, s_lo), (0x2u8, s_hi), (0x3u8, SEPARATOR), (0x4u8, m_lo),
            (0x5u8, m_hi), (0x6u8, SEPARATOR), (0x7u8, h_lo), (0x8u8, h_hi),
        ],
        DigitOrientation::Inverted => seq![
            (0x8u8, s_lo), (0x7u8, s_hi), (0x6u8, SEPARATOR), (0x5u8, m_lo),
            (0x4u8, m_hi), (0x3u8, SEPARATOR), (0x2u8, h_lo), (0x1u8, h_hi),
        ],
    }
}

/// The commands that show the time of day `t` on a module mounted with
/// `orientation`, in submission order.
pub fn time_commands(t: &TimeOfDay, orientation: DigitOrientation) -> (r: Vec<(u8, u8)>)
    ensures
        r@ == clock_commands(*t, orientation),
{
    let second_low = decode_digit(t.second % 10, orientation, false);
    let second_high = decode_digit(t.second / 10, orientation, false);
    let minute_low = decode_digit(t.minute % 10, orientation, false);
    let minute_high = decode_digit(t.minute / 10, orientation, false);
    let hour_low = decode_digit(t.hour % 10, orientation, false);
    let hour_high = decode_digit(t.hour / 10, orientation, false);
    let r = match orientation {
        DigitOrientation::Normal => vec![
            (0x1u8, second_low), (0x2u8, second_high), (0x3u8, SEPARATOR), (0x4u8, minute_low),
            (0x5u8, minute_high), (0x6u8, SEPARATOR), (0x7u8, hour_low), (0x8u8, hour_high),
        ],
        DigitOrientation::Inverted => vec![
            (0x8u8, second_low), (0x7u8, second_high), (0x6u8, SEPARATOR), (0x5u8, minute_low),
            (0x4u8, minute_high), (0x3u8, SEPARATOR), (0x2u8, hour_low), (0x1u8, hour_high),
        ],
    };
    assert(r@ =~= clock_commands(*t, orientation));
    r
}

/// The two bytes that carry one command over the bus: the register
/// address, then the value.
pub fn bus_frame(command: (u8, u8)) -> (r: [u8; 2])
    ensures
        r@ == seq![command.0, command.1],
{
    let r = [command.0, command.1];
    assert(r@ =~= seq![command.0, command.1]);
    r
}

} // verus!
