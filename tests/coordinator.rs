use segclock::clock::{current_time, nanos_to_next_second, wait_for_next_second};
use segclock::coordinator::{ClockState, MainMessage};
use segclock::render::{time_commands, TimeOfDay};
use segclock::segment::DigitOrientation;

const T: TimeOfDay = TimeOfDay { hour: 23, minute: 59, second: 5 };

#[test]
fn startup_sequence_comes_first() {
    let s = ClockState::new(DigitOrientation::Inverted, 7);
    assert_eq!(s.startup_commands(), vec![(0x9, 0x00), (0xA, 7), (0xB, 0x7), (0xC, 0x1), (0xF, 0x0)]);
    let s = ClockState::new(DigitOrientation::Normal, 1);
    assert_eq!(s.startup_commands(), vec![(0x9, 0x00), (0xA, 1), (0xB, 0x7), (0xC, 0x1), (0xF, 0x0)]);
}

#[test]
fn brightness_wraps_after_fifteen() {
    let mut s = ClockState::new(DigitOrientation::Normal, 14);
    assert_eq!(s.handle(MainMessage::ButtonChange(2), &T), vec![(0xA, 15)]);
    assert_eq!(s.intensity, 15);
    assert_eq!(s.handle(MainMessage::ButtonChange(2), &T), vec![(0xA, 0)]);
    assert_eq!(s.intensity, 0);
    assert_eq!(s.orientation, DigitOrientation::Normal);
}

#[test]
fn brightness_stays_in_range_over_many_presses() {
    let mut s = ClockState::new(DigitOrientation::Normal, 0);
    for i in 1..=40u32 {
        let r = s.handle(MainMessage::ButtonChange(2), &T);
        assert_eq!(s.intensity as u32, i % 16);
        assert_eq!(r, vec![(0xA, (i % 16) as u8)]);
    }
}

#[test]
fn orientation_toggles_and_renders_at_once() {
    let mut s = ClockState::new(DigitOrientation::Normal, 3);
    let r = s.handle(MainMessage::ButtonChange(1), &T);
    assert_eq!(s.orientation, DigitOrientation::Inverted);
    assert_eq!(r, time_commands(&T, DigitOrientation::Inverted));
    let r = s.handle(MainMessage::ButtonChange(1), &T);
    assert_eq!(s.orientation, DigitOrientation::Normal);
    assert_eq!(r, time_commands(&T, DigitOrientation::Normal));
    assert_eq!(s.intensity, 3);
}

#[test]
fn tick_renders_without_changing_state() {
    let mut s = ClockState::new(DigitOrientation::Inverted, 9);
    let before = s;
    let a = s.handle(MainMessage::TimeSignal, &T);
    let b = s.handle(MainMessage::TimeSignal, &T);
    assert_eq!(s, before);
    assert_eq!(a, b);
    assert_eq!(a, time_commands(&T, DigitOrientation::Inverted));
}

#[test]
fn unknown_button_does_nothing() {
    let mut s = ClockState::new(DigitOrientation::Normal, 5);
    let before = s;
    assert!(s.handle(MainMessage::ButtonChange(3), &T).is_empty());
    assert!(s.handle(MainMessage::ButtonChange(0), &T).is_empty());
    assert_eq!(s, before);
}

#[test]
fn handle_now_renders_a_valid_time() {
    let mut s = ClockState::new(DigitOrientation::Normal, 1);
    let r = s.handle_now(MainMessage::TimeSignal);
    assert_eq!(r.len(), 8);
    let regs: Vec<u8> = r.iter().map(|c| c.0).collect();
    assert_eq!(regs, vec![1, 2, 3, 4, 5, 6, 7, 8]);
    assert_eq!(r[2], (3, 1));
}

#[test]
fn clock_reading_is_in_range() {
    let t = current_time();
    assert!(t.hour < 24 && t.minute < 60 && t.second < 60);
    let w = wait_for_next_second();
    assert!(w > 0 && w <= 1_000_000_000);
}

#[test]
fn wait_until_next_second() {
    assert_eq!(nanos_to_next_second(0), 1_000_000_000);
    assert_eq!(nanos_to_next_second(250_000_000), 750_000_000);
    assert_eq!(nanos_to_next_second(999_999_999), 1);
    assert_eq!(nanos_to_next_second(1_400_000_000), 600_000_000);
}
