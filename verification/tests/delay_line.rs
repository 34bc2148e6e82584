use granulator::delay_line::DelayLine;
use granulator::fixed::{from_whole, ONE};
use granulator::frame::{Frame, SILENT_FRAME};

fn fx(x: f64) -> i64 {
    (x * 4294967296.0).round() as i64
}

fn silent_line(capacity: usize) -> DelayLine {
    DelayLine::new(vec![SILENT_FRAME; capacity])
}

fn known(i: usize) -> Frame {
    (fx(0.125 * (i as f64 + 1.0)), fx(-0.0625 * (i as f64 + 1.0)))
}

fn delay_line_length(length: usize) {
    let mut line = silent_line(length);
    for i in 0..length {
        assert_eq!(line.read(0), (0, 0));
        line.write_and_advance((from_whole(i as i64), from_whole(i as i64)));
    }
    for i in 0..length {
        assert_eq!(line.read(0), (from_whole(i as i64), from_whole(i as i64)));
        line.write_and_advance((0, 0));
    }
}

#[test]
fn length_1() {
    delay_line_length(1);
}

#[test]
fn length_3() {
    delay_line_length(3);
}

#[test]
fn length_10() {
    delay_line_length(10);
}

#[test]
fn new_starts_at_the_first_slot_of_the_supplied_storage() {
    let line = DelayLine::new(vec![known(0), known(1), known(2)]);
    assert_eq!(line.write_index, 0);
    assert_eq!(line.buffer, vec![known(0), known(1), known(2)]);
    assert_eq!(line.read(0), known(0));
    assert_eq!(line.read(ONE), known(2));
    assert_eq!(line.read(2 * ONE), known(1));
}

#[test]
fn write_fills_the_cursor_slot_and_moves_on() {
    let mut line = silent_line(3);
    line.write_and_advance(known(0));
    assert_eq!(line.write_index, 1);
    assert_eq!(line.buffer, vec![known(0), SILENT_FRAME, SILENT_FRAME]);
    line.write_and_advance(known(1));
    assert_eq!(line.write_index, 2);
    line.write_and_advance(known(2));
    assert_eq!(line.write_index, 0);
    assert_eq!(line.buffer, vec![known(0), known(1), known(2)]);
    line.write_and_advance(known(3));
    assert_eq!(line.write_index, 1);
    assert_eq!(line.buffer, vec![known(3), known(1), known(2)]);
}

#[test]
fn whole_delays_return_what_was_written() {
    let written = 5;
    let mut line = silent_line(8);
    for i in 0..written {
        line.write_and_advance(known(i));
    }
    for age in 1..=written {
        assert_eq!(line.read(from_whole(age as i64)), known(written - age));
    }
    // Delay zero is the slot that the next write fills: not yet written.
    assert_eq!(line.read(0), SILENT_FRAME);
}

#[test]
fn whole_delays_survive_wraparound() {
    let capacity = 7;
    let written = 3 * capacity + 2;
    let mut line = silent_line(capacity);
    for i in 0..written {
        line.write_and_advance(known(i));
    }
    for age in 1..capacity {
        assert_eq!(line.read(from_whole(age as i64)), known(written - age));
    }
    // Delay zero is the oldest frame still held.
    assert_eq!(line.read(0), known(written - capacity));
}

#[test]
fn fractional_delay_blends_the_two_neighbours() {
    let mut line = silent_line(8);
    line.write_and_advance((fx(1.0), fx(-1.0)));
    line.write_and_advance((fx(2.0), fx(-2.0)));
    line.write_and_advance((fx(3.0), fx(-3.0)));
    // One and a half frames behind the cursor: between the last two written.
    assert_eq!(line.read(fx(1.5)), (fx(2.5), fx(-2.5)));
    assert_eq!(line.read(fx(1.25)), (fx(2.75), fx(-2.75)));
    assert_eq!(line.read(fx(2.75)), (fx(1.25), fx(-1.25)));
    assert_eq!(line.get_read_index_fractional(fx(1.5)), fx(1.5));
}

#[test]
fn a_ceiling_of_slot_zero_has_the_last_slot_before_it() {
    let mut line = silent_line(4);
    for frame in [(fx(1.0), 0), (fx(2.0), 0), (fx(3.0), 0), (fx(4.0), 0)] {
        line.write_and_advance(frame);
    }
    assert_eq!(line.write_index, 0);
    // Half a frame behind slot 0 lies between the last slot and slot 0.
    assert_eq!(line.get_read_index_fractional(fx(0.5)), fx(3.5));
    assert_eq!(line.read(fx(0.5)), (fx(2.5), 0));
    // A quarter behind: three quarters slot 0, one quarter the last slot.
    assert_eq!(line.read(fx(0.25)), (fx(1.75), 0));
}

#[test]
fn a_negative_delay_reads_as_delay_zero() {
    let mut line = silent_line(4);
    for i in 0..6 {
        line.write_and_advance(known(i));
    }
    assert_eq!(line.read(-1), line.read(0));
    assert_eq!(line.read(fx(-7.5)), line.read(0));
    assert_eq!(line.read(i64::MIN), line.read(0));
    assert_eq!(line.read(0), known(2));
}

#[test]
fn a_delay_beyond_the_history_reads_as_the_oldest() {
    let mut line = silent_line(4);
    for i in 0..6 {
        line.write_and_advance(known(i));
    }
    let oldest = line.read(from_whole(3));
    assert_eq!(oldest, known(3));
    assert_eq!(line.read(from_whole(3) + 1), oldest);
    assert_eq!(line.read(from_whole(4)), oldest);
    assert_eq!(line.read(from_whole(1000)), oldest);
    assert_eq!(line.read(i64::MAX), oldest);
}

#[test]
fn read_position_wraps_below_slot_zero() {
    let mut line = silent_line(5);
    assert_eq!(line.get_read_index_fractional(0), 0);
    assert_eq!(line.get_read_index_fractional(from_whole(1)), from_whole(4));
    assert_eq!(line.get_read_index_fractional(1), from_whole(5) - 1);
    line.write_and_advance(known(0));
    line.write_and_advance(known(1));
    assert_eq!(line.get_read_index_fractional(from_whole(2)), 0);
    assert_eq!(line.get_read_index_fractional(fx(2.5)), fx(4.5));
    assert_eq!(line.get_read_index_fractional(from_whole(9)), from_whole(3));
}

#[test]
fn reads_stay_inside_a_single_slot_buffer() {
    let mut line = silent_line(1);
    line.write_and_advance(known(0));
    assert_eq!(line.write_index, 0);
    assert_eq!(line.read(0), known(0));
    assert_eq!(line.read(fx(0.5)), known(0));
    assert_eq!(line.read(from_whole(3)), known(0));
}

#[test]
fn reads_never_leave_the_buffer_after_many_writes() {
    let capacity = 5;
    let mut line = silent_line(capacity);
    for i in 0..23 {
        line.write_and_advance(known(i));
        let mut delay = -ONE;
        while delay < from_whole(capacity as i64 + 1) {
            let (left, right) = line.read(delay);
            assert!(left >= 0 && left <= known(i).0);
            assert!(right <= 0 && right >= known(i).1);
            delay += ONE / 8;
        }
    }
}
