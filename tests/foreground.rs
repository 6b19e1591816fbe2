use seg8x4_display::readline::{ByteReader, ReadLine, parse_number};
use seg8x4_display::seg8x4::{Digit, Line, LineOp, Seg8x4};
use seg8x4_display::shared::{InterruptState, refresh, show_number};
use seg8x4_display::timer::{ClockSource, calc_overflow, clock_divisor, compare_value};

fn read(input: &[u8]) -> Vec<u8> {
    let mut reader = ByteReader::new(input.to_vec());
    let mut buffer = [0u8; 32];
    reader.read_line(&mut buffer).to_vec()
}

#[test]
fn read_line_stops_at_newline() {
    assert_eq!(read(b"1234\n"), vec![b'1', b'2', b'3', b'4']);
}

#[test]
fn read_line_leaves_the_next_line() {
    let mut reader = ByteReader::new(b"12\n345\n".to_vec());
    let mut buffer = [0u8; 8];
    assert_eq!(reader.read_line(&mut buffer), b"12");
    assert_eq!(reader.read_line(&mut buffer), b"345");
    assert!(reader.read_line(&mut buffer).is_empty());
}

#[test]
fn read_line_stops_when_the_buffer_is_full() {
    let input = [b'7'; 40];
    let mut reader = ByteReader::new(input.to_vec());
    let mut buffer = [0u8; 32];
    let line = reader.read_line(&mut buffer);
    assert_eq!(line.len(), 32);
    assert!(line.iter().all(|b| *b == b'7'));
    let mut rest = [0u8; 32];
    assert_eq!(reader.read_line(&mut rest).len(), 8);
}

#[test]
fn read_line_on_an_empty_line() {
    assert!(read(b"\n42\n").is_empty());
}

#[test]
fn parse_number_skips_non_digits() {
    assert_eq!(parse_number(b"12a3"), 123);
    assert_eq!(parse_number(&read(b"12a3\n")), 123);
    assert_eq!(parse_number(b""), 0);
    assert_eq!(parse_number(b"abc"), 0);
    assert_eq!(parse_number(b"0042"), 42);
    assert_eq!(parse_number(b"65535"), 65535);
    assert_eq!(parse_number(b"65536"), 0);
    assert_eq!(parse_number(b"70000"), 4464);
}

fn lit_digit(ops: &[LineOp]) -> Digit {
    match ops.last().unwrap().line {
        Line::Digit(d) => d,
        Line::Segment(_) => panic!("the last change must light a digit"),
    }
}

#[test]
fn refresh_without_state_does_nothing() {
    let mut state: Option<InterruptState> = None;
    refresh(&mut state);
    assert!(state.is_none());
    show_number(&mut state, 42);
    assert!(state.is_none());
}

#[test]
fn number_from_a_line_is_shown_digit_by_digit() {
    let display = Seg8x4::new().into_four_digit_display();
    let mut state = Some(InterruptState::new(display));
    show_number(&mut state, parse_number(&read(b"42\n")));
    {
        let s = state.as_mut().unwrap();
        assert!(s.display.seg8x4.take_ops().is_empty());
        let zero = seg8x4_display::seg8x4::glyph_of(0);
        assert_eq!(s.display.state(Digit::D1), zero);
        assert_eq!(s.display.state(Digit::D2), zero);
        assert_eq!(s.display.state(Digit::D3), seg8x4_display::seg8x4::glyph_of(4));
        assert_eq!(s.display.state(Digit::D4), seg8x4_display::seg8x4::glyph_of(2));
    }
    let mut shown = Vec::new();
    for _ in 0..5 {
        refresh(&mut state);
        let s = state.as_mut().unwrap();
        let ops = s.display.seg8x4.take_ops();
        assert_eq!(ops.len(), 13);
        shown.push(lit_digit(&ops));
        assert_eq!(s.digit, lit_digit(&ops));
    }
    assert_eq!(shown, vec![Digit::D2, Digit::D3, Digit::D4, Digit::D1, Digit::D2]);
}

#[test]
fn timer_compare_values() {
    assert_eq!(calc_overflow(16_000_000, 4, 256), 15624);
    assert_eq!(calc_overflow(16_000_000, 800, 256), 77);
    assert_eq!(clock_divisor(ClockSource::Prescale256), 256);
    assert_eq!(clock_divisor(ClockSource::Direct), 1);
    assert_eq!(clock_divisor(ClockSource::NoClock), 1);
    assert_eq!(clock_divisor(ClockSource::Prescale1024), 1024);
    assert_eq!(compare_value(16_000_000, 800, ClockSource::Prescale256), 77);
    assert_eq!(compare_value(16_000_000, 2, ClockSource::Prescale8), 16959);
}
