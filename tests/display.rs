use seg8x4_display::seg8x4::{Digit, FourDigitDisplay, Line, LineOp, Seg8x4, Segment, glyph_of};

const TABLE: [[bool; 8]; 16] = [
    [true, true, true, true, true, true, false, false],
    [false, true, true, false, false, false, false, false],
    [true, true, false, true, true, false, true, false],
    [true, true, true, true, false, false, true, false],
    [false, true, true, false, false, true, true, false],
    [true, false, true, true, false, true, true, false],
    [true, false, true, true, true, true, true, false],
    [true, true, true, false, false, false, false, false],
    [true, true, true, true, true, true, true, false],
    [true, true, true, true, false, true, true, false],
    [true, true, true, false, true, true, true, false],
    [false, false, true, true, true, true, true, false],
    [true, false, false, true, true, true, false, false],
    [false, true, true, true, true, false, true, false],
    [true, false, false, true, true, true, true, false],
    [true, false, false, false, true, true, true, false],
];

fn display() -> FourDigitDisplay {
    Seg8x4::new().into_four_digit_display()
}

#[test]
fn glyphs_match_the_hex_font() {
    for v in 0..16u8 {
        assert_eq!(glyph_of(v), TABLE[v as usize]);
    }
    assert_eq!(glyph_of(0), [true, true, true, true, true, true, false, false]);
    assert_eq!(glyph_of(16), TABLE[0]);
    assert_eq!(glyph_of(255), TABLE[15]);
}

#[test]
fn next_cycles_through_four_digits() {
    assert_eq!(Digit::D1.next(), Digit::D2);
    assert_eq!(Digit::D2.next(), Digit::D3);
    assert_eq!(Digit::D3.next(), Digit::D4);
    assert_eq!(Digit::D4.next(), Digit::D1);
    for d in [Digit::D1, Digit::D2, Digit::D3, Digit::D4] {
        assert_eq!(d.next().next().next().next(), d);
    }
}

#[test]
fn from_index_wraps_around() {
    assert_eq!(Digit::from(0u8), Digit::D1);
    assert_eq!(Digit::from(3u8), Digit::D4);
    assert_eq!(Digit::from(5u8), Digit::D2);
    assert_eq!(Digit::from(255u8), Digit::D4);
    assert_eq!(Segment::from(0u8), Segment::SA);
    assert_eq!(Segment::from(7u8), Segment::SP);
    assert_eq!(Segment::from(9u8), Segment::SB);
    assert_eq!(Segment::from(254u8), Segment::SG);
}

#[test]
fn new_display_is_blank_and_quiet() {
    let mut d = display();
    for digit in [Digit::D1, Digit::D2, Digit::D3, Digit::D4] {
        assert_eq!(d.state(digit), [false; 8]);
    }
    assert!(d.seg8x4.take_ops().is_empty());
}

#[test]
fn set_number_in_base_ten() {
    let mut d = display();
    d.set_number(42, 10);
    assert_eq!(d.state(Digit::D1), TABLE[0]);
    assert_eq!(d.state(Digit::D2), TABLE[0]);
    assert_eq!(d.state(Digit::D3), TABLE[4]);
    assert_eq!(d.state(Digit::D4), TABLE[2]);
    assert!(d.seg8x4.take_ops().is_empty());
}

#[test]
fn set_number_truncates_to_four_digits() {
    let mut d = display();
    d.set_number(12345, 10);
    assert_eq!(d.state(Digit::D1), TABLE[2]);
    assert_eq!(d.state(Digit::D4), TABLE[5]);
    d.set_number(0xBEEF, 16);
    assert_eq!(d.state(Digit::D1), TABLE[11]);
    assert_eq!(d.state(Digit::D2), TABLE[14]);
    assert_eq!(d.state(Digit::D3), TABLE[14]);
    assert_eq!(d.state(Digit::D4), TABLE[15]);
    d.set_number(65535, 2);
    for digit in [Digit::D1, Digit::D2, Digit::D3, Digit::D4] {
        assert_eq!(d.state(digit), TABLE[1]);
    }
}

#[test]
fn set_number_reads_back_in_every_base() {
    let mut d = display();
    for base in 2..=16u8 {
        let b = base as u32;
        let limit = b * b * b * b;
        for n in [0, 1, limit / 3, limit - 1] {
            if n > u16::MAX as u32 {
                continue;
            }
            d.set_number(n as u16, base);
            let mut reading: u32 = 0;
            for digit in [Digit::D1, Digit::D2, Digit::D3, Digit::D4] {
                let mask = d.state(digit);
                let v = TABLE.iter().position(|g| *g == mask).unwrap() as u32;
                reading = reading * b + v;
            }
            assert_eq!(reading, n);
        }
    }
}

#[test]
fn set_decimal_point_keeps_other_segments() {
    let mut d = display();
    d.set_number(1234, 10);
    d.set_decimal_point(Digit::D2);
    let mut expected = TABLE[2];
    expected[7] = true;
    assert_eq!(d.state(Digit::D2), expected);
    assert_eq!(d.state(Digit::D1), TABLE[1]);
    assert_eq!(d.state(Digit::D3), TABLE[3]);
}

#[test]
fn show_darkens_digits_before_segments_and_lights_last() {
    let mut d = display();
    d.set_number(7, 10);
    d.show(Digit::D4);
    let ops = d.seg8x4.take_ops();
    assert_eq!(ops.len(), 13);
    for (i, digit) in [Digit::D1, Digit::D2, Digit::D3, Digit::D4].into_iter().enumerate() {
        assert_eq!(ops[i], LineOp { line: Line::Digit(digit), high: false });
    }
    for i in 0..8 {
        let segment = Segment::from(i as u8);
        assert_eq!(ops[4 + i], LineOp { line: Line::Segment(segment), high: !TABLE[7][i] });
    }
    assert_eq!(ops[12], LineOp { line: Line::Digit(Digit::D4), high: true });
    assert!(d.seg8x4.take_ops().is_empty());
}

#[test]
fn raw_lines_have_inverted_segment_polarity() {
    let mut raw = Seg8x4::new();
    raw.enable_segment(Segment::SC);
    raw.disable_segment(Segment::SC);
    raw.enable_digit(Digit::D2);
    raw.disable_digit(Digit::D2);
    raw.enable_decimal_point();
    raw.disable_decimal_point();
    let ops = raw.take_ops();
    assert_eq!(
        ops,
        vec![
            LineOp { line: Line::Segment(Segment::SC), high: false },
            LineOp { line: Line::Segment(Segment::SC), high: true },
            LineOp { line: Line::Digit(Digit::D2), high: true },
            LineOp { line: Line::Digit(Digit::D2), high: false },
            LineOp { line: Line::Segment(Segment::SP), high: false },
            LineOp { line: Line::Segment(Segment::SP), high: true },
        ]
    );
}

#[test]
fn bulk_operations_cover_every_line() {
    let mut raw = Seg8x4::new();
    raw.disable_all_segments();
    raw.disable_all_digits();
    raw.set_segments_to_number(0x18);
    let ops = raw.take_ops();
    assert_eq!(ops.len(), 20);
    for i in 0..8 {
        assert_eq!(ops[i], LineOp { line: Line::Segment(Segment::from(i as u8)), high: true });
        assert_eq!(ops[12 + i].high, !TABLE[8][i]);
    }
    assert_eq!(ops[11], LineOp { line: Line::Digit(Digit::D4), high: false });
}
