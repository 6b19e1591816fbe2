//! Digits, segments, their encoding, and the two levels of the display:
//! the raw lines and the four digit display built on them.
use vstd::arithmetic::div_mod::{lemma_div_denominator, lemma_fundamental_div_mod, lemma_small_mod};
use vstd::prelude::*;

verus! {

/// One of the four digit positions of the display, from the most significant
/// (`D1`) to the least significant (`D4`).
#[derive(Clone, Copy, Debug, PartialEq, Eq, Structural)]
pub enum Digit {
    D1,
    D2,
    D3,
    D4,
}

impl Digit {
    /// The position of the digit, counted from zero at `D1`.
    pub open spec fn index(self) -> int {
        match self {
            Digit::D1 => 0,
            Digit::D2 => 1,
            Digit::D3 => 2,
            Digit::D4 => 3,
        }
    }

    /// The digit at position `i` modulo four.
    pub open spec fn at(i: int) -> Digit {
        let k = i % 4;
        if k == 0 {
            Digit::D1
        } else if k == 1 {
            Digit::D2
        } else if k == 2 {
            Digit::D3
        } else {
            Digit::D4
        }
    }

    /// The digit that follows this one in the refresh cycle.
    pub open spec fn spec_next(self) -> Digit {
        Digit::at(self.index() + 1)
    }

    /// The digit that follows this one in the refresh cycle; `D4` is followed
    /// by `D1`.
    pub fn next(self) -> (r: Digit)
        ensures
            r == self.spec_next(),
            r.index() == (self.index() + 1) % 4,
    {
        match self {
            Digit::D1 => Digit::D2,
            Digit::D2 => Digit::D3,
            Digit::D3 => Digit::D4,
            Digit::D4 => Digit::D1,
        }
    }
}

impl From<u8> for Digit {
    fn from(value: u8) -> (r: Digit)
        ensures
            r == Digit::at(value as int),
    {
        match value % 4 {
            0 => Digit::D1,
            1 => Digit::D2,
            2 => Digit::D3,
            _ => Digit::D4,
        }
    }
}

impl vstd::std_specs::convert::FromSpecImpl<u8> for Digit {
    open spec fn obeys_from_spec() -> bool {
        true
    }

    open spec fn from_spec(v: u8) -> Digit {
        Digit::at(v as int)
    }
}


/// Advancing four times from any digit comes back to it, and `D4` is
/// followed by `D1`.
pub proof fn lemma_next_cycles(d: Digit)
    ensures
        d.spec_next().spec_next().spec_next().spec_next() == d,
        Digit::D4.spec_next() == Digit::D1,
{
}

/// One of the eight segments of a digit: the seven strokes `SA` to `SG` and
/// the decimal point `SP`.
#[derive(Clone, Copy, Debug, PartialEq, Eq, Structural)]
pub enum Segment {
    SA,
    SB,
    SC,
    SD,
    SE,
    SF,
    SG,
    SP,
}

impl Segment {
    /// The segment at position `i` modulo eight, in the order `SA` to `SP`.
    pub open spec fn at(i: int) -> Segment {
        let k = i % 8;
        if k == 0 {
            Segment::SA
        } else if k == 1 {
            Segment::SB
        } else if k == 2 {
            Segment::SC
        } else if k == 3 {
            Segment::SD
        } else if k == 4 {
            Segment::SE
        } else if k == 5 {
            Segment::SF
        } else if k == 6 {
            Segment::SG
        } else {
            Segment::SP
        }
    }
}

impl From<u8> for Segment {
    fn from(value: u8) -> (r: Segment)
        ensures
            r == Segment::at(value as int),
    {
        match value % 8 {
            0 => Segment::SA,
            1 => Segment::SB,
            2 => Segment::SC,
            3 => Segment::SD,
            4 => Segment::SE,
            5 => Segment::SF,
            6 => Segment::SG,
            _ => Segment::SP,
        }
    }
}

impl vstd::std_specs::convert::FromSpecImpl<u8> for Segment {
    open spec fn obeys_from_spec() -> bool {
        true
    }

    open spec fn from_spec(v: u8) -> Segment {
        Segment::at(v as int)
    }
}

/// The segments lit for the hexadecimal digit `v`, in the order `SA` to `SP`,
/// as in the usual seven segment font; the decimal point is off. Values
/// outside `0..16` have no glyph and map to a blank mask.
pub open spec fn glyph(v: int) -> Seq<bool> {
    if v == 0 {
        seq![true, true, true, true, true, true, false, false]
    } else if v == 1 {
        seq![false, true, true, false, false, false, false, false]
    } else if v == 2 {
        seq![true, true, false, true, true, false, true, false]
    } else if v == 3 {
        seq![true, true, true, true, false, false, true, false]
    } else if v == 4 {
        seq![false, true, true, false, false, true, true, false]
    } else if v == 5 {
        seq![true, false, true, true, false, true, true, false]
    } else if v == 6 {
        seq![true, false, true, true, true, true, true, false]
    } else if v == 7 {
        seq![true, true, true, false, false, false, false, false]
    } else if v == 8 {
        seq![true, true, true, true, true, true, true, false]
    } else if v == 9 {
        seq![true, true, true, true, false, true, true, false]
    } else if v == 10 {
        seq![true, true, true, false, true, true, true, false]
    } else if v == 11 {
        seq![false, false, true, true, true, true, true, false]
    } else if v == 12 {
        seq![true, false, false, true, true, true, false, false]
    } else if v == 13 {
        seq![false, true, true, true, true, false, true, false]
    } else if v == 14 {
        seq![true, false, false, true, true, true, true, false]
    } else if v == 15 {
        seq![true, false, false, false, true, true, true, false]
    } else {
        seq![false, false, false, false, false, false, false, false]
    }
}

/// The segment mask of the hexadecimal digit `value % 16`.
pub fn glyph_of(value: u8) -> (r: [bool; 8])
    ensures
        r@ == glyph(value as int % 16),
{
    let v: u8 = value % 16;
    let r: [bool; 8] = match v {
        0 => [true, true, true, true, true, true, false, false],
        1 => [false, true, true, false, false, false, false, false],
        2 => [true, true, false, true, true, false, true, false],
        3 => [true, true, true, true, false, false, true, false],
        4 => [false, true, true, false, false, true, true, false],
        5 => [true, false, true, true, false, true, true, false],
        6 => [true, false, true, true, true, true, true, false],
        7 => [true, true, true, false, false, false, false, false],
        8 => [true, true, true, true, true, true, true, false],
        9 => [true, true, true, true, false, true, true, false],
        10 => [true, true, true, false, true, true, true, false],
        11 => [false, false, true, true, true, true, true, false],
        12 => [true, false, false, true, true, true, false, false],
        13 => [false, true, true, true, true, false, true, false],
        14 => [true, false, false, true, true, true, true, false],
        _ => [true, false, false, false, true, true, true, false],
    };
    assert(r@ =~= glyph(v as int));
    r
}


/// A line of the display: the cathode of a segment or the anode of a digit.
#[derive(Clone, Copy, Debug, PartialEq, Eq, Structural)]
pub enum Line {
    Segment(Segment),
    Digit(Digit),
}

/// A request to drive one line of the display high or low.
#[derive(Clone, Copy, Debug, PartialEq, Eq, Structural)]
pub struct LineOp {
    pub line: Line,
    pub high: bool,
}

/// Lighting a digit drives its anode high.
pub open spec fn digit_on(d: Digit) -> LineOp {
    LineOp { line: Line::Digit(d), high: true }
}

/// Darkening a digit drives its anode low.
pub open spec fn digit_off(d: Digit) -> LineOp {
    LineOp { line: Line::Digit(d), high: false }
}

/// Lighting a segment pulls its cathode low.
pub open spec fn segment_on(s: Segment) -> LineOp {
    LineOp { line: Line::Segment(s), high: false }
}

/// Darkening a segment lets its cathode float high.
pub open spec fn segment_off(s: Segment) -> LineOp {
    LineOp { line: Line::Segment(s), high: true }
}

/// Darkening the four digits, `D1` to `D4`.
pub open spec fn all_digits_off() -> Seq<LineOp> {
    seq![digit_off(Digit::D1), digit_off(Digit::D2), digit_off(Digit::D3), digit_off(Digit::D4)]
}

/// Darkening the eight segments, `SA` to `SP`.
pub open spec fn all_segments_off() -> Seq<LineOp> {
    Seq::new(8, |i: int| segment_off(Segment::at(i)))
}

/// Setting each segment, `SA` to `SP`, to the flag of the mask at its place.
pub open spec fn mask_ops(m: Seq<bool>) -> Seq<LineOp> {
    Seq::new(8, |i: int| if m[i] { segment_on(Segment::at(i)) } else { segment_off(Segment::at(i)) })
}

/// What showing the mask `m` on the digit `d` does to the lines: darken the
/// four digits, set the segments to `m`, then light `d`.
pub open spec fn show_ops(m: Seq<bool>, d: Digit) -> Seq<LineOp> {
    all_digits_off() + mask_ops(m) + seq![digit_on(d)]
}

/// The raw display: twelve lines, eight segment cathodes and four digit
/// anodes. The cathodes can only be pulled low or left floating, so that no
/// reverse voltage is ever applied to a segment; the anodes are plain outputs.
///
/// Each operation records, in order, the line changes that it makes; whoever
/// owns the physical lines takes them with [`Seg8x4::take_ops`] and applies
/// them as they come.
pub struct Seg8x4 {
    ops: Vec<LineOp>,
}

impl View for Seg8x4 {
    type V = Seq<LineOp>;

    closed spec fn view(&self) -> Seq<LineOp> {
        self.ops@
    }
}

impl Seg8x4 {
    /// A display with no line change pending.
    pub fn new() -> (r: Seg8x4)
        ensures
            r@ == Seq::<LineOp>::empty(),
    {
        Seg8x4 { ops: Vec::new() }
    }

    /// Hands out the pending line changes, oldest first, and forgets them.
    pub fn take_ops(&mut self) -> (r: Vec<LineOp>)
        ensures
            r@ == old(self)@,
            final(self)@ == Seq::<LineOp>::empty(),
    {
        let mut taken: Vec<LineOp> = Vec::new();
        std::mem::swap(&mut taken, &mut self.ops);
        taken
    }

    fn push(&mut self, op: LineOp)
        ensures
            final(self)@ == old(self)@.push(op),
    {
        self.ops.push(op);
    }

    /// Lights the digit `digit` by driving its anode high.
    pub fn enable_digit(&mut self, digit: Digit)
        ensures
            final(self)@ == old(self)@.push(digit_on(digit)),
    {
        self.push(LineOp { line: Line::Digit(digit), high: true });
    }

    /// Darkens the digit `digit` by driving its anode low.
    pub fn disable_digit(&mut self, digit: Digit)
        ensures
            final(self)@ == old(self)@.push(digit_off(digit)),
    {
        self.push(LineOp { line: Line::Digit(digit), high: false });
    }

    /// Darkens all four digits, `D1` first.
    pub fn disable_all_digits(&mut self)
        ensures
            final(self)@ == old(self)@ + all_digits_off(),
    {
        self.disable_digit(Digit::D1);
        self.disable_digit(Digit::D2);
        self.disable_digit(Digit::D3);
        self.disable_digit(Digit::D4);
        assert(self@ =~= old(self)@ + all_digits_off());
    }

    /// Lights the segment `segment` by pulling its cathode low.
    pub fn enable_segment(&mut self, segment: Segment)
        ensures
            final(self)@ == old(self)@.push(segment_on(segment)),
    {
        self.push(LineOp { line: Line::Segment(segment), high: false });
    }

    /// Darkens the segment `segment` by letting its cathode float.
    pub fn disable_segment(&mut self, segment: Segment)
        ensures
            final(self)@ == old(self)@.push(segment_off(segment)),
    {
        self.push(LineOp { line: Line::Segment(segment), high: true });
    }

    /// Darkens all eight segments, `SA` first.
    pub fn disable_all_segments(&mut self)
        ensures
            final(self)@ == old(self)@ + all_segments_off(),
    {
        self.disable_segment(Segment::SA);
        self.disable_segment(Segment::SB);
        self.disable_segment(Segment::SC);
        self.disable_segment(Segment::SD);
        self.disable_segment(Segment::SE);
        self.disable_segment(Segment::SF);
        self.disable_segment(Segment::SG);
        self.disable_segment(Segment::SP);
        assert(self@ =~= old(self)@ + all_segments_off());
    }

    /// Sets every segment, `SA` first, to the flag of `segments` at its place:
    /// lit where the flag is set, dark where it is not.
    pub fn enable_segments(&mut self, segments: [bool; 8])
        ensures
            final(self)@ == old(self)@ + mask_ops(segments@),
    {
        let mut i: u8 = 0;
        while i < 8
            invariant
                0 <= i <= 8,
                self@ == old(self)@ + mask_ops(segments@).take(i as int),
            decreases 8 - i,
        {
            let segment = Segment::from(i);
            if segments[i as usize] {
                self.enable_segment(segment);
            } else {
                self.disable_segment(segment);
            }
            assert(mask_ops(segments@).take(i as int + 1) =~= mask_ops(segments@).take(
                i as int,
            ).push(mask_ops(segments@)[i as int]));
            i = i + 1;
        }
        assert(mask_ops(segments@).take(8) =~= mask_ops(segments@));
    }

    /// Shows the hexadecimal digit `number % 16` on the segments.
    pub fn set_segments_to_number(&mut self, number: u8)
        ensures
            final(self)@ == old(self)@ + mask_ops(glyph(number as int % 16)),
    {
        self.enable_segments(glyph_of(number));
    }

    /// Lights the decimal point.
    pub fn enable_decimal_point(&mut self)
        ensures
            final(self)@ == old(self)@.push(segment_on(Segment::SP)),
    {
        self.enable_segment(Segment::SP);
    }

    /// Turns the raw display into a four digit display whose digits are all
    /// blank.
    pub fn into_four_digit_display(self) -> (r: FourDigitDisplay)
        ensures
            r.raw() == self@,
            r.is_blank(),
    {
        FourDigitDisplay::from(self)
    }

    /// Darkens the decimal point.
    pub fn disable_decimal_point(&mut self)
        ensures
            final(self)@ == old(self)@.push(segment_off(Segment::SP)),
    {
        self.disable_segment(Segment::SP);
    }
}


/// The mask with every segment dark.
pub open spec fn blank() -> Seq<bool> {
    Seq::new(8, |i: int| false)
}

/// The weight of position `i` (zero for `D1`) of a four digit number in base
/// `b`: `b` to the power `3 - i`.
pub open spec fn weight(b: int, i: int) -> int {
    if i == 0 {
        b * b * b
    } else if i == 1 {
        b * b
    } else if i == 2 {
        b
    } else {
        1
    }
}

/// The digit at position `i` (zero for `D1`) of `n` written in base `b` with
/// four digits, the more significant digits cut off.
pub open spec fn place_value(n: int, b: int, i: int) -> int {
    (n / weight(b, i)) % b
}

/// The hexadecimal digit that the mask `m` shows, or `-1` where `m` is not
/// the glyph of a digit.
pub open spec fn glyph_value(m: Seq<bool>) -> int {
    if m == glyph(0) {
        0
    } else if m == glyph(1) {
        1
    } else if m == glyph(2) {
        2
    } else if m == glyph(3) {
        3
    } else if m == glyph(4) {
        4
    } else if m == glyph(5) {
        5
    } else if m == glyph(6) {
        6
    } else if m == glyph(7) {
        7
    } else if m == glyph(8) {
        8
    } else if m == glyph(9) {
        9
    } else if m == glyph(10) {
        10
    } else if m == glyph(11) {
        11
    } else if m == glyph(12) {
        12
    } else if m == glyph(13) {
        13
    } else if m == glyph(14) {
        14
    } else if m == glyph(15) {
        15
    } else {
        -1
    }
}

/// Each glyph of a hexadecimal digit reads back as that digit.
pub proof fn lemma_glyph_value(v: int)
    requires
        0 <= v < 16,
    ensures
        glyph_value(glyph(v)) == v,
{
}

/// A number below `b` to the fourth, written with four digits in base `b`,
/// adds back up to itself.
pub proof fn lemma_place_values_sum(n: int, b: int)
    requires
        2 <= b <= 16,
        0 <= n < b * b * b * b,
    ensures
        place_value(n, b, 0) * weight(b, 0) + place_value(n, b, 1) * weight(b, 1) + place_value(
            n,
            b,
            2,
        ) * weight(b, 2) + place_value(n, b, 3) * weight(b, 3) == n,
{
    let q1 = n / b;
    let q2 = q1 / b;
    let q3 = q2 / b;
    lemma_fundamental_div_mod(n, b);
    lemma_fundamental_div_mod(q1, b);
    lemma_fundamental_div_mod(q2, b);
    lemma_div_denominator(n, b, b);
    lemma_div_denominator(n, b * b, b);
    assert(b * b > 0 && b * b * b > 0) by (nonlinear_arith)
        requires
            b >= 2,
    ;
    let c = b * b * b;
    lemma_fundamental_div_mod(n, c);
    vstd::arithmetic::div_mod::lemma_mod_pos_bound(n, c);
    assert(q3 < b) by (nonlinear_arith)
        requires
            n == c * (n / c) + n % c,
            0 <= n % c,
            n < c * b,
            c > 0,
            q3 == n / c,
    ;
    lemma_small_mod(q3 as nat, b as nat);
    assert(q2 == n / (b * b) && q3 == n / (b * b * b));
    assert(place_value(n, b, 0) == q3 && place_value(n, b, 1) == q2 % b && place_value(n, b, 2)
        == q1 % b && place_value(n, b, 3) == n % b);
    let (r0, r1, r2) = (n % b, q1 % b, q2 % b);
    assert(q3 * (b * b * b) + r2 * (b * b) + r1 * b + r0 == n) by (nonlinear_arith)
        requires
            n == b * q1 + r0,
            q1 == b * q2 + r1,
            q2 == b * q3 + r2,
    ;
}

/// After a number below `b` to the fourth is set in base `b`, the four digits
/// read back as that number.
pub proof fn lemma_set_number_reads_back(display: &FourDigitDisplay, n: int, b: int)
    requires
        2 <= b <= 16,
        0 <= n < b * b * b * b,
        display.shows_number(n, b),
    ensures
        display.reading(b) == n,
{
    assert forall|i: int| 0 <= i < 4 implies 0 <= #[trigger] place_value(n, b, i) < b by {
        assert(weight(b, i) > 0) by (nonlinear_arith)
            requires
                b >= 2,
                weight(b, i) == b * b * b || weight(b, i) == b * b || weight(b, i) == b
                    || weight(b, i) == 1,
        ;
    }
    assert(display.buffer(Digit::D1) == glyph(place_value(n, b, 0)));
    assert(display.buffer(Digit::D2) == glyph(place_value(n, b, 1)));
    assert(display.buffer(Digit::D3) == glyph(place_value(n, b, 2)));
    assert(display.buffer(Digit::D4) == glyph(place_value(n, b, 3)));
    lemma_glyph_value(place_value(n, b, 0));
    lemma_glyph_value(place_value(n, b, 1));
    lemma_glyph_value(place_value(n, b, 2));
    lemma_glyph_value(place_value(n, b, 3));
    lemma_place_values_sum(n, b);
}

/// A four digit display on top of [`Seg8x4`]: it keeps the segment mask of
/// each digit, so that a number can be set at any time and the digits shown
/// one after the other, one per call of [`FourDigitDisplay::show`].
pub struct FourDigitDisplay {
    state_d1: [bool; 8],
    state_d2: [bool; 8],
    state_d3: [bool; 8],
    state_d4: [bool; 8],
    pub seg8x4: Seg8x4,
}

impl FourDigitDisplay {
    /// The segment mask kept for the digit `d`.
    pub closed spec fn buffer(&self, d: Digit) -> Seq<bool> {
        match d {
            Digit::D1 => self.state_d1@,
            Digit::D2 => self.state_d2@,
            Digit::D3 => self.state_d3@,
            Digit::D4 => self.state_d4@,
        }
    }

    /// The line changes that the raw display holds.
    pub closed spec fn raw(&self) -> Seq<LineOp> {
        self.seg8x4@
    }

    /// Every digit is blank.
    pub open spec fn is_blank(&self) -> bool {
        forall|d: Digit| #[trigger] self.buffer(d) == blank()
    }

    /// The digits hold the glyphs of the four digits of `n` in base `b`.
    pub open spec fn shows_number(&self, n: int, b: int) -> bool {
        forall|d: Digit| #[trigger] self.buffer(d) == glyph(place_value(n, b, d.index()))
    }

    /// The number that the digits read as in base `b`.
    pub open spec fn reading(&self, b: int) -> int {
        glyph_value(self.buffer(Digit::D1)) * weight(b, 0) + glyph_value(self.buffer(Digit::D2))
            * weight(b, 1) + glyph_value(self.buffer(Digit::D3)) * weight(b, 2) + glyph_value(
            self.buffer(Digit::D4),
        ) * weight(b, 3)
    }

    /// Sets the digits to the four least significant digits of `number` in
    /// base `base`, without touching the lines of the display.
    pub fn set_number(&mut self, number: u16, base: u8)
        requires
            2 <= base <= 16,
        ensures
            final(self).shows_number(number as int, base as int),
            final(self).raw() == old(self).raw(),
    {
        let base1: u16 = base as u16;
        assert(base1 * base1 <= 256) by (nonlinear_arith)
            requires
                base1 <= 16,
        ;
        let base2: u16 = base1 * base1;
        assert(base1 * base2 <= 4096) by (nonlinear_arith)
            requires
                base1 <= 16,
                base2 <= 256,
        ;
        let base3: u16 = base1 * base2;
        assert(base2 > 0 && base3 > 0) by (nonlinear_arith)
            requires
                base1 >= 2,
                base2 == base1 * base1,
                base3 == base1 * base2,
        ;
        let v1: u16 = (number / base3) % base1;
        let v2: u16 = (number / base2) % base1;
        let v3: u16 = (number / base1) % base1;
        let v4: u16 = number % base1;
        let ghost (n, b) = (number as int, base as int);
        assert(v1 == place_value(n, b, 0) && v2 == place_value(n, b, 1) && v3 == place_value(
            n,
            b,
            2,
        ) && v4 == place_value(n, b, 3));
        assert(v1 < 16 && v2 < 16 && v3 < 16 && v4 < 16);
        self.state_d1 = glyph_of(v1 as u8);
        self.state_d2 = glyph_of(v2 as u8);
        self.state_d3 = glyph_of(v3 as u8);
        self.state_d4 = glyph_of(v4 as u8);
        assert forall|d: Digit| #[trigger] self.buffer(d) == glyph(place_value(n, b, d.index())) by {
            match d {
                Digit::D1 => {},
                Digit::D2 => {},
                Digit::D3 => {},
                Digit::D4 => {},
            }
        }
    }

    /// Lights the decimal point of the digit `digit`, leaving its other
    /// segments as they are.
    pub fn set_decimal_point(&mut self, digit: Digit)
        ensures
            final(self).buffer(digit) == old(self).buffer(digit).update(7, true),
            forall|d: Digit| d != digit ==> #[trigger] final(self).buffer(d) == old(self).buffer(d),
            final(self).raw() == old(self).raw(),
    {
        match digit {
            Digit::D1 => self.state_d1[7] = true,
            Digit::D2 => self.state_d2[7] = true,
            Digit::D3 => self.state_d3[7] = true,
            Digit::D4 => self.state_d4[7] = true,
        }
    }

    /// The segment mask kept for the digit `digit`.
    pub fn state(&self, digit: Digit) -> (r: [bool; 8])
        ensures
            r@ == self.buffer(digit),
    {
        match digit {
            Digit::D1 => self.state_d1,
            Digit::D2 => self.state_d2,
            Digit::D3 => self.state_d3,
            Digit::D4 => self.state_d4,
        }
    }

    /// Shows the digit `digit`: first darkens all four digits, then sets the
    /// segments to the digit's mask, and only then lights the digit. Any other
    /// order would flash a pattern on the wrong digit.
    pub fn show(&mut self, digit: Digit)
        ensures
            final(self).raw() == old(self).raw() + show_ops(old(self).buffer(digit), digit),
            forall|d: Digit| #[trigger] final(self).buffer(d) == old(self).buffer(d),
    {
        self.seg8x4.disable_all_digits();
        let mask = self.state(digit);
        self.seg8x4.enable_segments(mask);
        self.seg8x4.enable_digit(digit);
        assert(self.raw() =~= old(self).raw() + show_ops(old(self).buffer(digit), digit));
    }
}

impl From<Seg8x4> for FourDigitDisplay {
    fn from(value: Seg8x4) -> (r: FourDigitDisplay)
        ensures
            r.raw() == value@,
            r.is_blank(),
    {
        let r = FourDigitDisplay {
            state_d1: [false; 8],
            state_d2: [false; 8],
            state_d3: [false; 8],
            state_d4: [false; 8],
            seg8x4: value,
        };
        assert forall|d: Digit| #[trigger] r.buffer(d) == blank() by {
            assert(r.buffer(d) =~= blank());
        }
        r
    }
}

impl vstd::std_specs::convert::FromSpecImpl<Seg8x4> for FourDigitDisplay {
    /// The conversion is described by the `ensures` of `from` instead.
    open spec fn obeys_from_spec() -> bool {
        false
    }

    open spec fn from_spec(v: Seg8x4) -> FourDigitDisplay {
        choose|r: FourDigitDisplay| r.raw() == v@ && r.is_blank()
    }
}

} // verus!
