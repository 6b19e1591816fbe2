//! Reading whole lines from a byte stream, and the number that a line holds.
use vstd::prelude::*;

verus! {

/// The newline byte that ends a line.
pub const NEWLINE: u8 = 10;

/// What a line reader does with one more result of its byte source, `len`
/// bytes of the line being stored already: a byte other than a newline is
/// stored at `len` and reading goes on; a newline or a fault of the source
/// ends the line and stores nothing. Returns whether the byte was stored.
pub fn store_line_byte<const N: usize>(buffer: &mut [u8; N], len: usize, byte: Option<u8>) -> (stored: bool)
    requires
        len < N,
    ensures
        stored == (byte.is_some() && byte.unwrap() != NEWLINE),
        stored ==> final(buffer)@ == old(buffer)@.update(len as int, byte.unwrap()),
        !stored ==> final(buffer)@ == old(buffer)@,
{
    match byte {
        Some(b) => {
            if b != NEWLINE {
                buffer[len] = b;
                true
            } else {
                false
            }
        },
        None => false,
    }
}

/// A source of bytes that can be read one line at a time.
pub trait ReadLine {
    /// Waits for the next byte of the stream; `None` where the stream reports
    /// a fault.
    fn read_byte(&mut self) -> Option<u8>;

    /// Reads bytes into `buffer` until a newline comes, the source reports a
    /// fault, or the buffer is full; in the last case the byte that filled it
    /// is kept and nothing more is read. Neither the newline nor any
    /// terminator is stored. Returns how many bytes were stored: the line is
    /// the front of the buffer of that length, and the rest of the buffer is
    /// left as it was.
    fn read_line<'a, const N: usize>(&mut self, buffer: &'a mut [u8; N]) -> (line: &'a [u8])
        ensures
            line@.len() <= N,
            line@ == final(buffer)@.take(line@.len() as int),
            forall|i: int| 0 <= i < line@.len() ==> line@[i] != NEWLINE,
            forall|i: int| line@.len() <= i < N ==> final(buffer)@[i] == old(buffer)@[i],
    {
        let mut i: usize = 0;
        while i < N
            invariant
                i <= N,
                buffer@.len() == N,
                forall|k: int| 0 <= k < i ==> buffer@[k] != NEWLINE,
                forall|k: int| i <= k < N ==> buffer@[k] == old(buffer)@[k],
            decreases N - i,
        {
            let byte = self.read_byte();
            if store_line_byte(buffer, i, byte) {
                i = i + 1;
            } else {
                break;
            }
        }
        let filled: &'a [u8; N] = buffer;
        vstd::slice::slice_subrange(vstd::array::array_as_slice(filled), 0, i)
    }
}

/// A byte source over bytes held in memory: it hands them out in order and
/// reports a fault once they are used up.
pub struct ByteReader {
    bytes: Vec<u8>,
    pos: usize,
}

impl ByteReader {
    /// The bytes not yet handed out.
    pub closed spec fn remaining(&self) -> Seq<u8> {
        self.bytes@.subrange(self.pos as int, self.bytes@.len() as int)
    }

    /// A source that will hand out `bytes`.
    pub fn new(bytes: Vec<u8>) -> (r: ByteReader)
        ensures
            r.remaining() == bytes@,
    {
        let r = ByteReader { bytes, pos: 0 };
        assert(r.remaining() =~= r.bytes@);
        r
    }
}

impl ReadLine for ByteReader {
    fn read_byte(&mut self) -> Option<u8> {
        if self.pos < self.bytes.len() {
            let b = self.bytes[self.pos];
            self.pos = self.pos + 1;
            Some(b)
        } else {
            None
        }
    }
}

/// The byte is an ASCII decimal digit.
pub open spec fn is_digit(b: u8) -> bool {
    48 <= b <= 57
}

/// The number that the decimal digits of `s` spell, most significant first;
/// every other byte is passed over.
pub open spec fn decimal_value(s: Seq<u8>) -> int
    decreases s.len(),
{
    if s.len() == 0 {
        0
    } else if is_digit(s.last()) {
        decimal_value(s.drop_last()) * 10 + (s.last() - 48)
    } else {
        decimal_value(s.drop_last())
    }
}

/// The number that the decimal digits of `bytes` spell, most significant
/// first, other bytes passed over, modulo 2 to the 16th. A line with no digit
/// gives zero.
pub fn parse_number(bytes: &[u8]) -> (r: u16)
    ensures
        r == decimal_value(bytes@) % 65536,
{
    let mut value: u32 = 0;
    let mut i: usize = 0;
    while i < bytes.len()
        invariant
            i <= bytes@.len(),
            value < 65536,
            value == decimal_value(bytes@.take(i as int)) % 65536,
        decreases bytes@.len() - i,
    {
        let b = bytes[i];
        let prefix = Ghost(bytes@.take(i as int));
        assert(bytes@.take(i as int + 1).drop_last() =~= prefix@);
        assert(bytes@.take(i as int + 1).last() == b);
        if 48 <= b && b <= 57 {
            let next: u32 = (value * 10 + (b - 48) as u32) % 65536;
            proof {
                let d = decimal_value(prefix@);
                vstd::arithmetic::div_mod::lemma_mul_mod_noop_left(d, 10, 65536);
                vstd::arithmetic::div_mod::lemma_add_mod_noop(d * 10, (b - 48) as int, 65536);
                vstd::arithmetic::div_mod::lemma_add_mod_noop((d % 65536) * 10, (b - 48) as int, 65536);
                vstd::arithmetic::div_mod::lemma_mod_twice((d % 65536) * 10, 65536);
            }
            value = next;
        }
        i = i + 1;
    }
    assert(bytes@.take(bytes@.len() as int) =~= bytes@);
    value as u16
}

} // verus!
