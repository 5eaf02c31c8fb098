//! The escape sequence of a buffer of codes, as bytes in a fixed array.
use vstd::prelude::*;

use crate::write::compile_time::{Buffer, CAPACITY};
use crate::write::{decimal, digit, params, sgr};

verus! {

/// The bytes of ASCII text.
pub open spec fn ascii_bytes(s: Seq<char>) -> Seq<u8> {
    Seq::new(s.len(), |i: int| s[i] as u8)
}

/// The number of decimal digits of each code, summed.
pub open spec fn digits_total(codes: Seq<u8>) -> int
    decreases codes.len(),
{
    if codes.len() == 0 {
        0
    } else {
        digits_total(codes.drop_last()) + decimal(codes.last()).len()
    }
}

proof fn lemma_params_len(codes: Seq<u8>)
    requires
        codes.len() > 0,
    ensures
        params(codes).len() == digits_total(codes) + codes.len() - 1,
    decreases codes.len(),
{
    if codes.len() > 1 {
        lemma_params_len(codes.drop_last());
    } else {
        assert(codes.drop_last().len() == 0);
        assert(digits_total(codes.drop_last()) == 0);
        assert(codes.last() == codes[0]);
    }
}

/// The number of decimal digits of `value`.
pub fn number_of_digits(value: u8) -> (r: usize)
    ensures
        r == decimal(value).len(),
{
    let ghost v = value;
    let mut value = value;
    let mut len: usize = 1;
    while value > 9
        invariant
            (len == 1 && value == v) || (len == 2 && value == v / 10 && v >= 10) || (len == 3
                && value == v / 100 && v >= 100),
        decreases value,
    {
        value = value / 10;
        len += 1;
    }
    len
}

/// The length in bytes of the escape sequence of the codes in `buf`.
pub fn len_as_ansi_bytes(buf: &Buffer<[u8; 25]>) -> (r: usize)
    requires
        buf.len <= CAPACITY,
    ensures
        r == sgr(buf.codes()).len(),
{
    let mut result: usize = 0;
    let mut i: usize = 0;
    while i < buf.len
        invariant
            i <= buf.len <= CAPACITY,
            result == digits_total(buf.codes().subrange(0, i as int)),
            result <= 3 * i,
        decreases buf.len - i,
    {
        proof {
            assert(buf.codes().subrange(0, i + 1).drop_last() =~= buf.codes().subrange(0, i as int));
        }
        result += number_of_digits(buf.array[i]);
        i += 1;
    }
    proof {
        assert(buf.codes().subrange(0, buf.len as int) =~= buf.codes());
    }
    if buf.len > 0 {
        proof {
            lemma_params_len(buf.codes());
        }
        result += 2;
        result += (buf.len - 1) * 1;
        result += 1;
    }
    result
}

/// The escape sequence of the codes in `buf`, as bytes.
pub fn to_ansi_bytes<const N: usize>(buf: &Buffer<[u8; 25]>) -> (r: [u8; N])
    requires
        buf.len <= CAPACITY,
        N == sgr(buf.codes()).len(),
    ensures
        r@ == ascii_bytes(sgr(buf.codes())),
{
    let ghost codes = buf.codes();
    let ghost target = ascii_bytes(sgr(codes));
    let mut writer = AnsiWriter::<N>::new();
    let mut i: usize = 0;
    if buf.len > 0 {
        proof {
            lemma_params_len(codes);
        }
        writer = writer.write_byte(0x1B);
        writer = writer.write_byte(0x5B);
        assert(writer.written() =~= target.subrange(0, 2));
    }
    while i < buf.len
        invariant
            i <= buf.len <= CAPACITY,
            codes == buf.codes(),
            target == ascii_bytes(sgr(codes)),
            N == target.len(),
            writer.wf(),
            i == 0 && buf.len > 0 ==> writer.written() == target.subrange(0, 2),
            i == 0 && buf.len == 0 ==> writer.written() == Seq::<u8>::empty(),
            i > 0 ==> writer.written() == ascii_bytes(
                seq!['\x1B', '['] + params(codes.subrange(0, i as int)),
            ),
        decreases buf.len - i,
    {
        let ghost pre = codes.subrange(0, i as int);
        let ghost post = codes.subrange(0, i + 1);
        proof {
            assert(post.drop_last() =~= pre);
            lemma_params_len(codes);
            lemma_params_len(post);
            lemma_digits_prefix(codes, i + 1);
        }
        if i > 0 {
            writer = writer.write_byte(0x3B);
        }
        writer = writer.write_digits(buf.array[i]);
        proof {
            assert(writer.written() =~= ascii_bytes(seq!['\x1B', '['] + params(post)));
        }
        i += 1;
    }
    if buf.len > 0 {
        proof {
            assert(codes.subrange(0, buf.len as int) =~= codes);
            lemma_params_len(codes);
        }
        writer = writer.write_byte(0x6D);
        assert(writer.written() =~= target);
    } else {
        assert(writer.written() =~= target);
    }
    let r = writer.take();
    assert(r@ =~= target);
    r
}

proof fn lemma_digits_prefix(codes: Seq<u8>, k: int)
    requires
        0 <= k <= codes.len(),
    ensures
        digits_total(codes.subrange(0, k)) <= digits_total(codes),
    decreases codes.len(),
{
    if k < codes.len() {
        assert(codes.drop_last().subrange(0, k) =~= codes.subrange(0, k));
        lemma_digits_prefix(codes.drop_last(), k);
    } else {
        assert(codes.subrange(0, k) =~= codes);
    }
}

/// Fills a byte array from the front.
struct AnsiWriter<const N: usize> {
    state: Buffer<[u8; N]>,
}

impl<const N: usize> AnsiWriter<N> {
    spec fn written(&self) -> Seq<u8> {
        self.state.array@.subrange(0, self.state.len as int)
    }

    spec fn wf(&self) -> bool {
        self.state.len <= N
    }

    fn new() -> (r: AnsiWriter<N>)
        ensures
            r.wf(),
            r.written() == Seq::<u8>::empty(),
    {
        let r = AnsiWriter { state: Buffer { array: [0u8; N], len: 0 } };
        assert(r.written() =~= Seq::<u8>::empty());
        r
    }

    fn write_byte(self, value: u8) -> (r: AnsiWriter<N>)
        requires
            self.wf(),
            self.written().len() < N,
        ensures
            r.wf(),
            r.written() == self.written().push(value),
    {
        let mut state = self.state;
        let len = state.len;
        state.array[len] = value;
        state.len = len + 1;
        let r = AnsiWriter { state };
        assert(r.written() =~= self.written().push(value));
        r
    }

    /// Writes `value` in decimal.
    fn write_digits(self, value: u8) -> (r: AnsiWriter<N>)
        requires
            self.wf(),
            self.written().len() + decimal(value).len() <= N,
        ensures
            r.wf(),
            r.written() == self.written() + ascii_bytes(decimal(value)),
    {
        let mut w = self;
        if value >= 100 {
            w = w.write_byte(0x30 + value / 100);
        }
        if value >= 10 {
            w = w.write_byte(0x30 + (value / 10) % 10);
        }
        w = w.write_byte(0x30 + value % 10);
        proof {
            assert forall|d: int| 0 <= d < 10 implies digit(d) as u8 == 0x30 + d by {}
            assert(w.written() =~= self.written() + ascii_bytes(decimal(value)));
        }
        w
    }

    fn take(self) -> (r: [u8; N])
        requires
            self.wf(),
            self.written().len() == N,
        ensures
            r@ == self.written(),
    {
        assert(self.state.array@ =~= self.written());
        self.state.array
    }
}

} // verus!
