//! Writes the SGR codes of a style into a fixed buffer of numbers.
use vstd::prelude::*;

use crate::ansi::{Toggle, ToggleColor};
use crate::color::{Color, Coloree};
use crate::effect::Effect;
use crate::write::{color_codes, effect_code};

verus! {

/// The room for codes: no style renders more than 19.
pub const CAPACITY: usize = 25;

/// A fixed array and the length of its used prefix.
pub struct Buffer<T> {
    pub array: T,
    pub len: usize,
}

impl Buffer<[u8; 25]> {
    /// The numbers in use.
    pub open spec fn codes(&self) -> Seq<u8> {
        self.array@.subrange(0, self.len as int)
    }
}

/// Appends codes to a buffer.
pub struct Writer {
    buf: Buffer<[u8; 25]>,
}

impl Writer {
    /// The codes written so far.
    pub closed spec fn codes(&self) -> Seq<u8> {
        self.buf.codes()
    }

    pub closed spec fn wf(&self) -> bool {
        self.buf.len <= CAPACITY
    }

    pub fn new() -> (r: Writer)
        ensures
            r.wf(),
            r.codes() == Seq::<u8>::empty(),
    {
        let r = Writer { buf: Buffer { array: [0u8; 25], len: 0 } };
        assert(r.codes() =~= Seq::<u8>::empty());
        r
    }

    fn write(self, value: u8) -> (r: Writer)
        requires
            self.wf(),
            self.codes().len() < CAPACITY,
        ensures
            r.wf(),
            r.codes() == self.codes().push(value),
    {
        let mut buf = self.buf;
        let len = buf.len;
        buf.array[len] = value;
        buf.len = len + 1;
        let r = Writer { buf };
        assert(r.codes() =~= self.codes().push(value));
        r
    }

    /// The buffer of codes.
    pub fn take(self) -> (r: Buffer<[u8; 25]>)
        requires
            self.wf(),
        ensures
            r.codes() == self.codes(),
            r.len <= CAPACITY,
    {
        self.buf
    }

    /// Writes the universal reset.
    pub fn write_reset(self) -> (r: Writer)
        requires
            self.wf(),
            self.codes().len() < CAPACITY,
        ensures
            r.wf(),
            r.codes() == self.codes().push(0),
    {
        self.write(0)
    }

    /// Writes the codes of a color for the text or the background.
    pub fn write_color(self, color: Coloree, value: ToggleColor) -> (r: Writer)
        requires
            self.wf(),
            self.codes().len() + color_codes(color, value).len() <= CAPACITY,
        ensures
            r.wf(),
            r.codes() == self.codes() + color_codes(color, value),
    {
        let ghost start = self.codes();
        let (base, bright, extended, reset): (u8, u8, u8, u8) = match color {
            Coloree::Text => (30, 90, 38, 39),
            Coloree::Background => (40, 100, 48, 49),
        };
        let r = match value {
            ToggleColor::Reset => self.write(reset),
            ToggleColor::On(c) => match c {
                Color::ColorNum(n) => self.write(extended).write(5).write(n),
                Color::Rgb(r, g, b) => self.write(extended).write(2).write(r).write(g).write(b),
                _ => {
                    let i = c.get_num();
                    if i < 8 {
                        self.write(base + i)
                    } else {
                        self.write(bright + i - 8)
                    }
                },
            },
        };
        assert(r.codes() =~= start + color_codes(color, value));
        r
    }

    /// Writes the code that sets or resets an effect.
    pub fn write_effect(self, effect: Effect, value: Toggle) -> (r: Writer)
        requires
            self.wf(),
            self.codes().len() < CAPACITY,
        ensures
            r.wf(),
            r.codes() == self.codes().push(effect_code(effect, value)),
    {
        match (effect, value) {
            (Effect::Bold, Toggle::Reset) => self.write(22),
            (Effect::Faint, Toggle::Reset) => self.write(22),
            (Effect::Italic, Toggle::Reset) => self.write(23),
            (Effect::Underline, Toggle::Reset) => self.write(24),
            (Effect::Blink, Toggle::Reset) => self.write(25),
            (Effect::Reverse, Toggle::Reset) => self.write(27),
            (Effect::Hidden, Toggle::Reset) => self.write(28),
            (Effect::Strike, Toggle::Reset) => self.write(29),
            (Effect::Bold, Toggle::On) => self.write(1),
            (Effect::Faint, Toggle::On) => self.write(2),
            (Effect::Italic, Toggle::On) => self.write(3),
            (Effect::Underline, Toggle::On) => self.write(4),
            (Effect::Blink, Toggle::On) => self.write(5),
            (Effect::Reverse, Toggle::On) => self.write(7),
            (Effect::Hidden, Toggle::On) => self.write(8),
            (Effect::Strike, Toggle::On) => self.write(9),
        }
    }
}

} // verus!
