//! Renders a style into the text of its escape sequence.
use vstd::prelude::*;
use vstd::string::*;

use crate::ansi::{Toggle, ToggleColor};
use crate::color::{Color, Coloree};
use crate::effect::Effect;
use crate::write::{color_codes, decimal, digit, effect_code, params, sgr};

verus! {

/// The text of a decimal digit.
fn digit_str(d: u8) -> (r: &'static str)
    requires
        d < 10,
    ensures
        r@ == seq![digit(d as int)],
{
    match d {
        0 => {
            proof {
                reveal_strlit("0");
            }
            "0"
        },
        1 => {
            proof {
                reveal_strlit("1");
            }
            "1"
        },
        2 => {
            proof {
                reveal_strlit("2");
            }
            "2"
        },
        3 => {
            proof {
                reveal_strlit("3");
            }
            "3"
        },
        4 => {
            proof {
                reveal_strlit("4");
            }
            "4"
        },
        5 => {
            proof {
                reveal_strlit("5");
            }
            "5"
        },
        6 => {
            proof {
                reveal_strlit("6");
            }
            "6"
        },
        7 => {
            proof {
                reveal_strlit("7");
            }
            "7"
        },
        8 => {
            proof {
                reveal_strlit("8");
            }
            "8"
        },
        _ => {
            proof {
                reveal_strlit("9");
            }
            "9"
        },
    }
}

/// Appends `n` in decimal.
pub(crate) fn push_decimal(out: &mut String, n: u8)
    ensures
        final(out)@ == old(out)@ + decimal(n),
{
    if n >= 100 {
        out.append(digit_str(n / 100));
    }
    if n >= 10 {
        out.append(digit_str((n / 10) % 10));
    }
    out.append(digit_str(n % 10));
    proof {
        assert(final(out)@ =~= old(out)@ + decimal(n));
    }
}

/// Whether the escape sequence has been opened.
enum State {
    Clean,
    Dirty,
}

/// Writes SGR codes into the text of one escape sequence.
pub struct Formatter {
    out: String,
    state: State,
    codes: Ghost<Seq<u8>>,
}

impl Formatter {
    /// The codes written so far.
    pub closed spec fn codes(&self) -> Seq<u8> {
        self.codes@
    }

    /// The text holds the escape sequence of the codes, still open.
    pub closed spec fn wf(&self) -> bool {
        &&& (self.state is Clean) == (self.codes@.len() == 0)
        &&& self.out@ == if self.codes@.len() == 0 {
            Seq::<char>::empty()
        } else {
            seq!['\x1B', '['] + params(self.codes@)
        }
    }

    pub fn new() -> (r: Formatter)
        ensures
            r.wf(),
            r.codes() == Seq::<u8>::empty(),
    {
        Formatter { out: String::new(), state: State::Clean, codes: Ghost(Seq::empty()) }
    }

    /// Writes one code, after the opening of the sequence or a separator.
    fn write_code(&mut self, n: u8)
        requires
            old(self).wf(),
        ensures
            final(self).wf(),
            final(self).codes() == old(self).codes().push(n),
    {
        match self.state {
            State::Clean => {
                proof {
                    reveal_strlit("\x1B[");
                }
                self.out.append("\x1B[");
            },
            State::Dirty => {
                proof {
                    reveal_strlit(";");
                }
                self.out.append(";");
            },
        }
        push_decimal(&mut self.out, n);
        self.state = State::Dirty;
        let ghost old_codes = self.codes@;
        self.codes = Ghost(self.codes@.push(n));
        proof {
            assert(self.codes@.drop_last() =~= old_codes);
            assert(self.out@ =~= seq!['\x1B', '['] + params(self.codes@));
        }
    }

    /// Closes the sequence and hands out its text.
    pub fn write_terminator(self) -> (r: String)
        requires
            self.wf(),
        ensures
            r@ == sgr(self.codes()),
    {
        let mut out = self.out;
        match self.state {
            State::Clean => {},
            State::Dirty => {
                proof {
                    reveal_strlit("m");
                }
                out.append("m");
            },
        }
        proof {
            assert(out@ =~= sgr(self.codes@));
        }
        out
    }

    /// Writes the universal reset.
    pub fn write_reset(&mut self)
        requires
            old(self).wf(),
        ensures
            final(self).wf(),
            final(self).codes() == old(self).codes().push(0),
    {
        self.write_code(0)
    }

    /// Writes the codes of a color for the text or the background.
    pub fn write_color(&mut self, color: Coloree, value: ToggleColor)
        requires
            old(self).wf(),
        ensures
            final(self).wf(),
            final(self).codes() == old(self).codes() + color_codes(color, value),
    {
        let ghost start = self.codes@;
        let (base, bright, extended, reset): (u8, u8, u8, u8) = match color {
            Coloree::Text => (30, 90, 38, 39),
            Coloree::Background => (40, 100, 48, 49),
        };
        match value {
            ToggleColor::Reset => self.write_code(reset),
            ToggleColor::On(c) => match c {
                Color::ColorNum(n) => {
                    self.write_code(extended);
                    self.write_code(5);
                    self.write_code(n);
                },
                Color::Rgb(r, g, b) => {
                    self.write_code(extended);
                    self.write_code(2);
                    self.write_code(r);
                    self.write_code(g);
                    self.write_code(b);
                },
                _ => {
                    let i = c.get_num();
                    if i < 8 {
                        self.write_code(base + i);
                    } else {
                        self.write_code(bright + i - 8);
                    }
                },
            },
        }
        proof {
            assert(self.codes@ =~= start + color_codes(color, value));
        }
    }

    /// Writes the code that sets or resets an effect.
    pub fn write_effect(&mut self, effect: Effect, value: Toggle)
        requires
            old(self).wf(),
        ensures
            final(self).wf(),
            final(self).codes() == old(self).codes().push(effect_code(effect, value)),
    {
        let code: u8 = match (effect, value) {
            (Effect::Bold, Toggle::Reset) => 22,
            (Effect::Faint, Toggle::Reset) => 22,
            (Effect::Italic, Toggle::Reset) => 23,
            (Effect::Underline, Toggle::Reset) => 24,
            (Effect::Blink, Toggle::Reset) => 25,
            (Effect::Reverse, Toggle::Reset) => 27,
            (Effect::Hidden, Toggle::Reset) => 28,
            (Effect::Strike, Toggle::Reset) => 29,
            (Effect::Bold, Toggle::On) => 1,
            (Effect::Faint, Toggle::On) => 2,
            (Effect::Italic, Toggle::On) => 3,
            (Effect::Underline, Toggle::On) => 4,
            (Effect::Blink, Toggle::On) => 5,
            (Effect::Reverse, Toggle::On) => 7,
            (Effect::Hidden, Toggle::On) => 8,
            (Effect::Strike, Toggle::On) => 9,
        };
        self.write_code(code)
    }
}

} // verus!
