//! A terminal reading SGR codes: what it shows after each code.
use vstd::prelude::*;

use crate::ansi::effect::with_overlaps;
use crate::ansi::{AnsiModel, Toggle, ToggleColor};
use crate::color::{palette_index, same_color, Color, Coloree};
use crate::effect::Effect;
use crate::write::{codes, effect_code, effect_code_if, effect_codes, slot_codes, toggle_codes};

verus! {

/// What a terminal shows: the effects that are on, and the text and
/// background colors (`None` for the terminal's default).
pub struct Screen {
    pub on: Set<Effect>,
    pub fg: Option<Color>,
    pub bg: Option<Color>,
}

impl Screen {
    pub open spec fn clean() -> Screen {
        Screen { on: Set::empty(), fg: None, bg: None }
    }

    /// The two screens look the same, with colors compared by their own equality.
    pub open spec fn looks_like(self, other: Screen) -> bool {
        &&& self.on == other.on
        &&& same_shown(self.fg, other.fg)
        &&& same_shown(self.bg, other.bg)
    }
}

/// Both show the default color, or colors that are equal.
pub open spec fn same_shown(a: Option<Color>, b: Option<Color>) -> bool {
    match (a, b) {
        (None, None) => true,
        (Some(x), Some(y)) => same_color(x, y),
        _ => false,
    }
}

/// A color slot of the screen after a reset code for `slot`, if there is one.
pub open spec fn after_reset(cur: Option<Color>, slot: Option<ToggleColor>) -> Option<Color> {
    if slot == Some(ToggleColor::Reset) {
        None
    } else {
        cur
    }
}

/// A color slot of the screen after the set code for `slot`, if there is one.
pub open spec fn after_set(cur: Option<Color>, slot: Option<ToggleColor>) -> Option<Color> {
    match slot {
        Some(ToggleColor::On(c)) => Some(c),
        _ => cur,
    }
}

/// The screen after a terminal showing `s` reads the codes of `m` (see
/// [`codes`]): the universal reset clears everything; a reset code clears its
/// attribute, the shared code of bold and faint clearing both; a set code
/// switches its attribute on. Resets come before sets.
pub open spec fn show(s: Screen, m: AnsiModel) -> Screen {
    if m.is_empty() {
        s
    } else if m.is_reset() {
        Screen::clean()
    } else {
        let cleared = if m.is_only() {
            Screen::clean()
        } else {
            Screen {
                on: s.on - with_overlaps(m.effects.reset),
                fg: after_reset(s.fg, m.colors.fg),
                bg: after_reset(s.bg, m.colors.bg),
            }
        };
        Screen {
            on: cleared.on + m.effects.set,
            fg: after_set(cleared.fg, m.colors.fg),
            bg: after_set(cleared.bg, m.colors.bg),
        }
    }
}

/// The standard color with palette index `i` (0 to 15).
pub open spec fn standard_color(i: int) -> Color {
    if i == 0 {
        Color::Black
    } else if i == 1 {
        Color::Red
    } else if i == 2 {
        Color::Green
    } else if i == 3 {
        Color::Yellow
    } else if i == 4 {
        Color::Blue
    } else if i == 5 {
        Color::Purple
    } else if i == 6 {
        Color::Cyan
    } else if i == 7 {
        Color::White
    } else if i == 8 {
        Color::BrightBlack
    } else if i == 9 {
        Color::BrightRed
    } else if i == 10 {
        Color::BrightGreen
    } else if i == 11 {
        Color::BrightYellow
    } else if i == 12 {
        Color::BrightBlue
    } else if i == 13 {
        Color::BrightPurple
    } else if i == 14 {
        Color::BrightCyan
    } else {
        Color::BrightWhite
    }
}

/// The effect that an effect code sets (1 to 9) or resets (23 to 29).
pub open spec fn code_effect(c: u8) -> Effect {
    if c == 1 {
        Effect::Bold
    } else if c == 2 {
        Effect::Faint
    } else if c == 3 || c == 23 {
        Effect::Italic
    } else if c == 4 || c == 24 {
        Effect::Underline
    } else if c == 5 || c == 25 {
        Effect::Blink
    } else if c == 7 || c == 27 {
        Effect::Reverse
    } else if c == 8 || c == 28 {
        Effect::Hidden
    } else {
        Effect::Strike
    }
}

/// The color that an extended color sequence at the front of `codes` names
/// (`5;n` for a palette index, `2;r;g;b` for RGB), and its length with the
/// leading `38` or `48`.
pub open spec fn extended_color(codes: Seq<u8>) -> Option<(Color, int)> {
    if codes.len() >= 3 && codes[1] == 5 {
        Some((Color::ColorNum(codes[2]), 3))
    } else if codes.len() >= 5 && codes[1] == 2 {
        Some((Color::Rgb(codes[2], codes[3], codes[4]), 5))
    } else {
        None
    }
}

/// The screen after the parameter (or extended color) at the front of
/// `codes`, and how many codes it took. Unknown codes change nothing.
pub open spec fn read_one(s: Screen, codes: Seq<u8>) -> (Screen, int) {
    let c = codes[0];
    if c == 0 {
        (Screen::clean(), 1)
    } else if 1 <= c <= 9 && c != 6 {
        (Screen { on: s.on.insert(code_effect(c)), ..s }, 1)
    } else if c == 22 {
        (Screen { on: s.on.remove(Effect::Bold).remove(Effect::Faint), ..s }, 1)
    } else if 23 <= c <= 29 && c != 26 {
        (Screen { on: s.on.remove(code_effect(c)), ..s }, 1)
    } else if 30 <= c <= 37 {
        (Screen { fg: Some(standard_color(c - 30)), ..s }, 1)
    } else if 90 <= c <= 97 {
        (Screen { fg: Some(standard_color(c - 82)), ..s }, 1)
    } else if c == 39 {
        (Screen { fg: None, ..s }, 1)
    } else if 40 <= c <= 47 {
        (Screen { bg: Some(standard_color(c - 40)), ..s }, 1)
    } else if 100 <= c <= 107 {
        (Screen { bg: Some(standard_color(c - 92)), ..s }, 1)
    } else if c == 49 {
        (Screen { bg: None, ..s }, 1)
    } else if c == 38 || c == 48 {
        match extended_color(codes) {
            Some((color, k)) => if c == 38 {
                (Screen { fg: Some(color), ..s }, k)
            } else {
                (Screen { bg: Some(color), ..s }, k)
            },
            None => (s, 1),
        }
    } else {
        (s, 1)
    }
}

/// The screen after a terminal showing `s` reads the parameters `codes`.
#[verifier::opaque]
pub open spec fn read(s: Screen, codes: Seq<u8>) -> Screen
    decreases codes.len(),
{
    if codes.len() == 0 {
        s
    } else {
        let (next, k) = read_one(s, codes);
        if 1 <= k <= codes.len() {
            read(next, codes.subrange(k, codes.len() as int))
        } else {
            next
        }
    }
}

/// `codes` splits into whole parameters: no extended color is cut short.
pub open spec fn complete(codes: Seq<u8>) -> bool
    decreases codes.len(),
{
    if codes.len() == 0 {
        true
    } else if codes[0] == 38 || codes[0] == 48 {
        match extended_color(codes) {
            Some((_, k)) => complete(codes.subrange(k, codes.len() as int)),
            None => false,
        }
    } else {
        complete(codes.subrange(1, codes.len() as int))
    }
}

proof fn lemma_read_one_prefix(s: Screen, x: Seq<u8>, y: Seq<u8>)
    requires
        x.len() > 0,
        complete(x),
    ensures
        read_one(s, x + y) == read_one(s, x),
        1 <= read_one(s, x).1 <= x.len(),
        complete(x.subrange(read_one(s, x).1, x.len() as int)),
{
    let xy = x + y;
    assert(xy[0] == x[0]);
    if x.len() >= 2 {
        assert(xy[1] == x[1]);
    }
    if x.len() >= 3 {
        assert(xy[2] == x[2]);
    }
    if x.len() >= 5 {
        assert(xy[3] == x[3]);
        assert(xy[4] == x[4]);
    }
}

/// Reading whole parameters one after the other.
proof fn lemma_read_concat(s: Screen, x: Seq<u8>, y: Seq<u8>)
    requires
        complete(x),
    ensures
        read(s, x + y) == read(read(s, x), y),
        complete(y) ==> complete(x + y),
    decreases x.len(),
{
    reveal(read);
    if x.len() == 0 {
        assert(x + y =~= y);
    } else {
        lemma_read_one_prefix(s, x, y);
        let (next, k) = read_one(s, x);
        let rest = x.subrange(k, x.len() as int);
        assert((x + y).subrange(k, (x + y).len() as int) =~= rest + y);
        lemma_read_concat(next, rest, y);
        if x[0] == 38 || x[0] == 48 {
            assert(extended_color(x + y) == extended_color(x));
        }
    }
}

proof fn lemma_read_single(s: Screen, c: u8)
    requires
        c != 38 && c != 48,
    ensures
        read(s, seq![c]) == read_one(s, seq![c]).0,
        complete(seq![c]),
{
    reveal(read);
    let x = seq![c];
    assert(x[0] == c);
    assert(read_one(s, x).1 == 1);
    assert(x.subrange(1, 1) =~= Seq::<u8>::empty());
    let next = read_one(s, x).0;
    assert(read(next, Seq::<u8>::empty()) == next);
    assert(complete(Seq::<u8>::empty()));
}

/// Reading the code of one effect.
proof fn lemma_read_effect_if(s: Screen, set: Set<Effect>, e: Effect, t: Toggle)
    ensures
        complete(effect_code_if(set, e, t)),
        read(s, effect_code_if(set, e, t)) == if set.contains(e) {
            match t {
                Toggle::On => Screen { on: s.on.insert(e), ..s },
                Toggle::Reset => Screen { on: s.on - with_overlaps(set![e]), ..s },
            }
        } else {
            s
        },
{
    reveal(read);
    if set.contains(e) {
        let c = effect_code(e, t);
        lemma_read_single(s, c);
        let r = read(s, seq![c]);
        if t == Toggle::Reset {
            assert(r.on =~= s.on - with_overlaps(set![e]));
        }
    } else {
        assert(effect_code_if(set, e, t) =~= Seq::<u8>::empty());
    }
}

/// The screen after the codes of the effects in `set`: switched on for `On`,
/// off for `Reset` (the shared bold/faint code switching off both).
pub open spec fn after_effects(s: Screen, set: Set<Effect>, t: Toggle) -> Screen {
    match t {
        Toggle::On => Screen { on: s.on + set, ..s },
        Toggle::Reset => Screen { on: s.on - with_overlaps(set), ..s },
    }
}

/// The screen after the code of `e`, when `set` holds it.
pub open spec fn after_effect_if(s: Screen, set: Set<Effect>, e: Effect, t: Toggle) -> Screen {
    if set.contains(e) {
        match t {
            Toggle::On => Screen { on: s.on.insert(e), ..s },
            Toggle::Reset => Screen { on: s.on - with_overlaps(set![e]), ..s },
        }
    } else {
        s
    }
}

/// The effects one by one, in their canonical order.
pub open spec fn after_each_effect(s: Screen, set: Set<Effect>, t: Toggle) -> Screen {
    after_effect_if(
        after_effect_if(
            after_effect_if(
                after_effect_if(
                    after_effect_if(
                        after_effect_if(
                            after_effect_if(
                                after_effect_if(s, set, Effect::Bold, t),
                                set,
                                Effect::Faint,
                                t,
                            ),
                            set,
                            Effect::Italic,
                            t,
                        ),
                        set,
                        Effect::Underline,
                        t,
                    ),
                    set,
                    Effect::Blink,
                    t,
                ),
                set,
                Effect::Reverse,
                t,
            ),
            set,
            Effect::Hidden,
            t,
        ),
        set,
        Effect::Strike,
        t,
    )
}

proof fn lemma_after_effects(s: Screen, set: Set<Effect>, t: Toggle)
    ensures
        after_each_effect(s, set, t) == after_effects(s, set, t),
{
    assert(after_each_effect(s, set, t).on =~= after_effects(s, set, t).on);
}

proof fn lemma_read_effect_step(s: Screen, p: Seq<u8>, set: Set<Effect>, e: Effect, t: Toggle)
    requires
        complete(p),
    ensures
        complete(p + effect_code_if(set, e, t)),
        read(s, p + effect_code_if(set, e, t)) == after_effect_if(read(s, p), set, e, t),
{
    lemma_read_effect_if(read(s, p), set, e, t);
    lemma_read_concat(s, p, effect_code_if(set, e, t));
}

proof fn lemma_read_effects(s: Screen, set: Set<Effect>, t: Toggle)
    ensures
        complete(effect_codes(set, t)),
        read(s, effect_codes(set, t)) == after_effects(s, set, t),
{
    let acc0 = effect_code_if(set, Effect::Bold, t);
    lemma_read_effect_if(s, set, Effect::Bold, t);
    lemma_read_effect_step(s, acc0, set, Effect::Faint, t);
    let acc1 = acc0 + effect_code_if(set, Effect::Faint, t);
    lemma_read_effect_step(s, acc1, set, Effect::Italic, t);
    let acc2 = acc1 + effect_code_if(set, Effect::Italic, t);
    lemma_read_effect_step(s, acc2, set, Effect::Underline, t);
    let acc3 = acc2 + effect_code_if(set, Effect::Underline, t);
    lemma_read_effect_step(s, acc3, set, Effect::Blink, t);
    let acc4 = acc3 + effect_code_if(set, Effect::Blink, t);
    lemma_read_effect_step(s, acc4, set, Effect::Reverse, t);
    let acc5 = acc4 + effect_code_if(set, Effect::Reverse, t);
    lemma_read_effect_step(s, acc5, set, Effect::Hidden, t);
    let acc6 = acc5 + effect_code_if(set, Effect::Hidden, t);
    lemma_read_effect_step(s, acc6, set, Effect::Strike, t);
    let acc7 = acc6 + effect_code_if(set, Effect::Strike, t);
    lemma_after_effects(s, set, t);
}


/// The standard colors are their own palette entries.
proof fn lemma_standard_color(c: Color)
    requires
        !(c is ColorNum),
        !(c is Rgb),
    ensures
        palette_index(c).unwrap() < 16,
        standard_color(palette_index(c).unwrap() as int) == c,
{
}

/// The screen after the codes of one color slot.
pub open spec fn after_slot(s: Screen, coloree: Coloree, slot: Option<ToggleColor>, t: Toggle) -> Screen {
    let cur = match coloree {
        Coloree::Text => s.fg,
        Coloree::Background => s.bg,
    };
    let next = match t {
        Toggle::Reset => after_reset(cur, slot),
        Toggle::On => after_set(cur, slot),
    };
    match coloree {
        Coloree::Text => Screen { fg: next, ..s },
        Coloree::Background => Screen { bg: next, ..s },
    }
}

proof fn lemma_read_slot(s: Screen, coloree: Coloree, slot: Option<ToggleColor>, t: Toggle)
    ensures
        complete(slot_codes(coloree, slot, t)),
        read(s, slot_codes(coloree, slot, t)) == after_slot(s, coloree, slot, t),
{
    reveal(read);
    let x = slot_codes(coloree, slot, t);
    match (t, slot) {
        (Toggle::Reset, Some(ToggleColor::Reset)) => {
            lemma_read_single(s, x[0]);
            assert(x =~= seq![x[0]]);
        },
        (Toggle::On, Some(ToggleColor::On(c))) => {
            match c {
                Color::ColorNum(n) => {
                    assert(x.subrange(3, 3) =~= Seq::<u8>::empty());
                    assert(complete(x.subrange(3, 3)));
                    assert(read(read_one(s, x).0, x.subrange(3, 3)) == read_one(s, x).0);
                },
                Color::Rgb(r, g, b) => {
                    assert(x.subrange(5, 5) =~= Seq::<u8>::empty());
                    assert(complete(x.subrange(5, 5)));
                    assert(read(read_one(s, x).0, x.subrange(5, 5)) == read_one(s, x).0);
                },
                _ => {
                    lemma_standard_color(c);
                    lemma_read_single(s, x[0]);
                    assert(x =~= seq![x[0]]);
                },
            }
        },
        _ => {
            assert(x =~= Seq::<u8>::empty());
        },
    }
}

/// The screen after the reset codes (`t` is `Reset`) or set codes of a style.
pub open spec fn after_toggle(s: Screen, m: AnsiModel, t: Toggle) -> Screen {
    let effects = match t {
        Toggle::On => m.effects.set,
        Toggle::Reset => m.effects.reset,
    };
    after_slot(
        after_slot(after_effects(s, effects, t), Coloree::Text, m.colors.fg, t),
        Coloree::Background,
        m.colors.bg,
        t,
    )
}

proof fn lemma_read_toggle(s: Screen, m: AnsiModel, t: Toggle)
    ensures
        complete(toggle_codes(m, t)),
        read(s, toggle_codes(m, t)) == after_toggle(s, m, t),
{
    let effects = match t {
        Toggle::On => m.effects.set,
        Toggle::Reset => m.effects.reset,
    };
    let e = effect_codes(effects, t);
    let f = slot_codes(Coloree::Text, m.colors.fg, t);
    let b = slot_codes(Coloree::Background, m.colors.bg, t);
    lemma_read_effects(s, effects, t);
    let s1 = read(s, e);
    lemma_read_slot(s1, Coloree::Text, m.colors.fg, t);
    lemma_read_concat(s, e, f);
    let s2 = read(s1, f);
    lemma_read_slot(s2, Coloree::Background, m.colors.bg, t);
    lemma_read_concat(s, e + f, b);
}

/// A terminal reading the codes of a style ends up as [`show`] says.
pub proof fn lemma_read_codes(s: Screen, m: AnsiModel)
    ensures
        read(s, codes(m)) == show(s, m),
{
    reveal(read);
    if m.is_empty() {
    } else if m.is_reset() {
        lemma_read_single(s, 0);
    } else {
        lemma_read_toggle(s, m, Toggle::Reset);
        let resets = if m.is_only() {
            seq![0u8]
        } else {
            toggle_codes(m, Toggle::Reset)
        };
        lemma_read_single(s, 0);
        let s1 = read(s, resets);
        lemma_read_toggle(s1, m, Toggle::On);
        lemma_read_concat(s, resets, toggle_codes(m, Toggle::On));
        let shown = show(s, m);
        let got = read(s, codes(m));
        assert(got.on =~= shown.on);
    }
}

} // verus!
