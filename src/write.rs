//! The SGR codes of a style, and the escape sequence that carries them.
pub(crate) mod compile_time;
pub(crate) mod run_time;

use vstd::prelude::*;

use crate::ansi::{AnsiModel, Toggle, ToggleColor};
use crate::color::{palette_index, Color, Coloree};
use crate::effect::Effect;

verus! {

/// The SGR code that sets or resets an effect. Bold and faint share a reset code.
pub open spec fn effect_code(e: Effect, t: Toggle) -> u8 {
    match t {
        Toggle::On => match e {
            Effect::Bold => 1,
            Effect::Faint => 2,
            Effect::Italic => 3,
            Effect::Underline => 4,
            Effect::Blink => 5,
            Effect::Reverse => 7,
            Effect::Hidden => 8,
            Effect::Strike => 9,
        },
        Toggle::Reset => match e {
            Effect::Bold => 22,
            Effect::Faint => 22,
            Effect::Italic => 23,
            Effect::Underline => 24,
            Effect::Blink => 25,
            Effect::Reverse => 27,
            Effect::Hidden => 28,
            Effect::Strike => 29,
        },
    }
}

/// The SGR codes that set a color, or reset it, for the text or the background.
pub open spec fn color_codes(coloree: Coloree, tc: ToggleColor) -> Seq<u8> {
    let (base, bright, extended, reset): (u8, u8, u8, u8) = match coloree {
        Coloree::Text => (30, 90, 38, 39),
        Coloree::Background => (40, 100, 48, 49),
    };
    match tc {
        ToggleColor::Reset => seq![reset],
        ToggleColor::On(c) => match c {
            Color::ColorNum(n) => seq![extended, 5, n],
            Color::Rgb(r, g, b) => seq![extended, 2, r, g, b],
            _ => {
                let i = palette_index(c).unwrap();
                if i < 8 {
                    seq![(base + i) as u8]
                } else {
                    seq![(bright + i - 8) as u8]
                }
            },
        },
    }
}

/// The code of `e` when `s` holds it.
pub open spec fn effect_code_if(s: Set<Effect>, e: Effect, t: Toggle) -> Seq<u8> {
    if s.contains(e) {
        seq![effect_code(e, t)]
    } else {
        seq![]
    }
}

/// The codes of the effects in `s`, in the canonical order of effects.
pub open spec fn effect_codes(s: Set<Effect>, t: Toggle) -> Seq<u8> {
    effect_code_if(s, Effect::Bold, t) + effect_code_if(s, Effect::Faint, t) + effect_code_if(
        s,
        Effect::Italic,
        t,
    ) + effect_code_if(s, Effect::Underline, t) + effect_code_if(s, Effect::Blink, t)
        + effect_code_if(s, Effect::Reverse, t) + effect_code_if(s, Effect::Hidden, t)
        + effect_code_if(s, Effect::Strike, t)
}

/// The codes of a color slot: its reset codes or its set codes, by `t`.
pub open spec fn slot_codes(coloree: Coloree, slot: Option<ToggleColor>, t: Toggle) -> Seq<u8> {
    match (t, slot) {
        (Toggle::Reset, Some(ToggleColor::Reset)) => color_codes(coloree, ToggleColor::Reset),
        (Toggle::On, Some(ToggleColor::On(c))) => color_codes(coloree, ToggleColor::On(c)),
        _ => seq![],
    }
}

/// The reset codes (`t` is `Reset`) or set codes (`t` is `On`) of a style,
/// effects first, then the text color, then the background color.
pub open spec fn toggle_codes(m: AnsiModel, t: Toggle) -> Seq<u8> {
    let effects = match t {
        Toggle::On => m.effects.set,
        Toggle::Reset => m.effects.reset,
    };
    effect_codes(effects, t) + slot_codes(Coloree::Text, m.colors.fg, t) + slot_codes(
        Coloree::Background,
        m.colors.bg,
        t,
    )
}

/// The SGR codes that a style renders: none when it is empty, the universal
/// reset `0` when it is the reset style, else its resets and then its sets. A
/// style that specifies every attribute writes `0` in place of its resets.
pub open spec fn codes(m: AnsiModel) -> Seq<u8> {
    if m.is_empty() {
        seq![]
    } else if m.is_reset() {
        seq![0]
    } else {
        let resets = if m.is_only() {
            seq![0u8]
        } else {
            toggle_codes(m, Toggle::Reset)
        };
        resets + toggle_codes(m, Toggle::On)
    }
}

/// The number of effects in `s`.
pub open spec fn effect_count(s: Set<Effect>) -> int {
    (if s.contains(Effect::Bold) { 1int } else { 0int }) + (if s.contains(Effect::Faint) { 1int } else { 0int }) + (if s.contains(Effect::Italic) { 1int } else { 0int }) + (if s.contains(Effect::Underline) { 1int } else { 0int }) + (if s.contains(Effect::Blink) { 1int } else { 0int }) + (if s.contains(Effect::Reverse) { 1int } else { 0int }) + (if s.contains(Effect::Hidden) { 1int } else { 0int }) + (if s.contains(Effect::Strike) { 1int } else { 0int })
}

proof fn lemma_effect_codes_count(s: Set<Effect>, t: Toggle)
    ensures
        effect_codes(s, t).len() == effect_count(s),
{
    let x0 = effect_code_if(s, Effect::Bold, t);
    assert(x0.len() == if s.contains(Effect::Bold) { 1int } else { 0int });
    let x1 = effect_code_if(s, Effect::Faint, t);
    assert(x1.len() == if s.contains(Effect::Faint) { 1int } else { 0int });
    let x2 = effect_code_if(s, Effect::Italic, t);
    assert(x2.len() == if s.contains(Effect::Italic) { 1int } else { 0int });
    let x3 = effect_code_if(s, Effect::Underline, t);
    assert(x3.len() == if s.contains(Effect::Underline) { 1int } else { 0int });
    let x4 = effect_code_if(s, Effect::Blink, t);
    assert(x4.len() == if s.contains(Effect::Blink) { 1int } else { 0int });
    let x5 = effect_code_if(s, Effect::Reverse, t);
    assert(x5.len() == if s.contains(Effect::Reverse) { 1int } else { 0int });
    let x6 = effect_code_if(s, Effect::Hidden, t);
    assert(x6.len() == if s.contains(Effect::Hidden) { 1int } else { 0int });
    let x7 = effect_code_if(s, Effect::Strike, t);
    assert(x7.len() == if s.contains(Effect::Strike) { 1int } else { 0int });
    assert(effect_codes(s, t) == x0 + x1 + x2 + x3 + x4 + x5 + x6 + x7);
}

proof fn lemma_effect_codes_len(r: Set<Effect>, s: Set<Effect>)
    requires
        r.disjoint(s),
    ensures
        effect_codes(r, Toggle::Reset).len() + effect_codes(s, Toggle::On).len() <= 8,
{
    lemma_effect_codes_count(r, Toggle::Reset);
    lemma_effect_codes_count(s, Toggle::On);
    assert(!(s.contains(Effect::Bold) && r.contains(Effect::Bold)));
    assert(!(s.contains(Effect::Faint) && r.contains(Effect::Faint)));
    assert(!(s.contains(Effect::Italic) && r.contains(Effect::Italic)));
    assert(!(s.contains(Effect::Underline) && r.contains(Effect::Underline)));
    assert(!(s.contains(Effect::Blink) && r.contains(Effect::Blink)));
    assert(!(s.contains(Effect::Reverse) && r.contains(Effect::Reverse)));
    assert(!(s.contains(Effect::Hidden) && r.contains(Effect::Hidden)));
    assert(!(s.contains(Effect::Strike) && r.contains(Effect::Strike)));
}

proof fn lemma_slot_codes_len(coloree: Coloree, slot: Option<ToggleColor>)
    ensures
        slot_codes(coloree, slot, Toggle::Reset).len() + slot_codes(coloree, slot, Toggle::On).len()
            <= 5,
{
}

/// No style renders more than 19 codes: one universal reset, a code for each
/// effect, and at most five for each color.
pub proof fn lemma_codes_len(m: AnsiModel)
    requires
        m.wf(),
    ensures
        codes(m).len() <= 19,
{
    lemma_effect_codes_len(m.effects.reset, m.effects.set);
    lemma_slot_codes_len(Coloree::Text, m.colors.fg);
    lemma_slot_codes_len(Coloree::Background, m.colors.bg);
    assert(toggle_codes(m, Toggle::Reset).len() + toggle_codes(m, Toggle::On).len() <= 18);
}

/// The decimal digit `d`.
pub open spec fn digit(d: int) -> char {
    if d == 0 {
        '0'
    } else if d == 1 {
        '1'
    } else if d == 2 {
        '2'
    } else if d == 3 {
        '3'
    } else if d == 4 {
        '4'
    } else if d == 5 {
        '5'
    } else if d == 6 {
        '6'
    } else if d == 7 {
        '7'
    } else if d == 8 {
        '8'
    } else {
        '9'
    }
}

/// `n` in decimal.
pub open spec fn decimal(n: u8) -> Seq<char> {
    if n < 10 {
        seq![digit(n as int)]
    } else if n < 100 {
        seq![digit(n as int / 10), digit(n as int % 10)]
    } else {
        seq![digit(n as int / 100), digit((n as int / 10) % 10), digit(n as int % 10)]
    }
}

/// The codes in decimal, separated by `;`.
pub open spec fn params(codes: Seq<u8>) -> Seq<char>
    decreases codes.len(),
{
    if codes.len() == 0 {
        seq![]
    } else if codes.len() == 1 {
        decimal(codes[0])
    } else {
        params(codes.drop_last()) + seq![';'] + decimal(codes.last())
    }
}

/// The escape sequence `ESC [ codes m`, or nothing when there are no codes.
pub open spec fn sgr(codes: Seq<u8>) -> Seq<char> {
    if codes.len() == 0 {
        seq![]
    } else {
        seq!['\x1B', '['] + params(codes) + seq!['m']
    }
}

/// The text that a style renders.
pub open spec fn render(m: AnsiModel) -> Seq<char> {
    sgr(codes(m))
}

} // verus!
