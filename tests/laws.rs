use ansiconst::io::preferred_ansi;
use ansiconst::{Ansi, Color, ColorReset, Coloree, Effect, NestingContext, StyledString};

fn samples() -> Vec<Ansi> {
    vec![
        Ansi::empty(),
        Ansi::reset(),
        Effect::Bold.ansi(),
        Effect::Faint.ansi(),
        Effect::Bold.ansi().add(Effect::Faint.ansi()),
        Effect::Bold.not(),
        Effect::Italic.only(),
        Color::Red.ansi().add(Effect::Underline.ansi()),
        Color::Blue.bg().important(),
        Color::rgb(1, 2, 3).ansi().add(Color::num(200).bg()),
        Color::reset().ansi().add(Effect::Strike.not()),
    ]
}

#[test]
fn add_with_no_ansi_gives_no_ansi() {
    for x in samples() {
        assert!(Ansi::no_ansi().add(x).is_no_ansi());
        assert!(x.add(Ansi::no_ansi()).is_no_ansi());
        assert_eq!(x.add(Ansi::no_ansi()), Ansi::no_ansi());
    }
}

#[test]
fn self_transition_renders_nothing() {
    for v in samples() {
        assert_eq!(v.transition(v).to_string(), "");
    }
    assert_eq!(Ansi::no_ansi().transition(Ansi::no_ansi()).to_string(), "");
}

#[test]
fn transition_to_reset_is_the_universal_reset() {
    for v in samples() {
        let expected = if v.is_reset() { "" } else { "\x1B[0m" };
        assert_eq!(v.transition(Ansi::reset()).to_string(), expected);
    }
    assert_eq!(Ansi::reset().transition(Ansi::reset()).to_string(), "");
}

#[test]
fn no_ansi_to_reset_renders_nothing() {
    assert_eq!(Ansi::no_ansi().transition(Ansi::reset()).to_string(), "");
    assert!(Ansi::no_ansi().transition(Ansi::reset()).is_empty());
}

#[test]
fn not_twice_leaves_nothing() {
    for v in samples() {
        assert!(v.not().not().is_empty());
        assert_eq!(v.not().not() == v, v.is_empty());
    }
    assert!(Ansi::no_ansi().not().not().is_no_ansi());
}

#[test]
fn bold_to_nothing_resets_once() {
    assert_eq!(Effect::Bold.ansi().transition(Ansi::empty()).to_string(), "\x1B[22m");
    let both = Effect::Bold.ansi().add(Effect::Faint.ansi());
    assert_eq!(both.transition(Ansi::empty()).to_string(), "\x1B[22m");
}

#[test]
fn bold_add_red_renders_both() {
    assert_eq!(Effect::Bold.ansi().add(Color::Red.ansi()).to_string(), "\x1B[1;31m");
}

#[test]
fn nested_bold_underline() {
    let mut inner_text = StyledString::plain("X ");
    inner_text.push_styled(StyledString::styled(Effect::Underline.ansi(), StyledString::plain("Y")));
    inner_text.push_str(" X");
    let outer = StyledString::styled(Effect::Bold.ansi(), inner_text);
    assert_eq!(outer.to_string(), "\x1B[1mX \x1B[4mY\x1B[24m X\x1B[22m");
}

#[test]
fn no_ansi_hides_everything_nested() {
    let inner = StyledString::styled(
        Color::Green.ansi().add(Effect::Underline.ansi()),
        StyledString::styled(Effect::Bold.important(), StyledString::plain("deep")),
    );
    let mut body = StyledString::plain("plain, ");
    body.push_styled(inner);
    let outer = StyledString::styled(Ansi::no_ansi(), body);
    let out = outer.to_string();
    assert_eq!(out, "plain, deep");
    assert!(!out.contains('\x1B'));
}

#[test]
fn important_blue_keeps_red_out() {
    let inner = StyledString::styled(Color::Red.ansi(), StyledString::plain("still blue"));
    let mut body = StyledString::plain("Blue ");
    body.push_styled(inner);
    let out = StyledString::styled(Color::Blue.important(), body).to_string();
    assert_eq!(out, "\x1B[34mBlue still blue\x1B[39m");
    assert!(!out.contains("31"));
}

/// What a terminal shows after reading a text: effects on, text and background color.
#[derive(PartialEq, Debug, Clone)]
struct Screen {
    on: Vec<u8>,
    fg: Option<Vec<u8>>,
    bg: Option<Vec<u8>>,
}

fn read_codes(screen: &mut Screen, codes: &[u8]) {
    let mut i = 0;
    while i < codes.len() {
        let c = codes[i];
        match c {
            0 => {
                screen.on.clear();
                screen.fg = None;
                screen.bg = None;
            }
            1..=9 => {
                if !screen.on.contains(&c) {
                    screen.on.push(c)
                }
            }
            22 => screen.on.retain(|x| *x != 1 && *x != 2),
            23..=29 => screen.on.retain(|x| *x != c - 20),
            30..=37 | 90..=97 => screen.fg = Some(vec![c]),
            40..=47 | 100..=107 => screen.bg = Some(vec![c - 10]),
            39 => screen.fg = None,
            49 => screen.bg = None,
            38 | 48 => {
                let n = if codes[i + 1] == 5 { 3 } else { 5 };
                let color = codes[i..i + n].iter().skip(1).cloned().collect::<Vec<u8>>();
                if c == 38 {
                    screen.fg = Some(color)
                } else {
                    screen.bg = Some(color)
                }
                i += n - 1;
            }
            _ => panic!("unknown code {}", c),
        }
        i += 1;
    }
    screen.on.sort();
}

fn read(screen: &mut Screen, text: &str) {
    if text.is_empty() {
        return;
    }
    let inner = &text[2..text.len() - 1];
    let codes: Vec<u8> = inner.split(';').map(|n| n.parse().unwrap()).collect();
    read_codes(screen, &codes);
}

#[test]
fn transition_round_trip_on_a_terminal() {
    for a in samples() {
        for b in samples() {
            let mut through = Screen { on: vec![], fg: None, bg: None };
            read(&mut through, &a.to_string());
            read(&mut through, &a.transition(b).to_string());
            let mut direct = Screen { on: vec![], fg: None, bg: None };
            read(&mut direct, &b.to_string());
            assert_eq!(through, direct, "{:?} then {:?}", a, b);
        }
    }
}

#[test]
fn preferred_style() {
    assert!(preferred_ansi(true, true, false).is_empty());
    assert!(preferred_ansi(false, true, true).is_no_ansi());
    assert!(preferred_ansi(false, false, true).is_empty());
    assert!(preferred_ansi(false, false, false).is_no_ansi());
}

#[test]
fn nesting_context_restores() {
    let mut ctx = NestingContext::new();
    let (outer, open) = ctx.begin(Color::Yellow.ansi());
    assert_eq!(open, "\x1B[33m");
    let (inner, open_inner) = ctx.begin(Color::Red.ansi());
    assert_eq!(open_inner, "\x1B[31m");
    assert_eq!(ctx.end(inner), "\x1B[33m");
    assert_eq!(ctx.end(outer), "\x1B[39m");
    assert!(ctx.current().is_empty());
    let (same, nothing) = ctx.begin(Ansi::empty());
    assert_eq!(nothing, "");
    assert_eq!(ctx.end(same), "");
}

#[test]
fn palette_and_rgb() {
    assert_eq!(Color::rgb_from_num(1), (128, 0, 0));
    assert_eq!(Color::rgb_from_num(7), (192, 192, 192));
    assert_eq!(Color::rgb_from_num(8), (128, 128, 128));
    assert_eq!(Color::rgb_from_num(12), (0, 0, 255));
    assert_eq!(Color::rgb_from_num(16), (0, 0, 0));
    assert_eq!(Color::rgb_from_num(196), (255, 0, 0));
    assert_eq!(Color::rgb_from_num(231), (255, 255, 255));
    assert_eq!(Color::rgb_from_num(232), (8, 8, 8));
    assert_eq!(Color::rgb_from_num(255), (238, 238, 238));
    assert_eq!(Color::num_opt_from_rgb(128, 0, 0), Some(1));
    assert_eq!(Color::num_opt_from_rgb(255, 255, 255), Some(15));
    assert_eq!(Color::num_opt_from_rgb(95, 135, 175), Some(16 + 36 + 2 * 6 + 3));
    assert_eq!(Color::num_opt_from_rgb(128, 128, 128), Some(8));
    assert_eq!(Color::num_opt_from_rgb(18, 18, 18), Some(233));
    assert_eq!(Color::num_opt_from_rgb(1, 2, 3), None);
    assert_eq!(Color::num_opt_from_rgb(248, 248, 248), None);
    assert_eq!(Color::rgb(0, 0, 128).get_num_opt(), Some(4));
    assert_eq!(Color::Cyan.get_num_opt(), Some(6));
    assert_eq!(Color::BrightRed.get_num(), 9);
    assert_eq!(Color::num(200).get_rgb(), Color::rgb_from_num(200));
    assert_eq!(Color::Red, Color::num(1));
    assert_eq!(Color::Red, Color::rgb(128, 0, 0));
    assert_ne!(Color::Red, Color::Green);
}

#[test]
fn attributes_of_a_style() {
    let style = Effect::Bold.important().add(Color::Red.bg()).add(Effect::Italic.not());
    let bold = style.get_effect(Effect::Bold).unwrap();
    assert!(!bold.is_reset() && bold.is_important());
    let italic = style.get_effect(Effect::Italic).unwrap();
    assert!(italic.is_reset() && !italic.is_important());
    assert!(style.get_effect(Effect::Faint).is_none());
    let bg = style.get_color(Coloree::Background).unwrap();
    assert!(bg.is_bg() && !bg.is_reset());
    assert_eq!(bg.value(), Color::Red);
    assert!(style.get_color(Coloree::Text).is_none());
    let reset = ColorReset.ansi().get_color(Coloree::Text).unwrap();
    assert!(reset.is_reset());
    assert_eq!(Effect::all().len(), 8);
    assert_eq!(Coloree::all(), [Coloree::Text, Coloree::Background]);
    assert_eq!(Color::Red.attr().ansi(), Color::Red.ansi());
    assert_eq!(Color::Red.attr().bg().ansi(), Color::Red.bg());
    assert!(Effect::Bold.attr().important().ansi() == Effect::Bold.important());
}

#[test]
fn only_and_is_only() {
    assert!(Effect::Bold.only().is_only());
    assert!(!Effect::Bold.ansi().is_only());
    assert_eq!(Effect::Bold.only().to_string(), "\x1B[0;1m");
    assert_eq!(Color::Red.only().to_string(), "\x1B[0;31m");
    assert_eq!(ColorReset.only().to_string(), "\x1B[0m");
    assert!(Ansi::reset().is_reset() && Ansi::reset().is_only());
}

#[test]
fn regions_restore_the_enclosing_style() {
    let mut ctx = NestingContext::with_current(Color::Yellow.ansi());
    let inner = StyledString::styled(Color::Red.ansi(), StyledString::plain("x"));
    let text = StyledString::styled(Effect::Bold.ansi(), inner);
    assert_eq!(text.fmt_in(&mut ctx), "\x1B[1m\x1B[31mx\x1B[33m\x1B[22m");
    assert!(ctx.current() == Color::Yellow.ansi());
}

#[test]
fn important_outer_wins_over_important_inner() {
    let r = Color::Red.important().nest(Color::Blue.important());
    assert!(r == Color::Red.important());
    let r = Color::Red.important().nest(Color::Blue.ansi().add(Effect::Bold.important()));
    assert!(r == Color::Red.ansi().add(Effect::Bold.ansi()).important());
    let r = Color::Red.ansi().nest(Color::Blue.important());
    assert!(r == Color::Blue.important());
    r.assert_wf();
}

#[test]
fn debug_text_of_styles() {
    assert_eq!(Ansi::no_ansi().debug_string(), "no_ansi");
    assert_eq!(Ansi::empty().debug_string(), "[]");
    assert_eq!(Effect::Bold.ansi().add(Color::Red.ansi()).debug_string(), "[Bold, Red]");
    assert_eq!(
        Effect::Italic.not().add(Color::num(7).bg().important()).add(Effect::Bold.ansi()).debug_string(),
        "[Bold, Italic.not(), ColorNum(7).bg().important()]"
    );
    assert_eq!(Color::rgb(1, 20, 255).ansi().debug_string(), "[Rgb(1, 20, 255)]");
    assert_eq!(
        Color::reset().ansi().add(Color::reset().bg()).debug_string(),
        "[Color::reset(), Color::reset().bg()]"
    );
}
