use ansiconst::{Ansi, Color, Effect};

fn show(ansi: Ansi) -> String {
    ansi.to_string()
}

/// The text `{ansi}inner{ansi:#}`: the style, then its reset.
fn around(ansi: Ansi, inner: &str) -> String {
    format!("{}{}{}", ansi.to_string(), inner, ansi.not().to_string())
}

#[test]
fn test_display_codes() {
    assert_eq!(show(Ansi::reset()), "\x1B[0m");
    assert_eq!(show(Effect::Bold.ansi()), "\x1B[1m");
    assert_eq!(show(Effect::Faint.ansi()), "\x1B[2m");
    assert_eq!(show(Effect::Italic.ansi()), "\x1B[3m");
    assert_eq!(show(Effect::Underline.ansi()), "\x1B[4m");
    assert_eq!(show(Effect::Blink.ansi()), "\x1B[5m");
    assert_eq!(show(Effect::Reverse.ansi()), "\x1B[7m");
    assert_eq!(show(Effect::Hidden.ansi()), "\x1B[8m");
    assert_eq!(show(Effect::Strike.ansi()), "\x1B[9m");
    assert_eq!(show(Effect::Bold.not()), "\x1B[22m");
    assert_eq!(show(Effect::Faint.not()), "\x1B[22m");
    assert_eq!(show(Effect::Italic.not()), "\x1B[23m");
    assert_eq!(show(Effect::Underline.not()), "\x1B[24m");
    assert_eq!(show(Effect::Blink.not()), "\x1B[25m");
    assert_eq!(show(Effect::Reverse.not()), "\x1B[27m");
    assert_eq!(show(Effect::Hidden.not()), "\x1B[28m");
    assert_eq!(show(Effect::Strike.not()), "\x1B[29m");
    assert_eq!(show(Color::Black.ansi()), "\x1B[30m");
    assert_eq!(show(Color::Red.ansi()), "\x1B[31m");
    assert_eq!(show(Color::Green.ansi()), "\x1B[32m");
    assert_eq!(show(Color::Yellow.ansi()), "\x1B[33m");
    assert_eq!(show(Color::Blue.ansi()), "\x1B[34m");
    assert_eq!(show(Color::Purple.ansi()), "\x1B[35m");
    assert_eq!(show(Color::Cyan.ansi()), "\x1B[36m");
    assert_eq!(show(Color::White.ansi()), "\x1B[37m");
    assert_eq!(show(Color::rgb(45, 67, 89).ansi()), "\x1B[38;2;45;67;89m");
    assert_eq!(show(Color::num(255).ansi()), "\x1B[38;5;255m");
    assert_eq!(show(Color::reset().ansi()), "\x1B[39m");
    assert_eq!(show(Color::Black.bg()), "\x1B[40m");
    assert_eq!(show(Color::Red.bg()), "\x1B[41m");
    assert_eq!(show(Color::Green.bg()), "\x1B[42m");
    assert_eq!(show(Color::Yellow.bg()), "\x1B[43m");
    assert_eq!(show(Color::Blue.bg()), "\x1B[44m");
    assert_eq!(show(Color::Purple.bg()), "\x1B[45m");
    assert_eq!(show(Color::Cyan.bg()), "\x1B[46m");
    assert_eq!(show(Color::White.bg()), "\x1B[47m");
    assert_eq!(show(Color::rgb(45, 67, 89).bg()), "\x1B[48;2;45;67;89m");
    assert_eq!(show(Color::num(255).bg()), "\x1B[48;5;255m");
    assert_eq!(show(Color::reset().bg()), "\x1B[49m");
    assert_eq!(show(Color::BrightBlack.ansi()), "\x1B[90m");
    assert_eq!(show(Color::BrightRed.ansi()), "\x1B[91m");
    assert_eq!(show(Color::BrightGreen.ansi()), "\x1B[92m");
    assert_eq!(show(Color::BrightYellow.ansi()), "\x1B[93m");
    assert_eq!(show(Color::BrightBlue.ansi()), "\x1B[94m");
    assert_eq!(show(Color::BrightPurple.ansi()), "\x1B[95m");
    assert_eq!(show(Color::BrightCyan.ansi()), "\x1B[96m");
    assert_eq!(show(Color::BrightWhite.ansi()), "\x1B[97m");
    assert_eq!(show(Color::BrightBlack.bg()), "\x1B[100m");
    assert_eq!(show(Color::BrightRed.bg()), "\x1B[101m");
    assert_eq!(show(Color::BrightGreen.bg()), "\x1B[102m");
    assert_eq!(show(Color::BrightYellow.bg()), "\x1B[103m");
    assert_eq!(show(Color::BrightBlue.bg()), "\x1B[104m");
    assert_eq!(show(Color::BrightPurple.bg()), "\x1B[105m");
    assert_eq!(show(Color::BrightCyan.bg()), "\x1B[106m");
    assert_eq!(show(Color::BrightWhite.bg()), "\x1B[107m");
}

#[test]
fn test_display() {
    assert_eq!("Plain \x1B[31mRed\x1B[39m Plain", format!("Plain {} Plain", around(Color::Red.ansi(), "Red")));
    assert_eq!(
        "Plain \x1B[38;5;128mPurple\x1B[39m Plain",
        format!("Plain {} Plain", around(Color::num(128).ansi(), "Purple"))
    );
    assert_eq!("Plain \x1B[41mRed\x1B[49m Plain", format!("Plain {} Plain", around(Color::Red.bg(), "Red")));
    assert_eq!(
        "Plain \x1B[48;5;128mPurple\x1B[49m Plain",
        format!("Plain {} Plain", around(Color::num(128).bg(), "Purple"))
    );
    assert_eq!("Plain \x1B[1mBold\x1B[22m Plain", format!("Plain {} Plain", around(Effect::Bold.ansi(), "Bold")));
    assert_eq!("Plain \x1B[2mFaint\x1B[22m Plain", format!("Plain {} Plain", around(Effect::Faint.ansi(), "Faint")));
    assert_eq!("Plain \x1B[3mItalic\x1B[23m Plain", format!("Plain {} Plain", around(Effect::Italic.ansi(), "Italic")));
    assert_eq!(
        "Plain \x1B[4mUnderline\x1B[24m Plain",
        format!("Plain {} Plain", around(Effect::Underline.ansi(), "Underline"))
    );
    assert_eq!("Plain \x1B[5mBlink\x1B[25m Plain", format!("Plain {} Plain", around(Effect::Blink.ansi(), "Blink")));
    assert_eq!(
        "Plain \x1B[7mReverse\x1B[27m Plain",
        format!("Plain {} Plain", around(Effect::Reverse.ansi(), "Reverse"))
    );
    assert_eq!("Plain \x1B[8mHidden\x1B[28m Plain", format!("Plain {} Plain", around(Effect::Hidden.ansi(), "Hidden")));
    assert_eq!("Plain \x1B[9mStrike\x1B[29m Plain", format!("Plain {} Plain", around(Effect::Strike.ansi(), "Strike")));
    let bold = Effect::Bold.ansi();
    let italic = Effect::Italic.ansi();
    assert_eq!(
        "Plain \x1B[1mBold \x1B[3mBold-Italic\x1B[23m Bold\x1B[22m Plain",
        format!(
            "Plain {}Bold {}Bold-Italic{} Bold{} Plain",
            bold.to_string(),
            italic.to_string(),
            italic.not().to_string(),
            bold.not().to_string()
        )
    );
    let yellow = Color::Yellow.ansi();
    let cyan = Color::Cyan.bg();
    assert_eq!(
        "Plain \x1B[33mYellow \x1B[46mCyan\x1B[49m Yellow\x1B[39m Plain",
        format!(
            "Plain {}Yellow {}Cyan{} Yellow{} Plain",
            yellow.to_string(),
            cyan.to_string(),
            cyan.not().to_string(),
            yellow.not().to_string()
        )
    );
}
