use ansiconst::{Ansi, Color, Effect, Styled, StyledString};

fn text(s: &str) -> StyledString {
    StyledString::plain(s)
}

fn cat(parts: Vec<StyledString>) -> StyledString {
    let mut all = StyledString::new();
    for part in parts {
        all.push_styled(part);
    }
    all
}

fn styled(ansi: Ansi, parts: Vec<StyledString>) -> StyledString {
    StyledString::styled(ansi, cat(parts))
}

/// `Plain {} Plain` around one styled text.
fn plain_around(ansi: Ansi, inner: &str) -> String {
    cat(vec![text("Plain "), Styled::new(ansi, inner).to_styled_string(), text(" Plain")]).to_string()
}

fn plain_around_nested(outer: Ansi, before: &str, inner: StyledString, after: &str) -> String {
    cat(vec![text("Plain "), styled(outer, vec![text(before), inner, text(after)]), text(" Plain")])
        .to_string()
}

#[test]
fn test_macros() {
    assert_eq!("Plain \x1B[31mRed\x1B[39m Plain", plain_around(Color::Red.ansi(), "Red"));
    assert_eq!("Plain \x1B[38;5;128mPurple\x1B[39m Plain", plain_around(Color::num(128).ansi(), "Purple"));
    assert_eq!("Plain \x1B[41mRed\x1B[49m Plain", plain_around(Color::Red.bg(), "Red"));
    assert_eq!("Plain \x1B[48;5;128mPurple\x1B[49m Plain", plain_around(Color::num(128).bg(), "Purple"));
    assert_eq!("Plain \x1B[1mBold\x1B[22m Plain", plain_around(Effect::Bold.ansi(), "Bold"));
    assert_eq!("Plain \x1B[2mFaint\x1B[22m Plain", plain_around(Effect::Faint.ansi(), "Faint"));
    assert_eq!("Plain \x1B[3mItalic\x1B[23m Plain", plain_around(Effect::Italic.ansi(), "Italic"));
    assert_eq!("Plain \x1B[4mUnderline\x1B[24m Plain", plain_around(Effect::Underline.ansi(), "Underline"));
    assert_eq!("Plain \x1B[5mBlink\x1B[25m Plain", plain_around(Effect::Blink.ansi(), "Blink"));
    assert_eq!("Plain \x1B[7mReverse\x1B[27m Plain", plain_around(Effect::Reverse.ansi(), "Reverse"));
    assert_eq!("Plain \x1B[8mHidden\x1B[28m Plain", plain_around(Effect::Hidden.ansi(), "Hidden"));
    assert_eq!("Plain \x1B[9mStrike\x1B[29m Plain", plain_around(Effect::Strike.ansi(), "Strike"));
    assert_eq!(
        "Plain \x1B[1;2mBold Faint\x1B[22m Plain",
        plain_around(Effect::Bold.ansi().add(Effect::Faint.ansi()), "Bold Faint")
    );

    assert_eq!(
        "Plain \x1B[1mBold-only \x1B[4mBoth Bold & Underline\x1B[24m Bold-only again\x1B[22m Plain",
        plain_around_nested(
            Effect::Bold.ansi(),
            "Bold-only ",
            styled(Effect::Underline.ansi(), vec![text("Both Bold & Underline")]),
            " Bold-only again"
        )
    );
    assert_eq!(
        "Plain \x1B[1mBold \x1B[22;3mItalic\x1B[23;1m Bold\x1B[22m Plain",
        plain_around_nested(
            Effect::Bold.ansi(),
            "Bold ",
            styled(Effect::Bold.not().add(Effect::Italic.ansi()), vec![text("Italic")]),
            " Bold"
        )
    );
    assert_eq!(
        "Plain \x1B[33mYellow \x1B[31mRed\x1B[33m Yellow\x1B[39m Plain",
        plain_around_nested(
            Color::Yellow.ansi(),
            "Yellow ",
            styled(Color::Red.ansi(), vec![text("Red")]),
            " Yellow"
        )
    );
    assert_eq!(
        "Plain \x1B[1mBold \x1B[2mFaint\x1B[22;1m Bold\x1B[22m Plain",
        plain_around_nested(
            Effect::Bold.ansi(),
            "Bold ",
            styled(Effect::Faint.ansi(), vec![text("Faint")]),
            " Bold"
        )
    );
    assert_eq!(
        "Plain \x1B[2mFaint \x1B[1mBold\x1B[22;2m Faint\x1B[22m Plain",
        plain_around_nested(
            Effect::Faint.ansi(),
            "Faint ",
            styled(Effect::Bold.ansi(), vec![text("Bold")]),
            " Faint"
        )
    );
    assert_eq!(
        "Plain \x1B[1mBold \x1B[22;3mItalic\x1B[23;1m Bold\x1B[22m Plain",
        plain_around_nested(
            Effect::Bold.ansi(),
            "Bold ",
            styled(Effect::Italic.only(), vec![text("Italic")]),
            " Bold"
        )
    );
    assert_eq!(
        "Plain \x1B[1mBold \x1B[22;2mFaint\x1B[22;1m Bold\x1B[22m Plain",
        plain_around_nested(
            Effect::Bold.ansi(),
            "Bold ",
            styled(Effect::Faint.only(), vec![text("Faint")]),
            " Bold"
        )
    );
    assert_eq!(
        "Plain \x1B[1mBold \x1B[22;2mFaint \x1B[22;3mItalic \x1B[23;4mUnderline\x1B[24;3m Italic\x1B[23;2m Faint\x1B[22;1m Bold\x1B[22m Plain",
        plain_around_nested(
            Effect::Bold.ansi(),
            "Bold ",
            styled(
                Effect::Faint.only(),
                vec![
                    text("Faint "),
                    styled(
                        Effect::Italic.only(),
                        vec![
                            text("Italic "),
                            styled(Effect::Underline.only(), vec![text("Underline")]),
                            text(" Italic"),
                        ]
                    ),
                    text(" Faint"),
                ]
            ),
            " Bold"
        )
    );
    assert_eq!(
        "Plain \x1B[9mStrike \x1B[29;31mRed\x1B[39;9m \x1B[29;33mYellow\x1B[39;9m \x1B[29;32mGreen\x1B[39;9m \x1B[29;34mBlue\x1B[39;9m Strike\x1B[29m Plain",
        cat(vec![
            text("Plain "),
            styled(
                Effect::Strike.ansi(),
                vec![
                    text("Strike "),
                    styled(Color::Red.only(), vec![text("Red")]),
                    text(" "),
                    styled(Color::Yellow.only(), vec![text("Yellow")]),
                    text(" "),
                    styled(Color::Green.only(), vec![text("Green")]),
                    text(" "),
                    styled(Color::Blue.only(), vec![text("Blue")]),
                    text(" Strike"),
                ]
            ),
            text(" Plain"),
        ])
        .to_string()
    );
}
