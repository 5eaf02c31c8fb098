use ansiconst::{Ansi, Color, Effect, StyledString};

fn text(s: &str) -> StyledString {
    StyledString::plain(s)
}

fn cat(parts: Vec<StyledString>) -> StyledString {
    let mut all = StyledString::new();
    for part in parts {
        all.push_styled(part);
    }
    all
}

fn styled(ansi: Ansi, parts: Vec<StyledString>) -> StyledString {
    StyledString::styled(ansi, cat(parts))
}

#[test]
fn test_important() {
    assert_eq!(
        "\x1B[34mBlue \x1B[39;3mitalic\x1B[23;34m blue\x1B[39m",
        styled(
            Color::Blue.ansi(),
            vec![text("Blue "), styled(Effect::Italic.only(), vec![text("italic")]), text(" blue")]
        )
        .to_string()
    );
    assert_eq!(
        "no ansi",
        styled(
            Ansi::no_ansi(),
            vec![styled(Effect::Bold.ansi().add(Color::Red.ansi()), vec![text("no ansi")])]
        )
        .to_string()
    );
    assert_eq!(
        "\x1B[34mBlue still blue\x1B[39m",
        styled(
            Color::Blue.important(),
            vec![text("Blue "), styled(Color::Red.ansi(), vec![text("still blue")])]
        )
        .to_string()
    );
    assert_eq!(
        "\x1B[34mBlue red\x1B[39m",
        styled(
            Color::Blue.important(),
            vec![text("Blue "), styled(Color::Red.important(), vec![text("red")])]
        )
        .to_string()
    );
    assert_eq!(
        "\x1B[0;1mBold-only still bold-only\x1B[22m",
        styled(
            Effect::Bold.only().important(),
            vec![
                text("Bold-only "),
                styled(Effect::Italic.ansi().add(Color::Red.ansi()), vec![text("still bold-only")])
            ]
        )
        .to_string()
    );
    assert_eq!(
        "\x1B[0;1mBold-only faint-only\x1B[22m",
        styled(
            Effect::Bold.only().important(),
            vec![text("Bold-only "), styled(Effect::Faint.only().important(), vec![text("faint-only")])]
        )
        .to_string()
    );

    let chain = |red: Ansi| {
        cat(vec![
            text("Plain "),
            styled(
                red,
                vec![
                    text("Red "),
                    styled(
                        Color::Yellow.ansi(),
                        vec![
                            text("Yellow "),
                            styled(
                                Color::Green.ansi(),
                                vec![text("Green "), styled(Color::Blue.ansi(), vec![text("Blue")])],
                            ),
                        ],
                    ),
                ],
            ),
            text(" Plain"),
        ])
        .to_string()
    };
    assert_eq!(
        "Plain \x1B[31mRed \x1B[33mYellow \x1B[32mGreen \x1B[34mBlue\x1B[32m\x1B[33m\x1B[31m\x1B[39m Plain",
        chain(Color::Red.ansi())
    );
    assert_eq!("Plain \x1B[31mRed Yellow Green Blue\x1B[39m Plain", chain(Color::Red.important()));
}
