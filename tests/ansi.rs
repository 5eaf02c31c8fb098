use ansiconst::introspect::Attr;
use ansiconst::{Ansi, Color, Coloree, Effect};

fn assert_same(x: Ansi, y: Ansi, what: &str) {
    assert!(x == y, "{}: expected {:?}, got {:?}", what, x, y);
    assert_eq!(format!("{:?}", x), format!("{:?}", y), "{}", what);
}

#[derive(PartialEq, Eq, Clone, Copy, Debug)]
enum ExpectAttr {
    Unset,
    Color(Attr<Color>),
    Effect(Attr<Effect>),
}

impl ExpectAttr {
    fn not(&self) -> Self {
        match self {
            Self::Color(attr) => {
                if !attr.is_reset() {
                    Self::Color(attr.not())
                } else {
                    Self::Unset
                }
            }
            Self::Effect(attr) => {
                if !attr.is_reset() {
                    Self::Effect(attr.not())
                } else {
                    Self::Unset
                }
            }
            _ => Self::Unset,
        }
    }

    fn is_none(&self) -> bool {
        matches!(self, Self::Unset)
    }

    fn is_reset(&self) -> bool {
        self.is_reset_opt().unwrap_or(false)
    }

    fn is_reset_opt(&self) -> Option<bool> {
        match self {
            Self::Color(attr) => Some(attr.is_reset()),
            Self::Effect(attr) => Some(attr.is_reset()),
            Self::Unset => None,
        }
    }

    fn is_set(&self) -> bool {
        !self.is_none() && !self.is_reset()
    }

    fn important(&self, is_important: bool) -> Self {
        match self {
            Self::Color(attr) => Self::Color(attr.with_important(is_important)),
            Self::Effect(attr) => Self::Effect(attr.with_important(is_important)),
            Self::Unset => *self,
        }
    }

    fn is_important(&self) -> bool {
        match *self {
            Self::Color(attr) => attr.is_important(),
            Self::Effect(attr) => attr.is_important(),
            Self::Unset => false,
        }
    }

    fn from_effect(ansi: Ansi, effect: Effect) -> Self {
        match ansi.get_effect(effect) {
            Some(attr) => Self::Effect(attr),
            None => Self::Unset,
        }
    }

    fn from_color(ansi: Ansi, color: Coloree) -> Self {
        match ansi.get_color(color) {
            Some(attr) => Self::Color(attr),
            None => Self::Unset,
        }
    }
}

#[derive(PartialEq, Eq, Clone, Copy, Debug)]
struct ExpectAttrs {
    bold: ExpectAttr,
    faint: ExpectAttr,
    italic: ExpectAttr,
    underline: ExpectAttr,
    blink: ExpectAttr,
    reverse: ExpectAttr,
    hidden: ExpectAttr,
    strike: ExpectAttr,
    fg: ExpectAttr,
    bg: ExpectAttr,
}

impl ExpectAttrs {
    fn empty() -> Self {
        Self {
            bold: ExpectAttr::Unset,
            faint: ExpectAttr::Unset,
            italic: ExpectAttr::Unset,
            underline: ExpectAttr::Unset,
            blink: ExpectAttr::Unset,
            reverse: ExpectAttr::Unset,
            hidden: ExpectAttr::Unset,
            strike: ExpectAttr::Unset,
            fg: ExpectAttr::Unset,
            bg: ExpectAttr::Unset,
        }
    }

    fn from_ansi(ansi: Ansi) -> Self {
        Self {
            bold: ExpectAttr::from_effect(ansi, Effect::Bold),
            faint: ExpectAttr::from_effect(ansi, Effect::Faint),
            italic: ExpectAttr::from_effect(ansi, Effect::Italic),
            underline: ExpectAttr::from_effect(ansi, Effect::Underline),
            blink: ExpectAttr::from_effect(ansi, Effect::Blink),
            reverse: ExpectAttr::from_effect(ansi, Effect::Reverse),
            hidden: ExpectAttr::from_effect(ansi, Effect::Hidden),
            strike: ExpectAttr::from_effect(ansi, Effect::Strike),
            fg: ExpectAttr::from_color(ansi, Coloree::Text),
            bg: ExpectAttr::from_color(ansi, Coloree::Background),
        }
    }

    fn ansi(&self) -> Ansi {
        let mut ansi: Ansi = Ansi::empty();
        for attr in [
            self.bold,
            self.faint,
            self.italic,
            self.underline,
            self.blink,
            self.reverse,
            self.hidden,
            self.strike,
            self.fg,
            self.bg,
        ] {
            match attr {
                ExpectAttr::Effect(attr) => ansi = ansi.add(attr.ansi()),
                ExpectAttr::Color(attr) => ansi = ansi.add(attr.ansi()),
                ExpectAttr::Unset => (),
            }
        }
        ansi
    }

    fn all(&self, f: impl Fn(ExpectAttr) -> bool) -> bool {
        f(self.bold)
            && f(self.faint)
            && f(self.italic)
            && f(self.underline)
            && f(self.blink)
            && f(self.reverse)
            && f(self.hidden)
            && f(self.strike)
            && f(self.fg)
            && f(self.bg)
    }

    fn map(&self, f: impl Fn(ExpectAttr) -> ExpectAttr) -> Self {
        Self {
            bold: f(self.bold),
            faint: f(self.faint),
            italic: f(self.italic),
            underline: f(self.underline),
            blink: f(self.blink),
            reverse: f(self.reverse),
            hidden: f(self.hidden),
            strike: f(self.strike),
            fg: f(self.fg),
            bg: f(self.bg),
        }
    }

    fn merge(&self, other: Self, f: impl Fn(ExpectAttr, ExpectAttr) -> ExpectAttr) -> Self {
        Self {
            bold: f(self.bold, other.bold),
            faint: f(self.faint, other.faint),
            italic: f(self.italic, other.italic),
            underline: f(self.underline, other.underline),
            blink: f(self.blink, other.blink),
            reverse: f(self.reverse, other.reverse),
            hidden: f(self.hidden, other.hidden),
            strike: f(self.strike, other.strike),
            fg: f(self.fg, other.fg),
            bg: f(self.bg, other.bg),
        }
    }

    fn with_overlaps(&self) -> Self {
        let mut result = *self;
        if self.bold.is_reset() && self.faint.is_none() {
            result.faint = ExpectAttr::Effect(Effect::Faint.attr().not())
        } else if self.faint.is_reset() && self.bold.is_none() {
            result.bold = ExpectAttr::Effect(Effect::Bold.attr().not())
        }
        result
    }

    fn set_important(&self, is_important: bool) -> Self {
        self.map(|attr| attr.important(is_important))
    }

    fn important(&self) -> Self {
        self.set_important(true)
    }

    fn unimportant(&self) -> Self {
        self.set_important(false)
    }

    fn not(&self) -> Self {
        self.map(|attr| attr.not())
    }

    fn add(&self, other: Self) -> Self {
        self.merge(other, |a, b| if !b.is_none() { b } else { a })
    }

    fn nest(&self, other: Self) -> Self {
        self.merge(other, |a, b| {
            if !b.is_none() && !a.is_important() {
                b
            } else {
                a
            }
        })
    }

    fn transition(&self, to_other: Self) -> Self {
        if to_other.is_reset() && !self.is_reset() {
            return to_other.unimportant();
        }

        let a = self.unimportant().with_overlaps();
        let b = to_other.unimportant();
        let mut result = a.merge(b, |a, b| {
            if a == b {
                ExpectAttr::Unset
            } else if !b.is_none() {
                b
            } else {
                a.not()
            }
        });

        // Bold and faint share one reset code.
        match (result.bold.is_reset_opt(), result.faint.is_reset_opt()) {
            (Some(true), Some(true)) => {
                if b.bold.is_none() && !b.faint.is_none() {
                    result.bold = ExpectAttr::Unset;
                } else {
                    result.faint = ExpectAttr::Unset;
                }
            }
            (Some(true), None) => {
                if a.faint.is_set() && b.faint.is_set() {
                    result.faint = b.faint
                }
            }
            (None, Some(true)) => {
                if a.bold.is_set() && b.bold.is_set() {
                    result.bold = b.bold
                }
            }
            _ => (),
        };

        result
    }

    fn is_empty(&self) -> bool {
        self.all(|attr| attr.is_none())
    }

    fn is_reset(&self) -> bool {
        self.all(|attr| attr.is_reset())
    }
}

#[derive(PartialEq, Eq, Clone, Copy, Debug)]
enum Expect {
    NoAnsi,
    Ansi(ExpectAttrs),
}

impl Expect {
    fn empty() -> Self {
        Self::Ansi(ExpectAttrs::empty())
    }

    fn from_ansi(ansi: Ansi) -> Self {
        if ansi.is_no_ansi() {
            Self::NoAnsi
        } else {
            Self::Ansi(ExpectAttrs::from_ansi(ansi))
        }
    }

    fn ansi(&self) -> Ansi {
        match self {
            Self::NoAnsi => Ansi::no_ansi(),
            Self::Ansi(attrs) => attrs.ansi(),
        }
    }

    fn is_no_ansi(&self) -> bool {
        self == &Self::NoAnsi
    }

    fn is_empty(&self) -> bool {
        match self {
            Self::NoAnsi => false,
            Self::Ansi(attrs) => attrs.is_empty(),
        }
    }

    fn is_reset(&self) -> bool {
        match self {
            Self::NoAnsi => false,
            Self::Ansi(attrs) => attrs.is_reset(),
        }
    }

    fn important(&self) -> Self {
        match self {
            Self::NoAnsi => *self,
            Self::Ansi(attrs) => Self::Ansi(attrs.important()),
        }
    }

    fn not(&self) -> Self {
        match self {
            Self::NoAnsi => *self,
            Self::Ansi(attrs) => Self::Ansi(attrs.not()),
        }
    }

    fn add(&self, other: Self) -> Self {
        match (self, other) {
            (Self::NoAnsi, _) => *self,
            (_, Self::NoAnsi) => other,
            (Self::Ansi(a), Self::Ansi(b)) => Self::Ansi(a.add(b)),
        }
    }

    fn nest(&self, other: Self) -> Self {
        match (self, other) {
            (Self::NoAnsi, _) => *self,
            (_, Self::NoAnsi) => other,
            (Self::Ansi(a), Self::Ansi(b)) => Self::Ansi(a.nest(b)),
        }
    }

    fn transition(&self, to_other: Self) -> Self {
        match (self, to_other) {
            (Self::NoAnsi, _) => Self::empty(),
            (Self::Ansi(a), Self::NoAnsi) => Self::Ansi(a.not().unimportant()),
            (Self::Ansi(a), Self::Ansi(b)) => Self::Ansi(a.transition(b)),
        }
    }
}

#[derive(Clone, Copy)]
struct TestCase {
    ansi: Ansi,
    expect: Expect,
}

impl TestCase {
    fn all() -> [TestCase; 13] {
        [
            TestCase::new(Effect::Bold.ansi()),
            TestCase::new(Effect::Faint.ansi()),
            TestCase::new(Effect::Italic.ansi()),
            TestCase::new(Effect::Underline.ansi()),
            TestCase::new(Effect::Blink.ansi()),
            TestCase::new(Effect::Reverse.ansi()),
            TestCase::new(Effect::Hidden.ansi()),
            TestCase::new(Effect::Strike.ansi()),
            TestCase::new(Color::Red.ansi()),
            TestCase::new(Color::Blue.bg()),
            TestCase::new(Ansi::empty()),
            TestCase::new(Ansi::reset()),
            TestCase::new(Ansi::no_ansi()),
        ]
    }

    fn new(ansi: Ansi) -> Self {
        Self { ansi, expect: Expect::from_ansi(ansi) }
    }

    fn add(&self, other: Self) -> Self {
        Self { ansi: self.ansi.add(other.ansi), expect: self.expect.add(other.expect) }
    }

    fn not(&self) -> Self {
        Self { ansi: self.ansi.not(), expect: self.expect.not() }
    }
}

#[test]
fn test_one() {
    for test in TestCase::all() {
        assert_eq!(test.expect.is_empty(), test.ansi.is_empty(), "{:?}.is_empty()", test.ansi);
        assert_eq!(test.expect.is_reset(), test.ansi.is_reset(), "{:?}.is_reset()", test.ansi);
        assert_eq!(test.expect.is_no_ansi(), test.ansi.is_no_ansi(), "{:?}.is_no_ansi()", test.ansi);
        assert_same(test.expect.ansi(), test.ansi, "ansi");
        assert_same(test.expect.not().ansi(), test.ansi.not(), "not");
        assert_same(test.expect.not().not().ansi(), test.ansi.not().not(), "not.not");
        assert_same(test.expect.important().ansi(), test.ansi.important(), "important");
    }
}

#[test]
fn test_combine() {
    // 1-attr + 1-attr
    for a in TestCase::all() {
        for b in TestCase::all() {
            check_all(a, b);
        }
    }

    // 2-attrs + 1-attr
    for a in TestCase::all() {
        for b in TestCase::all() {
            for c in TestCase::all() {
                check_all(a.add(c), b);
                check_all(a.add(c), b.not());
                check_all(a.not().add(c), b);
                check_all(a.not().add(c), b.not());
                check_all(a, b.add(c));
                check_all(a.not(), b.add(c));
                check_all(a, b.not().add(c));
                check_all(a.not(), b.not().add(c));
            }
        }
    }
}

fn check_all(a: TestCase, b: TestCase) {
    check_operations(a, b);
    check_operations(a, b.not());
    check_operations(a.not(), b);
    check_operations(a.not(), b.not());
}

fn check_operations(a: TestCase, b: TestCase) {
    check_add(a, b);
    check_nest(a, b);
    check_transition(a, b);
}

fn check_pair(
    a: TestCase,
    b: TestCase,
    expect: fn(Expect, Expect) -> Expect,
    actual: fn(&Ansi, Ansi) -> Ansi,
    name: &str,
) {
    let (ea, eb) = (a.expect, b.expect);
    let (aa, ab) = (a.ansi, b.ansi);
    check_one(expect(ea, eb).ansi(), actual(&aa, ab), name, aa, ab, "", "");
    check_one(
        expect(ea, eb.important()).ansi(),
        actual(&aa, ab.important()),
        name,
        aa,
        ab,
        "",
        ".important()",
    );
    check_one(
        expect(ea.important(), eb).ansi(),
        actual(&aa.important(), ab),
        name,
        aa,
        ab,
        ".important()",
        "",
    );
    check_one(
        expect(ea.important(), eb.important()).ansi(),
        actual(&aa.important(), ab.important()),
        name,
        aa,
        ab,
        ".important()",
        ".important()",
    );
}

fn check_one(x: Ansi, y: Ansi, name: &str, a: Ansi, b: Ansi, ia: &str, ib: &str) {
    assert!(x == y, "{:?}{}.{}({:?}{}): expected {:?}, got {:?}", a, ia, name, b, ib, x, y);
}

fn check_add(a: TestCase, b: TestCase) {
    check_pair(a, b, |x, y| x.add(y), |x, y| x.add(y), "add");
}

fn check_nest(a: TestCase, b: TestCase) {
    check_pair(a, b, |x, y| x.nest(y), |x, y| x.nest(y), "nest");
}

fn check_transition(a: TestCase, b: TestCase) {
    check_pair(a, b, |x, y| x.transition(y), |x, y| x.transition(y), "transition");
}
