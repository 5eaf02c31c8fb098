//! Colors, the parts of the terminal they apply to, and the 256-color palette.
use vstd::prelude::*;

use crate::ansi::color::ColorsModel;
use crate::ansi::{Ansi, AnsiModel, Toggle, ToggleColor};
use crate::introspect::Attr;
use crate::write::render;

verus! {

/// A color for the text or the background: one of the 16 standard colors,
/// an index into the 256-color palette, or a 24-bit RGB color.
#[derive(Eq, Clone, Copy, Debug)]
#[non_exhaustive]
pub enum Color {
    /// Palette color 0 (codes `30` and `40`).
    Black,
    /// Palette color 1 (codes `31` and `41`).
    Red,
    /// Palette color 2 (codes `32` and `42`).
    Green,
    /// Palette color 3 (codes `33` and `43`).
    Yellow,
    /// Palette color 4 (codes `34` and `44`).
    Blue,
    /// Palette color 5 (codes `35` and `45`).
    Purple,
    /// Palette color 6 (codes `36` and `46`).
    Cyan,
    /// Palette color 7 (codes `37` and `47`).
    White,
    /// Palette color 8 (codes `90` and `100`).
    BrightBlack,
    /// Palette color 9 (codes `91` and `101`).
    BrightRed,
    /// Palette color 10 (codes `92` and `102`).
    BrightGreen,
    /// Palette color 11 (codes `93` and `103`).
    BrightYellow,
    /// Palette color 12 (codes `94` and `104`).
    BrightBlue,
    /// Palette color 13 (codes `95` and `105`).
    BrightPurple,
    /// Palette color 14 (codes `96` and `106`).
    BrightCyan,
    /// Palette color 15 (codes `97` and `107`).
    BrightWhite,
    /// A palette color by index; see [`Color::num`].
    ColorNum(u8),
    /// A 24-bit color; see [`Color::rgb`].
    Rgb(u8, u8, u8),
}

/// The part of the terminal that a color applies to.
#[derive(PartialEq, Eq, Clone, Copy, Debug, Structural)]
#[non_exhaustive]
pub enum Coloree {
    /// The text (foreground).
    Text,
    /// The background.
    Background,
}

/// The palette index of a color, for every color but an RGB one.
pub open spec fn palette_index(c: Color) -> Option<u8> {
    match c {
        Color::Black => Some(0),
        Color::Red => Some(1),
        Color::Green => Some(2),
        Color::Yellow => Some(3),
        Color::Blue => Some(4),
        Color::Purple => Some(5),
        Color::Cyan => Some(6),
        Color::White => Some(7),
        Color::BrightBlack => Some(8),
        Color::BrightRed => Some(9),
        Color::BrightGreen => Some(10),
        Color::BrightYellow => Some(11),
        Color::BrightBlue => Some(12),
        Color::BrightPurple => Some(13),
        Color::BrightCyan => Some(14),
        Color::BrightWhite => Some(15),
        Color::ColorNum(n) => Some(n),
        Color::Rgb(_, _, _) => None,
    }
}

/// The intensity of step `k` (0 to 5) of the 6x6x6 color cube.
pub open spec fn cube_level(k: int) -> int {
    if k == 0 {
        0
    } else {
        55 + 40 * k
    }
}

/// The RGB value of a palette index: the 16 standard colors, then the
/// 6x6x6 color cube, then 24 shades of gray.
pub open spec fn palette_rgb(i: u8) -> (u8, u8, u8) {
    if i < 16 {
        match i {
            0 => (0, 0, 0),
            1 => (128, 0, 0),
            2 => (0, 128, 0),
            3 => (128, 128, 0),
            4 => (0, 0, 128),
            5 => (128, 0, 128),
            6 => (0, 128, 128),
            7 => (192, 192, 192),
            8 => (128, 128, 128),
            9 => (255, 0, 0),
            10 => (0, 255, 0),
            11 => (255, 255, 0),
            12 => (0, 0, 255),
            13 => (255, 0, 255),
            14 => (0, 255, 255),
            _ => (255, 255, 255),
        }
    } else if i < 232 {
        let k = i - 16;
        (cube_level(k / 36) as u8, cube_level((k / 6) % 6) as u8, cube_level(k % 6) as u8)
    } else {
        let level = 8 + 10 * (i - 232);
        (level as u8, level as u8, level as u8)
    }
}

/// The lowest palette index whose RGB value is `rgb`, if there is one.
pub open spec fn is_lowest_index(n: u8, rgb: (u8, u8, u8)) -> bool {
    &&& palette_rgb(n) == rgb
    &&& forall|m: u8| m < n ==> palette_rgb(m) != rgb
}

proof fn lemma_cube_index(k: int)
    requires
        0 <= k < 216,
    ensures
        k == 36 * (k / 36) + 6 * ((k / 6) % 6) + k % 6,
        0 <= k / 36 < 6,
{
    assert(k == 36 * (k / 36) + 6 * ((k / 6) % 6) + k % 6) by (nonlinear_arith)
        requires
            0 <= k < 216,
    ;
    assert(0 <= k / 36 < 6) by (nonlinear_arith)
        requires
            0 <= k < 216,
    ;
}

/// The shape of each part of the palette.
proof fn lemma_palette(m: u8)
    ensures
        16 <= m < 232 ==> {
            let k = m - 16;
            &&& m == 16 + 36 * (k / 36) + 6 * ((k / 6) % 6) + k % 6
            &&& 0 <= k / 36 < 6
            &&& palette_rgb(m) == (
                cube_level(k / 36) as u8,
                cube_level((k / 6) % 6) as u8,
                cube_level(k % 6) as u8,
            )
        },
        m >= 232 ==> palette_rgb(m).0 == 8 + 10 * (m - 232) && palette_rgb(m).0 == palette_rgb(
            m,
        ).1 && palette_rgb(m).1 == palette_rgb(m).2,
{
    if 16 <= m < 232 {
        lemma_cube_index(m - 16);
    }
}

/// The RGB value of a color.
pub open spec fn color_rgb(c: Color) -> (u8, u8, u8) {
    match c {
        Color::Rgb(r, g, b) => (r, g, b),
        _ => palette_rgb(palette_index(c).unwrap()),
    }
}

/// Color equality: two palette colors are equal when their indices are; where
/// an RGB color is involved, when the RGB values are.
pub open spec fn same_color(a: Color, b: Color) -> bool {
    match (palette_index(a), palette_index(b)) {
        (Some(x), Some(y)) => x == y,
        _ => color_rgb(a) == color_rgb(b),
    }
}

impl Color {
    /// A palette color by index, for 256-color terminals.
    pub fn num(i: u8) -> (r: Color)
        ensures
            r == Color::ColorNum(i),
    {
        Color::ColorNum(i)
    }

    /// A 24-bit RGB color.
    pub fn rgb(r: u8, g: u8, b: u8) -> (c: Color)
        ensures
            c == Color::Rgb(r, g, b),
    {
        Color::Rgb(r, g, b)
    }

    fn _get_num_opt_unless_rgb(&self) -> (r: Option<u8>)
        ensures
            r == palette_index(*self),
    {
        match self {
            Color::Black => Some(0),
            Color::Red => Some(1),
            Color::Green => Some(2),
            Color::Yellow => Some(3),
            Color::Blue => Some(4),
            Color::Purple => Some(5),
            Color::Cyan => Some(6),
            Color::White => Some(7),
            Color::BrightBlack => Some(8),
            Color::BrightRed => Some(9),
            Color::BrightGreen => Some(10),
            Color::BrightYellow => Some(11),
            Color::BrightBlue => Some(12),
            Color::BrightPurple => Some(13),
            Color::BrightCyan => Some(14),
            Color::BrightWhite => Some(15),
            Color::ColorNum(n) => Some(*n),
            Color::Rgb(_, _, _) => None,
        }
    }

    /// The palette index of a color that is not an RGB color.
    pub fn get_num(&self) -> (r: u8)
        requires
            !(*self is Rgb),
        ensures
            Some(r) == palette_index(*self),
    {
        match self._get_num_opt_unless_rgb() {
            Some(n) => n,
            None => 0,
        }
    }

    /// The RGB value of a palette index.
    pub fn rgb_from_num(index: u8) -> (r: (u8, u8, u8))
        ensures
            r == palette_rgb(index),
    {
        if index < 16 {
            let level: u8 = if index >= 9 {
                255
            } else if index == 7 {
                192
            } else {
                128
            };
            let r: u8 = if index == 8 {
                128
            } else if index % 2 == 1 {
                level
            } else {
                0
            };
            let g: u8 = if index == 8 {
                128
            } else if (index / 2) % 2 == 1 {
                level
            } else {
                0
            };
            let b: u8 = if index == 8 {
                128
            } else if (index / 4) % 2 == 1 {
                level
            } else {
                0
            };
            (r, g, b)
        } else if index < 232 {
            let index = index - 16;
            let r_index = (index / 36) % 6;
            let g_index = (index / 6) % 6;
            let b_index = index % 6;
            let r: u8 = if r_index == 0 { 0 } else { 95 + 40 * (r_index - 1) };
            let g: u8 = if g_index == 0 { 0 } else { 95 + 40 * (g_index - 1) };
            let b: u8 = if b_index == 0 { 0 } else { 95 + 40 * (b_index - 1) };
            (r, g, b)
        } else {
            let index = index - 232;
            let level = index * 10 + 8;
            (level, level, level)
        }
    }

    /// The RGB value of this color.
    pub fn get_rgb(&self) -> (r: (u8, u8, u8))
        ensures
            r == color_rgb(*self),
    {
        match self {
            Color::Rgb(r, g, b) => (*r, *g, *b),
            _ => Color::rgb_from_num(self.get_num()),
        }
    }
}

/// The step of the color cube whose intensity is `v`, if any.
fn cube_step(v: u8) -> (r: Option<u8>)
    ensures
        r matches Some(k) ==> k < 6 && cube_level(k as int) == v,
        r is None ==> forall|k: int| 0 <= k < 6 ==> cube_level(k) != v,
{
    match v {
        0 => Some(0),
        95 => Some(1),
        135 => Some(2),
        175 => Some(3),
        215 => Some(4),
        255 => Some(5),
        _ => None,
    }
}

impl Color {
    /// The style with this color for the text.
    pub open spec fn ansi_model(&self) -> AnsiModel {
        AnsiModel {
            colors: ColorsModel { fg: Some(ToggleColor::On(*self)), bg: None },
            ..AnsiModel::empty()
        }
    }

    /// The text attribute of this color.
    pub fn attr(&self) -> (r: Attr<Color>)
        ensures
            r == (Attr { value: *self, reset: false, important: false, bg: false }),
    {
        Attr::new(*self)
    }

    /// The style with this color for the background.
    pub fn bg(&self) -> (r: Ansi)
        ensures
            r@ == (AnsiModel {
                colors: ColorsModel { fg: None, bg: Some(ToggleColor::On(*self)) },
                ..AnsiModel::empty()
            }),
    {
        Ansi::from_color(*self, Toggle::On, Coloree::Background)
    }

    /// The style with this color for the text and everything else reset.
    pub fn only(&self) -> (r: Ansi)
        ensures
            r@ == self.ansi_model().only(),
    {
        self.ansi().only()
    }

    /// The style with this color for the text, important.
    pub fn important(&self) -> (r: Ansi)
        ensures
            r@ == self.ansi_model().important(),
    {
        self.ansi().important()
    }

    /// The escape sequence that sets this color for the text.
    pub fn to_string(&self) -> (r: String)
        ensures
            r@ == render(self.ansi_model()),
    {
        self.ansi().to_string()
    }

    /// The style with this color for the text.
    pub fn ansi(&self) -> (r: Ansi)
        ensures
            r@ == self.ansi_model(),
    {
        Ansi::from_color(*self, Toggle::On, Coloree::Text)
    }

    /// The reset color.
    pub fn reset() -> (r: ColorReset)
        ensures
            r == ColorReset,
    {
        ColorReset
    }

    /// The palette index of this color; for an RGB color, the index of the
    /// palette color with exactly that RGB value, if there is one.
    pub fn get_num_opt(&self) -> (r: Option<u8>)
        ensures
            !(*self is Rgb) ==> r == palette_index(*self),
            *self is Rgb ==> match r {
                Some(n) => is_lowest_index(n, color_rgb(*self)),
                None => forall|m: u8| palette_rgb(m) != color_rgb(*self),
            },
    {
        match self {
            Color::Rgb(r, g, b) => Color::num_opt_from_rgb(*r, *g, *b),
            _ => self._get_num_opt_unless_rgb(),
        }
    }

    /// The lowest palette index whose RGB value is exactly `(r, g, b)`, or
    /// `None` where no palette color has that value.
    pub fn num_opt_from_rgb(r: u8, g: u8, b: u8) -> (res: Option<u8>)
        ensures
            match res {
                Some(n) => is_lowest_index(n, (r, g, b)),
                None => forall|m: u8| palette_rgb(m) != (r, g, b),
            },
    {
        // The 16 standard colors.
        if r == 192 && g == 192 && b == 192 {
            return Some(7);
        }
        if r == 128 && g == 128 && b == 128 {
            return Some(8);
        }
        if (r == 0 || r == 128) && (g == 0 || g == 128) && (b == 0 || b == 128) {
            let n: u8 = (if r == 0 { 0 } else { 1 }) + (if g == 0 { 0 } else { 2 }) + (if b == 0 {
                0
            } else {
                4
            });
            return Some(n);
        }
        if (r == 0 || r == 255) && (g == 0 || g == 255) && (b == 0 || b == 255) {
            let n: u8 = 8 + (if r == 0 { 0 } else { 1 }) + (if g == 0 { 0 } else { 2 }) + (if b
                == 0 {
                0
            } else {
                4
            });
            return Some(n);
        }
        // The color cube.
        match (cube_step(r), cube_step(g), cube_step(b)) {
            (Some(kr), Some(kg), Some(kb)) => {
                let n = 16 + kr * 36 + kg * 6 + kb;
                assert((n - 16) / 36 == kr && ((n - 16) / 6) % 6 == kg && (n - 16) % 6 == kb)
                    by (nonlinear_arith)
                    requires
                        n == 16 + kr * 36 + kg * 6 + kb,
                        kr < 6,
                        kg < 6,
                        kb < 6,
                ;
                proof {
                    assert forall|m: u8| m < n implies palette_rgb(m) != (r, g, b) by {
                        lemma_palette(m);
                    }
                }
                return Some(n);
            },
            _ => {},
        }
        // The grays.
        if r == g && g == b && r >= 8 && (r - 8) % 10 == 0 {
            let num = (r - 8) / 10;
            if num == 12 {
                return Some(8);
            } else if num == 24 {
                proof {
                    assert forall|m: u8| palette_rgb(m) != (r, g, b) by {
                        lemma_palette(m);
                    }
                }
                return None;
            } else {
                proof {
                    assert forall|m: u8| m < num + 232 implies palette_rgb(m) != (r, g, b) by {
                        lemma_palette(m);
                    }
                }
                return Some(num + 232);
            }
        }
        proof {
            assert forall|m: u8| palette_rgb(m) != (r, g, b) by {
                lemma_palette(m);
                if m >= 232 && palette_rgb(m) == (r, g, b) {
                    assert(r - 8 == 10 * (m - 232));
                    assert((r - 8) % 10 == 0);
                }
            }
        }
        None
    }
}

/// The reset color: code `39` for the text, `49` for the background.
#[derive(PartialEq, Eq, Clone, Copy, Debug, Structural)]
pub struct ColorReset;

impl ColorReset {
    /// The style that resets the text color.
    pub open spec fn ansi_model(&self) -> AnsiModel {
        AnsiModel {
            colors: ColorsModel { fg: Some(ToggleColor::Reset), bg: None },
            ..AnsiModel::empty()
        }
    }

    /// The style that resets the background color.
    pub fn bg(&self) -> (r: Ansi)
        ensures
            r@ == (AnsiModel {
                colors: ColorsModel { fg: None, bg: Some(ToggleColor::Reset) },
                ..AnsiModel::empty()
            }),
    {
        Ansi::from_color(Color::Black, Toggle::Reset, Coloree::Background)
    }

    /// The style that resets the text color and everything else.
    pub fn only(&self) -> (r: Ansi)
        ensures
            r@ == self.ansi_model().only(),
    {
        self.ansi().only()
    }

    /// The style that resets the text color, important.
    pub fn important(&self) -> (r: Ansi)
        ensures
            r@ == self.ansi_model().important(),
    {
        self.ansi().important()
    }

    /// The escape sequence that resets the text color.
    pub fn to_string(&self) -> (r: String)
        ensures
            r@ == render(self.ansi_model()),
    {
        self.ansi().to_string()
    }

    /// The style that resets the text color.
    pub fn ansi(&self) -> (r: Ansi)
        ensures
            r@ == self.ansi_model(),
    {
        Ansi::from_color(Color::Black, Toggle::Reset, Coloree::Text)
    }
}

impl Coloree {
    /// Both colorees: the text, then the background.
    pub fn all() -> (r: [Coloree; 2])
        ensures
            r@ == seq![Coloree::Text, Coloree::Background],
    {
        let r = [Coloree::Text, Coloree::Background];
        assert(r@ =~= seq![Coloree::Text, Coloree::Background]);
        r
    }
}

impl PartialEq for Color {
    fn eq(&self, other: &Color) -> (r: bool) {
        match (self._get_num_opt_unless_rgb(), other._get_num_opt_unless_rgb()) {
            (Some(a), Some(b)) => a == b,
            _ => {
                let a = self.get_rgb();
                let b = other.get_rgb();
                a.0 == b.0 && a.1 == b.1 && a.2 == b.2
            },
        }
    }
}

impl vstd::std_specs::cmp::PartialEqSpecImpl for Color {
    open spec fn obeys_eq_spec() -> bool {
        true
    }

    open spec fn eq_spec(&self, other: &Color) -> bool {
        same_color(*self, *other)
    }
}

} // verus!
