//! A readable text of a style: its attributes in canonical order.
use vstd::prelude::*;
use vstd::string::*;

use crate::ansi::{Ansi, AnsiModel};
use crate::color::{Color, Coloree};
use crate::effect::{effect_order, Effect};
use crate::introspect::Attr;
use crate::write::decimal;
use crate::write::run_time::push_decimal;

verus! {

pub open spec fn effect_name(e: Effect) -> Seq<char> {
    match e {
        Effect::Bold => "Bold"@,
        Effect::Faint => "Faint"@,
        Effect::Italic => "Italic"@,
        Effect::Underline => "Underline"@,
        Effect::Blink => "Blink"@,
        Effect::Reverse => "Reverse"@,
        Effect::Hidden => "Hidden"@,
        Effect::Strike => "Strike"@,
    }
}

pub open spec fn color_name(c: Color) -> Seq<char> {
    match c {
        Color::Black => "Black"@,
        Color::Red => "Red"@,
        Color::Green => "Green"@,
        Color::Yellow => "Yellow"@,
        Color::Blue => "Blue"@,
        Color::Purple => "Purple"@,
        Color::Cyan => "Cyan"@,
        Color::White => "White"@,
        Color::BrightBlack => "BrightBlack"@,
        Color::BrightRed => "BrightRed"@,
        Color::BrightGreen => "BrightGreen"@,
        Color::BrightYellow => "BrightYellow"@,
        Color::BrightBlue => "BrightBlue"@,
        Color::BrightPurple => "BrightPurple"@,
        Color::BrightCyan => "BrightCyan"@,
        Color::BrightWhite => "BrightWhite"@,
        Color::ColorNum(n) => "ColorNum("@ + decimal(n) + ")"@,
        Color::Rgb(r, g, b) => "Rgb("@ + decimal(r) + ", "@ + decimal(g) + ", "@ + decimal(b)
            + ")"@,
    }
}

/// An effect attribute: `Bold`, `Bold.not()`, `Bold.important()`.
pub open spec fn effect_item(a: Attr<Effect>) -> Seq<char> {
    effect_name(a.value) + (if a.reset {
        ".not()"@
    } else {
        Seq::empty()
    }) + (if a.important {
        ".important()"@
    } else {
        Seq::empty()
    })
}

/// A color attribute: `Red`, `Color::reset()`, then `.bg()` and `.important()`.
pub open spec fn color_item(a: Attr<Color>) -> Seq<char> {
    (if a.reset {
        "Color::reset()"@
    } else {
        color_name(a.value)
    }) + (if a.bg {
        ".bg()"@
    } else {
        Seq::empty()
    }) + (if a.important {
        ".important()"@
    } else {
        Seq::empty()
    })
}

/// The items of the first `k` effects that the style specifies.
pub open spec fn effect_items(m: AnsiModel, k: int) -> Seq<Seq<char>>
    decreases k,
{
    if k <= 0 {
        Seq::empty()
    } else {
        let prev = effect_items(m, k - 1);
        match m.effect_attr(effect_order()[k - 1]) {
            Some(a) => prev.push(effect_item(a)),
            None => prev,
        }
    }
}

/// `items` with the item of a color slot, if the style specifies it.
pub open spec fn push_color(items: Seq<Seq<char>>, m: AnsiModel, c: Coloree) -> Seq<Seq<char>> {
    match m.color_attr(c) {
        Some(a) => items.push(color_item(a)),
        None => items,
    }
}

/// The items of every attribute the style specifies: effects, text, background.
pub open spec fn debug_items(m: AnsiModel) -> Seq<Seq<char>> {
    push_color(push_color(effect_items(m, 8), m, Coloree::Text), m, Coloree::Background)
}

/// The items, separated by `, `.
pub open spec fn joined(items: Seq<Seq<char>>) -> Seq<char>
    decreases items.len(),
{
    if items.len() == 0 {
        Seq::empty()
    } else if items.len() == 1 {
        items[0]
    } else {
        joined(items.drop_last()) + ", "@ + items.last()
    }
}

/// `no_ansi`, or the attributes in brackets: `[Bold, Red.bg()]`.
pub open spec fn debug_text(m: AnsiModel) -> Seq<char> {
    if m.no_ansi {
        "no_ansi"@
    } else {
        "["@ + joined(debug_items(m)) + "]"@
    }
}

fn effect_name_str(e: Effect) -> (r: &'static str)
    ensures
        r@ == effect_name(e),
{
    match e {
        Effect::Bold => "Bold",
        Effect::Faint => "Faint",
        Effect::Italic => "Italic",
        Effect::Underline => "Underline",
        Effect::Blink => "Blink",
        Effect::Reverse => "Reverse",
        Effect::Hidden => "Hidden",
        Effect::Strike => "Strike",
    }
}

fn push_color_name(out: &mut String, c: Color)
    ensures
        final(out)@ == old(out)@ + color_name(c),
{
    let name = match c {
        Color::Black => "Black",
        Color::Red => "Red",
        Color::Green => "Green",
        Color::Yellow => "Yellow",
        Color::Blue => "Blue",
        Color::Purple => "Purple",
        Color::Cyan => "Cyan",
        Color::White => "White",
        Color::BrightBlack => "BrightBlack",
        Color::BrightRed => "BrightRed",
        Color::BrightGreen => "BrightGreen",
        Color::BrightYellow => "BrightYellow",
        Color::BrightBlue => "BrightBlue",
        Color::BrightPurple => "BrightPurple",
        Color::BrightCyan => "BrightCyan",
        Color::BrightWhite => "BrightWhite",
        Color::ColorNum(n) => {
            out.append("ColorNum(");
            push_decimal(out, n);
            out.append(")");
            return ;
        },
        Color::Rgb(r, g, b) => {
            out.append("Rgb(");
            push_decimal(out, r);
            out.append(", ");
            push_decimal(out, g);
            out.append(", ");
            push_decimal(out, b);
            out.append(")");
            return ;
        },
    };
    out.append(name);
}

fn effect_item_string(a: Attr<Effect>) -> (r: String)
    ensures
        r@ == effect_item(a),
{
    let mut out = String::from_str(effect_name_str(a.value));
    if a.reset {
        out.append(".not()");
    }
    if a.important {
        out.append(".important()");
    }
    assert(out@ =~= effect_item(a));
    out
}

fn color_item_string(a: Attr<Color>) -> (r: String)
    ensures
        r@ == color_item(a),
{
    let mut out = String::new();
    if a.reset {
        out.append("Color::reset()");
    } else {
        push_color_name(&mut out, a.value);
    }
    if a.bg {
        out.append(".bg()");
    }
    if a.important {
        out.append(".important()");
    }
    assert(out@ =~= color_item(a));
    out
}

/// Appends one more item after `items`.
fn push_item(out: &mut String, first: bool, item: &str, Ghost(items): Ghost<Seq<Seq<char>>>)
    requires
        old(out)@ == "["@ + joined(items),
        first == (items.len() == 0),
    ensures
        final(out)@ == "["@ + joined(items.push(item@)),
{
    if !first {
        out.append(", ");
    }
    out.append(item);
    assert(items.push(item@).drop_last() =~= items);
    assert(final(out)@ =~= "["@ + joined(items.push(item@)));
}

impl Ansi {
    /// A readable text of the style: `no_ansi`, or its attributes in brackets
    /// in canonical order, such as `[Bold, Italic.not(), Red.bg().important()]`.
    pub fn debug_string(&self) -> (r: String)
        ensures
            r@ == debug_text(self@),
    {
        if self.is_no_ansi() {
            return String::from_str("no_ansi");
        }
        let ghost m = self@;
        let mut out = String::from_str("[");
        let ghost mut items = Seq::<Seq<char>>::empty();
        assert(out@ =~= "["@ + joined(items));
        let mut first = true;
        let all = Effect::all();
        let mut i: usize = 0;
        while i < 8
            invariant
                i <= 8,
                m == self@,
                all@ == effect_order(),
                items == effect_items(m, i as int),
                out@ == "["@ + joined(items),
                first == (items.len() == 0),
            decreases 8 - i,
        {
            match self.get_effect(all[i]) {
                Some(a) => {
                    let item = effect_item_string(a);
                    push_item(&mut out, first, item.as_str(), Ghost(items));
                    first = false;
                    proof {
                        items = items.push(effect_item(a));
                    }
                },
                None => {},
            }
            i += 1;
        }
        match self.get_color(Coloree::Text) {
            Some(a) => {
                let item = color_item_string(a);
                push_item(&mut out, first, item.as_str(), Ghost(items));
                first = false;
                proof {
                    items = items.push(color_item(a));
                }
            },
            None => {},
        }
        match self.get_color(Coloree::Background) {
            Some(a) => {
                let item = color_item_string(a);
                push_item(&mut out, first, item.as_str(), Ghost(items));
                proof {
                    items = items.push(color_item(a));
                }
            },
            None => {},
        }
        assert(items == debug_items(m));
        out.append("]");
        out
    }
}

} // verus!
