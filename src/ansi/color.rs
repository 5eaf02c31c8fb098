//! Color selectors (text and background) and color values (each part
//! unspecified, set to a color or reset).
use vstd::prelude::*;

use crate::ansi::{Toggle, ToggleColor};
use crate::bits::{
    is_single_bit, lemma_bit_and, lemma_bit_and_not, lemma_bit_consts, lemma_bit_or, lemma_single_bits,
};
use crate::color::{same_color, Color, Coloree};
use crate::write::compile_time::{Writer, CAPACITY};
use crate::write::run_time::Formatter;
use crate::write::slot_codes;
use crate::introspect::Attr;

verus! {

/// The bit that stands for a coloree in a selector.
pub open spec fn coloree_mask(c: Coloree) -> u8 {
    match c {
        Coloree::Text => 1,
        Coloree::Background => 2,
    }
}

proof fn lemma_coloree_mask(c: Coloree)
    ensures
        is_single_bit(coloree_mask(c)),
{
}

/// A selector: a set of colorees, one bit each.
#[derive(PartialEq, Eq, Clone, Copy, Debug, Structural)]
pub struct Attrs {
    bits: u8,
}

impl View for Attrs {
    type V = Set<Coloree>;

    closed spec fn view(&self) -> Set<Coloree> {
        Set::new(|c: Coloree| self.bits & coloree_mask(c) != 0)
    }
}

impl Attrs {
    /// Selectors with the same colorees are the same value.
    proof fn lemma_view_injective(a: Attrs, b: Attrs)
        requires
            a.bits < 4,
            b.bits < 4,
            a@ == b@,
        ensures
            a == b,
    {
        assert(a@.contains(Coloree::Text) == (a.bits & coloree_mask(Coloree::Text) != 0));
        assert(a@.contains(Coloree::Background) == (a.bits & coloree_mask(Coloree::Background) != 0));
        assert(b@.contains(Coloree::Text) == (b.bits & coloree_mask(Coloree::Text) != 0));
        assert(b@.contains(Coloree::Background) == (b.bits & coloree_mask(Coloree::Background) != 0));
        let x = a.bits;
        let y = b.bits;
        assert(x == y) by (bit_vector)
            requires
                x < 4,
                y < 4,
                (x & 1 != 0) == (y & 1 != 0),
                (x & 2 != 0) == (y & 2 != 0),
        ;
    }

    /// Only the bits of the two colorees are used.
    #[verifier::type_invariant]
    spec fn inv(&self) -> bool {
        self.bits < 4
    }

    pub fn empty() -> (r: Attrs)
        ensures
            r@ == Set::<Coloree>::empty(),
    {
        let r = Attrs { bits: 0 };
        proof {
            assert forall|c: Coloree| !r@.contains(c) by {
                lemma_coloree_mask(c);
                lemma_bit_consts(coloree_mask(c));
            }
            assert(r@ =~= Set::<Coloree>::empty());
        }
        r
    }

    pub fn all() -> (r: Attrs)
        ensures
            r@ == Set::<Coloree>::full(),
    {
        let r = Attrs { bits: 3 };
        proof {
            assert forall|c: Coloree| r@.contains(c) by {
                lemma_coloree_mask(c);
                lemma_bit_consts(coloree_mask(c));
            }
            assert(r@ =~= Set::<Coloree>::full());
        }
        r
    }

    pub fn from_coloree(coloree: Coloree) -> (r: Attrs)
        ensures
            r@ == set![coloree],
    {
        let bits: u8 = match coloree {
            Coloree::Text => 1,
            Coloree::Background => 2,
        };
        let r = Attrs { bits };
        assert(bits == coloree_mask(coloree));
        proof {
            assert forall|c: Coloree| r@.contains(c) == (c == coloree) by {
                lemma_coloree_mask(c);
                lemma_single_bits(bits, coloree_mask(c));
            }
            assert(r@ =~= set![coloree]);
        }
        r
    }

    pub fn contains_coloree(&self, coloree: Coloree) -> (r: bool)
        ensures
            r == self@.contains(coloree),
    {
        let mask: u8 = match coloree {
            Coloree::Text => 1,
            Coloree::Background => 2,
        };
        assert(mask == coloree_mask(coloree));
        assert(self@.contains(coloree) == (self.bits & coloree_mask(coloree) != 0));
        let i = self.bits & mask;
        i != 0
    }

    pub fn union(&self, other: Attrs) -> (r: Attrs)
        ensures
            r@ == self@ + other@,
    {
        proof {
            use_type_invariant(self);
            use_type_invariant(&other);
        }
        let x = self.bits;
        let y = other.bits;
        let bits = x | y;
        assert((x | y) < 4) by (bit_vector)
            requires
                x < 4,
                y < 4,
        ;
        let r = Attrs { bits };
        proof {
            assert forall|c: Coloree| r@.contains(c) == (self@ + other@).contains(c) by {
                lemma_coloree_mask(c);
                lemma_bit_or(x, y, coloree_mask(c));
            }
            assert(r@ =~= self@ + other@);
        }
        r
    }

    pub fn intersection(&self, other: Attrs) -> (r: Attrs)
        ensures
            r@ == self@ * other@,
    {
        proof {
            use_type_invariant(self);
            use_type_invariant(&other);
        }
        let x = self.bits;
        let y = other.bits;
        let bits = x & y;
        assert((x & y) < 4) by (bit_vector)
            requires
                x < 4,
        ;
        let r = Attrs { bits };
        proof {
            assert forall|c: Coloree| r@.contains(c) == (self@ * other@).contains(c) by {
                lemma_coloree_mask(c);
                lemma_bit_and(x, y, coloree_mask(c));
            }
            assert(r@ =~= self@ * other@);
        }
        r
    }

    pub fn difference(&self, other: Attrs) -> (r: Attrs)
        ensures
            r@ == self@ - other@,
    {
        proof {
            use_type_invariant(self);
            use_type_invariant(&other);
        }
        let x = self.bits;
        let y = other.bits;
        let bits = x & !y;
        assert((x & !y) < 4) by (bit_vector)
            requires
                x < 4,
        ;
        let r = Attrs { bits };
        proof {
            assert forall|c: Coloree| r@.contains(c) == (self@ - other@).contains(c) by {
                lemma_coloree_mask(c);
                lemma_bit_and_not(x, y, coloree_mask(c));
            }
            assert(r@ =~= self@ - other@);
        }
        r
    }

    pub fn equals(&self, other: &Attrs) -> (r: bool)
        ensures
            r == (self@ == other@),
    {
        proof {
            use_type_invariant(self);
            use_type_invariant(other);
            if self@ == other@ {
                Attrs::lemma_view_injective(*self, *other);
            }
        }
        self.bits == other.bits
    }

    pub fn is_empty(&self) -> (r: bool)
        ensures
            r == (self@ == Set::<Coloree>::empty()),
    {
        self.equals(&Attrs::empty())
    }

    pub fn is_all(&self) -> (r: bool)
        ensures
            r == (self@ == Set::<Coloree>::full()),
    {
        self.equals(&Attrs::all())
    }
}

/// The code that a color slot holds: unspecified (`None`), a color, or a reset.
pub open spec fn not_color(c: Option<ToggleColor>) -> Option<ToggleColor> {
    match c {
        Some(ToggleColor::On(_)) => Some(ToggleColor::Reset),
        _ => None,
    }
}

/// Equality of two color slots, with colors compared by [`same_color`].
pub open spec fn same_slot(a: Option<ToggleColor>, b: Option<ToggleColor>) -> bool {
    match (a, b) {
        (None, None) => true,
        (Some(ToggleColor::Reset), Some(ToggleColor::Reset)) => true,
        (Some(ToggleColor::On(x)), Some(ToggleColor::On(y))) => same_color(x, y),
        _ => false,
    }
}

/// The slot after a transition from `from` to `to`.
pub open spec fn transition_slot(from: Option<ToggleColor>, to: Option<ToggleColor>) -> Option<ToggleColor> {
    if to is None {
        not_color(from)
    } else if same_slot(from, to) {
        None
    } else {
        to
    }
}

/// The mathematical value of a color value: the text slot and the background slot.
pub struct ColorsModel {
    pub fg: Option<ToggleColor>,
    pub bg: Option<ToggleColor>,
}

impl ColorsModel {
    pub open spec fn empty() -> ColorsModel {
        ColorsModel { fg: None, bg: None }
    }

    pub open spec fn reset_all() -> ColorsModel {
        ColorsModel { fg: Some(ToggleColor::Reset), bg: Some(ToggleColor::Reset) }
    }

    pub open spec fn slot(self, coloree: Coloree) -> Option<ToggleColor> {
        match coloree {
            Coloree::Text => self.fg,
            Coloree::Background => self.bg,
        }
    }

    /// The colorees that are specified.
    pub open spec fn attrs(self) -> Set<Coloree> {
        Set::new(|c: Coloree| self.slot(c) is Some)
    }

    pub open spec fn is_empty(self) -> bool {
        self.fg is None && self.bg is None
    }

    pub open spec fn is_reset(self) -> bool {
        self.fg == Some(ToggleColor::Reset) && self.bg == Some(ToggleColor::Reset)
    }

    /// Each slot that `other` specifies takes `other`'s value.
    pub open spec fn add(self, other: ColorsModel) -> ColorsModel {
        ColorsModel {
            fg: if other.fg is None { self.fg } else { other.fg },
            bg: if other.bg is None { self.bg } else { other.bg },
        }
    }

    /// Per slot: a reset where `to` leaves a set color unspecified, nothing where
    /// both agree, else `to`'s value.
    pub open spec fn transition(self, to: ColorsModel) -> ColorsModel {
        ColorsModel { fg: transition_slot(self.fg, to.fg), bg: transition_slot(self.bg, to.bg) }
    }

    /// A set color becomes a reset; the rest become unspecified.
    pub open spec fn not(self) -> ColorsModel {
        ColorsModel { fg: not_color(self.fg), bg: not_color(self.bg) }
    }

    /// An unspecified slot becomes a reset.
    pub open spec fn only(self) -> ColorsModel {
        ColorsModel {
            fg: if self.fg is None { Some(ToggleColor::Reset) } else { self.fg },
            bg: if self.bg is None { Some(ToggleColor::Reset) } else { self.bg },
        }
    }

    /// The slots in `attrs` become unspecified.
    pub open spec fn remove(self, attrs: Set<Coloree>) -> ColorsModel {
        ColorsModel {
            fg: if attrs.contains(Coloree::Text) { None } else { self.fg },
            bg: if attrs.contains(Coloree::Background) { None } else { self.bg },
        }
    }
}

fn same_slot_exec(a: Option<ToggleColor>, b: Option<ToggleColor>) -> (r: bool)
    ensures
        r == same_slot(a, b),
{
    match (a, b) {
        (None, None) => true,
        (Some(ToggleColor::Reset), Some(ToggleColor::Reset)) => true,
        (Some(ToggleColor::On(x)), Some(ToggleColor::On(y))) => x.eq(&y),
        _ => false,
    }
}

/// A color value: the text slot and the background slot.
#[derive(PartialEq, Eq, Clone, Copy, Debug)]
pub struct Colors {
    fg: Option<ToggleColor>,
    bg: Option<ToggleColor>,
}

impl View for Colors {
    type V = ColorsModel;

    closed spec fn view(&self) -> ColorsModel {
        ColorsModel { fg: self.fg, bg: self.bg }
    }
}

impl Colors {
    /// Color values with the same model are the same value.
    pub proof fn lemma_view_injective(a: Colors, b: Colors)
        requires
            a@ == b@,
        ensures
            a == b,
    {
    }

    pub fn from_color(color: Color, toggle: Toggle, coloree: Coloree) -> (r: Colors)
        ensures
            r@ == ColorsModel::empty().add(Colors::model_of(
                match toggle {
                    Toggle::On => ToggleColor::On(color),
                    Toggle::Reset => ToggleColor::Reset,
                },
                coloree,
            )),
    {
        let is_color = match toggle {
            Toggle::Reset => ToggleColor::Reset,
            Toggle::On => ToggleColor::On(color),
        };
        Colors::new(is_color, coloree)
    }

    /// The color value with one slot specified.
    pub open spec fn model_of(color: ToggleColor, coloree: Coloree) -> ColorsModel {
        match coloree {
            Coloree::Text => ColorsModel { fg: Some(color), bg: None },
            Coloree::Background => ColorsModel { fg: None, bg: Some(color) },
        }
    }

    fn new(color: ToggleColor, coloree: Coloree) -> (r: Colors)
        ensures
            r@ == Colors::model_of(color, coloree),
    {
        match coloree {
            Coloree::Text => Colors { fg: Some(color), bg: None },
            Coloree::Background => Colors { fg: None, bg: Some(color) },
        }
    }

    /// Both slots hold the same, with colors compared by their own equality.
    pub fn same(&self, other: &Colors) -> (r: bool)
        ensures
            r == (same_slot(self@.fg, other@.fg) && same_slot(self@.bg, other@.bg)),
    {
        same_slot_exec(self.fg, other.fg) && same_slot_exec(self.bg, other.bg)
    }

    pub fn is_empty(&self) -> (r: bool)
        ensures
            r == self@.is_empty(),
    {
        self.fg.is_none() && self.bg.is_none()
    }

    pub fn is_reset(&self) -> (r: bool)
        ensures
            r == self@.is_reset(),
    {
        match (self.fg, self.bg) {
            (Some(ToggleColor::Reset), Some(ToggleColor::Reset)) => true,
            _ => false,
        }
    }

    pub fn empty() -> (r: Colors)
        ensures
            r@ == ColorsModel::empty(),
    {
        Colors { fg: None, bg: None }
    }

    pub fn reset() -> (r: Colors)
        ensures
            r@ == ColorsModel::reset_all(),
    {
        Colors { fg: Some(ToggleColor::Reset), bg: Some(ToggleColor::Reset) }
    }

    pub fn slot(&self, coloree: Coloree) -> (r: Option<ToggleColor>)
        ensures
            r == self@.slot(coloree),
    {
        match coloree {
            Coloree::Text => self.fg,
            Coloree::Background => self.bg,
        }
    }

    /// The attribute of a slot, if it is specified. A reset carries black as
    /// its color.
    pub fn get_color(&self, coloree: Coloree) -> (r: Option<Attr<Color>>)
        ensures
            r == (match self@.slot(coloree) {
                None => None,
                Some(ToggleColor::Reset) => Some(
                    Attr {
                        value: Color::Black,
                        reset: true,
                        important: false,
                        bg: coloree == Coloree::Background,
                    },
                ),
                Some(ToggleColor::On(c)) => Some(
                    Attr {
                        value: c,
                        reset: false,
                        important: false,
                        bg: coloree == Coloree::Background,
                    },
                ),
            }),
    {
        match self.slot(coloree) {
            None => None,
            Some(ToggleColor::Reset) => Some(Attr::new_color(Color::Black, Toggle::Reset, coloree)),
            Some(ToggleColor::On(c)) => Some(Attr::new_color(c, Toggle::On, coloree)),
        }
    }

    fn not_fg(&self) -> (r: Option<ToggleColor>)
        ensures
            r == not_color(self.fg),
    {
        match self.fg {
            Some(ToggleColor::On(_)) => Some(ToggleColor::Reset),
            _ => None,
        }
    }

    fn not_bg(&self) -> (r: Option<ToggleColor>)
        ensures
            r == not_color(self.bg),
    {
        match self.bg {
            Some(ToggleColor::On(_)) => Some(ToggleColor::Reset),
            _ => None,
        }
    }

    pub fn add(&self, other: Colors) -> (r: Colors)
        ensures
            r@ == self@.add(other@),
    {
        Colors {
            fg: if other.fg.is_none() { self.fg } else { other.fg },
            bg: if other.bg.is_none() { self.bg } else { other.bg },
        }
    }

    pub fn transition(&self, to_other: Colors) -> (r: Colors)
        ensures
            r@ == self@.transition(to_other@),
    {
        Colors {
            fg: if to_other.fg.is_none() {
                self.not_fg()
            } else if same_slot_exec(self.fg, to_other.fg) {
                None
            } else {
                to_other.fg
            },
            bg: if to_other.bg.is_none() {
                self.not_bg()
            } else if same_slot_exec(self.bg, to_other.bg) {
                None
            } else {
                to_other.bg
            },
        }
    }

    pub fn not(&self) -> (r: Colors)
        ensures
            r@ == self@.not(),
    {
        Colors { fg: self.not_fg(), bg: self.not_bg() }
    }

    pub fn only(&self) -> (r: Colors)
        ensures
            r@ == self@.only(),
    {
        Colors {
            fg: if self.fg.is_none() { Some(ToggleColor::Reset) } else { self.fg },
            bg: if self.bg.is_none() { Some(ToggleColor::Reset) } else { self.bg },
        }
    }

    pub fn remove(&self, attrs: Attrs) -> (r: Colors)
        ensures
            r@ == self@.remove(attrs@),
    {
        Colors {
            fg: if attrs.contains_coloree(Coloree::Text) { None } else { self.fg },
            bg: if attrs.contains_coloree(Coloree::Background) { None } else { self.bg },
        }
    }

    /// Writes the codes of the colors (`toggle` is `On`) or of the resets,
    /// text first.
    pub fn write(&self, w: &mut Formatter, toggle: Toggle)
        requires
            old(w).wf(),
        ensures
            final(w).wf(),
            final(w).codes() == old(w).codes() + slot_codes(Coloree::Text, self@.fg, toggle)
                + slot_codes(Coloree::Background, self@.bg, toggle),
    {
        let ghost start = w.codes();
        match (toggle, self.fg) {
            (Toggle::Reset, Some(ToggleColor::Reset)) => w.write_color(Coloree::Text, ToggleColor::Reset),
            (Toggle::On, Some(ToggleColor::On(c))) => w.write_color(Coloree::Text, ToggleColor::On(c)),
            _ => {},
        }
        assert(w.codes() =~= start + slot_codes(Coloree::Text, self@.fg, toggle));
        match (toggle, self.bg) {
            (Toggle::Reset, Some(ToggleColor::Reset)) => w.write_color(
                Coloree::Background,
                ToggleColor::Reset,
            ),
            (Toggle::On, Some(ToggleColor::On(c))) => w.write_color(
                Coloree::Background,
                ToggleColor::On(c),
            ),
            _ => {},
        }
        assert(w.codes() =~= start + slot_codes(Coloree::Text, self@.fg, toggle) + slot_codes(
            Coloree::Background,
            self@.bg,
            toggle,
        ));
    }

    /// Writes the codes of the colors (`toggle` is `On`) or of the resets into
    /// a buffer, text first.
    pub fn write_const(&self, w: Writer, toggle: Toggle) -> (r: Writer)
        requires
            w.wf(),
            w.codes().len() + slot_codes(Coloree::Text, self@.fg, toggle).len() + slot_codes(
                Coloree::Background,
                self@.bg,
                toggle,
            ).len() <= CAPACITY,
        ensures
            r.wf(),
            r.codes() == w.codes() + slot_codes(Coloree::Text, self@.fg, toggle) + slot_codes(
                Coloree::Background,
                self@.bg,
                toggle,
            ),
    {
        let ghost start = w.codes();
        let w = match (toggle, self.fg) {
            (Toggle::Reset, Some(ToggleColor::Reset)) => w.write_color(
                Coloree::Text,
                ToggleColor::Reset,
            ),
            (Toggle::On, Some(ToggleColor::On(c))) => w.write_color(
                Coloree::Text,
                ToggleColor::On(c),
            ),
            _ => w,
        };
        assert(w.codes() =~= start + slot_codes(Coloree::Text, self@.fg, toggle));
        let w = match (toggle, self.bg) {
            (Toggle::Reset, Some(ToggleColor::Reset)) => w.write_color(
                Coloree::Background,
                ToggleColor::Reset,
            ),
            (Toggle::On, Some(ToggleColor::On(c))) => w.write_color(
                Coloree::Background,
                ToggleColor::On(c),
            ),
            _ => w,
        };
        assert(w.codes() =~= start + slot_codes(Coloree::Text, self@.fg, toggle) + slot_codes(
            Coloree::Background,
            self@.bg,
            toggle,
        ));
        w
    }

    pub fn attrs(&self) -> (r: Attrs)
        ensures
            r@ == self@.attrs(),
    {
        let fg = if self.fg.is_none() { Attrs::empty() } else { Attrs::from_coloree(Coloree::Text) };
        let bg = if self.bg.is_none() {
            Attrs::empty()
        } else {
            Attrs::from_coloree(Coloree::Background)
        };
        let r = fg.union(bg);
        proof {
            assert(r@ =~= self@.attrs());
        }
        r
    }
}

} // verus!
