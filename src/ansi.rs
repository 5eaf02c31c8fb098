//! The style value and its algebra.
pub(crate) mod attr;
pub(crate) mod color;
pub(crate) mod effect;

use vstd::prelude::*;

use crate::color::{Color, Coloree};
use crate::effect::Effect;
use attr::{Attrs, AttrsModel, Flags};
use color::{same_slot, Colors, ColorsModel};
use effect::{Effects, EffectsModel};
use crate::write::compile_time::{Buffer, Writer, CAPACITY};
use crate::write::run_time::Formatter;
use crate::write::{codes, lemma_codes_len, render, toggle_codes};
use crate::introspect::Attr;

verus! {

/// Whether an attribute is switched on, or switched back to the terminal default.
#[derive(PartialEq, Eq, Clone, Copy, Debug, Structural)]
pub enum Toggle {
    /// The effect or color itself.
    On,
    /// The code that resets it.
    Reset,
}

/// A color, or the code that resets the color to the terminal default.
#[derive(PartialEq, Eq, Clone, Copy, Debug)]
pub enum ToggleColor {
    /// The color itself.
    On(Color),
    /// The reset code (`39` for the text, `49` for the background).
    Reset,
}

/// The mathematical value of a style.
pub struct AnsiModel {
    /// The effects that are set and those that are reset.
    pub effects: EffectsModel,
    /// The text and background colors.
    pub colors: ColorsModel,
    /// The attributes that take precedence when styles are nested.
    pub important: AttrsModel,
    /// The style renders nothing, and nothing nested in it renders either.
    pub no_ansi: bool,
}

impl AnsiModel {
    /// A style that holds only what its operations can produce.
    pub open spec fn wf(self) -> bool {
        &&& self.effects.wf()
        &&& self.important.subset_of(self.attrs())
        &&& self.no_ansi ==> {
            &&& self.effects == EffectsModel::empty()
            &&& self.colors == ColorsModel::empty()
            &&& self.important == AttrsModel::empty()
        }
    }

    pub open spec fn empty() -> AnsiModel {
        AnsiModel {
            effects: EffectsModel::empty(),
            colors: ColorsModel::empty(),
            important: AttrsModel::empty(),
            no_ansi: false,
        }
    }

    pub open spec fn no_ansi() -> AnsiModel {
        AnsiModel { no_ansi: true, ..AnsiModel::empty() }
    }

    pub open spec fn reset() -> AnsiModel {
        AnsiModel {
            effects: EffectsModel::reset_all(),
            colors: ColorsModel::reset_all(),
            ..AnsiModel::empty()
        }
    }

    /// The attributes that are specified.
    pub open spec fn attrs(self) -> AttrsModel {
        AttrsModel { effect: self.effects.attrs(), color: self.colors.attrs() }
    }

    pub open spec fn is_empty(self) -> bool {
        self.effects.is_empty() && self.colors.is_empty() && !self.no_ansi
    }

    pub open spec fn is_reset(self) -> bool {
        self.effects.is_reset() && self.colors.is_reset()
    }

    /// Every attribute is specified.
    pub open spec fn is_only(self) -> bool {
        self.effects.attrs() == Set::<Effect>::full() && self.colors.attrs()
            == Set::<Coloree>::full()
    }

    /// `other` laid over `self`: each attribute that `other` specifies replaces
    /// `self`'s, importance included.
    pub open spec fn add(self, other: AnsiModel) -> AnsiModel {
        if self.no_ansi {
            self
        } else if other.no_ansi {
            other
        } else {
            AnsiModel {
                effects: self.effects.add(other.effects),
                colors: self.colors.add(other.colors),
                important: self.important.difference(other.attrs()).union(other.important),
                no_ansi: false,
            }
        }
    }

    /// The attributes in `attrs` become unspecified.
    pub open spec fn remove(self, attrs: AttrsModel) -> AnsiModel {
        if self.no_ansi {
            self
        } else {
            AnsiModel {
                effects: self.effects.remove(attrs.effect),
                colors: self.colors.remove(attrs.color),
                important: self.important.difference(attrs),
                no_ansi: false,
            }
        }
    }

    /// `other` laid over `self`, except where `self` is important: there
    /// `self` stays, whatever `other` marks. The important attributes are those
    /// of both.
    pub open spec fn nest(self, other: AnsiModel) -> AnsiModel {
        if self.no_ansi {
            self
        } else if other.no_ansi {
            other
        } else {
            self.add(other.remove(self.important))
        }
    }

    /// What, written after `self`, turns a terminal showing `self` into one
    /// showing `to`.
    pub open spec fn transition(self, to: AnsiModel) -> AnsiModel {
        if self.no_ansi {
            AnsiModel::empty()
        } else if to.no_ansi {
            self.not().unimportant()
        } else if to.is_reset() && !self.is_reset() {
            AnsiModel::reset()
        } else {
            AnsiModel {
                effects: self.effects.transition(to.effects),
                colors: self.colors.transition(to.colors),
                important: AttrsModel::empty(),
                no_ansi: false,
            }
        }
    }

    /// The resets of what `self` sets; importance kept where an attribute remains.
    pub open spec fn not(self) -> AnsiModel {
        if self.no_ansi {
            self
        } else {
            let effects = self.effects.not();
            let colors = self.colors.not();
            AnsiModel {
                effects,
                colors,
                important: self.important.intersection(
                    AttrsModel { effect: effects.attrs(), color: colors.attrs() },
                ),
                no_ansi: false,
            }
        }
    }

    /// Every unspecified attribute becomes reset.
    pub open spec fn only(self) -> AnsiModel {
        if self.no_ansi {
            self
        } else {
            AnsiModel { effects: self.effects.only(), colors: self.colors.only(), ..self }
        }
    }

    /// Every specified attribute becomes important.
    pub open spec fn important(self) -> AnsiModel {
        if self.no_ansi {
            self
        } else {
            AnsiModel { important: self.attrs(), ..self }
        }
    }

    /// No attribute is important.
    pub open spec fn unimportant(self) -> AnsiModel {
        if self.no_ansi {
            self
        } else {
            AnsiModel { important: AttrsModel::empty(), ..self }
        }
    }

    /// The attribute of an effect, if the style specifies it.
    pub open spec fn effect_attr(self, e: Effect) -> Option<Attr<Effect>> {
        if self.effects.attrs().contains(e) {
            Some(
                Attr {
                    value: e,
                    reset: !self.effects.set.contains(e),
                    important: self.important.effect.contains(e),
                    bg: false,
                },
            )
        } else {
            None
        }
    }

    /// The attribute of a color slot, if the style specifies it. A reset
    /// carries black as its color.
    pub open spec fn color_attr(self, c: Coloree) -> Option<Attr<Color>> {
        match self.colors.slot(c) {
            None => None,
            Some(tc) => Some(
                Attr {
                    value: match tc {
                        ToggleColor::On(color) => color,
                        ToggleColor::Reset => Color::Black,
                    },
                    reset: tc == ToggleColor::Reset,
                    important: self.important.color.contains(c),
                    bg: c == Coloree::Background,
                },
            ),
        }
    }

    /// Equality of styles, with colors compared by their own equality.
    pub open spec fn same(self, other: AnsiModel) -> bool {
        &&& self.effects == other.effects
        &&& same_slot(self.colors.fg, other.colors.fg)
        &&& same_slot(self.colors.bg, other.colors.bg)
        &&& self.important == other.important
        &&& self.no_ansi == other.no_ansi
    }
}

/// A style: a combination of effects and text and background colors, with
/// the attributes that take precedence when styles are nested.
///
/// Styles are values: every operation returns a new one.
#[derive(Clone, Copy, Debug)]
pub struct Ansi {
    effects: Effects,
    colors: Colors,
    flags: Flags,
}

impl View for Ansi {
    type V = AnsiModel;

    closed spec fn view(&self) -> AnsiModel {
        AnsiModel {
            effects: self.effects@,
            colors: self.colors@,
            important: self.flags.important@,
            no_ansi: self.flags.no_ansi,
        }
    }
}

impl Ansi {
    #[verifier::type_invariant]
    spec fn inv(&self) -> bool {
        self@.wf()
    }

    /// The style is [`no_ansi`](Self::no_ansi).
    pub fn is_no_ansi(&self) -> (r: bool)
        ensures
            r == self@.no_ansi,
    {
        self.flags.is_no_ansi()
    }

    /// The style specifies nothing and is not [`no_ansi`](Self::no_ansi).
    pub fn is_empty(&self) -> (r: bool)
        ensures
            r == self@.is_empty(),
    {
        self.effects.is_empty() && self.colors.is_empty() && !self.flags.is_no_ansi()
    }

    /// Every effect and both colors are reset.
    pub fn is_reset(&self) -> (r: bool)
        ensures
            r == self@.is_reset(),
    {
        self.effects.is_reset() && self.colors.is_reset()
    }

    /// Every attribute is specified.
    pub fn is_only(&self) -> (r: bool)
        ensures
            r == self@.is_only(),
    {
        self.effects.attrs().is_all() && self.colors.attrs().is_all()
    }

    /// The style that renders nothing, and under which nothing nested renders.
    pub fn no_ansi() -> (r: Ansi)
        ensures
            r@ == AnsiModel::no_ansi(),
    {
        Ansi { effects: Effects::empty(), colors: Colors::empty(), flags: Flags::no_ansi() }
    }

    /// The style that specifies nothing, and so renders nothing.
    pub fn empty() -> (r: Ansi)
        ensures
            r@ == AnsiModel::empty(),
    {
        Ansi { effects: Effects::empty(), colors: Colors::empty(), flags: Flags::empty() }
    }

    /// The style that resets every attribute; it renders the universal reset.
    pub fn reset() -> (r: Ansi)
        ensures
            r@ == AnsiModel::reset(),
    {
        Ansi { effects: Effects::reset(), colors: Colors::reset(), flags: Flags::empty() }
    }

    /// `other` laid over `self`: importance is not consulted. Either operand
    /// being [`no_ansi`](Self::no_ansi) gives that operand.
    pub fn add(&self, other: Ansi) -> (r: Ansi)
        ensures
            r@ == self@.add(other@),
    {
        proof {
            use_type_invariant(self);
            use_type_invariant(&other);
        }
        if self.is_no_ansi() {
            return *self;
        }
        if other.is_no_ansi() {
            return other;
        }
        let important = self.important_attrs().difference(other.attrs()).union(
            other.important_attrs(),
        );
        let effects = self.effects.add(other.effects);
        let colors = self.colors.add(other.colors);
        proof {
            assert(effects@.attrs() =~= self@.effects.attrs() - other@.effects.attrs()
                + other@.effects.attrs());
            assert(colors@.attrs() =~= self@.colors.attrs() - other@.colors.attrs()
                + other@.colors.attrs());
        }
        Ansi { effects, colors, flags: Flags::from_important(important) }
    }

    /// `other` laid over `self`, except where `self` is important: there `self`
    /// stays, whatever `other` marks. Either operand being
    /// [`no_ansi`](Self::no_ansi) gives that operand.
    pub fn nest(&self, other: Ansi) -> (r: Ansi)
        ensures
            r@ == self@.nest(other@),
    {
        proof {
            use_type_invariant(self);
            use_type_invariant(&other);
        }
        if self.is_no_ansi() {
            return *self;
        }
        if other.is_no_ansi() {
            return other;
        }
        self.add(other.remove(self.important_attrs()))
    }

    fn remove(&self, attrs: Attrs) -> (r: Ansi)
        ensures
            r@ == self@.remove(attrs@),
    {
        proof {
            use_type_invariant(self);
        }
        if self.is_no_ansi() {
            return *self;
        }
        let effects = self.effects.remove(attrs.effect);
        let colors = self.colors.remove(attrs.color);
        let important = self.important_attrs().difference(attrs);
        proof {
            assert(effects@.attrs() =~= self@.effects.attrs() - attrs@.effect);
            assert(colors@.attrs() =~= self@.colors.attrs() - attrs@.color);
        }
        Ansi { effects, colors, flags: Flags::from_important(important) }
    }

    /// The style whose codes, written after `self`, turn a terminal showing
    /// `self` into one showing `to_other`. No attribute of it is important.
    pub fn transition(&self, to_other: Ansi) -> (r: Ansi)
        ensures
            r@ == self@.transition(to_other@),
    {
        proof {
            use_type_invariant(self);
            use_type_invariant(&to_other);
        }
        if self.is_no_ansi() {
            return Ansi::empty();
        }
        if to_other.is_no_ansi() {
            return self.not().unimportant();
        }
        if to_other.is_reset() && !self.is_reset() {
            return Ansi::reset();
        }
        Ansi {
            effects: self.effects.transition(to_other.effects),
            colors: self.colors.transition(to_other.colors),
            flags: Flags::empty(),
        }
    }

    /// The style that resets what `self` sets.
    ///
    /// Set effects and colors become resets; reset and unspecified ones become
    /// unspecified. Importance stays on the attributes that remain.
    pub fn not(&self) -> (r: Ansi)
        ensures
            r@ == self@.not(),
    {
        proof {
            use_type_invariant(self);
        }
        if self.is_no_ansi() {
            return *self;
        }
        let effects = self.effects.not();
        let colors = self.colors.not();
        let attrs = Attrs::new(effects.attrs(), colors.attrs());
        let important = self.important_attrs().intersection(attrs);
        Ansi { effects, colors, flags: Flags::from_important(important) }
    }

    /// `self`, with every unspecified attribute reset, so that nothing of an
    /// enclosing style shows through.
    pub fn only(&self) -> (r: Ansi)
        ensures
            r@ == self@.only(),
    {
        proof {
            use_type_invariant(self);
        }
        if self.is_no_ansi() {
            return *self;
        }
        let effects = self.effects.only();
        let colors = self.colors.only();
        proof {
            assert(self@.effects.attrs().subset_of(effects@.attrs()));
            assert(self@.colors.attrs().subset_of(colors@.attrs()));
        }
        Ansi { effects, colors, flags: self.flags }
    }

    /// `self`, with every specified attribute important.
    pub fn important(&self) -> (r: Ansi)
        ensures
            r@ == self@.important(),
    {
        proof {
            use_type_invariant(self);
        }
        if self.is_no_ansi() {
            return *self;
        }
        Ansi { effects: self.effects, colors: self.colors, flags: Flags::from_important(self.attrs()) }
    }

    /// `self`, with no attribute important.
    pub fn unimportant(&self) -> (r: Ansi)
        ensures
            r@ == self@.unimportant(),
    {
        proof {
            use_type_invariant(self);
        }
        if self.is_no_ansi() {
            return *self;
        }
        Ansi { effects: self.effects, colors: self.colors, flags: Flags::empty() }
    }

    /// The style itself; lets styles, colors and effects be used alike.
    pub fn ansi(&self) -> (r: Ansi)
        ensures
            r@ == self@,
    {
        *self
    }

    /// The attribute of an effect, or `None` where the style leaves it unspecified.
    pub fn get_effect(&self, effect: Effect) -> (r: Option<Attr<Effect>>)
        ensures
            r == self@.effect_attr(effect),
    {
        proof {
            use_type_invariant(self);
        }
        match self.effects.get_effect(effect) {
            None => None,
            Some(attr) => Some(
                if self.is_important_effect(effect) {
                    attr.important()
                } else {
                    attr
                },
            ),
        }
    }

    /// The attribute of a color slot, or `None` where the style leaves it unspecified.
    pub fn get_color(&self, coloree: Coloree) -> (r: Option<Attr<Color>>)
        ensures
            r == self@.color_attr(coloree),
    {
        match self.colors.get_color(coloree) {
            None => None,
            Some(attr) => Some(
                if self.is_important_color(coloree) {
                    attr.important()
                } else {
                    attr
                },
            ),
        }
    }

    fn is_important_effect(&self, effect: Effect) -> (r: bool)
        ensures
            r == self@.important.effect.contains(effect),
    {
        self.important_attrs().effect.contains_effect(effect)
    }

    fn is_important_color(&self, coloree: Coloree) -> (r: bool)
        ensures
            r == self@.important.color.contains(coloree),
    {
        self.important_attrs().color.contains_coloree(coloree)
    }

    fn attrs(&self) -> (r: Attrs)
        ensures
            r@ == self@.attrs(),
    {
        Attrs::new(self.effects.attrs(), self.colors.attrs())
    }

    fn important_attrs(&self) -> (r: Attrs)
        ensures
            r@ == self@.important,
    {
        proof {
            use_type_invariant(self);
        }
        self.flags.important()
    }

    /// Makes the invariant of a style known to a verified caller: its model is
    /// well formed. Does nothing when run.
    pub fn assert_wf(&self)
        ensures
            self@.wf(),
    {
        proof {
            use_type_invariant(self);
        }
    }

    fn from_effects(effects: Effects) -> (r: Ansi)
        requires
            effects@.wf(),
        ensures
            r@ == (AnsiModel { effects: effects@, ..AnsiModel::empty() }),
    {
        Ansi { effects, colors: Colors::empty(), flags: Flags::empty() }
    }

    fn from_colors(colors: Colors) -> (r: Ansi)
        ensures
            r@ == (AnsiModel { colors: colors@, ..AnsiModel::empty() }),
    {
        Ansi { effects: Effects::empty(), colors, flags: Flags::empty() }
    }

    /// The style with one color slot specified.
    pub(crate) fn from_color(color: Color, toggle: Toggle, coloree: Coloree) -> (r: Ansi)
        ensures
            r@ == (AnsiModel {
                colors: ColorsModel::empty().add(Colors::model_of(
                    match toggle {
                        Toggle::On => ToggleColor::On(color),
                        Toggle::Reset => ToggleColor::Reset,
                    },
                    coloree,
                )),
                ..AnsiModel::empty()
            }),
    {
        Ansi::from_colors(Colors::from_color(color, toggle, coloree))
    }

    /// The style with one effect specified.
    pub(crate) fn from_effect(effect: Effect, toggle: Toggle) -> (r: Ansi)
        ensures
            r@ == (AnsiModel {
                effects: match toggle {
                    Toggle::On => EffectsModel { set: set![effect], reset: Set::empty() },
                    Toggle::Reset => EffectsModel { set: Set::empty(), reset: set![effect] },
                },
                ..AnsiModel::empty()
            }),
    {
        Ansi::from_effects(Effects::from_effect(effect, toggle))
    }
}

impl Ansi {
    /// Writes the codes of this style: nothing when it is empty, the universal
    /// reset when it is the reset style, else its resets (or the universal reset
    /// where every attribute is specified) and then its sets.
    pub fn write(&self, w: &mut Formatter)
        requires
            old(w).wf(),
        ensures
            final(w).wf(),
            final(w).codes() == old(w).codes() + codes(self@),
    {
        let ghost start = w.codes();
        if self.is_empty() {
        } else if self.is_reset() {
            w.write_reset();
        } else {
            if self.is_only() {
                w.write_reset();
            } else {
                self.effects.write(w, Toggle::Reset);
                self.colors.write(w, Toggle::Reset);
            }
            let ghost mid = w.codes();
            self.effects.write(w, Toggle::On);
            self.colors.write(w, Toggle::On);
            proof {
                assert(mid =~= start + if self@.is_only() {
                    seq![0u8]
                } else {
                    toggle_codes(self@, Toggle::Reset)
                });
                assert(w.codes() =~= mid + toggle_codes(self@, Toggle::On));
            }
        }
        proof {
            assert(w.codes() =~= start + codes(self@));
        }
    }

    /// Writes the codes of this style into a buffer, as [`write`](Self::write) does.
    pub fn write_const(&self, w: Writer) -> (r: Writer)
        requires
            w.wf(),
            w.codes().len() + codes(self@).len() <= CAPACITY,
        ensures
            r.wf(),
            r.codes() == w.codes() + codes(self@),
    {
        proof {
            use_type_invariant(self);
            lemma_codes_len(self@);
        }
        let ghost start = w.codes();
        let mut w = w;
        if self.is_empty() {
        } else if self.is_reset() {
            w = w.write_reset();
        } else {
            if self.is_only() {
                w = w.write_reset();
            } else {
                w = self.effects.write_const(w, Toggle::Reset);
                w = self.colors.write_const(w, Toggle::Reset);
            }
            let ghost mid = w.codes();
            proof {
                assert(mid =~= start + if self@.is_only() {
                    seq![0u8]
                } else {
                    toggle_codes(self@, Toggle::Reset)
                });
            }
            w = self.effects.write_const(w, Toggle::On);
            w = self.colors.write_const(w, Toggle::On);
            proof {
                assert(w.codes() =~= mid + toggle_codes(self@, Toggle::On));
            }
        }
        proof {
            assert(w.codes() =~= start + codes(self@));
        }
        w
    }

    /// The escape sequence of this style.
    pub(crate) fn fmt_no_alternate(&self) -> (r: String)
        ensures
            r@ == render(self@),
    {
        let mut w = Formatter::new();
        self.write(&mut w);
        assert(w.codes() =~= codes(self@));
        w.write_terminator()
    }

    /// The escape sequence of this style, as text: what the style renders.
    pub fn to_string(&self) -> (r: String)
        ensures
            r@ == render(self@),
    {
        self.fmt_no_alternate()
    }
}

impl Buffer<[u8; 25]> {
    /// The codes of a style, in a buffer.
    pub fn from_ansi(ansi: Ansi) -> (r: Buffer<[u8; 25]>)
        ensures
            r.codes() == codes(ansi@),
            r.len <= CAPACITY,
    {
        proof {
            use_type_invariant(&ansi);
            lemma_codes_len(ansi@);
        }
        let w = ansi.write_const(Writer::new());
        assert(w.codes() =~= codes(ansi@));
        w.take()
    }
}

impl PartialEq for Ansi {
    fn eq(&self, other: &Ansi) -> (r: bool) {
        proof {
            if self@.effects == other@.effects {
                Effects::lemma_view_injective(self.effects, other.effects);
            }
        }
        self.effects == other.effects && self.colors.same(&other.colors)
            && self.flags.important.equals(&other.flags.important) && self.flags.no_ansi
            == other.flags.no_ansi
    }
}

impl vstd::std_specs::cmp::PartialEqSpecImpl for Ansi {
    open spec fn obeys_eq_spec() -> bool {
        true
    }

    open spec fn eq_spec(&self, other: &Ansi) -> bool {
        self@.same(other@)
    }
}

impl Eq for Ansi {

}

} // verus!
