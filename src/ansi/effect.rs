//! Effect selectors (bit sets over the eight effects) and effect values
//! (each effect unspecified, set or reset).
use vstd::prelude::*;

use crate::ansi::Toggle;
use crate::bits::{
    is_single_bit, lemma_bit_and, lemma_bit_and_not, lemma_bit_consts, lemma_bit_not, lemma_bit_or,
    lemma_bits_ext, lemma_single_bits,
};
use crate::effect::Effect;
use crate::introspect::Attr;
use crate::write::compile_time::{Writer, CAPACITY};
use crate::write::run_time::Formatter;
use crate::write::{effect_code_if, effect_codes};

verus! {

/// The bit that stands for an effect in a selector.
pub open spec fn effect_mask(e: Effect) -> u8 {
    match e {
        Effect::Bold => 1,
        Effect::Faint => 2,
        Effect::Italic => 4,
        Effect::Underline => 8,
        Effect::Blink => 16,
        Effect::Reverse => 32,
        Effect::Hidden => 64,
        Effect::Strike => 128,
    }
}

/// Bold and faint share one reset code: resetting either resets both.
pub open spec fn bold_faint() -> Set<Effect> {
    set![Effect::Bold, Effect::Faint]
}

/// `s` together with every effect that the reset codes of `s` also reset.
pub open spec fn with_overlaps(s: Set<Effect>) -> Set<Effect> {
    if s.contains(Effect::Bold) || s.contains(Effect::Faint) {
        s + bold_faint()
    } else {
        s
    }
}

/// `s` without the effects whose reset code another member of `s` already writes.
pub open spec fn no_overlaps(s: Set<Effect>) -> Set<Effect> {
    if s.contains(Effect::Bold) && s.contains(Effect::Faint) {
        s.remove(Effect::Faint)
    } else {
        s
    }
}

/// Facts about the shared bold/faint reset.
pub proof fn lemma_overlaps(x: Set<Effect>, y: Set<Effect>)
    ensures
        x.subset_of(with_overlaps(x)),
        with_overlaps(no_overlaps(x)) == with_overlaps(x),
        with_overlaps(x + y) == with_overlaps(x) + with_overlaps(y),
        no_overlaps(x).subset_of(x),
        with_overlaps(Set::<Effect>::empty()) == Set::<Effect>::empty(),
        no_overlaps(x) == Set::<Effect>::empty() ==> x == Set::<Effect>::empty(),
{
    assert(with_overlaps(no_overlaps(x)) =~= with_overlaps(x));
    assert(with_overlaps(x + y) =~= with_overlaps(x) + with_overlaps(y));
    assert(with_overlaps(Set::<Effect>::empty()) =~= Set::<Effect>::empty());
    if no_overlaps(x) == Set::<Effect>::empty() {
        if x.contains(Effect::Bold) && x.contains(Effect::Faint) {
            assert(no_overlaps(x).contains(Effect::Bold));
        }
        assert(x =~= Set::<Effect>::empty());
    }
}

proof fn lemma_effect_mask(e: Effect)
    ensures
        is_single_bit(effect_mask(e)),
{
}

/// A selector: a set of effects, one bit each.
#[derive(PartialEq, Eq, Clone, Copy, Debug, Structural)]
pub struct Attrs {
    bits: u8,
}

impl View for Attrs {
    type V = Set<Effect>;

    closed spec fn view(&self) -> Set<Effect> {
        Set::new(|e: Effect| self.bits & effect_mask(e) != 0)
    }
}

impl Attrs {
    /// Selectors with the same effects are the same value.
    pub proof fn lemma_view_injective(a: Attrs, b: Attrs)
        requires
            a@ == b@,
        ensures
            a == b,
    {
        assert forall|e: Effect|
            (a.bits & effect_mask(e) != 0) == (b.bits & effect_mask(e) != 0) by {
            assert(a@.contains(e) == (a.bits & effect_mask(e) != 0));
            assert(b@.contains(e) == (b.bits & effect_mask(e) != 0));
        }
        assert(effect_mask(Effect::Bold) == 1u8);
        assert(effect_mask(Effect::Faint) == 2u8);
        assert(effect_mask(Effect::Italic) == 4u8);
        assert(effect_mask(Effect::Underline) == 8u8);
        assert(effect_mask(Effect::Blink) == 16u8);
        assert(effect_mask(Effect::Reverse) == 32u8);
        assert(effect_mask(Effect::Hidden) == 64u8);
        assert(effect_mask(Effect::Strike) == 128u8);
        lemma_bits_ext(a.bits, b.bits);
    }

    pub fn empty() -> (r: Attrs)
        ensures
            r@ == Set::<Effect>::empty(),
    {
        let r = Attrs { bits: 0 };
        proof {
            assert forall|e: Effect| !r@.contains(e) by {
                lemma_bit_consts(effect_mask(e));
            }
            assert(r@ =~= Set::<Effect>::empty());
        }
        r
    }

    pub fn all() -> (r: Attrs)
        ensures
            r@ == Set::<Effect>::full(),
    {
        let r = Attrs { bits: 255 };
        proof {
            assert forall|e: Effect| r@.contains(e) by {
                lemma_bit_consts(effect_mask(e));
            }
            assert(r@ =~= Set::<Effect>::full());
        }
        r
    }

    pub fn from_effect(effect: Effect) -> (r: Attrs)
        ensures
            r@ == set![effect],
    {
        let bits: u8 = match effect {
            Effect::Bold => 1,
            Effect::Faint => 2,
            Effect::Italic => 4,
            Effect::Underline => 8,
            Effect::Blink => 16,
            Effect::Reverse => 32,
            Effect::Hidden => 64,
            Effect::Strike => 128,
        };
        let r = Attrs { bits };
        assert(bits == effect_mask(effect));
        proof {
            assert forall|e: Effect| r@.contains(e) == (e == effect) by {
                lemma_effect_mask(e);
                lemma_single_bits(bits, effect_mask(e));
            }
            assert(r@ =~= set![effect]);
        }
        r
    }

    pub fn bold_faint() -> (r: Attrs)
        ensures
            r@ == bold_faint(),
    {
        let r = Attrs { bits: 3 };
        proof {
            assert forall|e: Effect| r@.contains(e) == bold_faint().contains(e) by {
                lemma_effect_mask(e);
                lemma_bit_consts(effect_mask(e));
            }
            assert(r@ =~= bold_faint());
        }
        r
    }

    pub fn contains_effect(&self, effect: Effect) -> (r: bool)
        ensures
            r == self@.contains(effect),
    {
        let one = Attrs::from_effect(effect);
        self.intersects(one)
    }

    pub fn union(&self, other: Attrs) -> (r: Attrs)
        ensures
            r@ == self@ + other@,
    {
        let r = Attrs { bits: self.bits | other.bits };
        proof {
            assert forall|e: Effect| r@.contains(e) == (self@ + other@).contains(e) by {
                lemma_effect_mask(e);
                lemma_bit_or(self.bits, other.bits, effect_mask(e));
            }
            assert(r@ =~= self@ + other@);
        }
        r
    }

    pub fn intersection(&self, other: Attrs) -> (r: Attrs)
        ensures
            r@ == self@ * other@,
    {
        let r = Attrs { bits: self.bits & other.bits };
        proof {
            assert forall|e: Effect| r@.contains(e) == (self@ * other@).contains(e) by {
                lemma_effect_mask(e);
                lemma_bit_and(self.bits, other.bits, effect_mask(e));
            }
            assert(r@ =~= self@ * other@);
        }
        r
    }

    pub fn difference(&self, other: Attrs) -> (r: Attrs)
        ensures
            r@ == self@ - other@,
    {
        let r = Attrs { bits: self.bits & !other.bits };
        proof {
            assert forall|e: Effect| r@.contains(e) == (self@ - other@).contains(e) by {
                lemma_effect_mask(e);
                lemma_bit_and_not(self.bits, other.bits, effect_mask(e));
            }
            assert(r@ =~= self@ - other@);
        }
        r
    }

    pub fn complement(&self) -> (r: Attrs)
        ensures
            r@ == self@.complement(),
    {
        let r = Attrs { bits: !self.bits };
        proof {
            assert forall|e: Effect| r@.contains(e) == self@.complement().contains(e) by {
                lemma_effect_mask(e);
                lemma_bit_not(self.bits, effect_mask(e));
            }
            assert(r@ =~= self@.complement());
        }
        r
    }

    pub fn is_empty(&self) -> (r: bool)
        ensures
            r == (self@ == Set::<Effect>::empty()),
    {
        let e = Attrs::empty();
        proof {
            if self@ == Set::<Effect>::empty() {
                Attrs::lemma_view_injective(*self, e);
            }
        }
        self.bits == e.bits
    }

    pub fn is_all(&self) -> (r: bool)
        ensures
            r == (self@ == Set::<Effect>::full()),
    {
        let a = Attrs::all();
        proof {
            if self@ == Set::<Effect>::full() {
                Attrs::lemma_view_injective(*self, a);
            }
        }
        self.bits == a.bits
    }

    /// All effects of `other` are in `self`.
    pub fn contains(&self, other: Attrs) -> (r: bool)
        ensures
            r == other@.subset_of(self@),
    {
        let d = other.difference(*self);
        proof {
            if !other@.subset_of(self@) {
                let e = choose|e: Effect| other@.contains(e) && !self@.contains(e);
                assert(d@.contains(e));
            }
            assert(other@.subset_of(self@) ==> d@ =~= Set::<Effect>::empty());
        }
        d.is_empty()
    }

    /// Some effect is in both.
    pub fn intersects(&self, other: Attrs) -> (r: bool)
        ensures
            r == !self@.disjoint(other@),
    {
        let i = self.intersection(other);
        proof {
            if !self@.disjoint(other@) {
                let e = choose|e: Effect| self@.contains(e) && other@.contains(e);
                assert(i@.contains(e));
            }
            assert(self@.disjoint(other@) ==> i@ =~= Set::<Effect>::empty());
        }
        !i.is_empty()
    }

    /// Adds the effects that the reset codes of `self` also reset.
    pub fn with_overlaps(&self) -> (r: Attrs)
        ensures
            r@ == with_overlaps(self@),
    {
        let bf = Attrs::bold_faint();
        if self.intersects(bf) {
            proof {
                let e = choose|e: Effect| self@.contains(e) && bf@.contains(e);
            }
            self.union(bf)
        } else {
            *self
        }
    }

    /// Drops faint where bold is present too, as both share one reset code.
    pub fn no_overlaps(&self) -> (r: Attrs)
        ensures
            r@ == no_overlaps(self@),
    {
        let bf = Attrs::bold_faint();
        if self.contains(bf) {
            let r = self.difference(Attrs::from_effect(Effect::Faint));
            proof {
                assert(r@ =~= self@.remove(Effect::Faint));
            }
            r
        } else {
            *self
        }
    }
}

} // verus!

verus! {

/// The mathematical value of an effect value: which effects are set and
/// which are explicitly reset. The others are unspecified.
pub struct EffectsModel {
    pub set: Set<Effect>,
    pub reset: Set<Effect>,
}

impl EffectsModel {
    pub open spec fn empty() -> EffectsModel {
        EffectsModel { set: Set::empty(), reset: Set::empty() }
    }

    pub open spec fn reset_all() -> EffectsModel {
        EffectsModel { set: Set::empty(), reset: Set::full() }
    }

    /// No effect is both set and reset.
    pub open spec fn wf(self) -> bool {
        self.set.disjoint(self.reset)
    }

    /// The effects that are specified.
    pub open spec fn attrs(self) -> Set<Effect> {
        self.set + self.reset
    }

    pub open spec fn is_empty(self) -> bool {
        self.set == Set::<Effect>::empty() && self.reset == Set::<Effect>::empty()
    }

    pub open spec fn is_reset(self) -> bool {
        self.set == Set::<Effect>::empty() && self.reset == Set::<Effect>::full()
    }

    /// Each effect that `other` specifies takes `other`'s state.
    pub open spec fn add(self, other: EffectsModel) -> EffectsModel {
        EffectsModel {
            set: self.set - other.attrs() + other.set,
            reset: self.reset - other.attrs() + other.reset,
        }
    }

    /// The effects that, written after `self`, turn a terminal showing `self`
    /// into one showing `to`: resets that `self` did not already write, resets for
    /// what `self` set and `to` does not, and the sets of `to` that are new or that
    /// those resets switch off through the shared bold/faint code.
    pub open spec fn transition(self, to: EffectsModel) -> EffectsModel {
        let new_reset = to.reset - with_overlaps(self.reset);
        let kill_set = self.set - to.set - with_overlaps(new_reset);
        let restore = to.set * (with_overlaps(kill_set) + with_overlaps(new_reset));
        EffectsModel {
            set: (to.set - self.set) + restore,
            reset: no_overlaps(new_reset + kill_set),
        }
    }

    /// Every set effect becomes reset; the rest become unspecified.
    pub open spec fn not(self) -> EffectsModel {
        EffectsModel { set: Set::empty(), reset: self.set }
    }

    /// Every effect that is not set becomes reset.
    pub open spec fn only(self) -> EffectsModel {
        EffectsModel { set: self.set, reset: self.reset + self.set.complement() }
    }

    /// The effects in `attrs` become unspecified.
    pub open spec fn remove(self, attrs: Set<Effect>) -> EffectsModel {
        EffectsModel { set: self.set - attrs, reset: self.reset - attrs }
    }
}

/// Writes the code of `effect` when `attrs` holds it, after the codes `acc`
/// that follow `start`.
fn write_effect_if(
    attrs: Attrs,
    effect: Effect,
    toggle: Toggle,
    w: &mut Formatter,
    Ghost(start): Ghost<Seq<u8>>,
    Ghost(acc): Ghost<Seq<u8>>,
)
    requires
        old(w).wf(),
        old(w).codes() == start + acc,
    ensures
        final(w).wf(),
        final(w).codes() == start + (acc + effect_code_if(attrs@, effect, toggle)),
{
    if attrs.contains_effect(effect) {
        w.write_effect(effect, toggle);
    }
    assert(final(w).codes() =~= start + (acc + effect_code_if(attrs@, effect, toggle)));
}

/// Writes the code of `effect` into a buffer when `attrs` holds it, after the
/// codes `acc` that follow `start`.
fn write_const_effect_if(
    attrs: Attrs,
    effect: Effect,
    toggle: Toggle,
    w: Writer,
    Ghost(start): Ghost<Seq<u8>>,
    Ghost(acc): Ghost<Seq<u8>>,
) -> (r: Writer)
    requires
        w.wf(),
        w.codes() == start + acc,
        w.codes().len() + effect_code_if(attrs@, effect, toggle).len() <= CAPACITY,
    ensures
        r.wf(),
        r.codes() == start + (acc + effect_code_if(attrs@, effect, toggle)),
{
    let r = if attrs.contains_effect(effect) {
        w.write_effect(effect, toggle)
    } else {
        w
    };
    assert(r.codes() =~= start + (acc + effect_code_if(attrs@, effect, toggle)));
    r
}

/// An effect value: for each effect, unspecified, set or reset.
#[derive(PartialEq, Eq, Clone, Copy, Debug, Structural)]
pub struct Effects {
    y: Attrs,
    n: Attrs,
}

impl View for Effects {
    type V = EffectsModel;

    closed spec fn view(&self) -> EffectsModel {
        EffectsModel { set: self.y@, reset: self.n@ }
    }
}

impl Effects {
    /// Effect values with the same model are the same value.
    pub proof fn lemma_view_injective(a: Effects, b: Effects)
        requires
            a@ == b@,
        ensures
            a == b,
    {
        Attrs::lemma_view_injective(a.y, b.y);
        Attrs::lemma_view_injective(a.n, b.n);
    }

    pub fn from_effect(effect: Effect, toggle: Toggle) -> (r: Effects)
        ensures
            r@ == (match toggle {
                Toggle::On => EffectsModel { set: set![effect], reset: Set::empty() },
                Toggle::Reset => EffectsModel { set: Set::empty(), reset: set![effect] },
            }),
    {
        Effects::new(Attrs::from_effect(effect), toggle)
    }

    fn new(attrs: Attrs, toggle: Toggle) -> (r: Effects)
        ensures
            r@ == (match toggle {
                Toggle::On => EffectsModel { set: attrs@, reset: Set::empty() },
                Toggle::Reset => EffectsModel { set: Set::empty(), reset: attrs@ },
            }),
    {
        match toggle {
            Toggle::On => Effects { y: attrs, n: Attrs::empty() },
            Toggle::Reset => Effects { y: Attrs::empty(), n: attrs },
        }
    }

    pub fn is_empty(&self) -> (r: bool)
        ensures
            r == self@.is_empty(),
    {
        self.y.is_empty() && self.n.is_empty()
    }

    pub fn is_reset(&self) -> (r: bool)
        ensures
            r == self@.is_reset(),
    {
        self.y.is_empty() && self.n.is_all()
    }

    pub fn empty() -> (r: Effects)
        ensures
            r@ == EffectsModel::empty(),
    {
        Effects { y: Attrs::empty(), n: Attrs::empty() }
    }

    pub fn reset() -> (r: Effects)
        ensures
            r@ == EffectsModel::reset_all(),
    {
        Effects { y: Attrs::empty(), n: Attrs::all() }
    }

    pub fn set_attrs(&self) -> (r: Attrs)
        ensures
            r@ == self@.set,
    {
        self.y
    }

    pub fn reset_attrs(&self) -> (r: Attrs)
        ensures
            r@ == self@.reset,
    {
        self.n
    }

    /// The attribute of `ef`, if it is specified.
    pub fn get_effect(&self, ef: Effect) -> (r: Option<Attr<Effect>>)
        ensures
            r == (if self@.set.contains(ef) {
                Some(Attr { value: ef, reset: false, important: false, bg: false })
            } else if self@.reset.contains(ef) {
                Some(Attr { value: ef, reset: true, important: false, bg: false })
            } else {
                None
            }),
    {
        if self.y.contains_effect(ef) {
            Some(Attr::new_effect(ef, Toggle::On))
        } else if self.n.contains_effect(ef) {
            Some(Attr::new_effect(ef, Toggle::Reset))
        } else {
            None
        }
    }

    pub fn add(&self, other: Effects) -> (r: Effects)
        ensures
            r@ == self@.add(other@),
    {
        let other_attrs = other.attrs();
        Effects {
            y: self.y.difference(other_attrs).union(other.y),
            n: self.n.difference(other_attrs).union(other.n),
        }
    }

    pub fn transition(&self, to_other: Effects) -> (r: Effects)
        requires
            self@.wf(),
            to_other@.wf(),
        ensures
            r@ == self@.transition(to_other@),
            r@.wf(),
    {
        // Resets of the target that self's own resets do not already cover.
        let other_new_n = to_other.n.difference(self.n.with_overlaps());
        // Resets for self's set effects that the target does not set, unless
        // the resets above already switch them off.
        let self_kill_y = self.y.difference(to_other.y).difference(other_new_n.with_overlaps());
        // The target's set effects that those resets switch off on the way.
        let other_restore_y = to_other.y.intersection(
            self_kill_y.with_overlaps().union(other_new_n.with_overlaps()),
        );
        let y = to_other.y.difference(self.y).union(other_restore_y);
        let n = other_new_n.union(self_kill_y).no_overlaps();
        let r = Effects { y, n };
        proof {
            assert(r@.set.disjoint(r@.reset));
        }
        r
    }

    pub fn not(&self) -> (r: Effects)
        ensures
            r@ == self@.not(),
    {
        Effects { y: Attrs::empty(), n: self.y }
    }

    pub fn only(&self) -> (r: Effects)
        ensures
            r@ == self@.only(),
    {
        Effects { y: self.y, n: self.n.union(self.y.complement()) }
    }

    pub fn remove(&self, attrs: Attrs) -> (r: Effects)
        ensures
            r@ == self@.remove(attrs@),
    {
        Effects { y: self.y.difference(attrs), n: self.n.difference(attrs) }
    }

    pub fn attrs(&self) -> (r: Attrs)
        ensures
            r@ == self@.attrs(),
    {
        self.y.union(self.n)
    }

    /// Writes the codes of the set effects (`toggle` is `On`) or of the reset
    /// ones, in the canonical order.
    pub fn write(&self, w: &mut Formatter, toggle: Toggle)
        requires
            old(w).wf(),
        ensures
            final(w).wf(),
            final(w).codes() == old(w).codes() + effect_codes(
                match toggle {
                    Toggle::On => self@.set,
                    Toggle::Reset => self@.reset,
                },
                toggle,
            ),
    {
        let attrs = match toggle {
            Toggle::On => self.y,
            Toggle::Reset => self.n,
        };
        let ghost start = w.codes();
        let ghost acc = Seq::<u8>::empty();
        assert(w.codes() =~= start + acc);
        write_effect_if(attrs, Effect::Bold, toggle, w, Ghost(start), Ghost(acc));
        let ghost acc = acc + effect_code_if(attrs@, Effect::Bold, toggle);
        write_effect_if(attrs, Effect::Faint, toggle, w, Ghost(start), Ghost(acc));
        let ghost acc = acc + effect_code_if(attrs@, Effect::Faint, toggle);
        write_effect_if(attrs, Effect::Italic, toggle, w, Ghost(start), Ghost(acc));
        let ghost acc = acc + effect_code_if(attrs@, Effect::Italic, toggle);
        write_effect_if(attrs, Effect::Underline, toggle, w, Ghost(start), Ghost(acc));
        let ghost acc = acc + effect_code_if(attrs@, Effect::Underline, toggle);
        write_effect_if(attrs, Effect::Blink, toggle, w, Ghost(start), Ghost(acc));
        let ghost acc = acc + effect_code_if(attrs@, Effect::Blink, toggle);
        write_effect_if(attrs, Effect::Reverse, toggle, w, Ghost(start), Ghost(acc));
        let ghost acc = acc + effect_code_if(attrs@, Effect::Reverse, toggle);
        write_effect_if(attrs, Effect::Hidden, toggle, w, Ghost(start), Ghost(acc));
        let ghost acc = acc + effect_code_if(attrs@, Effect::Hidden, toggle);
        write_effect_if(attrs, Effect::Strike, toggle, w, Ghost(start), Ghost(acc));
        let ghost acc = acc + effect_code_if(attrs@, Effect::Strike, toggle);
        assert(acc =~= effect_codes(attrs@, toggle));
    }

    /// Writes the codes of the set effects (`toggle` is `On`) or of the reset
    /// ones into a buffer, in the canonical order.
    pub fn write_const(&self, w: Writer, toggle: Toggle) -> (r: Writer)
        requires
            w.wf(),
            w.codes().len() + effect_codes(
                match toggle {
                    Toggle::On => self@.set,
                    Toggle::Reset => self@.reset,
                },
                toggle,
            ).len() <= CAPACITY,
        ensures
            r.wf(),
            r.codes() == w.codes() + effect_codes(
                match toggle {
                    Toggle::On => self@.set,
                    Toggle::Reset => self@.reset,
                },
                toggle,
            ),
    {
        let attrs = match toggle {
            Toggle::On => self.y,
            Toggle::Reset => self.n,
        };
        let ghost start = w.codes();
        let ghost acc = Seq::<u8>::empty();
        assert(w.codes() =~= start + acc);
        let mut w = w;
        w = write_const_effect_if(attrs, Effect::Bold, toggle, w, Ghost(start), Ghost(acc));
        let ghost acc = acc + effect_code_if(attrs@, Effect::Bold, toggle);
        w = write_const_effect_if(attrs, Effect::Faint, toggle, w, Ghost(start), Ghost(acc));
        let ghost acc = acc + effect_code_if(attrs@, Effect::Faint, toggle);
        w = write_const_effect_if(attrs, Effect::Italic, toggle, w, Ghost(start), Ghost(acc));
        let ghost acc = acc + effect_code_if(attrs@, Effect::Italic, toggle);
        w = write_const_effect_if(attrs, Effect::Underline, toggle, w, Ghost(start), Ghost(acc));
        let ghost acc = acc + effect_code_if(attrs@, Effect::Underline, toggle);
        w = write_const_effect_if(attrs, Effect::Blink, toggle, w, Ghost(start), Ghost(acc));
        let ghost acc = acc + effect_code_if(attrs@, Effect::Blink, toggle);
        w = write_const_effect_if(attrs, Effect::Reverse, toggle, w, Ghost(start), Ghost(acc));
        let ghost acc = acc + effect_code_if(attrs@, Effect::Reverse, toggle);
        w = write_const_effect_if(attrs, Effect::Hidden, toggle, w, Ghost(start), Ghost(acc));
        let ghost acc = acc + effect_code_if(attrs@, Effect::Hidden, toggle);
        w = write_const_effect_if(attrs, Effect::Strike, toggle, w, Ghost(start), Ghost(acc));
        let ghost acc = acc + effect_code_if(attrs@, Effect::Strike, toggle);
        assert(acc =~= effect_codes(attrs@, toggle));
        w
    }
}

} // verus!
