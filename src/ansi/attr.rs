//! Selectors over all ten attributes, and the flags of a style.
use vstd::prelude::*;

use super::{color, effect};
use crate::color::Coloree;
use crate::effect::Effect;

verus! {

/// The mathematical value of a selector: the effects and the colorees it names.
pub struct AttrsModel {
    pub effect: Set<Effect>,
    pub color: Set<Coloree>,
}

impl AttrsModel {
    pub open spec fn empty() -> AttrsModel {
        AttrsModel { effect: Set::empty(), color: Set::empty() }
    }

    pub open spec fn union(self, other: AttrsModel) -> AttrsModel {
        AttrsModel { effect: self.effect + other.effect, color: self.color + other.color }
    }

    pub open spec fn difference(self, other: AttrsModel) -> AttrsModel {
        AttrsModel { effect: self.effect - other.effect, color: self.color - other.color }
    }

    pub open spec fn intersection(self, other: AttrsModel) -> AttrsModel {
        AttrsModel { effect: self.effect * other.effect, color: self.color * other.color }
    }

    pub open spec fn subset_of(self, other: AttrsModel) -> bool {
        self.effect.subset_of(other.effect) && self.color.subset_of(other.color)
    }
}

/// A selector over the eight effects and the two colorees.
#[derive(PartialEq, Eq, Clone, Copy, Debug)]
pub struct Attrs {
    pub effect: effect::Attrs,
    pub color: color::Attrs,
}

impl View for Attrs {
    type V = AttrsModel;

    open spec fn view(&self) -> AttrsModel {
        AttrsModel { effect: self.effect@, color: self.color@ }
    }
}

impl Attrs {
    pub fn empty() -> (r: Attrs)
        ensures
            r@ == AttrsModel::empty(),
    {
        Attrs { effect: effect::Attrs::empty(), color: color::Attrs::empty() }
    }

    pub fn new(effect: effect::Attrs, color: color::Attrs) -> (r: Attrs)
        ensures
            r@ == (AttrsModel { effect: effect@, color: color@ }),
    {
        Attrs { effect, color }
    }

    pub fn union(&self, other: Attrs) -> (r: Attrs)
        ensures
            r@ == self@.union(other@),
    {
        Attrs { effect: self.effect.union(other.effect), color: self.color.union(other.color) }
    }

    pub fn difference(&self, other: Attrs) -> (r: Attrs)
        ensures
            r@ == self@.difference(other@),
    {
        Attrs {
            effect: self.effect.difference(other.effect),
            color: self.color.difference(other.color),
        }
    }

    pub fn intersection(&self, other: Attrs) -> (r: Attrs)
        ensures
            r@ == self@.intersection(other@),
    {
        Attrs {
            effect: self.effect.intersection(other.effect),
            color: self.color.intersection(other.color),
        }
    }

    /// Both select the same attributes.
    pub fn equals(&self, other: &Attrs) -> (r: bool)
        ensures
            r == (self@ == other@),
    {
        proof {
            if self@ == other@ {
                effect::Attrs::lemma_view_injective(self.effect, other.effect);
            }
        }
        self.effect == other.effect && self.color.equals(&other.color)
    }
}

/// The flags of a style: which attributes are important, and whether the
/// style is the one that renders nothing at all.
#[derive(PartialEq, Eq, Clone, Copy, Debug)]
pub struct Flags {
    pub important: Attrs,
    pub no_ansi: bool,
}

impl Flags {
    pub fn empty() -> (r: Flags)
        ensures
            r.important@ == AttrsModel::empty(),
            !r.no_ansi,
    {
        Flags { important: Attrs::empty(), no_ansi: false }
    }

    pub fn no_ansi() -> (r: Flags)
        ensures
            r.important@ == AttrsModel::empty(),
            r.no_ansi,
    {
        Flags { important: Attrs::empty(), no_ansi: true }
    }

    pub fn is_no_ansi(&self) -> (r: bool)
        ensures
            r == self.no_ansi,
    {
        self.no_ansi
    }

    /// The important attributes; none for the style that renders nothing.
    pub fn important(&self) -> (r: Attrs)
        ensures
            r@ == (if self.no_ansi { AttrsModel::empty() } else { self.important@ }),
    {
        if self.no_ansi {
            Attrs::empty()
        } else {
            self.important
        }
    }

    pub fn from_important(attrs: Attrs) -> (r: Flags)
        ensures
            r.important@ == attrs@,
            !r.no_ansi,
    {
        Flags { important: attrs, no_ansi: false }
    }
}

} // verus!
