//! Text effects such as bold or underline.
use vstd::prelude::*;

use crate::ansi::{Ansi, AnsiModel, Toggle};
use crate::ansi::effect::EffectsModel;
use crate::introspect::Attr;
use crate::write::render;

verus! {

/// A text effect that a terminal can switch on and off.
#[derive(PartialEq, Eq, Clone, Copy, Debug, Structural)]
#[non_exhaustive]
pub enum Effect {
    /// Set with code `1`.
    Bold,
    /// Set with code `2`.
    Faint,
    /// Set with code `3`.
    Italic,
    /// Set with code `4`.
    Underline,
    /// Set with code `5`.
    Blink,
    /// Set with code `7`.
    Reverse,
    /// Set with code `8`.
    Hidden,
    /// Set with code `9`.
    Strike,
}

/// The effects in their canonical order.
pub open spec fn effect_order() -> Seq<Effect> {
    seq![
        Effect::Bold,
        Effect::Faint,
        Effect::Italic,
        Effect::Underline,
        Effect::Blink,
        Effect::Reverse,
        Effect::Hidden,
        Effect::Strike,
    ]
}

impl Effect {
    /// All effects, in their canonical order.
    pub fn all() -> (r: [Effect; 8])
        ensures
            r@ == effect_order(),
    {
        let r = [
            Effect::Bold,
            Effect::Faint,
            Effect::Italic,
            Effect::Underline,
            Effect::Blink,
            Effect::Reverse,
            Effect::Hidden,
            Effect::Strike,
        ];
        assert(r@ =~= effect_order());
        r
    }

    /// The attribute of this effect, set.
    pub fn attr(&self) -> (r: Attr<Effect>)
        ensures
            r.value == *self,
            !r.reset,
            !r.important,
            !r.bg,
    {
        Attr::new_effect(*self, Toggle::On)
    }

    /// The style that resets this effect (code `22` for bold and faint alike).
    pub fn not(&self) -> (r: Ansi)
        ensures
            r@ == (AnsiModel {
                effects: EffectsModel { set: Set::empty(), reset: set![*self] },
                ..AnsiModel::empty()
            }),
    {
        Ansi::from_effect(*self, Toggle::Reset)
    }

    /// The style that sets this effect and resets everything else.
    pub fn only(&self) -> (r: Ansi)
        ensures
            r@ == self.ansi_model().only(),
    {
        self.ansi().only()
    }

    /// The style that sets this effect, important.
    pub fn important(&self) -> (r: Ansi)
        ensures
            r@ == self.ansi_model().important(),
    {
        self.ansi().important()
    }

    /// The style that sets this effect.
    pub open spec fn ansi_model(&self) -> AnsiModel {
        AnsiModel {
            effects: EffectsModel { set: set![*self], reset: Set::empty() },
            ..AnsiModel::empty()
        }
    }

    /// The escape sequence that sets this effect.
    pub fn to_string(&self) -> (r: String)
        ensures
            r@ == render(self.ansi_model()),
    {
        self.ansi().to_string()
    }

    /// The style that sets this effect.
    pub fn ansi(&self) -> (r: Ansi)
        ensures
            r@ == self.ansi_model(),
    {
        Ansi::from_effect(*self, Toggle::On)
    }
}

} // verus!
