//! The attributes of a style, one at a time.
use vstd::prelude::*;

use crate::ansi::{Ansi, AnsiModel, Toggle, ToggleColor};
use crate::ansi::color::Colors;
use crate::ansi::effect::EffectsModel;
use crate::color::{same_color, Color, Coloree};
use crate::effect::Effect;

verus! {

/// What an attribute can hold.
pub trait Seal: Copy {

}

/// The values of attributes: a [`Color`] or an [`Effect`].
pub trait Value: Seal {

}

impl Seal for Color {

}

impl Seal for Effect {

}

impl Value for Color {

}

impl Value for Effect {

}

/// One attribute of a style: a color or an effect, whether it is its reset
/// code, whether it is important, and for a color whether it is the background.
#[derive(Clone, Copy, Debug)]
pub struct Attr<V> {
    pub value: V,
    pub reset: bool,
    pub important: bool,
    pub bg: bool,
}

impl<V: Value> Attr<V> {
    pub(crate) fn new(value: V) -> (r: Attr<V>)
        ensures
            r == (Attr { value, reset: false, important: false, bg: false }),
    {
        Attr { value, reset: false, important: false, bg: false }
    }

    /// The color or effect.
    pub fn value(&self) -> (r: V)
        ensures
            r == self.value,
    {
        self.value
    }

    /// The attribute is the reset code of its value.
    pub fn is_reset(&self) -> (r: bool)
        ensures
            r == self.reset,
    {
        self.reset
    }

    /// The reset code of this attribute's value.
    pub fn reset(&self) -> (r: Attr<V>)
        ensures
            r == (Attr { reset: true, ..*self }),
    {
        Attr { value: self.value, reset: true, important: self.important, bg: self.bg }
    }

    /// Switches between the value and its reset code.
    pub fn not(&self) -> (r: Attr<V>)
        ensures
            r == (Attr { reset: !self.reset, ..*self }),
    {
        Attr { value: self.value, reset: !self.reset, important: self.important, bg: self.bg }
    }

    /// The attribute is important.
    pub fn is_important(&self) -> (r: bool)
        ensures
            r == self.important,
    {
        self.important
    }

    /// This attribute, important.
    pub fn important(&self) -> (r: Attr<V>)
        ensures
            r == (Attr { important: true, ..*self }),
    {
        Attr { value: self.value, reset: self.reset, important: true, bg: self.bg }
    }

    /// This attribute, not important.
    pub fn unimportant(&self) -> (r: Attr<V>)
        ensures
            r == (Attr { important: false, ..*self }),
    {
        Attr { value: self.value, reset: self.reset, important: false, bg: self.bg }
    }

    /// This attribute, important or not by `is_important`.
    pub fn with_important(&self, is_important: bool) -> (r: Attr<V>)
        ensures
            r == (Attr { important: is_important, ..*self }),
    {
        if is_important {
            self.important()
        } else {
            self.unimportant()
        }
    }

    pub(crate) fn get_toggle(&self) -> (r: Toggle)
        ensures
            r == (if self.reset { Toggle::Reset } else { Toggle::On }),
    {
        if self.reset {
            Toggle::Reset
        } else {
            Toggle::On
        }
    }

    fn get_coloree(&self) -> (r: Coloree)
        ensures
            r == (if self.bg { Coloree::Background } else { Coloree::Text }),
    {
        if self.bg {
            Coloree::Background
        } else {
            Coloree::Text
        }
    }
}

impl Attr<Color> {
    pub(crate) fn new_color(color: Color, toggle: Toggle, coloree: Coloree) -> (r: Attr<Color>)
        ensures
            r == (Attr {
                value: color,
                reset: toggle == Toggle::Reset,
                important: false,
                bg: coloree == Coloree::Background,
            }),
    {
        let reset = match toggle {
            Toggle::Reset => true,
            Toggle::On => false,
        };
        let bg = match coloree {
            Coloree::Background => true,
            Coloree::Text => false,
        };
        Attr { value: color, reset, important: false, bg }
    }

    /// This color attribute, for the text.
    pub fn fg(&self) -> (r: Attr<Color>)
        ensures
            r == (Attr { bg: false, ..*self }),
    {
        Attr { value: self.value, reset: self.reset, important: self.important, bg: false }
    }

    /// This color attribute, for the background.
    pub fn bg(&self) -> (r: Attr<Color>)
        ensures
            r == (Attr { bg: true, ..*self }),
    {
        Attr { value: self.value, reset: self.reset, important: self.important, bg: true }
    }

    /// The attribute is the background color.
    pub fn is_bg(&self) -> (r: bool)
        ensures
            r == self.bg,
    {
        self.bg
    }

    /// The style that holds just this attribute.
    pub fn ansi(&self) -> (r: Ansi)
        ensures
            r@ == ({
                let m = AnsiModel {
                    colors: Colors::model_of(
                        if self.reset {
                            ToggleColor::Reset
                        } else {
                            ToggleColor::On(self.value)
                        },
                        if self.bg {
                            Coloree::Background
                        } else {
                            Coloree::Text
                        },
                    ),
                    ..AnsiModel::empty()
                };
                if self.important {
                    m.important()
                } else {
                    m
                }
            }),
    {
        let ansi = Ansi::from_color(self.value, self.get_toggle(), self.get_coloree());
        if self.is_important() {
            ansi.important()
        } else {
            ansi
        }
    }
}

impl Attr<Effect> {
    pub(crate) fn new_effect(effect: Effect, toggle: Toggle) -> (r: Attr<Effect>)
        ensures
            r == (Attr {
                value: effect,
                reset: toggle == Toggle::Reset,
                important: false,
                bg: false,
            }),
    {
        let reset = match toggle {
            Toggle::Reset => true,
            Toggle::On => false,
        };
        Attr { value: effect, reset, important: false, bg: false }
    }

    /// The style that holds just this attribute.
    pub fn ansi(&self) -> (r: Ansi)
        ensures
            r@ == ({
                let m = AnsiModel {
                    effects: if self.reset {
                        EffectsModel { set: Set::empty(), reset: set![self.value] }
                    } else {
                        EffectsModel { set: set![self.value], reset: Set::empty() }
                    },
                    ..AnsiModel::empty()
                };
                if self.important {
                    m.important()
                } else {
                    m
                }
            }),
    {
        let ansi = Ansi::from_effect(self.value, self.get_toggle());
        if self.is_important() {
            ansi.important()
        } else {
            ansi
        }
    }
}

impl PartialEq for Attr<Color> {
    fn eq(&self, other: &Attr<Color>) -> (r: bool) {
        self.reset == other.reset && self.important == other.important && self.bg == other.bg && (
        self.reset || self.value.eq(&other.value))
    }
}

impl vstd::std_specs::cmp::PartialEqSpecImpl for Attr<Color> {
    open spec fn obeys_eq_spec() -> bool {
        true
    }

    open spec fn eq_spec(&self, other: &Attr<Color>) -> bool {
        &&& self.reset == other.reset
        &&& self.important == other.important
        &&& self.bg == other.bg
        &&& (self.reset || same_color(self.value, other.value))
    }
}

impl Eq for Attr<Color> {

}

impl PartialEq for Attr<Effect> {
    fn eq(&self, other: &Attr<Effect>) -> (r: bool) {
        self.reset == other.reset && self.important == other.important && self.bg == other.bg
            && self.value == other.value
    }
}

impl vstd::std_specs::cmp::PartialEqSpecImpl for Attr<Effect> {
    open spec fn obeys_eq_spec() -> bool {
        true
    }

    open spec fn eq_spec(&self, other: &Attr<Effect>) -> bool {
        &&& self.reset == other.reset
        &&& self.important == other.important
        &&& self.bg == other.bg
        &&& self.value == other.value
    }
}

impl Eq for Attr<Effect> {

}

} // verus!
