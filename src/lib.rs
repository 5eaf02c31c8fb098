//! Composable ANSI terminal styles with minimal escape-code transitions.
mod ansi;
mod bits;
mod color;
mod debug;
mod effect;
mod fmt;
pub mod introspect;
pub mod io;
pub mod laws;
pub mod str;
pub mod terminal;
mod write;

pub use write::compile_time::Buffer;

pub use ansi::attr::AttrsModel;
pub use ansi::color::ColorsModel;
pub use ansi::effect::EffectsModel;
pub use ansi::{Ansi, AnsiModel, Toggle, ToggleColor};
pub use color::{Color, ColorReset, Coloree};
pub use effect::Effect;
pub use fmt::{Frame, FrameModel, NestingContext, Piece, RenderState, Styled, StyledString};
