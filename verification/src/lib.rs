//! Color resolution for a terminal UI theming system.
//!
//! A requested cell style ([`ColorStyle`]: a front/back pair of
//! [`ColorType`] color sources) is reduced to a concrete, displayable
//! [`ColorPair`] given the active [`Palette`] and the color pair already in
//! effect from the enclosing drawing context. Nested style overrides are
//! combined with a right-biased, inherit-transparent merge before resolution.

mod color;
mod style;

pub use color::BaseColor;
pub use color::Color;
pub use color::ColorPair;
pub use color::Palette;
pub use color::PaletteColor;
pub use style::ColorStyle;
pub use style::ColorType;
