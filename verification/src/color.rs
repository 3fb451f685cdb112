//! Concrete colors, palette roles and the role-to-color table.

use vstd::prelude::*;

verus! {

/// One of the eight base terminal colors.
#[derive(Clone, Copy, Debug, PartialEq, Eq, Structural, Hash)]
pub enum BaseColor {
    /// Black color.
    Black,
    /// Red color.
    Red,
    /// Green color.
    Green,
    /// Yellow color.
    Yellow,
    /// Blue color.
    Blue,
    /// Magenta color.
    Magenta,
    /// Cyan color.
    Cyan,
    /// White color.
    White,
}

/// A concrete, displayable color.
#[derive(Clone, Copy, Debug, PartialEq, Eq, Structural, Hash)]
pub enum Color {
    /// The color the terminal uses when none is set.
    TerminalDefault,
    /// A base color in its dark (normal) intensity.
    Dark(BaseColor),
    /// A base color in its light (bright) intensity.
    Light(BaseColor),
    /// A true-color value given by its red, green and blue components.
    Rgb(u8, u8, u8),
}

/// A symbolic color role, used as a key into a [`Palette`].
///
/// A role is not a color; the active theme assigns each role a concrete
/// [`Color`].
#[derive(Clone, Copy, Debug, PartialEq, Eq, Structural, Hash)]
pub enum PaletteColor {
    /// Application background, where no view is present.
    Background,
    /// Color used by view shadows.
    Shadow,
    /// Background of a view.
    View,
    /// Main text color.
    Primary,
    /// Secondary text color.
    Secondary,
    /// Tertiary text color.
    Tertiary,
    /// Main title text color.
    TitlePrimary,
    /// Alternative title text color.
    TitleSecondary,
    /// Background of highlighted (focused) text.
    Highlight,
    /// Background of highlighted text in an inactive view.
    HighlightInactive,
    /// Color of highlighted text.
    HighlightText,
}

/// A theme's mapping from every [`PaletteColor`] role to a concrete
/// [`Color`].
///
/// One field per role, so the lookup is total by construction: every role
/// always has an entry.
#[derive(Clone, Copy, Debug, PartialEq, Eq, Structural, Hash)]
pub struct Palette {
    /// Color of the `Background` role.
    pub background: Color,
    /// Color of the `Shadow` role.
    pub shadow: Color,
    /// Color of the `View` role.
    pub view: Color,
    /// Color of the `Primary` role.
    pub primary: Color,
    /// Color of the `Secondary` role.
    pub secondary: Color,
    /// Color of the `Tertiary` role.
    pub tertiary: Color,
    /// Color of the `TitlePrimary` role.
    pub title_primary: Color,
    /// Color of the `TitleSecondary` role.
    pub title_secondary: Color,
    /// Color of the `Highlight` role.
    pub highlight: Color,
    /// Color of the `HighlightInactive` role.
    pub highlight_inactive: Color,
    /// Color of the `HighlightText` role.
    pub highlight_text: Color,
}

impl Palette {
    /// The color this palette assigns to `role`.
    pub open spec fn spec_lookup(self, role: PaletteColor) -> Color {
        match role {
            PaletteColor::Background => self.background,
            PaletteColor::Shadow => self.shadow,
            PaletteColor::View => self.view,
            PaletteColor::Primary => self.primary,
            PaletteColor::Secondary => self.secondary,
            PaletteColor::Tertiary => self.tertiary,
            PaletteColor::TitlePrimary => self.title_primary,
            PaletteColor::TitleSecondary => self.title_secondary,
            PaletteColor::Highlight => self.highlight,
            PaletteColor::HighlightInactive => self.highlight_inactive,
            PaletteColor::HighlightText => self.highlight_text,
        }
    }

    /// Looks `role` up in this palette.
    ///
    /// Total over the closed role set: it never fails to find an entry.
    pub fn lookup(&self, role: PaletteColor) -> (r: Color)
        ensures
            r == self.spec_lookup(role),
    {
        match role {
            PaletteColor::Background => self.background,
            PaletteColor::Shadow => self.shadow,
            PaletteColor::View => self.view,
            PaletteColor::Primary => self.primary,
            PaletteColor::Secondary => self.secondary,
            PaletteColor::Tertiary => self.tertiary,
            PaletteColor::TitlePrimary => self.title_primary,
            PaletteColor::TitleSecondary => self.title_secondary,
            PaletteColor::Highlight => self.highlight,
            PaletteColor::HighlightInactive => self.highlight_inactive,
            PaletteColor::HighlightText => self.highlight_text,
        }
    }
}

/// A concrete (front, back) color pair, ready for display.
#[derive(Clone, Copy, Debug, PartialEq, Eq, Structural, Hash)]
pub struct ColorPair {
    /// Color used for the foreground (the text itself).
    pub front: Color,
    /// Color used for the background.
    pub back: Color,
}

} // verus!
