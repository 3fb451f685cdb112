//! Requested cell styles and their merge and resolution semantics.

use vstd::prelude::*;

use crate::color::BaseColor;
use crate::color::Color;
use crate::color::ColorPair;
use crate::color::Palette;
use crate::color::PaletteColor;

verus! {

/// A color source: either a color from the palette, a direct color, or the
/// color inherited from the parent context.
#[derive(Clone, Copy, Debug, PartialEq, Eq, Structural, Hash)]
pub enum ColorType {
    /// Uses a color from the application palette.
    Palette(PaletteColor),
    /// Uses a direct color, independent of the current palette.
    Color(Color),
    /// Re-uses the color from the parent.
    InheritParent,
}

impl ColorType {
    /// The concrete color `self` stands for, given the palette and the
    /// color already in effect from the parent context.
    pub open spec fn spec_resolve(self, palette: Palette, previous: Color) -> Color {
        match self {
            ColorType::Color(color) => color,
            ColorType::Palette(role) => palette.spec_lookup(role),
            ColorType::InheritParent => previous,
        }
    }

    /// The color type `b` merged over `a`: `b` wins unless it inherits.
    pub open spec fn spec_merge(a: ColorType, b: ColorType) -> ColorType {
        match b {
            ColorType::InheritParent => a,
            _ => b,
        }
    }

    /// Given a palette, resolve `self` to a concrete color.
    pub fn resolve(self, palette: &Palette, previous: Color) -> (r: Color)
        ensures
            r == self.spec_resolve(*palette, previous),
            self matches ColorType::Color(color) ==> r == color,
            self matches ColorType::Palette(role) ==> r == palette.spec_lookup(role),
            self == ColorType::InheritParent ==> r == previous,
    {
        match self {
            ColorType::Color(color) => color,
            ColorType::Palette(role) => palette.lookup(role),
            ColorType::InheritParent => previous,
        }
    }

    /// Merge the color type `b` over the color type `a`.
    ///
    /// This returns `b`, unless `b = ColorType::InheritParent`,
    /// in which case it returns `a`.
    pub fn merge(a: ColorType, b: ColorType) -> (r: ColorType)
        ensures
            r == ColorType::spec_merge(a, b),
            b == ColorType::InheritParent ==> r == a,
            b != ColorType::InheritParent ==> r == b,
    {
        match b {
            ColorType::InheritParent => a,
            _ => b,
        }
    }
}

impl Default for ColorType {
    /// The default color source inherits the parent's color.
    fn default() -> (r: Self)
        ensures
            r == ColorType::InheritParent,
    {
        ColorType::InheritParent
    }
}

/// A requested color style for a cell: a pair of color sources, one for
/// the foreground and one for the background.
///
/// The two channels are independent: each is merged and resolved on its
/// own. The default value inherits the parent's colors on both channels.
#[derive(Clone, Copy, Debug, PartialEq, Eq, Structural, Hash)]
pub struct ColorStyle {
    /// Color used for the foreground (the text itself).
    pub front: ColorType,
    /// Color used for the background.
    pub back: ColorType,
}

impl ColorStyle {
    /// The style `b` merged over `a`, channel by channel.
    pub open spec fn spec_merge(a: ColorStyle, b: ColorStyle) -> ColorStyle {
        ColorStyle {
            front: ColorType::spec_merge(a.front, b.front),
            back: ColorType::spec_merge(a.back, b.back),
        }
    }

    /// The concrete color pair `self` stands for, channel by channel.
    pub open spec fn spec_resolve(self, palette: Palette, previous: ColorPair) -> ColorPair {
        ColorPair {
            front: self.front.spec_resolve(palette, previous.front),
            back: self.back.spec_resolve(palette, previous.back),
        }
    }

    /// `self` with its front and back color sources swapped.
    pub open spec fn spec_invert(self) -> ColorStyle {
        ColorStyle { front: self.back, back: self.front }
    }

    /// Creates a style from the given front and back color sources.
    pub fn new(front: ColorType, back: ColorType) -> (r: Self)
        ensures
            r == (ColorStyle { front, back }),
    {
        Self { front, back }
    }

    /// Uses the given color as front, inherits the parent background color.
    pub fn front(front: ColorType) -> (r: Self)
        ensures
            r == (ColorStyle { front, back: ColorType::InheritParent }),
    {
        Self::new(front, ColorType::InheritParent)
    }

    /// Uses the given color as background, inherits the parent front color.
    pub fn back(back: ColorType) -> (r: Self)
        ensures
            r == (ColorStyle { front: ColorType::InheritParent, back }),
    {
        Self::new(ColorType::InheritParent, back)
    }

    /// Returns an inverted color style, with the front and back colors
    /// swapped.
    #[must_use]
    pub fn invert(self) -> (r: Self)
        ensures
            r == self.spec_invert(),
            r.front == self.back,
            r.back == self.front,
    {
        ColorStyle { front: self.back, back: self.front }
    }

    /// Uses `ColorType::InheritParent` for both front and background: the
    /// fully transparent style, a no-op overlay.
    pub fn inherit_parent() -> (r: Self)
        ensures
            r == (ColorStyle {
                front: ColorType::InheritParent,
                back: ColorType::InheritParent,
            }),
    {
        Self::new(ColorType::InheritParent, ColorType::InheritParent)
    }

    /// Style set by the terminal before the application takes over.
    pub fn terminal_default() -> (r: Self)
        ensures
            r == (ColorStyle {
                front: ColorType::Color(Color::TerminalDefault),
                back: ColorType::Color(Color::TerminalDefault),
            }),
    {
        Self::new(
            ColorType::Color(Color::TerminalDefault),
            ColorType::Color(Color::TerminalDefault),
        )
    }

    /// Application background, where no view is present.
    pub fn background() -> (r: Self)
        ensures
            r == (ColorStyle {
                front: ColorType::Palette(PaletteColor::Background),
                back: ColorType::Palette(PaletteColor::Background),
            }),
    {
        Self::new(
            ColorType::Palette(PaletteColor::Background),
            ColorType::Palette(PaletteColor::Background),
        )
    }

    /// Color used by view shadows. Only the background matters.
    pub fn shadow() -> (r: Self)
        ensures
            r == (ColorStyle {
                front: ColorType::Palette(PaletteColor::Shadow),
                back: ColorType::Palette(PaletteColor::Shadow),
            }),
    {
        Self::new(
            ColorType::Palette(PaletteColor::Shadow),
            ColorType::Palette(PaletteColor::Shadow),
        )
    }

    /// Main text with default background.
    pub fn primary() -> (r: Self)
        ensures
            r == (ColorStyle {
                front: ColorType::Palette(PaletteColor::Primary),
                back: ColorType::Palette(PaletteColor::View),
            }),
    {
        Self::new(
            ColorType::Palette(PaletteColor::Primary),
            ColorType::Palette(PaletteColor::View),
        )
    }

    /// Secondary text color, with default background.
    pub fn secondary() -> (r: Self)
        ensures
            r == (ColorStyle {
                front: ColorType::Palette(PaletteColor::Secondary),
                back: ColorType::Palette(PaletteColor::View),
            }),
    {
        Self::new(
            ColorType::Palette(PaletteColor::Secondary),
            ColorType::Palette(PaletteColor::View),
        )
    }

    /// Tertiary text color, with default background.
    pub fn tertiary() -> (r: Self)
        ensures
            r == (ColorStyle {
                front: ColorType::Palette(PaletteColor::Tertiary),
                back: ColorType::Palette(PaletteColor::View),
            }),
    {
        Self::new(
            ColorType::Palette(PaletteColor::Tertiary),
            ColorType::Palette(PaletteColor::View),
        )
    }

    /// Title text color with default background.
    pub fn title_primary() -> (r: Self)
        ensures
            r == (ColorStyle {
                front: ColorType::Palette(PaletteColor::TitlePrimary),
                back: ColorType::Palette(PaletteColor::View),
            }),
    {
        Self::new(
            ColorType::Palette(PaletteColor::TitlePrimary),
            ColorType::Palette(PaletteColor::View),
        )
    }

    /// Alternative color for a title.
    pub fn title_secondary() -> (r: Self)
        ensures
            r == (ColorStyle {
                front: ColorType::Palette(PaletteColor::TitleSecondary),
                back: ColorType::Palette(PaletteColor::View),
            }),
    {
        Self::new(
            ColorType::Palette(PaletteColor::TitleSecondary),
            ColorType::Palette(PaletteColor::View),
        )
    }

    /// Alternate text with highlight background.
    pub fn highlight() -> (r: Self)
        ensures
            r == (ColorStyle {
                front: ColorType::Palette(PaletteColor::HighlightText),
                back: ColorType::Palette(PaletteColor::Highlight),
            }),
    {
        Self::new(
            ColorType::Palette(PaletteColor::HighlightText),
            ColorType::Palette(PaletteColor::Highlight),
        )
    }

    /// Highlight color for inactive views (not in focus).
    pub fn highlight_inactive() -> (r: Self)
        ensures
            r == (ColorStyle {
                front: ColorType::Palette(PaletteColor::HighlightText),
                back: ColorType::Palette(PaletteColor::HighlightInactive),
            }),
    {
        Self::new(
            ColorType::Palette(PaletteColor::HighlightText),
            ColorType::Palette(PaletteColor::HighlightInactive),
        )
    }

    /// Merge the style `b` over the style `a`.
    ///
    /// This merges the front and back color types of `a` and `b`
    /// independently: on each channel `b`'s source wins unless it inherits.
    pub fn merge(a: Self, b: Self) -> (r: Self)
        ensures
            r == ColorStyle::spec_merge(a, b),
            r.front == ColorType::spec_merge(a.front, b.front),
            r.back == ColorType::spec_merge(a.back, b.back),
    {
        ColorStyle {
            front: ColorType::merge(a.front, b.front),
            back: ColorType::merge(a.back, b.back),
        }
    }

    /// Return the color pair that this style represents.
    ///
    /// Each channel is resolved on its own, against the palette and that
    /// channel of the previously resolved pair.
    pub fn resolve(&self, palette: &Palette, previous: ColorPair) -> (r: ColorPair)
        ensures
            r == self.spec_resolve(*palette, previous),
            r.front == self.front.spec_resolve(*palette, previous.front),
            r.back == self.back.spec_resolve(*palette, previous.back),
    {
        ColorPair {
            front: self.front.resolve(palette, previous.front),
            back: self.back.resolve(palette, previous.back),
        }
    }
}

impl Default for ColorStyle {
    /// The default style inherits the parent's colors on both channels.
    fn default() -> (r: Self)
        ensures
            r == (ColorStyle {
                front: ColorType::InheritParent,
                back: ColorType::InheritParent,
            }),
    {
        ColorStyle { front: ColorType::InheritParent, back: ColorType::InheritParent }
    }
}

impl From<Color> for ColorType {
    /// A direct color as a color source.
    fn from(color: Color) -> (r: Self) {
        ColorType::Color(color)
    }
}

impl vstd::std_specs::convert::FromSpecImpl<Color> for ColorType {
    open spec fn obeys_from_spec() -> bool {
        true
    }

    open spec fn from_spec(color: Color) -> Self {
        ColorType::Color(color)
    }
}

impl From<PaletteColor> for ColorType {
    /// A palette role as a color source.
    fn from(color: PaletteColor) -> (r: Self) {
        ColorType::Palette(color)
    }
}

impl vstd::std_specs::convert::FromSpecImpl<PaletteColor> for ColorType {
    open spec fn obeys_from_spec() -> bool {
        true
    }

    open spec fn from_spec(color: PaletteColor) -> Self {
        ColorType::Palette(color)
    }
}

impl From<Color> for ColorStyle {
    /// Uses the color as front, inherits the parent background color.
    fn from(color: Color) -> (r: Self) {
        Self::front(ColorType::Color(color))
    }
}

impl vstd::std_specs::convert::FromSpecImpl<Color> for ColorStyle {
    open spec fn obeys_from_spec() -> bool {
        true
    }

    open spec fn from_spec(color: Color) -> Self {
        ColorStyle { front: ColorType::Color(color), back: ColorType::InheritParent }
    }
}

impl From<BaseColor> for ColorStyle {
    /// Uses the base color, in its dark intensity, as front; inherits the
    /// parent background color.
    fn from(color: BaseColor) -> (r: Self) {
        Self::front(ColorType::Color(Color::Dark(color)))
    }
}

impl vstd::std_specs::convert::FromSpecImpl<BaseColor> for ColorStyle {
    open spec fn obeys_from_spec() -> bool {
        true
    }

    open spec fn from_spec(color: BaseColor) -> Self {
        ColorStyle {
            front: ColorType::Color(Color::Dark(color)),
            back: ColorType::InheritParent,
        }
    }
}

impl From<PaletteColor> for ColorStyle {
    /// Uses the palette role as front, inherits the parent background color.
    fn from(color: PaletteColor) -> (r: Self) {
        Self::front(ColorType::Palette(color))
    }
}

impl vstd::std_specs::convert::FromSpecImpl<PaletteColor> for ColorStyle {
    open spec fn obeys_from_spec() -> bool {
        true
    }

    open spec fn from_spec(color: PaletteColor) -> Self {
        ColorStyle { front: ColorType::Palette(color), back: ColorType::InheritParent }
    }
}

impl From<ColorType> for ColorStyle {
    /// Uses the color source as front, inherits the parent background color.
    fn from(color: ColorType) -> (r: Self) {
        Self::front(color)
    }
}

impl vstd::std_specs::convert::FromSpecImpl<ColorType> for ColorStyle {
    open spec fn obeys_from_spec() -> bool {
        true
    }

    open spec fn from_spec(color: ColorType) -> Self {
        ColorStyle { front: color, back: ColorType::InheritParent }
    }
}

impl From<(ColorType, ColorType)> for ColorStyle {
    /// A (front, back) pair as a style.
    fn from(pair: (ColorType, ColorType)) -> (r: Self) {
        Self::new(pair.0, pair.1)
    }
}

impl vstd::std_specs::convert::FromSpecImpl<(ColorType, ColorType)> for ColorStyle {
    open spec fn obeys_from_spec() -> bool {
        true
    }

    open spec fn from_spec(pair: (ColorType, ColorType)) -> Self {
        ColorStyle { front: pair.0, back: pair.1 }
    }
}

/// Merging color types is associative: folding nested overrides
/// left-to-right or right-to-left yields the same effective source,
/// namely the rightmost one that does not inherit.
pub proof fn lemma_merge_associative(a: ColorType, b: ColorType, c: ColorType)
    ensures
        ColorType::spec_merge(ColorType::spec_merge(a, b), c) == ColorType::spec_merge(
            a,
            ColorType::spec_merge(b, c),
        ),
{
}

/// Merging styles is associative as well, since each channel is merged
/// independently by the associative color-type merge.
pub proof fn lemma_style_merge_associative(a: ColorStyle, b: ColorStyle, c: ColorStyle)
    ensures
        ColorStyle::spec_merge(ColorStyle::spec_merge(a, b), c) == ColorStyle::spec_merge(
            a,
            ColorStyle::spec_merge(b, c),
        ),
{
}

/// Inverting a style twice gives the style back.
pub proof fn lemma_invert_involution(s: ColorStyle)
    ensures
        s.spec_invert().spec_invert() == s,
{
}

/// The resolved front color depends only on the front channels of the
/// merge operands: changing an operand's back channel never affects it.
pub proof fn lemma_front_channel_independent(
    a1: ColorStyle,
    a2: ColorStyle,
    b1: ColorStyle,
    b2: ColorStyle,
    palette: Palette,
    previous: ColorPair,
)
    requires
        a1.front == a2.front,
        b1.front == b2.front,
    ensures
        ColorStyle::spec_merge(a1, b1).spec_resolve(palette, previous).front
            == ColorStyle::spec_merge(a2, b2).spec_resolve(palette, previous).front,
{
}

/// The resolved back color depends only on the back channels of the
/// merge operands: changing an operand's front channel never affects it.
pub proof fn lemma_back_channel_independent(
    a1: ColorStyle,
    a2: ColorStyle,
    b1: ColorStyle,
    b2: ColorStyle,
    palette: Palette,
    previous: ColorPair,
)
    requires
        a1.back == a2.back,
        b1.back == b2.back,
    ensures
        ColorStyle::spec_merge(a1, b1).spec_resolve(palette, previous).back
            == ColorStyle::spec_merge(a2, b2).spec_resolve(palette, previous).back,
{
}

} // verus!
