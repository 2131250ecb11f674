//! Color pairs and the semantic color styles that resolve to them.
//!
//! Each terminal cell is painted with two colors, a foreground and a
//! background.  A color style names a semantic role; the current theme
//! assigns each role its concrete pair of palette colors.

use vstd::prelude::*;

use crate::color::Color;
use crate::theme::Theme;

verus! {

/// A text effect applied on top of a color style.
#[derive(Clone, Copy, Debug)]
pub enum Effect {
    /// No effect.
    Simple,
    /// Reverses foreground and background colors.
    Reverse,
}

/// A front (foreground) and back (background) color for one cell.  Any
/// combination is valid, including equal front and back.
#[derive(Clone, Copy, Debug, PartialEq, Eq, Hash, Structural)]
pub struct ColorPair {
    /// Color used for the foreground.
    pub front: Color,
    /// Color used for the background.
    pub back: Color,
}

/// The pair with front and back swapped.
pub open spec fn spec_invert(p: ColorPair) -> ColorPair {
    ColorPair { front: p.back, back: p.front }
}

impl ColorPair {
    /// Return the inverted pair, with front and back swapped; renderers use
    /// it for a reversed-video effect.
    pub fn invert(&self) -> (r: Self)
        ensures
            r == spec_invert(*self),
    {
        ColorPair { front: self.back, back: self.front }
    }

    /// Creates a new color pair from two indices in the 256-color list.
    pub fn from_256colors(front: u8, back: u8) -> (r: Self)
        ensures
            r.front == Color::spec_from_256colors(front),
            r.back == Color::spec_from_256colors(back),
    {
        Self { front: Color::from_256colors(front), back: Color::from_256colors(back) }
    }
}

/// A semantic color role for a cell.  The current theme assigns each role a
/// foreground and a background color.
#[derive(Clone, Copy, Debug, PartialEq, Eq, Hash, Structural)]
pub enum ColorStyle {
    /// The style the terminal had before the application started.
    Default,
    /// Application background, where no view is present.
    Background,
    /// The shadow around views; only its background matters.
    Shadow,
    /// Main text over the view background.
    Primary,
    /// Secondary text over the view background.
    Secondary,
    /// Tertiary text over the view background.
    Tertiary,
    /// Title text over the view background.
    TitlePrimary,
    /// Alternative title text over the view background.
    TitleSecondary,
    /// Selected items: view color over the highlight background.
    Highlight,
    /// Selected but inactive items: view color over the inactive highlight
    /// background.
    HighlightInactive,
    /// Explicit colors, independent of the theme's palette.
    Custom {
        /// Foreground color.
        front: Color,
        /// Background color.
        back: Color,
    },
}

/// The fixed table from a role and a palette to a color pair.
pub open spec fn spec_resolve(style: ColorStyle, theme: Theme) -> ColorPair {
    let c = theme.colors;
    match style {
        ColorStyle::Default => ColorPair { front: Color::Default, back: Color::Default },
        ColorStyle::Background => ColorPair { front: c.view, back: c.background },
        ColorStyle::Shadow => ColorPair { front: c.shadow, back: c.shadow },
        ColorStyle::Primary => ColorPair { front: c.primary, back: c.view },
        ColorStyle::Secondary => ColorPair { front: c.secondary, back: c.view },
        ColorStyle::Tertiary => ColorPair { front: c.tertiary, back: c.view },
        ColorStyle::TitlePrimary => ColorPair { front: c.title_primary, back: c.view },
        ColorStyle::TitleSecondary => ColorPair { front: c.title_secondary, back: c.view },
        ColorStyle::Highlight => ColorPair { front: c.view, back: c.highlight },
        ColorStyle::HighlightInactive => ColorPair { front: c.view, back: c.highlight_inactive },
        ColorStyle::Custom { front, back } => ColorPair { front, back },
    }
}

impl ColorStyle {
    /// Return the color pair that this style represents under the given
    /// theme: a pure, total function of the role and the theme's palette.
    pub fn resolve(&self, theme: &Theme) -> (r: ColorPair)
        ensures
            r == spec_resolve(*self, *theme),
    {
        let c = &theme.colors;
        match *self {
            ColorStyle::Default => ColorPair { front: Color::Default, back: Color::Default },
            ColorStyle::Background => ColorPair { front: c.view, back: c.background },
            ColorStyle::Shadow => ColorPair { front: c.shadow, back: c.shadow },
            ColorStyle::Primary => ColorPair { front: c.primary, back: c.view },
            ColorStyle::Secondary => ColorPair { front: c.secondary, back: c.view },
            ColorStyle::Tertiary => ColorPair { front: c.tertiary, back: c.view },
            ColorStyle::TitlePrimary => ColorPair { front: c.title_primary, back: c.view },
            ColorStyle::TitleSecondary => ColorPair { front: c.title_secondary, back: c.view },
            ColorStyle::Highlight => ColorPair { front: c.view, back: c.highlight },
            ColorStyle::HighlightInactive => ColorPair {
                front: c.view,
                back: c.highlight_inactive,
            },
            ColorStyle::Custom { front, back } => ColorPair { front, back },
        }
    }
}

/// Inverting a color pair swaps its front and back colors, and inverting
/// twice gives the original pair back.
pub proof fn lemma_invert_swaps(p: ColorPair)
    ensures
        spec_invert(p).front == p.back,
        spec_invert(p).back == p.front,
        spec_invert(spec_invert(p)) == p,
{
}

} // verus!
