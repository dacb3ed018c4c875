//! Per-frame style resolution.
//!
//! A [`Style`] carries the sparse style overrides of one widget descriptor:
//! each field is an `Option`, and an absent field means "inherit from the
//! theme". Resolution is a pure function of the overrides and the current
//! [`Theme`]: no hidden state, fully deterministic.

use vstd::prelude::*;

use crate::color::Color;

verus! {

/// The read-only theme consulted for every style field a descriptor leaves
/// unset. Pure key lookups, passed explicitly to keep resolution testable.
#[derive(Clone, Copy, Debug, PartialEq, Eq, Structural)]
pub struct Theme {
    /// Default fill color for widget shapes.
    pub shape_color: Color,
    /// Default width of rectangular widget borders.
    pub border_width: u32,
    /// Default color of rectangular widget borders.
    pub border_color: Color,
    /// Default color for text labels.
    pub label_color: Color,
    /// Default font size for text labels.
    pub font_size_medium: u32,
}

/// Styling for the Toggle including coloring, bordering and labelling.
/// Every field is an override; `None` falls back to the theme.
#[derive(Clone, Copy, Debug, PartialEq)]
pub struct Style {
    /// Color of the Toggle's pressable area.
    pub color: Option<Color>,
    /// The width of the rectangular border surrounding the Toggle.
    pub border: Option<u32>,
    /// The color of the Toggle's border.
    pub border_color: Option<Color>,
    /// The color of the Toggle's text label.
    pub label_color: Option<Color>,
    /// The font size for the Toggle's text label.
    pub label_font_size: Option<u32>,
}

/// A style with no overrides: every field inherits from the theme.
pub open spec fn empty_style() -> Style {
    Style { color: None, border: None, border_color: None, label_color: None, label_font_size: None }
}

impl Style {
    /// The resolved area color: the override when present, else the theme's
    /// shape color.
    pub open spec fn spec_color(self, theme: Theme) -> Color {
        match self.color {
            Some(c) => c,
            None => theme.shape_color,
        }
    }

    /// The resolved border width: the override when present, else the theme's
    /// border width.
    pub open spec fn spec_border(self, theme: Theme) -> u32 {
        match self.border {
            Some(b) => b,
            None => theme.border_width,
        }
    }

    /// The resolved border color: the override when present, else the theme's
    /// border color.
    pub open spec fn spec_border_color(self, theme: Theme) -> Color {
        match self.border_color {
            Some(c) => c,
            None => theme.border_color,
        }
    }

    /// The resolved label color: the override when present, else the theme's
    /// label color.
    pub open spec fn spec_label_color(self, theme: Theme) -> Color {
        match self.label_color {
            Some(c) => c,
            None => theme.label_color,
        }
    }

    /// The resolved label font size: the override when present, else the
    /// theme's medium font size.
    pub open spec fn spec_label_font_size(self, theme: Theme) -> u32 {
        match self.label_font_size {
            Some(s) => s,
            None => theme.font_size_medium,
        }
    }

    /// A new style with no overrides.
    pub fn new() -> (r: Style)
        ensures
            r == empty_style(),
    {
        Style {
            color: None,
            border: None,
            border_color: None,
            label_color: None,
            label_font_size: None,
        }
    }

    /// Resolve the area color against the theme.
    pub fn color(&self, theme: &Theme) -> (r: Color)
        ensures
            r == self.spec_color(*theme),
    {
        match self.color {
            Some(c) => c,
            None => theme.shape_color,
        }
    }

    /// Resolve the border width against the theme.
    pub fn border(&self, theme: &Theme) -> (r: u32)
        ensures
            r == self.spec_border(*theme),
    {
        match self.border {
            Some(b) => b,
            None => theme.border_width,
        }
    }

    /// Resolve the border color against the theme.
    pub fn border_color(&self, theme: &Theme) -> (r: Color)
        ensures
            r == self.spec_border_color(*theme),
    {
        match self.border_color {
            Some(c) => c,
            None => theme.border_color,
        }
    }

    /// Resolve the label color against the theme.
    pub fn label_color(&self, theme: &Theme) -> (r: Color)
        ensures
            r == self.spec_label_color(*theme),
    {
        match self.label_color {
            Some(c) => c,
            None => theme.label_color,
        }
    }

    /// Resolve the label font size against the theme.
    pub fn label_font_size(&self, theme: &Theme) -> (r: u32)
        ensures
            r == self.spec_label_font_size(*theme),
    {
        match self.label_font_size {
            Some(s) => s,
            None => theme.font_size_medium,
        }
    }
}

} // verus!
