//! The color model used by widgets for their graphical sub-widgets.
//!
//! A [`Color`] is an RGBA value with 8-bit channels. Widgets derive three
//! visual variants from a base color: a darkened variant (used to show a
//! prospective `false` toggle value), a clicked variant (pointer pressed over
//! the widget) and a highlighted variant (pointer hovering over the widget).
//! All three are pure functions of the base color.

use vstd::prelude::*;

verus! {

/// An RGBA color with 8-bit channels.
#[derive(Clone, Copy, Debug, PartialEq, Eq, Structural)]
pub struct Color {
    pub red: u8,
    pub green: u8,
    pub blue: u8,
    pub alpha: u8,
}

/// A crude luminance measure: the sum of the three color channels.
/// It only needs to order colors by brightness, which the channel sum does.
pub open spec fn luminance(c: Color) -> int {
    c.red + c.green + c.blue
}

/// The darkened variant: every color channel is quartered, alpha is kept.
pub open spec fn spec_darkened(c: Color) -> Color {
    Color { red: c.red / 4, green: c.green / 4, blue: c.blue / 4, alpha: c.alpha }
}

/// The clicked variant: every color channel is halved, alpha is kept.
pub open spec fn spec_clicked(c: Color) -> Color {
    Color { red: c.red / 2, green: c.green / 2, blue: c.blue / 2, alpha: c.alpha }
}

/// The highlighted variant: every color channel moves halfway toward full
/// brightness, alpha is kept.
pub open spec fn spec_highlighted(c: Color) -> Color {
    Color {
        red: (c.red / 2 + 128) as u8,
        green: (c.green / 2 + 128) as u8,
        blue: (c.blue / 2 + 128) as u8,
        alpha: c.alpha,
    }
}

impl Color {
    /// The color with materially reduced luminance, used when the prospective
    /// toggle value is `false`.
    pub fn darkened(&self) -> (r: Color)
        ensures
            r == spec_darkened(*self),
    {
        Color { red: self.red / 4, green: self.green / 4, blue: self.blue / 4, alpha: self.alpha }
    }

    /// The visual variant shown while the pointer is pressed over the widget.
    pub fn clicked(&self) -> (r: Color)
        ensures
            r == spec_clicked(*self),
    {
        Color { red: self.red / 2, green: self.green / 2, blue: self.blue / 2, alpha: self.alpha }
    }

    /// The visual variant shown while the pointer hovers over the widget
    /// without being pressed.
    pub fn highlighted(&self) -> (r: Color)
        ensures
            r == spec_highlighted(*self),
    {
        Color {
            red: self.red / 2 + 128,
            green: self.green / 2 + 128,
            blue: self.blue / 2 + 128,
            alpha: self.alpha,
        }
    }
}

/// Darkening never raises luminance, and strictly lowers it for any color
/// that is not already black.
pub proof fn lemma_darkened_reduces_luminance(c: Color)
    ensures
        luminance(spec_darkened(c)) <= luminance(c),
        luminance(c) > 0 ==> luminance(spec_darkened(c)) < luminance(c),
{
}

} // verus!
