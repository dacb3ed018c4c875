//! A verified core of an immediate-mode widget update protocol, shown on its
//! smallest complete instance: a boolean Toggle control.
//!
//! Calling code describes a widget declaratively every frame with a
//! [`toggle::Toggle`] descriptor. The per-frame [`graph::GraphContext`]
//! mediates input queries, theme access and sub-widget placement, while the
//! widget's persistent [`toggle::State`] re-finds its anonymous sub-widgets
//! across frames through write-once [`slot::IndexSlot`] handles. Each update
//! returns a [`toggle::TimesClicked`] event stream: a finite, single-pass
//! sequence of the intermediate boolean values produced by the clicks recorded
//! since the previous frame.

pub mod color;
pub mod graph;
pub mod slot;
pub mod style;
pub mod toggle;

pub use color::Color;
pub use graph::GraphContext;
pub use slot::IndexSlot;
pub use style::Style;
pub use style::Theme;
pub use toggle::State;
pub use toggle::TimesClicked;
pub use toggle::Toggle;
