//! The per-frame widget graph context.
//!
//! A [`GraphContext`] is the mutable environment handed to every widget's
//! update routine for one frame. It allocates stable widget identities,
//! answers input queries against the click events and pointer state captured
//! since the previous frame, carries the read-only [`Theme`], and records the
//! sub-widget placements the update routines request.

use vstd::prelude::*;

use crate::color::Color;
use crate::style::Theme;

verus! {

/// A stable handle distinguishing one widget instance from all others across
/// frames.
pub type WidgetId = u64;

/// A mouse button, as recorded with each captured click event.
#[derive(Clone, Copy, Debug, PartialEq, Eq, Structural)]
pub enum MouseButton {
    Left,
    Middle,
    Right,
}

/// One click event captured since the previous frame, already routed to the
/// identity of the widget it landed on.
#[derive(Clone, Copy, Debug, PartialEq, Eq, Structural)]
pub struct Click {
    /// The identity of the widget the click targeted.
    pub target: WidgetId,
    /// The mouse button that was clicked.
    pub button: MouseButton,
}

/// The pointer's state over a widget: whether its primary button is pressed
/// and whether it merely hovers.
#[derive(Clone, Copy, Debug, PartialEq, Eq, Structural)]
pub struct Pointer {
    pub pressed: bool,
    pub hovered: bool,
}

/// The captured pointer state, routed to the identity of the widget the
/// pointer is over. There is at most one pointer per frame.
#[derive(Clone, Copy, Debug, PartialEq, Eq, Structural)]
pub struct PointerRecord {
    /// The identity of the widget the pointer is over.
    pub target: WidgetId,
    /// The pointer's state over that widget.
    pub pointer: Pointer,
}

/// The outer dimensions of a placed widget.
#[derive(Clone, Copy, Debug, PartialEq, Eq, Structural)]
pub struct Dimensions {
    pub w: u32,
    pub h: u32,
}

/// What kind of sub-widget a placement requests, with its full graphical
/// configuration.
#[derive(Clone, Debug, PartialEq)]
pub enum PlacementKind {
    /// A filled rectangle with a border.
    BorderedRectangle { dim: Dimensions, color: Color, border: u32, border_color: Color },
    /// A text label.
    Text { text: String, color: Color, font_size: u32 },
}

/// One sub-widget placement recorded during an update: which identity is
/// placed, relative to which parent it is centered, which widget receives the
/// interaction it would otherwise capture, and its graphical configuration.
#[derive(Clone, Debug, PartialEq)]
pub struct Placement {
    /// The identity of the placed sub-widget.
    pub id: WidgetId,
    /// The identity the sub-widget is centered on.
    pub parent: WidgetId,
    /// The identity that owns the sub-widget's interaction.
    pub graphics_for: WidgetId,
    /// Whether the sub-widget is purely graphical, never independently
    /// interactive or focusable.
    pub graphics_only: bool,
    /// The sub-widget kind and its graphical configuration.
    pub kind: PlacementKind,
}

/// The number of left-button clicks in `s` that target `target`.
pub open spec fn left_clicks_in(s: Seq<Click>, target: WidgetId) -> nat
    decreases s.len(),
{
    if s.len() == 0 {
        0
    } else {
        left_clicks_in(s.drop_last(), target) + (if s.last().target == target
            && s.last().button is Left {
            1nat
        } else {
            0nat
        })
    }
}

/// The per-frame mutable widget graph environment.
pub struct GraphContext {
    /// The next fresh widget identity. Identities are allocated in increasing
    /// order and never reused within a context.
    pub next_id: WidgetId,
    /// The read-only theme for this frame.
    pub theme: Theme,
    /// The click events captured since the previous frame.
    pub clicks: Vec<Click>,
    /// The pointer state captured for this frame, if the pointer is over any
    /// widget.
    pub pointer: Option<PointerRecord>,
    /// The sub-widget placements recorded so far this frame.
    pub placements: Vec<Placement>,
}

impl GraphContext {
    /// The pointer state over the widget with identity `target`, if the
    /// captured pointer is over it.
    pub open spec fn spec_pointer_over(self, target: WidgetId) -> Option<Pointer> {
        match self.pointer {
            Some(rec) => if rec.target == target {
                Some(rec.pointer)
            } else {
                None
            },
            None => None,
        }
    }

    /// A fresh context for one frame: no input captured yet, no placements,
    /// no identities allocated.
    pub fn new(theme: Theme) -> (r: GraphContext)
        ensures
            r.next_id == 0,
            r.theme == theme,
            r.clicks@ == Seq::<Click>::empty(),
            r.pointer is None,
            r.placements@ == Seq::<Placement>::empty(),
    {
        GraphContext {
            next_id: 0,
            theme,
            clicks: Vec::new(),
            pointer: None,
            placements: Vec::new(),
        }
    }

    /// Allocate a fresh widget identity. Allocation never fails; each call
    /// returns an identity no earlier call returned.
    pub fn allocate_identity(&mut self) -> (id: WidgetId)
        requires
            old(self).next_id < WidgetId::MAX,
        ensures
            id == old(self).next_id,
            *final(self) == (GraphContext { next_id: (old(self).next_id + 1) as WidgetId, ..*old(self) }),
    {
        let id = self.next_id;
        self.next_id = self.next_id + 1;
        id
    }

    /// The number of left-button click events captured since the previous
    /// frame that target the widget with identity `target`.
    pub fn left_clicks_on(&self, target: WidgetId) -> (n: usize)
        ensures
            n == left_clicks_in(self.clicks@, target),
    {
        let mut n: usize = 0;
        let mut i: usize = 0;
        while i < self.clicks.len()
            invariant
                i <= self.clicks.len(),
                n <= i,
                n == left_clicks_in(self.clicks@.take(i as int), target),
            decreases self.clicks.len() - i,
        {
            let c = self.clicks[i];
            proof {
                assert(self.clicks@.take(i as int + 1).drop_last() =~= self.clicks@.take(i as int));
                assert(self.clicks@.take(i as int + 1).last() == self.clicks@[i as int]);
            }
            if c.target == target && c.button == MouseButton::Left {
                n = n + 1;
            }
            i = i + 1;
        }
        proof {
            assert(self.clicks@.take(self.clicks.len() as int) =~= self.clicks@);
        }
        n
    }

    /// The pointer state over the widget with identity `target`, if the
    /// captured pointer is over it.
    pub fn pointer_over(&self, target: WidgetId) -> (r: Option<Pointer>)
        ensures
            r == self.spec_pointer_over(target),
    {
        match self.pointer {
            Some(rec) => if rec.target == target {
                Some(rec.pointer)
            } else {
                None
            },
            None => None,
        }
    }
}

} // verus!
