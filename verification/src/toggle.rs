//! A pressable widget for toggling the state of a bool, and the update
//! protocol it instantiates.
//!
//! A [`Toggle`] is an immutable per-frame descriptor: calling code rebuilds
//! it every frame, and the toolkit keeps the widget's [`State`] alive in the
//! graph across frames. One call of [`Toggle::update`] diffs the captured
//! input against the widget's identity, places the rectangle and label
//! sub-widgets through the state's index slots, and returns a
//! [`TimesClicked`] event stream reporting every flip the frame's clicks
//! caused. The toggle never mutates the caller's bool; it only reports
//! transitions.

use vstd::prelude::*;

use crate::color::Color;
use crate::color::lemma_darkened_reduces_luminance;
use crate::color::luminance;
use crate::color::spec_clicked;
use crate::color::spec_darkened;
use crate::color::spec_highlighted;
use crate::graph::Dimensions;
use crate::graph::GraphContext;
use crate::graph::Placement;
use crate::graph::PlacementKind;
use crate::graph::Pointer;
use crate::graph::WidgetId;
use crate::graph::left_clicks_in;
use crate::slot::IndexSlot;
use crate::style::Style;
use crate::style::empty_style;

verus! {

/// The event yielded by the `Toggle` widget.
///
/// A finite, single-pass stream of the intermediate boolean values produced
/// by the left-button clicks recorded since the last update: starting from
/// `state`, each of the `count` clicks flips the value once, and the stream
/// yields each value after its flip. Once exhausted it yields nothing on
/// every later call; it is not restartable.
#[derive(Clone, Debug, PartialEq, Eq, Structural)]
pub struct TimesClicked {
    /// The boolean value the next yielded element flips.
    pub state: bool,
    /// How many elements remain to be yielded.
    pub count: u16,
}

/// Everything the stream will still yield: `t.count` values, alternating and
/// starting with `!t.state`.
pub open spec fn spec_yields(t: TimesClicked) -> Seq<bool> {
    Seq::new(t.count as nat, |i: int| if i % 2 == 0 {
        !t.state
    } else {
        t.state
    })
}

/// The value the toggle would hold once the stream is exhausted: the last
/// element the stream yields, or `t.state` itself when the stream is empty.
pub open spec fn spec_prospective(t: TimesClicked) -> bool {
    if t.count % 2 == 0 {
        t.state
    } else {
        !t.state
    }
}

impl TimesClicked {
    /// Yield the next intermediate value: while any clicks remain, flip the
    /// state once and report the new value; after that, yield nothing on
    /// every call.
    pub fn next(&mut self) -> (r: Option<bool>)
        ensures
            old(self).count == 0 ==> r is None && *final(self) == *old(self),
            old(self).count > 0 ==> r == Some(!old(self).state)
                && final(self).state == !old(self).state
                && final(self).count == old(self).count - 1,
    {
        if self.count > 0 {
            self.count = self.count - 1;
            self.state = !self.state;
            Some(self.state)
        } else {
            None
        }
    }

    /// The value the toggle would hold once this stream is exhausted, without
    /// consuming the stream.
    pub fn prospective_value(&self) -> (r: bool)
        ensures
            r == spec_prospective(*self),
    {
        if self.count % 2 == 0 {
            self.state
        } else {
            !self.state
        }
    }

    /// Drain the stream into a vector: exactly the values repeated calls of
    /// [`TimesClicked::next`] would yield, leaving the stream exhausted.
    pub fn collect(&mut self) -> (r: Vec<bool>)
        ensures
            r@ == spec_yields(*old(self)),
            final(self).count == 0,
            final(self).state == spec_prospective(*old(self)),
    {
        let ghost orig: TimesClicked = *self;
        let mut out: Vec<bool> = Vec::new();
        while self.count > 0
            invariant
                spec_yields(orig) == out@ + spec_yields(*self),
                spec_prospective(orig) == spec_prospective(*self),
            decreases self.count,
        {
            proof {
                lemma_yields_step(*self);
            }
            let b = match self.next() {
                Some(b) => b,
                None => false,
            };
            out.push(b);
        }
        proof {
            assert(spec_yields(*self) =~= Seq::<bool>::empty());
            assert(out@ =~= spec_yields(orig));
        }
        out
    }
}

/// Yielding once splits the stream: a non-empty stream yields `!state` first
/// and then behaves as the stream one flip further on.
proof fn lemma_yields_step(t: TimesClicked)
    requires
        t.count > 0,
    ensures
        spec_yields(t) =~= seq![!t.state] + spec_yields(
            TimesClicked { state: !t.state, count: (t.count - 1) as u16 },
        ),
        spec_prospective(t) == spec_prospective(
            TimesClicked { state: !t.state, count: (t.count - 1) as u16 },
        ),
{
    let u = TimesClicked { state: !t.state, count: (t.count - 1) as u16 };
    assert forall|i: int| 0 <= i < t.count implies spec_yields(t)[i] == (seq![!t.state]
        + spec_yields(u))[i] by {
        if i > 0 {
            assert((seq![!t.state] + spec_yields(u))[i] == spec_yields(u)[i - 1]);
        }
    }
}

/// Law: a stream built from `state = s` and `count = k` stands for exactly
/// `k` values, alternating and starting with `!s`. Together with the
/// contracts of [`TimesClicked::next`] and [`TimesClicked::collect`] this
/// pins the whole observable behavior of the stream, including that an
/// exhausted stream yields nothing on every later call.
pub proof fn lemma_stream_alternates(s: bool, k: u16)
    ensures
        spec_yields(TimesClicked { state: s, count: k }).len() == k,
        forall|i: int|
            0 <= i < k ==> spec_yields(TimesClicked { state: s, count: k })[i] == (if i % 2 == 0 {
                !s
            } else {
                s
            }),
{
}

/// Law: the prospective value is the last element the stream would yield, or
/// the stream's own state when the stream is empty.
pub proof fn lemma_prospective_is_last(t: TimesClicked)
    ensures
        t.count == 0 ==> spec_prospective(t) == t.state,
        t.count > 0 ==> spec_prospective(t) == spec_yields(t).last(),
{
}

/// The state of the Toggle: the write-once slots through which the toggle
/// re-finds its rectangle and label sub-widgets across frames.
#[derive(Clone, Copy, Debug, PartialEq, Eq)]
pub struct State {
    pub rectangle_idx: IndexSlot,
    pub label_idx: IndexSlot,
}

/// A pressable widget for toggling the state of a bool.
///
/// Its reaction is reported through the returned event stream: one flip per
/// qualifying left click. The Toggle does not mutate the bool for you; apply
/// the reported transitions yourself.
#[derive(Clone, Copy, Debug)]
pub struct Toggle<'a> {
    /// The externally-owned current value of the toggle.
    pub value: bool,
    /// The label drawn over the toggle, if any; borrowed for the frame.
    pub maybe_label: Option<&'a str>,
    /// Sparse style overrides; unset fields inherit from the theme.
    pub style: Style,
    /// If true, will allow user inputs. If false, will disallow user inputs.
    pub enabled: bool,
}

/// The stream the update returns: the caller's value as the starting state,
/// and one flip per captured qualifying left click — zero when the toggle is
/// disabled, and saturating at the capacity of the count field on
/// pathological input volume.
pub open spec fn spec_event(value: bool, enabled: bool, clicks: nat) -> TimesClicked {
    TimesClicked {
        state: value,
        count: if !enabled {
            0
        } else if clicks > u16::MAX {
            u16::MAX
        } else {
            clicks as u16
        },
    }
}

/// The rectangle's area color: the resolved style color, darkened when the
/// prospective final value is `false`, then modulated by the pointer —
/// pressed shows the clicked variant and overrides hovered, hovered alone
/// shows the highlighted variant, and no pointer leaves it unchanged.
pub open spec fn spec_area_color(base: Color, prospective: bool, pointer: Option<Pointer>) -> Color {
    let c = if prospective {
        base
    } else {
        spec_darkened(base)
    };
    match pointer {
        Some(p) => if p.pressed {
            spec_clicked(c)
        } else if p.hovered {
            spec_highlighted(c)
        } else {
            c
        },
        None => c,
    }
}

/// The identity the rectangle slot resolves to during an update of `s`
/// against `ctx`: the stored identity, or the next fresh one.
pub open spec fn rect_id_after(s: State, ctx: GraphContext) -> WidgetId {
    match s.rectangle_idx.spec_id() {
        Some(i) => i,
        None => ctx.next_id,
    }
}

/// How many identities resolving the rectangle slot allocates: one if it is
/// still empty, none otherwise.
pub open spec fn rect_allocs(s: State) -> nat {
    if s.rectangle_idx.spec_id() is None {
        1
    } else {
        0
    }
}

/// The identity the label slot resolves to during an update of `s` against
/// `ctx`, given that the rectangle slot resolves first.
pub open spec fn label_id_after(s: State, ctx: GraphContext) -> WidgetId {
    match s.label_idx.spec_id() {
        Some(i) => i,
        None => (ctx.next_id + rect_allocs(s)) as WidgetId,
    }
}

/// How many identities resolving the label slot allocates: one if a label is
/// placed and the slot is still empty, none otherwise.
pub open spec fn label_allocs(s: State, has_label: bool) -> nat {
    if has_label && s.label_idx.spec_id() is None {
        1
    } else {
        0
    }
}

impl<'a> Toggle<'a> {
    /// Construct a new Toggle widget: enabled, unlabelled, with no style
    /// overrides.
    pub fn new(value: bool) -> (r: Toggle<'a>)
        ensures
            r.value == value,
            r.maybe_label is None,
            r.style == empty_style(),
            r.enabled,
    {
        Toggle { value, maybe_label: None, style: Style::new(), enabled: true }
    }

    /// If true, will allow user inputs. If false, will disallow user inputs.
    pub fn enabled(self, enabled: bool) -> (r: Toggle<'a>)
        ensures
            r == (Toggle { enabled, ..self }),
    {
        Toggle { enabled, ..self }
    }

    /// Override the color of the pressable area.
    pub fn color(self, color: Color) -> (r: Toggle<'a>)
        ensures
            r == (Toggle { style: Style { color: Some(color), ..self.style }, ..self }),
    {
        Toggle { style: Style { color: Some(color), ..self.style }, ..self }
    }

    /// Override the width of the border.
    pub fn border(self, border: u32) -> (r: Toggle<'a>)
        ensures
            r == (Toggle { style: Style { border: Some(border), ..self.style }, ..self }),
    {
        Toggle { style: Style { border: Some(border), ..self.style }, ..self }
    }

    /// Override the color of the border.
    pub fn border_color(self, border_color: Color) -> (r: Toggle<'a>)
        ensures
            r == (Toggle {
                style: Style { border_color: Some(border_color), ..self.style },
                ..self
            }),
    {
        Toggle { style: Style { border_color: Some(border_color), ..self.style }, ..self }
    }

    /// Give the toggle a text label for this frame.
    pub fn label(self, label: &'a str) -> (r: Toggle<'a>)
        ensures
            r == (Toggle { maybe_label: Some(label), ..self }),
    {
        Toggle { maybe_label: Some(label), ..self }
    }

    /// Override the color of the label.
    pub fn label_color(self, label_color: Color) -> (r: Toggle<'a>)
        ensures
            r == (Toggle {
                style: Style { label_color: Some(label_color), ..self.style },
                ..self
            }),
    {
        Toggle { style: Style { label_color: Some(label_color), ..self.style }, ..self }
    }

    /// Override the font size of the label.
    pub fn label_font_size(self, label_font_size: u32) -> (r: Toggle<'a>)
        ensures
            r == (Toggle {
                style: Style { label_font_size: Some(label_font_size), ..self.style },
                ..self
            }),
    {
        Toggle { style: Style { label_font_size: Some(label_font_size), ..self.style }, ..self }
    }

    /// The persistent state for a freshly-seen toggle identity: both index
    /// slots empty, to be filled on first resolution.
    pub fn init_state(&self) -> (r: State)
        ensures
            r.rectangle_idx.spec_id() is None,
            r.label_idx.spec_id() is None,
    {
        State { rectangle_idx: IndexSlot::new(), label_idx: IndexSlot::new() }
    }

    /// This frame's style overrides.
    pub fn style(&self) -> (r: Style)
        ensures
            r == self.style,
    {
        self.style
    }

    /// Update the state of the Toggle for one frame.
    ///
    /// Counts the captured left clicks targeting `idx` (zero when disabled),
    /// builds the event stream from the caller's value and that count, places
    /// the bordered rectangle — and, when a label is present, the text label —
    /// through the persistent state's index slots, and returns the stream
    /// unconsumed. Input and theme are left untouched; nothing here fails.
    pub fn update(
        self,
        idx: WidgetId,
        state: &mut State,
        dim: Dimensions,
        ctx: &mut GraphContext,
    ) -> (event: TimesClicked)
        requires
            old(ctx).next_id <= WidgetId::MAX - 2,
        ensures
            event == spec_event(self.value, self.enabled, left_clicks_in(old(ctx).clicks@, idx)),
            !self.enabled ==> event.count == 0,
            final(state).rectangle_idx.spec_id() == Some(rect_id_after(*old(state), *old(ctx))),
            old(state).rectangle_idx.spec_id() is Some ==> final(state).rectangle_idx == old(
                state,
            ).rectangle_idx,
            self.maybe_label is Some ==> final(state).label_idx.spec_id() == Some(
                label_id_after(*old(state), *old(ctx)),
            ),
            self.maybe_label is None ==> final(state).label_idx == old(state).label_idx,
            old(state).label_idx.spec_id() is Some ==> final(state).label_idx == old(
                state,
            ).label_idx,
            final(ctx).theme == old(ctx).theme,
            final(ctx).clicks == old(ctx).clicks,
            final(ctx).pointer == old(ctx).pointer,
            final(ctx).next_id == (old(ctx).next_id + rect_allocs(*old(state)) + label_allocs(
                *old(state),
                self.maybe_label is Some,
            )) as WidgetId,
            final(ctx).placements@.len() == old(ctx).placements@.len() + (
            if self.maybe_label is Some {
                2int
            } else {
                1int
            }),
            forall|i: int|
                0 <= i < old(ctx).placements@.len() ==> final(ctx).placements@[i] == old(
                    ctx,
                ).placements@[i],
            final(ctx).placements@[old(ctx).placements@.len() as int] == (Placement {
                id: rect_id_after(*old(state), *old(ctx)),
                parent: idx,
                graphics_for: idx,
                graphics_only: true,
                kind: PlacementKind::BorderedRectangle {
                    dim,
                    color: spec_area_color(
                        self.style.spec_color(old(ctx).theme),
                        spec_prospective(event),
                        old(ctx).spec_pointer_over(idx),
                    ),
                    border: self.style.spec_border(old(ctx).theme),
                    border_color: self.style.spec_border_color(old(ctx).theme),
                },
            }),
            self.maybe_label matches Some(l) ==> ({
                let p = final(ctx).placements@.last();
                &&& p.id == label_id_after(*old(state), *old(ctx))
                &&& p.parent == rect_id_after(*old(state), *old(ctx))
                &&& p.graphics_for == idx
                &&& p.graphics_only
                &&& (p.kind matches PlacementKind::Text { text, color, font_size } && text@ == l@
                    && color == self.style.spec_label_color(old(ctx).theme) && font_size
                    == self.style.spec_label_font_size(old(ctx).theme))
            }),
    {
        let Toggle { value, enabled, maybe_label, style } = self;

        // The event stream: one flip per qualifying left click since the
        // previous frame, none at all while the toggle is disabled.
        let n_clicks = ctx.left_clicks_on(idx);
        let count: u16 = if enabled {
            if n_clicks > u16::MAX as usize {
                u16::MAX
            } else {
                n_clicks as u16
            }
        } else {
            0
        };
        let times_clicked = TimesClicked { state: value, count };

        // Bordered rectangle sub-widget.
        let rectangle_idx = state.rectangle_idx.get(ctx);
        let border = style.border(&ctx.theme);
        let color = {
            let color = style.color(&ctx.theme);
            // Inspect the prospective final value without consuming the
            // stream handed back to the caller.
            let new_value = times_clicked.prospective_value();
            let color = if new_value {
                color
            } else {
                color.darkened()
            };
            match ctx.pointer_over(idx) {
                Some(pointer) => if pointer.pressed {
                    color.clicked()
                } else if pointer.hovered {
                    color.highlighted()
                } else {
                    color
                },
                None => color,
            }
        };
        let border_color = style.border_color(&ctx.theme);
        let rectangle = Placement {
            id: rectangle_idx,
            parent: idx,
            graphics_for: idx,
            graphics_only: true,
            kind: PlacementKind::BorderedRectangle { dim, color, border, border_color },
        };
        ctx.placements.push(rectangle);

        // Label sub-widget.
        if let Some(label) = maybe_label {
            let label_idx = state.label_idx.get(ctx);
            let label_color = style.label_color(&ctx.theme);
            let font_size = style.label_font_size(&ctx.theme);
            let text = Placement {
                id: label_idx,
                parent: rectangle_idx,
                graphics_for: idx,
                graphics_only: true,
                kind: PlacementKind::Text { text: label.to_string(), color: label_color, font_size },
            };
            ctx.placements.push(text);
        }

        times_clicked
    }
}

/// Law: a disabled toggle reports no clicks — the stream a disabled update
/// builds is empty whatever clicks were captured.
pub proof fn lemma_disabled_reports_nothing(value: bool, clicks: nat)
    ensures
        spec_event(value, false, clicks).count == 0,
        spec_yields(spec_event(value, false, clicks)) == Seq::<bool>::empty(),
{
    assert(spec_yields(spec_event(value, false, clicks)) =~= Seq::<bool>::empty());
}

/// Law: with no pointer over the widget, a `false` prospective value darkens
/// the resolved area color to a materially lower luminance — strictly lower
/// for any color that is not already black — while a `true` prospective value
/// leaves the resolved color exactly as it was.
pub proof fn lemma_darkening_law(base: Color)
    ensures
        spec_area_color(base, true, None) == base,
        luminance(spec_area_color(base, false, None)) <= luminance(base),
        luminance(base) > 0 ==> luminance(spec_area_color(base, false, None)) < luminance(base),
        luminance(base) > 0 ==> spec_area_color(base, false, None) != base,
{
    lemma_darkened_reduces_luminance(base);
}

/// Law: a pressed pointer takes precedence — whenever the pointer is pressed
/// over the widget, hovered or not, the area color is the clicked variant of
/// the value-modulated base color, never the highlighted variant.
pub proof fn lemma_pressed_precedence(base: Color, prospective: bool, hovered: bool)
    ensures
        spec_area_color(base, prospective, Some(Pointer { pressed: true, hovered }))
            == spec_clicked(
            if prospective {
                base
            } else {
                spec_darkened(base)
            },
        ),
{
}

} // verus!
