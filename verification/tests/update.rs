use toggle_widget::Color;
use toggle_widget::GraphContext;
use toggle_widget::Theme;
use toggle_widget::Toggle;
use toggle_widget::graph::Click;
use toggle_widget::graph::Dimensions;
use toggle_widget::graph::MouseButton;
use toggle_widget::graph::PlacementKind;
use toggle_widget::graph::Pointer;
use toggle_widget::graph::PointerRecord;

const IDX: u64 = 17;

fn theme() -> Theme {
    Theme {
        shape_color: Color { red: 200, green: 100, blue: 40, alpha: 255 },
        border_width: 2,
        border_color: Color { red: 1, green: 2, blue: 3, alpha: 255 },
        label_color: Color { red: 10, green: 11, blue: 12, alpha: 255 },
        font_size_medium: 14,
    }
}

fn context_with_left_clicks(n: usize) -> GraphContext {
    let mut ctx = GraphContext::new(theme());
    for _ in 0..n {
        ctx.clicks.push(Click { target: IDX, button: MouseButton::Left });
    }
    ctx
}

fn dim() -> Dimensions {
    Dimensions { w: 120, h: 40 }
}

fn rectangle_color(ctx: &GraphContext) -> Color {
    match &ctx.placements[0].kind {
        PlacementKind::BorderedRectangle { color, .. } => *color,
        other => panic!("expected a bordered rectangle, got {:?}", other),
    }
}

#[test]
fn disabled_toggle_reports_no_clicks() {
    let mut ctx = context_with_left_clicks(5);
    let toggle = Toggle::new(true).enabled(false);
    let mut state = toggle.init_state();
    let mut event = toggle.update(IDX, &mut state, dim(), &mut ctx);
    assert_eq!(event.count, 0);
    assert_eq!(event.next(), None);
}

#[test]
fn three_clicks_on_a_true_toggle_yield_false_true_false() {
    let mut ctx = context_with_left_clicks(3);
    let toggle = Toggle::new(true);
    let mut state = toggle.init_state();
    let mut event = toggle.update(IDX, &mut state, dim(), &mut ctx);
    assert_eq!(event.state, true);
    assert_eq!(event.count, 3);
    assert_eq!(event.collect(), vec![false, true, false]);
}

#[test]
fn only_left_clicks_on_this_identity_count() {
    let mut ctx = GraphContext::new(theme());
    ctx.clicks.push(Click { target: IDX, button: MouseButton::Left });
    ctx.clicks.push(Click { target: IDX, button: MouseButton::Right });
    ctx.clicks.push(Click { target: IDX, button: MouseButton::Middle });
    ctx.clicks.push(Click { target: IDX + 1, button: MouseButton::Left });
    ctx.clicks.push(Click { target: IDX, button: MouseButton::Left });
    let toggle = Toggle::new(false);
    let mut state = toggle.init_state();
    let event = toggle.update(IDX, &mut state, dim(), &mut ctx);
    assert_eq!(event.count, 2);
}

#[test]
fn click_count_saturates_at_the_count_capacity() {
    let mut ctx = context_with_left_clicks(70_000);
    let toggle = Toggle::new(false);
    let mut state = toggle.init_state();
    let event = toggle.update(IDX, &mut state, dim(), &mut ctx);
    assert_eq!(event.count, u16::MAX);
}

#[test]
fn prospective_false_darkens_the_rectangle() {
    // One click flips `true` to `false`: the prospective value is false, so
    // the rectangle must be materially darker than the resolved style color.
    let mut ctx = context_with_left_clicks(1);
    let toggle = Toggle::new(true);
    let mut state = toggle.init_state();
    let _ = toggle.update(IDX, &mut state, dim(), &mut ctx);
    let base = theme().shape_color;
    let darker = rectangle_color(&ctx);
    assert_ne!(darker, base);
    let lum = |c: Color| c.red as u32 + c.green as u32 + c.blue as u32;
    assert!(lum(darker) < lum(base));
    assert_eq!(darker, base.darkened());
}

#[test]
fn prospective_true_keeps_the_rectangle_color() {
    // Two clicks flip `true` back to `true`: no darkening, and with no
    // pointer over the widget the rectangle shows the resolved style color
    // unchanged.
    let mut ctx = context_with_left_clicks(2);
    let toggle = Toggle::new(true);
    let mut state = toggle.init_state();
    let _ = toggle.update(IDX, &mut state, dim(), &mut ctx);
    assert_eq!(rectangle_color(&ctx), theme().shape_color);
}

#[test]
fn pressed_pointer_overrides_hovered() {
    let mut ctx = GraphContext::new(theme());
    ctx.pointer = Some(PointerRecord {
        target: IDX,
        pointer: Pointer { pressed: true, hovered: true },
    });
    let toggle = Toggle::new(true);
    let mut state = toggle.init_state();
    let _ = toggle.update(IDX, &mut state, dim(), &mut ctx);
    let base = theme().shape_color;
    assert_eq!(rectangle_color(&ctx), base.clicked());
    assert_ne!(rectangle_color(&ctx), base.highlighted());
}

#[test]
fn hovered_pointer_highlights() {
    let mut ctx = GraphContext::new(theme());
    ctx.pointer = Some(PointerRecord {
        target: IDX,
        pointer: Pointer { pressed: false, hovered: true },
    });
    let toggle = Toggle::new(true);
    let mut state = toggle.init_state();
    let _ = toggle.update(IDX, &mut state, dim(), &mut ctx);
    assert_eq!(rectangle_color(&ctx), theme().shape_color.highlighted());
}

#[test]
fn pointer_over_another_widget_changes_nothing() {
    let mut ctx = GraphContext::new(theme());
    ctx.pointer = Some(PointerRecord {
        target: IDX + 1,
        pointer: Pointer { pressed: true, hovered: true },
    });
    let toggle = Toggle::new(true);
    let mut state = toggle.init_state();
    let _ = toggle.update(IDX, &mut state, dim(), &mut ctx);
    assert_eq!(rectangle_color(&ctx), theme().shape_color);
}

#[test]
fn rectangle_placement_is_fully_configured() {
    let mut ctx = GraphContext::new(theme());
    let toggle = Toggle::new(true);
    let mut state = toggle.init_state();
    let _ = toggle.update(IDX, &mut state, dim(), &mut ctx);
    assert_eq!(ctx.placements.len(), 1);
    let p = &ctx.placements[0];
    assert_eq!(p.parent, IDX);
    assert_eq!(p.graphics_for, IDX);
    assert!(p.graphics_only);
    match &p.kind {
        PlacementKind::BorderedRectangle { dim: d, color, border, border_color } => {
            assert_eq!(*d, dim());
            assert_eq!(*color, theme().shape_color);
            assert_eq!(*border, theme().border_width);
            assert_eq!(*border_color, theme().border_color);
        }
        other => panic!("expected a bordered rectangle, got {:?}", other),
    }
}

#[test]
fn label_places_a_text_sub_widget() {
    let mut ctx = GraphContext::new(theme());
    let toggle = Toggle::new(false).label("off");
    let mut state = toggle.init_state();
    let _ = toggle.update(IDX, &mut state, dim(), &mut ctx);
    assert_eq!(ctx.placements.len(), 2);
    let rectangle_id = ctx.placements[0].id;
    let p = &ctx.placements[1];
    assert_eq!(p.parent, rectangle_id);
    assert_eq!(p.graphics_for, IDX);
    assert!(p.graphics_only);
    match &p.kind {
        PlacementKind::Text { text, color, font_size } => {
            assert_eq!(text, "off");
            assert_eq!(*color, theme().label_color);
            assert_eq!(*font_size, theme().font_size_medium);
        }
        other => panic!("expected a text label, got {:?}", other),
    }
}

#[test]
fn style_overrides_replace_theme_defaults() {
    let mut ctx = GraphContext::new(theme());
    let area = Color { red: 8, green: 16, blue: 32, alpha: 255 };
    let edge = Color { red: 64, green: 64, blue: 64, alpha: 255 };
    let ink = Color { red: 250, green: 250, blue: 250, alpha: 255 };
    let toggle = Toggle::new(true)
        .color(area)
        .border(9)
        .border_color(edge)
        .label("on")
        .label_color(ink)
        .label_font_size(22);
    let mut state = toggle.init_state();
    let _ = toggle.update(IDX, &mut state, dim(), &mut ctx);
    match &ctx.placements[0].kind {
        PlacementKind::BorderedRectangle { color, border, border_color, .. } => {
            assert_eq!(*color, area);
            assert_eq!(*border, 9);
            assert_eq!(*border_color, edge);
        }
        other => panic!("expected a bordered rectangle, got {:?}", other),
    }
    match &ctx.placements[1].kind {
        PlacementKind::Text { color, font_size, .. } => {
            assert_eq!(*color, ink);
            assert_eq!(*font_size, 22);
        }
        other => panic!("expected a text label, got {:?}", other),
    }
}

#[test]
fn sub_widget_identities_are_stable_across_frames() {
    let toggle = Toggle::new(true).label("t");
    let mut state = toggle.init_state();

    let mut ctx = GraphContext::new(theme());
    let _ = toggle.update(IDX, &mut state, dim(), &mut ctx);
    let first_rect = ctx.placements[0].id;
    let first_label = ctx.placements[1].id;
    let allocated = ctx.next_id;

    // Next frame: same persistent state, fresh placements and input.
    ctx.placements.clear();
    ctx.clicks.push(Click { target: IDX, button: MouseButton::Left });
    let toggle = Toggle::new(false).label("t");
    let _ = toggle.update(IDX, &mut state, dim(), &mut ctx);
    assert_eq!(ctx.placements[0].id, first_rect);
    assert_eq!(ctx.placements[1].id, first_label);
    // No further identities were allocated.
    assert_eq!(ctx.next_id, allocated);
}

#[test]
fn new_toggle_has_documented_defaults() {
    let toggle = Toggle::new(true);
    assert_eq!(toggle.value, true);
    assert_eq!(toggle.enabled, true);
    assert!(toggle.maybe_label.is_none());
    assert!(toggle.style.color.is_none());
    assert!(toggle.style.border.is_none());
    assert!(toggle.style.border_color.is_none());
    assert!(toggle.style.label_color.is_none());
    assert!(toggle.style.label_font_size.is_none());
    assert_eq!(toggle.style(), toggle_widget::Style::new());
}
