use yarrow_widgets::geometry::{Point, Size};
use yarrow_widgets::style::{Align, Padding, Rgba8, TextProperties};
use yarrow_widgets::toggle_button::{
    ButtonState, PointerButton, StateChangeResult, ToggleButtonEvent, ToggleButtonInner,
    ToggleButtonShared, ToggleButtonStyle,
};

fn button(toggled: bool) -> ToggleButtonInner {
    ToggleButtonInner::new("Mute".to_string(), Point::new(0, 0), toggled, Size::new(30, 16))
}

fn press() -> ToggleButtonEvent {
    ToggleButtonEvent::ButtonJustPressed { button: PointerButton::Primary }
}

#[test]
fn new_button_is_idle() {
    let b = button(true);
    assert_eq!(b.state(), ButtonState::Idle);
    assert!(b.toggled());
    assert_eq!(b.text(), "Mute");
    assert_eq!(b.unclipped_text_size(), Size::new(30, 16));
}

#[test]
fn resolve_style_covers_every_combination() {
    let s = ToggleButtonStyle::default();
    assert_eq!(s.resolve_style(ButtonState::Idle, true), s.idle_on);
    assert_eq!(s.resolve_style(ButtonState::Hovered, true), s.hovered_on);
    assert_eq!(s.resolve_style(ButtonState::Down, true), s.hovered_on);
    assert_eq!(s.resolve_style(ButtonState::Disabled, true), s.disabled_on);
    assert_eq!(s.resolve_style(ButtonState::Idle, false), s.idle_off);
    assert_eq!(s.resolve_style(ButtonState::Hovered, false), s.hovered_off);
    assert_eq!(s.resolve_style(ButtonState::Down, false), s.hovered_off);
    assert_eq!(s.resolve_style(ButtonState::Disabled, false), s.disabled_off);
}

#[test]
fn default_style_values() {
    let s = ToggleButtonStyle::default();
    assert_eq!(s.padding, Padding::new(6, 6, 6, 6));
    assert_eq!(s.vertical_align, Align::Center);
    assert_eq!(s.min_clipped_size, Size::new(5, 5));
    assert_eq!(s.properties, TextProperties { font_size: 14, line_height: 16 });
    assert_eq!(s.idle_off.back_quad.bg, Rgba8::new(40, 40, 40, 255));
    assert_eq!(s.hovered_on.back_quad.border.color, Rgba8::new(135, 135, 135, 255));
    assert_eq!(s.disabled_on.font_color, Rgba8::new(150, 150, 150, 255));
    assert_eq!(s.disabled_on.back_quad.bg, Rgba8::new(76, 76, 76, 255));
    assert_eq!(s.idle_on.font_color, Rgba8::new(255, 255, 255, 255));
}

#[test]
fn label_style_uses_resolved_part() {
    let s = ToggleButtonStyle::default();
    let l = s.label_style(ButtonState::Disabled, false);
    assert_eq!(l.font_color, s.disabled_off.font_color);
    assert_eq!(l.back_quad, s.disabled_off.back_quad);
    assert_eq!(l.padding, s.padding);
    let mut b = button(true);
    b.set_state(ButtonState::Hovered, &s);
    assert_eq!(b.label_style(&s).back_quad, s.hovered_on.back_quad);
}

#[test]
fn state_change_between_equal_parts_needs_no_repaint() {
    let s = ToggleButtonStyle::default();
    let mut b = button(false);
    let r = b.set_state(ButtonState::Hovered, &s);
    assert_eq!(r, StateChangeResult { state_changed: true, needs_repaint: true });
    let r = b.set_state(ButtonState::Down, &s);
    assert_eq!(r, StateChangeResult { state_changed: true, needs_repaint: false });
    let r = b.set_state(ButtonState::Down, &s);
    assert_eq!(r, StateChangeResult { state_changed: false, needs_repaint: false });
    assert_eq!(b.state(), ButtonState::Down);
}

#[test]
fn equal_parts_in_custom_style_need_no_repaint() {
    let mut s = ToggleButtonStyle::default();
    s.disabled_off = s.idle_off;
    let mut b = button(false);
    let r = b.set_state(ButtonState::Disabled, &s);
    assert!(r.state_changed);
    assert!(!r.needs_repaint);
}

#[test]
fn set_toggled_reports_change() {
    let mut b = button(false);
    assert_eq!(b.set_toggled(true), StateChangeResult { state_changed: true, needs_repaint: true });
    assert_eq!(b.set_toggled(true), StateChangeResult { state_changed: false, needs_repaint: false });
    assert!(b.toggled());
}

#[test]
fn press_toggles_once_and_release_does_not() {
    let s = ToggleButtonStyle::default();
    let mut b = button(false);
    let r = b.on_event(press(), &s, false);
    assert!(r.captured);
    assert!(r.request_repaint);
    assert_eq!(r.action, Some(true));
    assert!(b.toggled());
    assert_eq!(b.state(), ButtonState::Down);
    let r = b.on_event(
        ToggleButtonEvent::ButtonJustReleased { button: PointerButton::Primary, within_visible_bounds: true },
        &s,
        false,
    );
    assert!(r.captured);
    assert_eq!(r.action, None);
    assert!(b.toggled());
    assert_eq!(b.state(), ButtonState::Hovered);
    assert!(!r.request_repaint);
}

#[test]
fn press_while_down_does_nothing() {
    let s = ToggleButtonStyle::default();
    let mut b = button(true);
    b.on_event(press(), &s, false);
    let r = b.on_event(press(), &s, false);
    assert!(!r.captured);
    assert_eq!(r.action, None);
    assert!(!b.toggled());
}

#[test]
fn release_outside_goes_idle() {
    let s = ToggleButtonStyle::default();
    let mut b = button(false);
    b.on_event(press(), &s, false);
    let r = b.on_event(
        ToggleButtonEvent::ButtonJustReleased { button: PointerButton::Primary, within_visible_bounds: false },
        &s,
        false,
    );
    assert_eq!(b.state(), ButtonState::Idle);
    assert!(r.request_repaint);
}

#[test]
fn hover_starts_tooltip_timeout() {
    let s = ToggleButtonStyle::default();
    let mut b = button(false);
    let r = b.on_event(ToggleButtonEvent::PointerMoved { just_entered: true }, &s, true);
    assert!(r.captured);
    assert!(r.pointer_cursor);
    assert!(r.start_hover_timeout);
    assert!(r.request_repaint);
    assert_eq!(b.state(), ButtonState::Hovered);
    let r = b.on_event(ToggleButtonEvent::HoverTimeout, &s, true);
    assert!(r.show_tooltip);
    assert!(!r.captured);
    let r = b.on_event(ToggleButtonEvent::PointerLeft, &s, true);
    assert!(r.captured);
    assert!(r.request_repaint);
    assert_eq!(b.state(), ButtonState::Idle);
    let r = b.on_event(ToggleButtonEvent::PointerMoved { just_entered: true }, &s, false);
    assert!(!r.start_hover_timeout);
}

#[test]
fn disabled_button_ignores_pointer() {
    let s = ToggleButtonStyle::default();
    let mut b = button(false);
    assert!(b.set_disabled(true, &s));
    assert!(!b.set_disabled(true, &s));
    assert_eq!(b.state(), ButtonState::Disabled);
    let r = b.on_event(ToggleButtonEvent::PointerMoved { just_entered: true }, &s, true);
    assert!(!r.captured);
    assert!(!r.pointer_cursor);
    let r = b.on_event(press(), &s, false);
    assert_eq!(r.action, None);
    assert!(!b.toggled());
    assert!(b.set_disabled(false, &s));
    assert_eq!(b.state(), ButtonState::Idle);
}

#[test]
fn custom_state_change_repaints() {
    let s = ToggleButtonStyle::default();
    let mut b = button(false);
    let r = b.on_event(ToggleButtonEvent::CustomStateChanged, &s, false);
    assert!(r.request_repaint);
    assert!(!r.captured);
}

#[test]
fn set_text_reports_change() {
    let mut b = button(false);
    assert!(!b.set_text("Mute", Size::new(1, 1)));
    assert_eq!(b.unclipped_text_size(), Size::new(30, 16));
    assert!(b.set_text("Solo", Size::new(28, 16)));
    assert_eq!(b.text(), "Solo");
    assert_eq!(b.unclipped_text_size(), Size::new(28, 16));
}

#[test]
fn set_text_offset_reports_change() {
    let mut b = button(false);
    assert!(!b.set_text_offset(Point::new(0, 0)));
    assert!(b.set_text_offset(Point::new(1, -2)));
}

#[test]
fn shared_style_swap() {
    let mut shared = ToggleButtonShared { inner: button(false), style: ToggleButtonStyle::default() };
    assert!(!shared.set_style(ToggleButtonStyle::default()));
    let mut other = ToggleButtonStyle::default();
    other.padding = Padding::new(1, 1, 1, 1);
    assert!(shared.set_style(other));
    assert_eq!(shared.style.padding, Padding::new(1, 1, 1, 1));
}

#[test]
fn desired_padded_size_adds_padding() {
    let s = ToggleButtonStyle::default();
    let b = button(false);
    assert_eq!(b.desired_padded_size(&s), Some(Size::new(42, 28)));
    let mut wide = ToggleButtonStyle::default();
    wide.padding = Padding::new(0, u32::MAX, 0, 0);
    assert_eq!(b.desired_padded_size(&wide), None);
}

#[test]
fn tooltip_timeout_after_leave_has_no_effect() {
    let s = ToggleButtonStyle::default();
    let mut b = button(false);
    let r = b.on_event(ToggleButtonEvent::PointerMoved { just_entered: true }, &s, true);
    assert!(r.start_hover_timeout);
    b.on_event(ToggleButtonEvent::PointerLeft, &s, true);
    let r = b.on_event(ToggleButtonEvent::HoverTimeout, &s, true);
    assert!(!r.show_tooltip);
    b.on_event(press(), &s, true);
    let r = b.on_event(ToggleButtonEvent::HoverTimeout, &s, true);
    assert!(r.show_tooltip);
}
