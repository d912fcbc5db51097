use vstd::prelude::*;
use crate::geometry::{Point, Size};
use crate::style::{
    Align, BorderStyle, LabelStyle, Padding, QuadStyle, Rgba8, TextProperties,
    default_accent_color, white,
};

verus! {

/// The visual state of a button-class control.
#[derive(Clone, Copy, Debug, PartialEq, Eq, Structural)]
pub enum ButtonState {
    Idle,
    Hovered,
    Down,
    Disabled,
}

/// The paint parameters for one (state, toggled) combination.
#[derive(Clone, Copy, Debug, PartialEq, Eq, Structural)]
pub struct ButtonStylePart {
    pub font_color: Rgba8,
    pub back_quad: QuadStyle,
}

/// The style of a toggle button: shared text settings and one part for each
/// of idle, hovered and disabled, both on and off. A pressed button is drawn
/// with its hovered part.
#[derive(Clone, Copy, Debug, PartialEq, Eq, Structural)]
pub struct ToggleButtonStyle {
    pub properties: TextProperties,
    pub vertical_align: Align,
    pub min_clipped_size: Size,
    pub padding: Padding,
    pub idle_on: ButtonStylePart,
    pub hovered_on: ButtonStylePart,
    pub disabled_on: ButtonStylePart,
    pub idle_off: ButtonStylePart,
    pub hovered_off: ButtonStylePart,
    pub disabled_off: ButtonStylePart,
}

impl ToggleButtonStyle {
    /// The part in effect for `state` and `toggled`.
    pub open spec fn part(self, state: ButtonState, toggled: bool) -> ButtonStylePart {
        if toggled {
            match state {
                ButtonState::Idle => self.idle_on,
                ButtonState::Hovered | ButtonState::Down => self.hovered_on,
                ButtonState::Disabled => self.disabled_on,
            }
        } else {
            match state {
                ButtonState::Idle => self.idle_off,
                ButtonState::Hovered | ButtonState::Down => self.hovered_off,
                ButtonState::Disabled => self.disabled_off,
            }
        }
    }

    /// Looks up the part in effect for `state` and `toggled`.
    pub fn resolve_style(&self, state: ButtonState, toggled: bool) -> (r: ButtonStylePart)
        ensures
            r == self.part(state, toggled),
    {
        if toggled {
            match state {
                ButtonState::Idle => self.idle_on,
                ButtonState::Hovered | ButtonState::Down => self.hovered_on,
                ButtonState::Disabled => self.disabled_on,
            }
        } else {
            match state {
                ButtonState::Idle => self.idle_off,
                ButtonState::Hovered | ButtonState::Down => self.hovered_off,
                ButtonState::Disabled => self.disabled_off,
            }
        }
    }

    /// The label style for `state` and `toggled`: the shared text settings
    /// with the resolved part's font color and background.
    pub fn label_style(&self, state: ButtonState, toggled: bool) -> (r: LabelStyle)
        ensures
            r.properties == self.properties,
            r.font_color == self.part(state, toggled).font_color,
            r.vertical_align == self.vertical_align,
            r.min_clipped_size == self.min_clipped_size,
            r.back_quad == self.part(state, toggled).back_quad,
            r.padding == self.padding,
    {
        let part = self.resolve_style(state, toggled);
        LabelStyle {
            properties: self.properties,
            font_color: part.font_color,
            vertical_align: self.vertical_align,
            min_clipped_size: self.min_clipped_size,
            back_quad: part.back_quad,
            padding: self.padding,
        }
    }
}

/// Every (state, toggled) combination resolves to one of the style's six
/// parts: the one named after it.
pub proof fn lemma_style_total(style: ToggleButtonStyle, state: ButtonState, toggled: bool)
    ensures
        toggled && state is Idle ==> style.part(state, toggled) == style.idle_on,
        toggled && (state is Hovered || state is Down) ==> style.part(state, toggled)
            == style.hovered_on,
        toggled && state is Disabled ==> style.part(state, toggled) == style.disabled_on,
        !toggled && state is Idle ==> style.part(state, toggled) == style.idle_off,
        !toggled && (state is Hovered || state is Down) ==> style.part(state, toggled)
            == style.hovered_off,
        !toggled && state is Disabled ==> style.part(state, toggled) == style.disabled_off,
{
}

/// What a state change did.
#[derive(Clone, Copy, Debug, PartialEq, Eq, Structural)]
pub struct StateChangeResult {
    pub state_changed: bool,
    pub needs_repaint: bool,
}

/// The abstract contents of a [`ToggleButtonInner`].
pub ghost struct ToggleButtonModel {
    pub state: ButtonState,
    pub toggled: bool,
    pub text: Seq<char>,
    pub text_offset: Point,
    pub text_size: Size,
}

/// The interaction state and label contents of a toggle button, reusable by
/// other elements.
pub struct ToggleButtonInner {
    state: ButtonState,
    toggled: bool,
    text: String,
    text_offset: Point,
    text_size: Size,
}

impl View for ToggleButtonInner {
    type V = ToggleButtonModel;

    closed spec fn view(&self) -> ToggleButtonModel {
        ToggleButtonModel {
            state: self.state,
            toggled: self.toggled,
            text: self.text@,
            text_offset: self.text_offset,
            text_size: self.text_size,
        }
    }
}

impl ToggleButtonInner {
    /// A button in the idle state. `text_size` is the unclipped size of
    /// `text` as the text shaper measured it.
    pub fn new(text: String, text_offset: Point, toggled: bool, text_size: Size) -> (r: Self)
        ensures
            r@ == (ToggleButtonModel {
                state: ButtonState::Idle,
                toggled,
                text: text@,
                text_offset,
                text_size,
            }),
    {
        ToggleButtonInner { state: ButtonState::Idle, toggled, text, text_offset, text_size }
    }

    /// Moves to `state`. A repaint is needed only when the resolved style
    /// part differs between the old and the new state.
    pub fn set_state(&mut self, state: ButtonState, style: &ToggleButtonStyle) -> (r:
        StateChangeResult)
        ensures
            final(self)@ == (ToggleButtonModel { state, ..old(self)@ }),
            r.state_changed == (old(self)@.state != state),
            r.needs_repaint == (style.part(old(self)@.state, old(self)@.toggled) != style.part(
                state,
                old(self)@.toggled,
            )),
    {
        if self.state != state {
            let old_part = style.resolve_style(self.state, self.toggled);
            let new_part = style.resolve_style(state, self.toggled);
            let needs_repaint = old_part != new_part;
            self.state = state;
            StateChangeResult { state_changed: true, needs_repaint }
        } else {
            StateChangeResult { state_changed: false, needs_repaint: false }
        }
    }

    pub fn state(&self) -> (r: ButtonState)
        ensures
            r == self@.state,
    {
        self.state
    }

    /// Sets the toggled flag; a change always needs a repaint.
    pub fn set_toggled(&mut self, toggled: bool) -> (r: StateChangeResult)
        ensures
            final(self)@ == (ToggleButtonModel { toggled, ..old(self)@ }),
            r.state_changed == (old(self)@.toggled != toggled),
            r.needs_repaint == (old(self)@.toggled != toggled),
    {
        if self.toggled != toggled {
            self.toggled = toggled;
            StateChangeResult { state_changed: true, needs_repaint: true }
        } else {
            StateChangeResult { state_changed: false, needs_repaint: false }
        }
    }

    pub fn toggled(&self) -> (r: bool)
        ensures
            r == self@.toggled,
    {
        self.toggled
    }

    /// The size of the text without clipping.
    pub fn unclipped_text_size(&self) -> (r: Size)
        ensures
            r == self@.text_size,
    {
        self.text_size
    }

    /// The size of the padded background rectangle if it were to cover the
    /// whole unclipped text, or `None` if that size does not fit the size
    /// type.
    pub fn desired_padded_size(&self, style: &ToggleButtonStyle) -> (r: Option<Size>)
        ensures
            ({
                let w = self@.text_size.width + style.padding.left + style.padding.right;
                let h = self@.text_size.height + style.padding.top + style.padding.bottom;
                if w <= u32::MAX && h <= u32::MAX {
                    r == Some(Size { width: w as u32, height: h as u32 })
                } else {
                    r is None
                }
            }),
    {
        let w: u64 = self.text_size.width as u64 + style.padding.left as u64
            + style.padding.right as u64;
        let h: u64 = self.text_size.height as u64 + style.padding.top as u64
            + style.padding.bottom as u64;
        if w <= u32::MAX as u64 && h <= u32::MAX as u64 {
            Some(Size::new(w as u32, h as u32))
        } else {
            None
        }
    }

    /// Replaces the text, with `text_size` its measured unclipped size.
    /// Returns `true` if the text has changed; otherwise nothing changes.
    pub fn set_text(&mut self, text: &str, text_size: Size) -> (r: bool)
        ensures
            r == (old(self)@.text != text@),
            r ==> final(self)@ == (ToggleButtonModel {
                text: text@,
                text_size,
                ..old(self)@
            }),
            !r ==> final(self)@ == old(self)@,
    {
        let new_text = text.to_owned();
        if self.text != new_text {
            self.text = new_text;
            self.text_size = text_size;
            true
        } else {
            false
        }
    }

    pub fn text(&self) -> (r: &str)
        ensures
            r@ == self@.text,
    {
        self.text.as_str()
    }

    /// The label style for the current state and toggled flag.
    pub fn label_style(&self, style: &ToggleButtonStyle) -> (r: LabelStyle)
        ensures
            r.font_color == style.part(self@.state, self@.toggled).font_color,
            r.back_quad == style.part(self@.state, self@.toggled).back_quad,
            r.properties == style.properties,
            r.vertical_align == style.vertical_align,
            r.min_clipped_size == style.min_clipped_size,
            r.padding == style.padding,
    {
        style.label_style(self.state, self.toggled)
    }

    pub fn text_offset(&self) -> (r: Point)
        ensures
            r == self@.text_offset,
    {
        self.text_offset
    }

    /// An offset that corrects the position of the text (mainly icon glyphs);
    /// it does not move the background. Returns `true` if it has changed.
    pub fn set_text_offset(&mut self, offset: Point) -> (r: bool)
        ensures
            r == (old(self)@.text_offset != offset),
            final(self)@ == (ToggleButtonModel { text_offset: offset, ..old(self)@ }),
    {
        if self.text_offset != offset {
            self.text_offset = offset;
            true
        } else {
            false
        }
    }
}


/// A pointer button.
#[derive(Clone, Copy, Debug, PartialEq, Eq, Structural)]
pub enum PointerButton {
    Primary,
    Secondary,
    Middle,
}

/// An event delivered to a toggle button element by the view tree.
#[derive(Clone, Copy, Debug, PartialEq, Eq, Structural)]
pub enum ToggleButtonEvent {
    /// The handle changed the shared configuration.
    CustomStateChanged,
    PointerMoved { just_entered: bool },
    PointerLeft,
    ButtonJustPressed { button: PointerButton },
    /// A button was released; `within_visible_bounds` says whether the
    /// release point lies inside the element's visible bounds.
    ButtonJustReleased { button: PointerButton, within_visible_bounds: bool },
    HoverTimeout,
}

/// What the element asks of the view tree after an event.
#[derive(Clone, Copy, Debug, PartialEq, Eq, Structural)]
pub struct ToggleButtonResponse {
    pub captured: bool,
    pub request_repaint: bool,
    /// Show the pointer (hand) cursor.
    pub pointer_cursor: bool,
    pub start_hover_timeout: bool,
    pub show_tooltip: bool,
    /// The toggled value to hand to the action callback, if it fires.
    pub action: Option<bool>,
}

/// Whether a press of `button` in `state` toggles the button.
pub open spec fn press_accepted(state: ButtonState, button: PointerButton) -> bool {
    button is Primary && (state is Idle || state is Hovered)
}

/// Whether a release of `button` in `state` ends a press or hover.
pub open spec fn release_accepted(state: ButtonState, button: PointerButton) -> bool {
    button is Primary && (state is Down || state is Hovered)
}

/// The (state, toggled) pair after `ev`.
pub open spec fn next_state(state: ButtonState, toggled: bool, ev: ToggleButtonEvent) -> (
    ButtonState,
    bool,
) {
    match ev {
        ToggleButtonEvent::PointerMoved { .. } => if state is Idle {
            (ButtonState::Hovered, toggled)
        } else {
            (state, toggled)
        },
        ToggleButtonEvent::PointerLeft => if state is Hovered || state is Down {
            (ButtonState::Idle, toggled)
        } else {
            (state, toggled)
        },
        ToggleButtonEvent::ButtonJustPressed { button } => if press_accepted(state, button) {
            (ButtonState::Down, !toggled)
        } else {
            (state, toggled)
        },
        ToggleButtonEvent::ButtonJustReleased { button, within_visible_bounds } => if release_accepted(
            state,
            button,
        ) {
            (
                if within_visible_bounds {
                    ButtonState::Hovered
                } else {
                    ButtonState::Idle
                },
                toggled,
            )
        } else {
            (state, toggled)
        },
        _ => (state, toggled),
    }
}

/// Whether the element handles `ev` itself rather than passing it on.
pub open spec fn event_captured(state: ButtonState, ev: ToggleButtonEvent) -> bool {
    match ev {
        ToggleButtonEvent::PointerMoved { .. } => !(state is Disabled),
        ToggleButtonEvent::PointerLeft => state is Hovered || state is Down,
        ToggleButtonEvent::ButtonJustPressed { button } => press_accepted(state, button),
        ToggleButtonEvent::ButtonJustReleased { button, .. } => release_accepted(state, button),
        _ => false,
    }
}

/// The response to `ev`. A state change asks for a repaint only when the
/// resolved style part changes; a toggle always does; the action fires on the
/// press that toggles, with the new value. A hover timeout shows the tooltip
/// only while the pointer is still over the button: one that fires after the
/// pointer left has no effect.
pub open spec fn event_response(
    style: ToggleButtonStyle,
    state: ButtonState,
    toggled: bool,
    ev: ToggleButtonEvent,
    has_tooltip: bool,
) -> ToggleButtonResponse {
    let (s2, t2) = next_state(state, toggled, ev);
    let moved_active = ev is PointerMoved && !(state is Disabled);
    let pressed = match ev {
        ToggleButtonEvent::ButtonJustPressed { button } => press_accepted(state, button),
        _ => false,
    };
    ToggleButtonResponse {
        captured: event_captured(state, ev),
        request_repaint: if ev is CustomStateChanged || pressed {
            true
        } else {
            style.part(state, toggled) != style.part(s2, t2)
        },
        pointer_cursor: moved_active,
        start_hover_timeout: match ev {
            ToggleButtonEvent::PointerMoved { just_entered } => moved_active && just_entered
                && has_tooltip,
            _ => false,
        },
        show_tooltip: ev is HoverTimeout && has_tooltip && (state is Hovered || state is Down),
        action: if pressed {
            Some(t2)
        } else {
            None
        },
    }
}

impl ToggleButtonInner {
    /// Drives the state machine with one event. `has_tooltip` says whether a
    /// tooltip message is attached to the element.
    pub fn on_event(
        &mut self,
        event: ToggleButtonEvent,
        style: &ToggleButtonStyle,
        has_tooltip: bool,
    ) -> (r: ToggleButtonResponse)
        ensures
            final(self)@ == (ToggleButtonModel {
                state: next_state(old(self)@.state, old(self)@.toggled, event).0,
                toggled: next_state(old(self)@.state, old(self)@.toggled, event).1,
                ..old(self)@
            }),
            r == event_response(*style, old(self)@.state, old(self)@.toggled, event, has_tooltip),
    {
        let mut r = ToggleButtonResponse {
            captured: false,
            request_repaint: false,
            pointer_cursor: false,
            start_hover_timeout: false,
            show_tooltip: false,
            action: None,
        };
        match event {
            ToggleButtonEvent::CustomStateChanged => {
                r.request_repaint = true;
            },
            ToggleButtonEvent::PointerMoved { just_entered } => {
                if self.state != ButtonState::Disabled {
                    r.pointer_cursor = true;
                    r.start_hover_timeout = just_entered && has_tooltip;
                    if self.state == ButtonState::Idle {
                        let res = self.set_state(ButtonState::Hovered, style);
                        r.request_repaint = res.needs_repaint;
                    }
                    r.captured = true;
                }
            },
            ToggleButtonEvent::PointerLeft => {
                if self.state == ButtonState::Hovered || self.state == ButtonState::Down {
                    let res = self.set_state(ButtonState::Idle, style);
                    r.request_repaint = res.needs_repaint;
                    r.captured = true;
                }
            },
            ToggleButtonEvent::ButtonJustPressed { button } => {
                if button == PointerButton::Primary && (self.state == ButtonState::Idle
                    || self.state == ButtonState::Hovered) {
                    let res1 = self.set_state(ButtonState::Down, style);
                    let res2 = self.set_toggled(!self.toggled);
                    r.request_repaint = res1.needs_repaint || res2.needs_repaint;
                    r.action = Some(self.toggled);
                    r.captured = true;
                }
            },
            ToggleButtonEvent::ButtonJustReleased { button, within_visible_bounds } => {
                if button == PointerButton::Primary && (self.state == ButtonState::Down
                    || self.state == ButtonState::Hovered) {
                    let new_state = if within_visible_bounds {
                        ButtonState::Hovered
                    } else {
                        ButtonState::Idle
                    };
                    let res = self.set_state(new_state, style);
                    r.request_repaint = res.needs_repaint;
                    r.captured = true;
                }
            },
            ToggleButtonEvent::HoverTimeout => {
                r.show_tooltip = has_tooltip && (self.state == ButtonState::Hovered || self.state
                    == ButtonState::Down);
            },
        }
        r
    }

    /// Enables or disables the button. A disabled button goes back to idle
    /// when enabled. Returns `true` if the state changed, so that the element
    /// must be notified.
    pub fn set_disabled(&mut self, disabled: bool, style: &ToggleButtonStyle) -> (r: bool)
        ensures
            r == (disabled != (old(self)@.state is Disabled)),
            final(self)@ == (ToggleButtonModel {
                state: if !r {
                    old(self)@.state
                } else if disabled {
                    ButtonState::Disabled
                } else {
                    ButtonState::Idle
                },
                ..old(self)@
            }),
    {
        if disabled && self.state != ButtonState::Disabled {
            self.set_state(ButtonState::Disabled, style);
            true
        } else if !disabled && self.state == ButtonState::Disabled {
            self.set_state(ButtonState::Idle, style);
            true
        } else {
            false
        }
    }
}


/// A pointer event that changes only the interaction state asks for a repaint
/// exactly when the resolved style part before and after it differ.
pub proof fn lemma_repaint_minimal(
    style: ToggleButtonStyle,
    state: ButtonState,
    toggled: bool,
    ev: ToggleButtonEvent,
    has_tooltip: bool,
)
    requires
        ev is PointerMoved || ev is PointerLeft || ev is ButtonJustReleased,
    ensures
        next_state(state, toggled, ev).1 == toggled,
        event_response(style, state, toggled, ev, has_tooltip).request_repaint == (style.part(
            state,
            toggled,
        ) != style.part(next_state(state, toggled, ev).0, toggled)),
{
}

/// One primary press on an enabled, unpressed toggle button flips the toggled
/// flag once and fires the action once with the new value; the release that
/// follows keeps the flag and fires nothing.
pub proof fn lemma_toggle_fires_once(
    style: ToggleButtonStyle,
    state: ButtonState,
    toggled: bool,
    within_visible_bounds: bool,
    has_tooltip: bool,
)
    requires
        state is Idle || state is Hovered,
    ensures
        ({
            let press = ToggleButtonEvent::ButtonJustPressed { button: PointerButton::Primary };
            let release = ToggleButtonEvent::ButtonJustReleased {
                button: PointerButton::Primary,
                within_visible_bounds,
            };
            let (s1, t1) = next_state(state, toggled, press);
            let (s2, t2) = next_state(s1, t1, release);
            &&& t1 == !toggled
            &&& event_response(style, state, toggled, press, has_tooltip).action == Some(!toggled)
            &&& t2 == t1
            &&& event_response(style, s1, t1, release, has_tooltip).action is None
        }),
{
}

/// Only a press that toggles the button fires the action.
pub proof fn lemma_action_only_on_toggle(
    style: ToggleButtonStyle,
    state: ButtonState,
    toggled: bool,
    ev: ToggleButtonEvent,
    has_tooltip: bool,
)
    ensures
        event_response(style, state, toggled, ev, has_tooltip).action is Some
            <==> next_state(state, toggled, ev).1 != toggled,
{
}

impl Default for ToggleButtonStyle {
    fn default() -> (r: Self)
        ensures
            r.properties == (TextProperties { font_size: 14, line_height: 16 }),
            r.vertical_align == Align::Center,
            r.min_clipped_size == (Size { width: 5, height: 5 }),
            r.padding == (Padding { top: 6, right: 6, bottom: 6, left: 6 }),
            r.idle_on == (ButtonStylePart {
                font_color: Rgba8 { r: 255, g: 255, b: 255, a: 255 },
                back_quad: QuadStyle {
                    bg: Rgba8 { r: 179, g: 123, b: 255, a: 255 },
                    border: BorderStyle {
                        color: Rgba8 { r: 105, g: 105, b: 105, a: 255 },
                        width: 1,
                        radius: 4,
                    },
                },
            }),
            r.hovered_on == (ButtonStylePart {
                back_quad: QuadStyle {
                    border: BorderStyle {
                        color: Rgba8 { r: 135, g: 135, b: 135, a: 255 },
                        ..r.idle_on.back_quad.border
                    },
                    ..r.idle_on.back_quad
                },
                ..r.idle_on
            }),
            r.disabled_on == (ButtonStylePart {
                font_color: Rgba8 { r: 150, g: 150, b: 150, a: 255 },
                back_quad: QuadStyle {
                    bg: Rgba8 { r: 76, g: 76, b: 76, a: 255 },
                    border: BorderStyle {
                        color: Rgba8 { r: 80, g: 80, b: 80, a: 255 },
                        ..r.idle_on.back_quad.border
                    },
                },
            }),
            r.idle_off == (ButtonStylePart {
                back_quad: QuadStyle {
                    bg: Rgba8 { r: 40, g: 40, b: 40, a: 255 },
                    ..r.idle_on.back_quad
                },
                ..r.idle_on
            }),
            r.hovered_off == (ButtonStylePart {
                back_quad: QuadStyle {
                    border: BorderStyle {
                        color: Rgba8 { r: 135, g: 135, b: 135, a: 255 },
                        ..r.idle_off.back_quad.border
                    },
                    ..r.idle_off.back_quad
                },
                ..r.idle_off
            }),
            r.disabled_off == (ButtonStylePart {
                font_color: Rgba8 { r: 150, g: 150, b: 150, a: 255 },
                back_quad: QuadStyle {
                    bg: Rgba8 { r: 40, g: 40, b: 40, a: 255 },
                    border: BorderStyle {
                        color: Rgba8 { r: 80, g: 80, b: 80, a: 255 },
                        ..r.idle_off.back_quad.border
                    },
                },
            }),
    {
        let idle_on = ButtonStylePart {
            font_color: white(),
            back_quad: QuadStyle {
                bg: default_accent_color(),
                border: BorderStyle { color: Rgba8::new(105, 105, 105, 255), width: 1, radius: 4 },
            },
        };
        let idle_off = ButtonStylePart {
            back_quad: QuadStyle { bg: Rgba8::new(40, 40, 40, 255), ..idle_on.back_quad },
            ..idle_on
        };
        ToggleButtonStyle {
            properties: TextProperties { font_size: 14, line_height: 16 },
            vertical_align: Align::Center,
            min_clipped_size: Size::new(5, 5),
            padding: Padding::new(6, 6, 6, 6),
            idle_on,
            hovered_on: ButtonStylePart {
                back_quad: QuadStyle {
                    border: BorderStyle {
                        color: Rgba8::new(135, 135, 135, 255),
                        ..idle_on.back_quad.border
                    },
                    ..idle_on.back_quad
                },
                ..idle_on
            },
            disabled_on: ButtonStylePart {
                font_color: Rgba8::new(150, 150, 150, 255),
                back_quad: QuadStyle {
                    bg: Rgba8::new(76, 76, 76, 255),
                    border: BorderStyle {
                        color: Rgba8::new(80, 80, 80, 255),
                        ..idle_on.back_quad.border
                    },
                },
            },
            idle_off,
            hovered_off: ButtonStylePart {
                back_quad: QuadStyle {
                    border: BorderStyle {
                        color: Rgba8::new(135, 135, 135, 255),
                        ..idle_off.back_quad.border
                    },
                    ..idle_off.back_quad
                },
                ..idle_off
            },
            disabled_off: ButtonStylePart {
                font_color: Rgba8::new(150, 150, 150, 255),
                back_quad: QuadStyle {
                    bg: Rgba8::new(40, 40, 40, 255),
                    border: BorderStyle {
                        color: Rgba8::new(80, 80, 80, 255),
                        ..idle_off.back_quad.border
                    },
                },
            },
        }
    }
}


/// The configuration that a toggle button's handle and its element share.
pub struct ToggleButtonShared {
    pub inner: ToggleButtonInner,
    pub style: ToggleButtonStyle,
}

impl ToggleButtonShared {
    /// Swaps in a new style. Returns `false`, changing nothing, when it is the
    /// style already in place; otherwise the element must be notified.
    pub fn set_style(&mut self, style: ToggleButtonStyle) -> (r: bool)
        ensures
            r == (style != old(self).style),
            final(self).style == style,
            final(self).inner@ == old(self).inner@,
    {
        if self.style != style {
            self.style = style;
            true
        } else {
            false
        }
    }
}

} // verus!
