//! Reactive widget core: integer geometry, overlay containment, the
//! button-class interaction state machine, menu row layout and hit-testing,
//! and the configuration cell shared between a widget handle and its element.

pub mod geometry;
pub mod menu;
pub mod menu_config;
pub mod menu_element;
pub mod overlay;
pub mod style;
pub mod toggle_button;
