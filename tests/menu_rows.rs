use yarrow_widgets::geometry::{Point, Rect, Size};
use yarrow_widgets::menu::{hit_test, rows_from_entries, with_widths, DropDownMenuStyle, MenuEntry, MenuRow};
use yarrow_widgets::menu_config::{MeasureRequest, MenuSharedState};
use yarrow_widgets::menu_element::{CursorIcon, DropDownMenuElement, MenuEvent, RowPaint};
use yarrow_widgets::style::{Padding, TextProperties};
use yarrow_widgets::toggle_button::PointerButton;

fn option(left: &str, right: &str, id: usize) -> MenuEntry {
    MenuEntry::Option { left_text: left.to_string(), right_text: right.to_string(), unique_id: id }
}

fn scenario_style() -> DropDownMenuStyle {
    let mut style = DropDownMenuStyle::default();
    style.left_text_properties = TextProperties { font_size: 10, line_height: 10 };
    style.right_text_properties = TextProperties { font_size: 10, line_height: 8 };
    style.left_text_padding = Padding::new(5, 10, 5, 10);
    style.right_text_padding = Padding::new(5, 10, 5, 30);
    style.divider_width = 1;
    style.divider_padding = 2;
    style.outer_padding = 4;
    style
}

fn scenario_rows() -> Vec<MenuRow> {
    let entries = vec![option("A", "1", 0), MenuEntry::Divider, option("B", "2", 1)];
    let mut rows = rows_from_entries(&entries, &vec![50, 0, 70]);
    let size = scenario_style().measure(&mut rows);
    assert_eq!(size, Size::new(78, 53));
    rows
}

#[test]
fn row_height_is_taller_label() {
    assert_eq!(scenario_style().text_row_height(), 20);
}

#[test]
fn menu_scenario_offsets() {
    let rows = scenario_rows();
    assert_eq!(rows[0], MenuRow::Option { unique_id: 0, width: 50, start_y: 4, end_y: 24 });
    assert_eq!(rows[1], MenuRow::Divider { y: 26 });
    assert_eq!(rows[2], MenuRow::Option { unique_id: 1, width: 70, start_y: 29, end_y: 49 });
}

#[test]
fn menu_scenario_hit_tests() {
    let rows = scenario_rows();
    assert_eq!(hit_test(&rows, 10), Some(0));
    assert_eq!(hit_test(&rows, 40), Some(2));
    assert_eq!(hit_test(&rows, 27), None);
    assert_eq!(hit_test(&rows, 26), None);
    assert_eq!(hit_test(&rows, 24), None);
    assert_eq!(hit_test(&rows, 4), Some(0));
    assert_eq!(hit_test(&rows, 3), None);
    assert_eq!(hit_test(&rows, 49), None);
    assert_eq!(hit_test(&rows, -5), None);
}

#[test]
fn measure_empty_is_zero() {
    let mut rows: Vec<MenuRow> = Vec::new();
    assert_eq!(scenario_style().measure(&mut rows), Size::new(0, 0));
    assert!(rows.is_empty());
}

#[test]
fn measure_default_style() {
    let style = DropDownMenuStyle::default();
    assert_eq!(style.text_row_height(), 26);
    let mut rows = rows_from_entries(&vec![option("x", "y", 7)], &vec![33]);
    assert_eq!(style.measure(&mut rows), Size::new(41, 34));
    assert_eq!(rows[0], MenuRow::Option { unique_id: 7, width: 33, start_y: 4, end_y: 30 });
}

#[test]
fn with_widths_keeps_offsets() {
    let rows = scenario_rows();
    let re = with_widths(&rows, &vec![5, 9, 6]);
    assert_eq!(re[0], MenuRow::Option { unique_id: 0, width: 5, start_y: 4, end_y: 24 });
    assert_eq!(re[1], MenuRow::Divider { y: 26 });
    assert_eq!(re[2], MenuRow::Option { unique_id: 1, width: 6, start_y: 29, end_y: 49 });
}

#[test]
fn dual_label_colors_follow_hover() {
    let mut style = DropDownMenuStyle::default();
    style.left_text_color_hover.r = 1;
    assert_eq!(style.dual_label_style(true).left_font_color.r, 1);
    assert_eq!(style.dual_label_style(false).left_font_color.r, 255);
}

#[test]
fn second_entries_replacement_wins() {
    let mut cell = MenuSharedState::new(DropDownMenuStyle::default());
    cell.set_entries(vec![option("a", "", 1)]);
    cell.set_entries(vec![option("b", "", 2), MenuEntry::Divider]);
    let pending = cell.drain();
    assert_eq!(pending.new_entries, Some(vec![option("b", "", 2), MenuEntry::Divider]));
    assert_eq!(pending.measure_request(), MeasureRequest::Rebuild);
    let again = cell.drain();
    assert_eq!(again.new_entries, None);
    assert!(!again.style_changed);
    assert!(!again.open_requested);
    assert_eq!(again.measure_request(), MeasureRequest::Keep);
}

#[test]
fn entries_take_precedence_over_style() {
    let mut cell = MenuSharedState::new(DropDownMenuStyle::default());
    assert!(cell.set_style(scenario_style()));
    cell.set_entries(vec![MenuEntry::Divider]);
    let pending = cell.drain();
    assert!(pending.style_changed);
    assert_eq!(pending.measure_request(), MeasureRequest::Rebuild);
}

#[test]
fn same_style_is_a_no_op() {
    let mut cell = MenuSharedState::new(DropDownMenuStyle::default());
    assert!(!cell.set_style(DropDownMenuStyle::default()));
    let pending = cell.drain();
    assert!(!pending.style_changed);
    assert!(cell.set_style(scenario_style()));
    let pending = cell.drain();
    assert!(pending.style_changed);
    assert_eq!(pending.measure_request(), MeasureRequest::Restyle);
    assert_eq!(cell.style(), scenario_style());
}

#[test]
fn open_request_is_drained_once() {
    let mut cell = MenuSharedState::new(DropDownMenuStyle::default());
    cell.request_open();
    assert!(cell.drain().open_requested);
    assert!(!cell.drain().open_requested);
}

fn open_menu() -> DropDownMenuElement {
    let style = scenario_style();
    let entries = vec![option("A", "1", 0), MenuEntry::Divider, option("B", "2", 1)];
    let rows = rows_from_entries(&entries, &vec![50, 0, 70]);
    let mut el = DropDownMenuElement::new(rows, &style);
    let r = el.apply_update(true, None, &style, Point::new(750, 10), Size::new(800, 600));
    assert!(r.request_focus);
    assert!(!r.request_repaint);
    assert_eq!(r.new_bounds, Some(Rect::new(Point::new(722, 10), Size::new(78, 53))));
    assert!(el.is_active());
    el
}

#[test]
fn opening_fits_menu_into_window() {
    let el = open_menu();
    assert_eq!(el.size(), Size::new(78, 53));
}

#[test]
fn new_rows_on_closed_menu_shrink_it() {
    let style = scenario_style();
    let mut el = DropDownMenuElement::new(Vec::new(), &style);
    assert_eq!(el.size(), Size::new(0, 0));
    let rows = rows_from_entries(&vec![option("A", "1", 3)], &vec![10]);
    let r = el.apply_update(false, Some(rows), &style, Point::new(5, 6), Size::new(800, 600));
    assert_eq!(r.new_bounds, Some(Rect::new(Point::new(5, 6), Size::new(0, 0))));
    assert!(!r.request_repaint);
    assert!(!r.request_focus);
    assert_eq!(el.size(), Size::new(18, 28));
}

#[test]
fn new_rows_on_open_menu_repaint() {
    let style = scenario_style();
    let mut el = open_menu();
    let rows = rows_from_entries(&vec![option("A", "1", 3)], &vec![10]);
    let r = el.apply_update(true, Some(rows), &style, Point::new(700, 10), Size::new(800, 600));
    assert!(!r.request_focus);
    assert!(r.request_repaint);
    assert_eq!(r.new_bounds, Some(Rect::new(Point::new(700, 10), Size::new(18, 28))));
}

#[test]
fn hover_and_select_entries() {
    let mut el = open_menu();
    let bounds = Rect::new(Point::new(722, 10), Size::new(78, 53));
    let v = Size::new(800, 600);
    let r = el.on_event(MenuEvent::PointerMoved { position: Point::new(730, 20) }, bounds, v);
    assert!(r.captured);
    assert!(r.request_repaint);
    assert_eq!(r.cursor, Some(CursorIcon::Pointer));
    assert_eq!(el.hovered_entry_index(), Some(0));
    let r = el.on_event(MenuEvent::PointerMoved { position: Point::new(731, 21) }, bounds, v);
    assert!(!r.request_repaint);
    let r = el.on_event(MenuEvent::PointerMoved { position: Point::new(730, 37) }, bounds, v);
    assert!(r.request_repaint);
    assert_eq!(r.cursor, None);
    assert_eq!(el.hovered_entry_index(), None);
    let r = el.on_event(
        MenuEvent::ButtonJustPressed { button: PointerButton::Primary, position: Point::new(730, 50) },
        bounds,
        v,
    );
    assert_eq!(r.selected, Some(1));
    assert!(r.release_focus);
    assert_eq!(r.cursor, Some(CursorIcon::Default));
    let r = el.on_event(
        MenuEvent::ButtonJustPressed { button: PointerButton::Secondary, position: Point::new(730, 50) },
        bounds,
        v,
    );
    assert_eq!(r.selected, None);
    assert!(r.captured);
}

#[test]
fn focus_loss_closes_menu() {
    let mut el = open_menu();
    let bounds = Rect::new(Point::new(722, 10), Size::new(78, 53));
    let r = el.on_event(MenuEvent::FocusLost, bounds, Size::new(800, 600));
    assert!(r.release_focus);
    assert_eq!(r.new_bounds, Some(Rect::new(Point::new(722, 10), Size::new(0, 0))));
    assert!(!el.is_active());
    let r = el.on_event(MenuEvent::PointerMoved { position: Point::new(730, 20) }, bounds, Size::new(800, 600));
    assert!(!r.captured);
    let r = el.on_event(MenuEvent::PointerLeft, bounds, Size::new(800, 600));
    assert!(!r.captured);
}

#[test]
fn moved_menu_is_refitted() {
    let mut el = open_menu();
    let r = el.on_event(
        MenuEvent::PositionChanged,
        Rect::new(Point::new(790, 10), Size::new(78, 53)),
        Size::new(800, 600),
    );
    assert_eq!(r.new_bounds, Some(Rect::new(Point::new(722, 10), Size::new(78, 53))));
    assert!(!r.captured);
    let r = el.on_event(MenuEvent::ClickedOff, Rect::new(Point::new(1, 1), Size::new(1, 1)), Size::new(800, 600));
    assert!(r.release_focus);
    assert!(!r.captured);
}

#[test]
fn paint_plan_places_rows() {
    let style = scenario_style();
    let mut el = open_menu();
    let bounds = Rect::new(Point::new(722, 10), Size::new(78, 53));
    let plan = el.paint_plan(&style, Size::new(78, 53));
    assert_eq!(plan.background, Rect::new(Point::new(0, 0), Size::new(78, 53)));
    assert_eq!(plan.hover, None);
    el.on_event(MenuEvent::PointerMoved { position: Point::new(730, 45) }, bounds, Size::new(800, 600));
    let plan = el.paint_plan(&style, Size::new(78, 53));
    assert_eq!(plan.hover, Some(Rect::new(Point::new(4, 29), Size::new(70, 20))));
    assert_eq!(plan.rows.len(), 3);
    assert_eq!(plan.rows[0], RowPaint::Label { rect: Rect::new(Point::new(4, 4), Size::new(70, 20)), hovered: false });
    assert_eq!(plan.rows[1], RowPaint::Divider { rect: Rect::new(Point::new(4, 26), Size::new(70, 1)) });
    assert_eq!(plan.rows[2], RowPaint::Label { rect: Rect::new(Point::new(4, 29), Size::new(70, 20)), hovered: true });
}
