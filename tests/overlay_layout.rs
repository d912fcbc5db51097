use yarrow_widgets::geometry::{Point, Rect, Size};
use yarrow_widgets::overlay::{fit_bounds, layout};

fn rect(x: i64, y: i64, w: u32, h: u32) -> Rect {
    Rect::new(Point::new(x, y), Size::new(w, h))
}

#[test]
fn overlay_left_of_viewport_snaps_to_zero() {
    let info = layout(rect(-10, 50, 200, 100), Size::new(800, 600));
    assert_eq!(info.new_bounds, Some(rect(0, 50, 200, 100)));
    assert!(!info.width_clipped);
    assert!(!info.height_clipped);
}

#[test]
fn overlay_past_right_edge_moves_back() {
    let info = layout(rect(700, 50, 200, 100), Size::new(800, 600));
    assert_eq!(info.new_bounds, Some(rect(600, 50, 200, 100)));
    assert!(!info.width_clipped);
}

#[test]
fn overlay_inside_needs_no_correction() {
    let info = layout(rect(10, 20, 200, 100), Size::new(800, 600));
    assert_eq!(info.new_bounds, None);
    assert!(!info.width_clipped);
    assert!(!info.height_clipped);
}

#[test]
fn overlay_touching_bottom_right_needs_no_correction() {
    let info = layout(rect(600, 500, 200, 100), Size::new(800, 600));
    assert_eq!(info.new_bounds, None);
}

#[test]
fn overlay_on_left_edge_needs_no_correction() {
    let info = layout(rect(0, 20, 200, 100), Size::new(800, 600));
    assert_eq!(info.new_bounds, None);
    let info = layout(rect(0, 0, 800, 600), Size::new(800, 600));
    assert_eq!(info.new_bounds, None);
}

#[test]
fn overlay_snapped_to_left_edge_is_stable() {
    let v = Size::new(800, 600);
    let first = fit_bounds(rect(-10, 50, 200, 100), v);
    assert_eq!(first, rect(0, 50, 200, 100));
    assert_eq!(layout(first, v).new_bounds, None);
}

#[test]
fn overlay_larger_than_viewport_is_clipped() {
    let info = layout(rect(100, 100, 1000, 700), Size::new(800, 600));
    assert_eq!(info.new_bounds, Some(rect(0, 0, 800, 600)));
    assert!(info.width_clipped);
    assert!(info.height_clipped);
}

#[test]
fn overlay_below_bottom_edge_moves_up() {
    let info = layout(rect(50, 580, 100, 100), Size::new(800, 600));
    assert_eq!(info.new_bounds, Some(rect(50, 500, 100, 100)));
    assert!(!info.height_clipped);
}

#[test]
fn overlay_layout_twice_is_stable() {
    let v = Size::new(800, 600);
    let first = fit_bounds(rect(700, 580, 200, 100), v);
    assert_eq!(first, rect(600, 500, 200, 100));
    assert_eq!(layout(first, v).new_bounds, None);
}

#[test]
fn fit_bounds_keeps_fitting_rect() {
    let r = rect(5, 5, 10, 10);
    assert_eq!(fit_bounds(r, Size::new(100, 100)), r);
}

#[test]
fn rect_contains_half_open() {
    let r = rect(10, 10, 5, 5);
    assert!(r.contains(Point::new(10, 10)));
    assert!(r.contains(Point::new(14, 14)));
    assert!(!r.contains(Point::new(15, 10)));
    assert!(!r.contains(Point::new(10, 15)));
    assert!(!r.contains(Point::new(9, 12)));
}
