use vstd::prelude::*;
use crate::geometry::{Point, Rect, Size};

verus! {

/// The outcome of fitting an overlay rectangle into the window.
#[derive(Clone, Copy, Debug, PartialEq, Eq, Structural)]
pub struct LayoutInfo {
    /// The corrected rectangle, or `None` when the requested one already fits
    /// and the caller keeps it unchanged.
    pub new_bounds: Option<Rect>,
    pub width_clipped: bool,
    pub height_clipped: bool,
}

/// A length clamped to the viewport's length along the same axis.
pub open spec fn clamped_len(len: u32, viewport: u32) -> u32 {
    if len > viewport {
        viewport
    } else {
        len
    }
}

/// Whether an edge at `pos` with extent `len` has to be moved: it starts
/// before the viewport's leading edge, or runs past its trailing edge.
pub open spec fn needs_reposition(pos: i64, len: u32, viewport: u32) -> bool {
    pos < 0 || pos + len > viewport
}

/// Where an edge at `pos` with extent `len` (already clamped) ends up.
pub open spec fn fitted_pos(pos: i64, len: u32, viewport: u32) -> i64 {
    if pos < 0 {
        0
    } else if pos + len > viewport {
        (viewport - len) as i64
    } else {
        pos
    }
}

/// The containment layout of `r` inside a viewport of size `v` at the origin.
pub open spec fn layout_spec(r: Rect, v: Size) -> LayoutInfo {
    let w = clamped_len(r.size.width, v.width);
    let h = clamped_len(r.size.height, v.height);
    let width_clipped = r.size.width > v.width;
    let height_clipped = r.size.height > v.height;
    let corrected = width_clipped || height_clipped || needs_reposition(r.origin.x, w, v.width)
        || needs_reposition(r.origin.y, h, v.height);
    LayoutInfo {
        new_bounds: if corrected {
            Some(
                Rect {
                    origin: Point {
                        x: fitted_pos(r.origin.x, w, v.width),
                        y: fitted_pos(r.origin.y, h, v.height),
                    },
                    size: Size { width: w, height: h },
                },
            )
        } else {
            None
        },
        width_clipped,
        height_clipped,
    }
}

/// The rectangle a caller ends up with: the correction if there is one, else
/// the requested rectangle itself.
pub open spec fn applied_bounds(r: Rect, v: Size) -> Rect {
    match layout_spec(r, v).new_bounds {
        Some(b) => b,
        None => r,
    }
}

/// Whether `r` lies wholly inside a viewport of size `v` at the origin.
pub open spec fn fully_inside(r: Rect, v: Size) -> bool {
    0 <= r.origin.x && r.origin.x + r.size.width <= v.width && 0 <= r.origin.y && r.origin.y
        + r.size.height <= v.height
}

/// Resizes and repositions `current_bounds` so that it stays inside a window
/// of size `window_size`.
///
/// Each side is first clamped to the window's length along that axis. An
/// edge before the window's leading edge snaps to `0`; one whose far
/// side runs past the window's trailing edge is moved back so that the far
/// side meets it. When nothing was clamped or moved, `new_bounds` is `None`.
pub fn layout(current_bounds: Rect, window_size: Size) -> (r: LayoutInfo)
    ensures
        r == layout_spec(current_bounds, window_size),
{
    let (width, width_clipped): (u32, bool) = if current_bounds.width() > window_size.width {
        (window_size.width, true)
    } else {
        (current_bounds.width(), false)
    };
    let (height, height_clipped): (u32, bool) = if current_bounds.height()
        > window_size.height {
        (window_size.height, true)
    } else {
        (current_bounds.height(), false)
    };

    let (x, x_repositioned): (i64, bool) = if current_bounds.min_x() < 0 {
        (0, true)
    } else if current_bounds.min_x() > (window_size.width - width) as i64 {
        ((window_size.width - width) as i64, true)
    } else {
        (current_bounds.min_x(), false)
    };
    let (y, y_repositioned): (i64, bool) = if current_bounds.min_y() < 0 {
        (0, true)
    } else if current_bounds.min_y() > (window_size.height - height) as i64 {
        ((window_size.height - height) as i64, true)
    } else {
        (current_bounds.min_y(), false)
    };

    let new_bounds = if width_clipped || height_clipped || x_repositioned || y_repositioned {
        Some(Rect::new(Point::new(x, y), Size::new(width, height)))
    } else {
        None
    };

    LayoutInfo { new_bounds, width_clipped, height_clipped }
}

/// The rectangle an overlay requesting `current_bounds` ends up with: the
/// correction `layout` computes, or the request itself when none is needed.
pub fn fit_bounds(current_bounds: Rect, window_size: Size) -> (r: Rect)
    ensures
        r == applied_bounds(current_bounds, window_size),
{
    match layout(current_bounds, window_size).new_bounds {
        Some(b) => b,
        None => current_bounds,
    }
}

/// The rectangle that `layout` leaves an overlay with always lies inside the
/// window.
pub proof fn lemma_layout_contained(r: Rect, v: Size)
    ensures
        fully_inside(applied_bounds(r, v), v),
{
}

/// A rectangle that already lies inside the window needs no correction.
pub proof fn lemma_inside_needs_no_correction(r: Rect, v: Size)
    requires
        fully_inside(r, v),
    ensures
        layout_spec(r, v).new_bounds is None,
        !layout_spec(r, v).width_clipped,
        !layout_spec(r, v).height_clipped,
{
}

/// Laying out the result of a layout again changes nothing.
pub proof fn lemma_layout_idempotent(r: Rect, v: Size)
    ensures
        layout_spec(applied_bounds(r, v), v).new_bounds is None,
        !layout_spec(applied_bounds(r, v), v).width_clipped,
        !layout_spec(applied_bounds(r, v), v).height_clipped,
{
    lemma_layout_contained(r, v);
    lemma_inside_needs_no_correction(applied_bounds(r, v), v);
}

} // verus!
