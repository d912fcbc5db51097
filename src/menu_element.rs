use vstd::prelude::*;
use crate::geometry::{Point, Rect, Size};
use crate::menu::{first_hit_from, hit_test, DropDownMenuStyle, MenuRow};
use crate::overlay::{applied_bounds, fit_bounds, layout, layout_spec};
use crate::toggle_button::PointerButton;

verus! {

/// The pointer icon an element asks for.
#[derive(Clone, Copy, Debug, PartialEq, Eq, Structural)]
pub enum CursorIcon {
    Default,
    Pointer,
}

/// The abstract contents of a [`DropDownMenuElement`].
pub ghost struct MenuElementModel {
    pub rows: Seq<MenuRow>,
    pub size: Size,
    pub active: bool,
    pub hovered_entry_index: Option<usize>,
}

/// The per-frame state of a drop-down menu element: its measured rows and
/// size, whether it is open, and which row the pointer is over.
pub struct DropDownMenuElement {
    rows: Vec<MenuRow>,
    size: Size,
    active: bool,
    hovered_entry_index: Option<usize>,
}

/// What the element asks of the view tree after a configuration change.
#[derive(Clone, Copy, Debug, PartialEq, Eq, Structural)]
pub struct MenuUpdateResponse {
    /// The bounding rectangle to hand to the view tree, if it changes.
    pub new_bounds: Option<Rect>,
    pub request_repaint: bool,
    /// Take temporary focus and listen for clicks outside the menu.
    pub request_focus: bool,
}

/// An event delivered to a drop-down menu element by the view tree.
#[derive(Clone, Copy, Debug, PartialEq, Eq, Structural)]
pub enum MenuEvent {
    ClickedOff,
    /// The element lost exclusive focus.
    FocusLost,
    PointerMoved { position: Point },
    PointerLeft,
    ButtonJustPressed { button: PointerButton, position: Point },
    /// Any other pointer event.
    OtherPointer,
    PositionChanged,
}

/// What the element asks of the view tree after an event.
#[derive(Clone, Copy, Debug, PartialEq, Eq, Structural)]
pub struct MenuEventResponse {
    pub captured: bool,
    pub request_repaint: bool,
    pub cursor: Option<CursorIcon>,
    pub release_focus: bool,
    pub new_bounds: Option<Rect>,
    /// The identifier of the entry the user selected.
    pub selected: Option<usize>,
}

/// A response that asks for nothing.
pub open spec fn quiet_response() -> MenuEventResponse {
    MenuEventResponse {
        captured: false,
        request_repaint: false,
        cursor: None,
        release_focus: false,
        new_bounds: None,
        selected: None,
    }
}

/// The row under `position` when the menu occupies `bounds`.
pub open spec fn row_at(rows: Seq<MenuRow>, bounds: Rect, position: Point) -> Option<int> {
    if bounds.contains_spec(position) {
        first_hit_from(rows, position.y - bounds.origin.y, 0)
    } else {
        None
    }
}

/// `row_at` as an index.
pub open spec fn hovered_at(rows: Seq<MenuRow>, bounds: Rect, position: Point) -> Option<usize> {
    match row_at(rows, bounds, position) {
        Some(i) => Some(i as usize),
        None => None,
    }
}

/// The identifier of the entry under `position`.
pub open spec fn selected_at(rows: Seq<MenuRow>, bounds: Rect, position: Point) -> Option<usize> {
    match row_at(rows, bounds, position) {
        Some(i) => Some(rows[i]->Option_unique_id),
        None => None,
    }
}

impl View for DropDownMenuElement {
    type V = MenuElementModel;

    closed spec fn view(&self) -> MenuElementModel {
        MenuElementModel {
            rows: self.rows@,
            size: self.size,
            active: self.active,
            hovered_entry_index: self.hovered_entry_index,
        }
    }
}

impl DropDownMenuElement {
    /// A closed menu over `rows`, measured with `style`.
    pub fn new(rows: Vec<MenuRow>, style: &DropDownMenuStyle) -> (r: Self)
        requires
            style.measure_fits(rows@),
        ensures
            crate::menu::same_entries(rows@, r@.rows),
            style.laid_out(r@.rows),
            r@.size == (Size {
                width: style.measured_width(rows@) as u32,
                height: style.measured_height(rows@) as u32,
            }),
            !r@.active,
            r@.hovered_entry_index is None,
    {
        let mut rows = rows;
        let size = style.measure(&mut rows);
        DropDownMenuElement { rows, size, active: false, hovered_entry_index: None }
    }

    pub fn rows(&self) -> (r: &Vec<MenuRow>)
        ensures
            r@ == self@.rows,
    {
        &self.rows
    }

    pub fn size(&self) -> (r: Size)
        ensures
            r == self@.size,
    {
        self.size
    }

    pub fn is_active(&self) -> (r: bool)
        ensures
            r == self@.active,
    {
        self.active
    }

    pub fn hovered_entry_index(&self) -> (r: Option<usize>)
        ensures
            r == self@.hovered_entry_index,
    {
        self.hovered_entry_index
    }
}


/// The element's state after `event`, with the menu occupying `bounds`.
pub open spec fn menu_event_next(m: MenuElementModel, event: MenuEvent, bounds: Rect) -> MenuElementModel {
    match event {
        MenuEvent::FocusLost => MenuElementModel { active: false, hovered_entry_index: None, ..m },
        MenuEvent::PointerMoved { position } => if m.active {
            MenuElementModel { hovered_entry_index: hovered_at(m.rows, bounds, position), ..m }
        } else {
            m
        },
        _ => m,
    }
}

/// The element's response to `event`, with the menu occupying `bounds` in a
/// window of size `window_size`.
pub open spec fn menu_event_response(
    m: MenuElementModel,
    event: MenuEvent,
    bounds: Rect,
    window_size: Size,
) -> MenuEventResponse {
    match event {
        MenuEvent::ClickedOff => MenuEventResponse { release_focus: true, ..quiet_response() },
        MenuEvent::FocusLost => MenuEventResponse {
            release_focus: true,
            new_bounds: Some(Rect { origin: bounds.origin, size: Size { width: 0, height: 0 } }),
            ..quiet_response()
        },
        MenuEvent::PointerMoved { position } => if m.active {
            let h = hovered_at(m.rows, bounds, position);
            MenuEventResponse {
                captured: true,
                request_repaint: h != m.hovered_entry_index,
                cursor: if h is Some {
                    Some(CursorIcon::Pointer)
                } else {
                    None
                },
                ..quiet_response()
            }
        } else {
            quiet_response()
        },
        MenuEvent::ButtonJustPressed { button, position } => if m.active {
            let sel = if button is Primary {
                selected_at(m.rows, bounds, position)
            } else {
                None
            };
            MenuEventResponse {
                captured: true,
                cursor: if sel is Some {
                    Some(CursorIcon::Default)
                } else {
                    None
                },
                release_focus: sel is Some,
                selected: sel,
                ..quiet_response()
            }
        } else {
            quiet_response()
        },
        MenuEvent::PositionChanged => if m.active {
            MenuEventResponse {
                new_bounds: layout_spec(bounds, window_size).new_bounds,
                ..quiet_response()
            }
        } else {
            quiet_response()
        },
        _ => MenuEventResponse { captured: m.active, ..quiet_response() },
    }
}

impl DropDownMenuElement {
    /// Applies a drained configuration change. `new_rows` holds the rows to
    /// show when the entries or the style changed (built with
    /// `rows_from_entries` or `with_widths`), unmeasured; `origin` is the
    /// element's current position.
    ///
    /// An open request opens a closed menu and asks for focus. New rows are
    /// measured; an open menu is then fitted into the window at `origin` and
    /// repainted, a closed one shrinks to nothing. A menu that just opened
    /// without new rows is fitted with its current size.
    pub fn apply_update(
        &mut self,
        open_requested: bool,
        new_rows: Option<Vec<MenuRow>>,
        style: &DropDownMenuStyle,
        origin: Point,
        window_size: Size,
    ) -> (r: MenuUpdateResponse)
        requires
            new_rows matches Some(rows) ==> style.measure_fits(rows@),
        ensures
            final(self)@.active == (old(self)@.active || open_requested),
            final(self)@.hovered_entry_index == old(self)@.hovered_entry_index,
            new_rows is None ==> final(self)@.rows == old(self)@.rows && final(self)@.size
                == old(self)@.size,
            new_rows matches Some(rows) ==> crate::menu::same_entries(rows@, final(self)@.rows)
                && style.laid_out(final(self)@.rows) && final(self)@.size == (Size {
                width: style.measured_width(rows@) as u32,
                height: style.measured_height(rows@) as u32,
            }),
            r.request_focus == (open_requested && !old(self)@.active),
            r.request_repaint == (new_rows is Some && final(self)@.active),
            r.new_bounds == (if new_rows is Some {
                if final(self)@.active {
                    Some(applied_bounds(Rect { origin, size: final(self)@.size }, window_size))
                } else {
                    Some(Rect { origin, size: Size { width: 0, height: 0 } })
                }
            } else if open_requested && !old(self)@.active {
                Some(applied_bounds(Rect { origin, size: old(self)@.size }, window_size))
            } else {
                None
            }),
    {
        let show = open_requested && !self.active;
        if show {
            self.active = true;
        }
        let mut r = MenuUpdateResponse { new_bounds: None, request_repaint: false, request_focus: show };
        match new_rows {
            Some(rows) => {
                let mut rows = rows;
                self.size = style.measure(&mut rows);
                self.rows = rows;
                if self.active {
                    r.new_bounds = Some(fit_bounds(Rect::new(origin, self.size), window_size));
                    r.request_repaint = true;
                } else {
                    r.new_bounds = Some(Rect::new(origin, Size::zero()));
                }
            },
            None => {
                if show {
                    r.new_bounds = Some(fit_bounds(Rect::new(origin, self.size), window_size));
                }
            },
        }
        r
    }

    /// Reacts to a pointer, focus or position event. `bounds` is the menu's
    /// current rectangle and `window_size` the window's size.
    pub fn on_event(&mut self, event: MenuEvent, bounds: Rect, window_size: Size) -> (r:
        MenuEventResponse)
        ensures
            final(self)@ == menu_event_next(old(self)@, event, bounds),
            r == menu_event_response(old(self)@, event, bounds, window_size),
    {
        let mut r = MenuEventResponse {
            captured: false,
            request_repaint: false,
            cursor: None,
            release_focus: false,
            new_bounds: None,
            selected: None,
        };
        match event {
            MenuEvent::ClickedOff => {
                r.release_focus = true;
            },
            MenuEvent::FocusLost => {
                self.active = false;
                self.hovered_entry_index = None;
                r.release_focus = true;
                r.new_bounds = Some(Rect::new(bounds.origin, Size::zero()));
            },
            MenuEvent::PointerMoved { position } => {
                if self.active {
                    let new_hovered = self.row_under(bounds, position);
                    r.request_repaint = new_hovered != self.hovered_entry_index;
                    self.hovered_entry_index = new_hovered;
                    if new_hovered.is_some() {
                        r.cursor = Some(CursorIcon::Pointer);
                    }
                    r.captured = true;
                }
            },
            MenuEvent::ButtonJustPressed { button, position } => {
                if self.active {
                    if button == PointerButton::Primary {
                        match self.row_under(bounds, position) {
                            Some(i) => {
                                match self.rows[i] {
                                    MenuRow::Option { unique_id, .. } => {
                                        r.selected = Some(unique_id);
                                        r.release_focus = true;
                                        r.cursor = Some(CursorIcon::Default);
                                    },
                                    MenuRow::Divider { .. } => {},
                                }
                            },
                            None => {},
                        }
                    }
                    r.captured = true;
                }
            },
            MenuEvent::PositionChanged => {
                if self.active {
                    r.new_bounds = layout(bounds, window_size).new_bounds;
                }
            },
            MenuEvent::PointerLeft | MenuEvent::OtherPointer => {
                r.captured = self.active;
            },
        }
        r
    }

    /// The index of the option row under `position`, if any.
    fn row_under(&self, bounds: Rect, position: Point) -> (r: Option<usize>)
        ensures
            r == hovered_at(self@.rows, bounds, position),
            r matches Some(i) ==> i < self@.rows.len() && self@.rows[i as int] is Option,
            r matches Some(i) ==> row_at(self@.rows, bounds, position) == Some(i as int),
            r is None ==> row_at(self@.rows, bounds, position) is None,
    {
        if bounds.contains(position) {
            let pointer_y: i64 = position.y - bounds.min_y();
            hit_test(&self.rows, pointer_y)
        } else {
            None
        }
    }
}


/// How one row of an open menu is drawn.
#[derive(Clone, Copy, Debug, PartialEq, Eq, Structural)]
pub enum RowPaint {
    /// The two labels of an option, laid into `rect`, in the hovered label
    /// style or not.
    Label { rect: Rect, hovered: bool },
    /// A divider stroke filling `rect`.
    Divider { rect: Rect },
}

/// What to draw for a menu: the background over the whole bounds, the hover
/// highlight behind the hovered option, and one entry per row.
pub struct MenuPaint {
    pub background: Rect,
    pub hover: Option<Rect>,
    pub rows: Vec<RowPaint>,
}

/// `x` if it fits a `u32`, else the largest `u32`.
pub open spec fn saturate_u32(x: int) -> u32 {
    if x > u32::MAX {
        u32::MAX
    } else if x < 0 {
        0
    } else {
        x as u32
    }
}

/// The size of an option's label area: the menu's width less the outer
/// padding on both sides, by one row height.
pub open spec fn label_size(style: DropDownMenuStyle, size: Size) -> Size {
    Size {
        width: saturate_u32(size.width - 2 * style.outer_padding),
        height: saturate_u32(style.row_height()),
    }
}

/// How row `i` of `m` is drawn.
pub open spec fn row_paint(style: DropDownMenuStyle, m: MenuElementModel, i: int) -> RowPaint {
    let label = label_size(style, m.size);
    match m.rows[i] {
        MenuRow::Option { start_y, .. } => RowPaint::Label {
            rect: Rect { origin: Point { x: style.outer_padding as i64, y: start_y as i64 }, size: label },
            hovered: m.hovered_entry_index == Some(i as usize),
        },
        MenuRow::Divider { y } => RowPaint::Divider {
            rect: Rect {
                origin: Point { x: style.outer_padding as i64, y: y as i64 },
                size: Size { width: label.width, height: style.divider_width },
            },
        },
    }
}

/// The hover highlight of `m`: the label area of the hovered option.
pub open spec fn hover_rect(style: DropDownMenuStyle, m: MenuElementModel) -> Option<Rect> {
    match m.hovered_entry_index {
        Some(i) => if i < m.rows.len() && m.rows[i as int] is Option {
            Some(
                Rect {
                    origin: Point {
                        x: style.outer_padding as i64,
                        y: m.rows[i as int]->Option_start_y as i64,
                    },
                    size: label_size(style, m.size),
                },
            )
        } else {
            None
        },
        None => None,
    }
}

impl DropDownMenuElement {
    /// Plans the primitives that draw the menu over `bounds_size`.
    pub fn paint_plan(&self, style: &DropDownMenuStyle, bounds_size: Size) -> (r: MenuPaint)
        ensures
            r.background == (Rect { origin: Point { x: 0, y: 0 }, size: bounds_size }),
            r.hover == hover_rect(*style, self@),
            r.rows@.len() == self@.rows.len(),
            forall|i: int| 0 <= i < r.rows@.len() ==> #[trigger] r.rows@[i] == row_paint(*style, self@, i),
    {
        let twice_padding: u64 = 2 * style.outer_padding as u64;
        let label_width: u32 = if self.size.width as u64 >= twice_padding {
            (self.size.width as u64 - twice_padding) as u32
        } else {
            0
        };
        let row_height: u64 = style.text_row_height();
        let label_height: u32 = if row_height > u32::MAX as u64 {
            u32::MAX
        } else {
            row_height as u32
        };
        let label = Size::new(label_width, label_height);
        let x: i64 = style.outer_padding as i64;
        let hover = match self.hovered_entry_index {
            Some(i) => if i < self.rows.len() {
                match self.rows[i] {
                    MenuRow::Option { start_y, .. } => Some(Rect::new(Point::new(x, start_y as i64), label)),
                    MenuRow::Divider { .. } => None,
                }
            } else {
                None
            },
            None => None,
        };
        let mut rows: Vec<RowPaint> = Vec::new();
        let mut i: usize = 0;
        while i < self.rows.len()
            invariant
                0 <= i <= self@.rows.len(),
                rows@.len() == i,
                label == label_size(*style, self@.size),
                x == style.outer_padding as i64,
                forall|j: int| 0 <= j < i ==> #[trigger] rows@[j] == row_paint(*style, self@, j),
            decreases self@.rows.len() - i,
        {
            let p = match self.rows[i] {
                MenuRow::Option { start_y, .. } => RowPaint::Label {
                    rect: Rect::new(Point::new(x, start_y as i64), label),
                    hovered: self.hovered_entry_index == Some(i),
                },
                MenuRow::Divider { y } => RowPaint::Divider {
                    rect: Rect::new(Point::new(x, y as i64), Size::new(label.width, style.divider_width)),
                },
            };
            rows.push(p);
            i = i + 1;
        }
        MenuPaint { background: Rect::from_size(bounds_size), hover, rows }
    }
}

} // verus!
