use vstd::prelude::*;
use crate::style::{Align, BorderStyle, Padding, QuadStyle, Rgba8, TextProperties, white};

verus! {

/// One entry of a drop-down menu, as the application supplies it.
#[derive(Clone, Debug, PartialEq)]
pub enum MenuEntry {
    Option { left_text: String, right_text: String, unique_id: usize },
    Divider,
}

/// One laid-out row of a drop-down menu. An option row remembers its
/// entry's identifier, the width its labels need (as the text shaper measured
/// it) and, once measured, its half-open vertical hit region
/// `start_y..end_y`. A divider row remembers where its stroke starts.
#[derive(Clone, Copy, Debug, PartialEq, Eq, Structural)]
pub enum MenuRow {
    Option { unique_id: usize, width: u32, start_y: u32, end_y: u32 },
    Divider { y: u32 },
}

/// The style of a drop-down menu. Lengths are in logical pixels.
#[derive(Clone, Copy, Debug, PartialEq, Eq, Structural)]
pub struct DropDownMenuStyle {
    pub left_text_properties: TextProperties,
    pub right_text_properties: TextProperties,
    pub left_text_color_idle: Rgba8,
    pub right_text_color_idle: Rgba8,
    pub left_text_color_hover: Rgba8,
    pub right_text_color_hover: Rgba8,
    pub back_quad: QuadStyle,
    pub text_bg_quad_hover: QuadStyle,
    pub outer_padding: u32,
    pub left_text_padding: Padding,
    pub right_text_padding: Padding,
    pub divider_color: Rgba8,
    pub divider_width: u32,
    pub divider_padding: u32,
}

/// Whether two row sequences hold the same entries, whatever their offsets.
pub open spec fn same_entries(a: Seq<MenuRow>, b: Seq<MenuRow>) -> bool {
    &&& a.len() == b.len()
    &&& forall|i: int|
        0 <= i < a.len() ==> match (#[trigger] a[i], b[i]) {
            (
                MenuRow::Option { unique_id: ia, width: wa, .. },
                MenuRow::Option { unique_id: ib, width: wb, .. },
            ) => ia == ib && wa == wb,
            (MenuRow::Divider { .. }, MenuRow::Divider { .. }) => true,
            _ => false,
        }
}

/// Whether `row` is an option whose hit region holds `y`.
pub open spec fn row_contains(row: MenuRow, y: int) -> bool {
    match row {
        MenuRow::Option { start_y, end_y, .. } => start_y <= y < end_y,
        MenuRow::Divider { .. } => false,
    }
}

/// The widest option label among the first `n` rows (`0` if there is none).
pub open spec fn max_row_width(rows: Seq<MenuRow>, n: int) -> int
    decreases n,
{
    if n <= 0 {
        0
    } else {
        let prev: int = max_row_width(rows, n - 1);
        match rows[n - 1] {
            MenuRow::Option { width, .. } => if width > prev {
                width as int
            } else {
                prev
            },
            MenuRow::Divider { .. } => prev,
        }
    }
}

/// The index of the first row from `i` on whose hit region holds `y`.
pub open spec fn first_hit_from(rows: Seq<MenuRow>, y: int, i: int) -> Option<int>
    decreases rows.len() - i,
{
    if i < 0 || i >= rows.len() {
        None
    } else if row_contains(rows[i], y) {
        Some(i)
    } else {
        first_hit_from(rows, y, i + 1)
    }
}

impl DropDownMenuStyle {
    /// The height of an option row: the taller of the two padded label lines.
    pub open spec fn row_height(self) -> int {
        let l: int = self.left_text_properties.line_height + self.left_text_padding.top
            + self.left_text_padding.bottom;
        let r: int = self.right_text_properties.line_height + self.right_text_padding.top
            + self.right_text_padding.bottom;
        if l >= r {
            l
        } else {
            r
        }
    }

    /// The vertical space a row takes.
    pub open spec fn row_extent(self, row: MenuRow) -> int {
        match row {
            MenuRow::Option { .. } => self.row_height(),
            MenuRow::Divider { .. } => self.divider_width + 2 * self.divider_padding,
        }
    }

    /// Where row `i` starts: the outer padding plus the extents of the rows
    /// before it.
    pub open spec fn row_offset(self, rows: Seq<MenuRow>, i: int) -> int
        decreases i,
    {
        if i <= 0 {
            self.outer_padding as int
        } else {
            self.row_offset(rows, i - 1) + self.row_extent(rows[i - 1])
        }
    }

    /// Whether every row carries the offsets that measurement gives it.
    pub open spec fn laid_out(self, rows: Seq<MenuRow>) -> bool {
        forall|i: int|
            0 <= i < rows.len() ==> match #[trigger] rows[i] {
                MenuRow::Option { start_y, end_y, .. } => start_y == self.row_offset(rows, i)
                    && end_y == self.row_offset(rows, i) + self.row_height(),
                MenuRow::Divider { y } => y == self.row_offset(rows, i) + self.divider_padding,
            }
    }

    /// The menu's overall width: the widest label plus the outer padding on
    /// both sides; `0` with no rows.
    pub open spec fn measured_width(self, rows: Seq<MenuRow>) -> int {
        if rows.len() == 0 {
            0
        } else {
            max_row_width(rows, rows.len() as int) + 2 * self.outer_padding
        }
    }

    /// The menu's overall height: the rows between the outer padding above
    /// and below; `0` with no rows.
    pub open spec fn measured_height(self, rows: Seq<MenuRow>) -> int {
        if rows.len() == 0 {
            0
        } else {
            self.row_offset(rows, rows.len() as int) + self.outer_padding
        }
    }

    /// Whether the measured size of `rows` fits the size type.
    pub open spec fn measure_fits(self, rows: Seq<MenuRow>) -> bool {
        self.measured_width(rows) <= u32::MAX && self.measured_height(rows) <= u32::MAX
    }

    /// The height of an option row.
    pub fn text_row_height(&self) -> (r: u64)
        ensures
            r == self.row_height(),
    {
        let l: u64 = self.left_text_properties.line_height as u64 + self.left_text_padding.top as u64
            + self.left_text_padding.bottom as u64;
        let r: u64 = self.right_text_properties.line_height as u64
            + self.right_text_padding.top as u64 + self.right_text_padding.bottom as u64;
        if l >= r {
            l
        } else {
            r
        }
    }
}


/// Row offsets never decrease along the sequence.
pub proof fn lemma_offset_monotone(style: DropDownMenuStyle, rows: Seq<MenuRow>, a: int, b: int)
    requires
        0 <= a <= b,
    ensures
        style.row_offset(rows, a) <= style.row_offset(rows, b),
    decreases b - a,
{
    if a < b {
        lemma_offset_monotone(style, rows, a, b - 1);
    }
}

/// Two sequences that hold the same entries have the same row offsets.
pub proof fn lemma_offsets_agree(
    style: DropDownMenuStyle,
    a: Seq<MenuRow>,
    b: Seq<MenuRow>,
    i: int,
)
    requires
        same_entries(a, b),
        0 <= i <= a.len(),
    ensures
        style.row_offset(a, i) == style.row_offset(b, i),
    decreases i,
{
    if i > 0 {
        lemma_offsets_agree(style, a, b, i - 1);
        let x = a[i - 1];
        let y = b[i - 1];
        assert(match (x, y) {
            (MenuRow::Option { .. }, MenuRow::Option { .. }) => true,
            (MenuRow::Divider { .. }, MenuRow::Divider { .. }) => true,
            _ => false,
        });
    }
}

/// Two sequences that hold the same entries have the same widest label.
pub proof fn lemma_max_width_agree(a: Seq<MenuRow>, b: Seq<MenuRow>, n: int)
    requires
        same_entries(a, b),
        0 <= n <= a.len(),
    ensures
        max_row_width(a, n) == max_row_width(b, n),
    decreases n,
{
    if n > 0 {
        lemma_max_width_agree(a, b, n - 1);
        let x = a[n - 1];
        let y = b[n - 1];
        assert(match (x, y) {
            (MenuRow::Option { width: wa, .. }, MenuRow::Option { width: wb, .. }) => wa == wb,
            (MenuRow::Divider { .. }, MenuRow::Divider { .. }) => true,
            _ => false,
        });
    }
}

impl DropDownMenuStyle {
    /// Whether the overall size of `rows` fits the size type, so that they
    /// can be measured.
    pub fn fits_measurement(&self, rows: &Vec<MenuRow>) -> (r: bool)
        ensures
            r == self.measure_fits(rows@),
    {
        let n: usize = rows.len();
        if n == 0 {
            return true;
        }
        let row_height: u64 = self.text_row_height();
        let mut max_width: u32 = 0;
        let mut total: u64 = self.outer_padding as u64;
        let mut i: usize = 0;
        while i < n
            invariant
                n == rows@.len(),
                0 <= i <= n,
                row_height == self.row_height(),
                total == self.row_offset(rows@, i as int),
                total <= u32::MAX,
                max_width == max_row_width(rows@, i as int),
            decreases n - i,
        {
            match rows[i] {
                MenuRow::Option { width, .. } => {
                    if width > max_width {
                        max_width = width;
                    }
                    total = total + row_height;
                },
                MenuRow::Divider { .. } => {
                    total = total + self.divider_width as u64 + self.divider_padding as u64
                        + self.divider_padding as u64;
                },
            }
            i = i + 1;
            if total > u32::MAX as u64 {
                proof {
                    lemma_offset_monotone(*self, rows@, i as int, n as int);
                }
                return false;
            }
        }
        total + self.outer_padding as u64 <= u32::MAX as u64 && max_width as u64 + 2
            * self.outer_padding as u64 <= u32::MAX as u64
    }
}

impl DropDownMenuStyle {
    /// Lays out `rows` from the top: each option row gets the hit region
    /// `start_y..end_y` of one row height, each divider the position of its
    /// stroke below its padding. Returns the menu's overall size; with no rows
    /// the size is zero and nothing changes.
    pub fn measure(&self, rows: &mut Vec<MenuRow>) -> (r: crate::geometry::Size)
        requires
            self.measure_fits(old(rows)@),
        ensures
            same_entries(old(rows)@, final(rows)@),
            self.laid_out(final(rows)@),
            old(rows)@.len() == 0 ==> final(rows)@ == old(rows)@,
            r.width == self.measured_width(old(rows)@),
            r.height == self.measured_height(old(rows)@),
    {
        let n: usize = rows.len();
        if n == 0 {
            return crate::geometry::Size::zero();
        }
        let ghost old_rows = rows@;
        let row_height: u64 = self.text_row_height();
        let mut max_width: u32 = 0;
        let mut total: u64 = self.outer_padding as u64;
        let mut i: usize = 0;
        proof {
            lemma_offset_monotone(*self, old_rows, 0, n as int);
        }
        while i < n
            invariant
                n == rows@.len(),
                n == old_rows.len(),
                n > 0,
                0 <= i <= n,
                self.measure_fits(old_rows),
                row_height == self.row_height(),
                same_entries(old_rows, rows@),
                forall|j: int| i <= j < n ==> rows@[j] == old_rows[j],
                total == self.row_offset(old_rows, i as int),
                max_width == max_row_width(old_rows, i as int),
                forall|j: int|
                    0 <= j < i ==> match #[trigger] rows@[j] {
                        MenuRow::Option { start_y, end_y, .. } => start_y == self.row_offset(
                            old_rows,
                            j,
                        ) && end_y == self.row_offset(old_rows, j) + self.row_height(),
                        MenuRow::Divider { y } => y == self.row_offset(old_rows, j)
                            + self.divider_padding,
                    },
            decreases n - i,
        {
            proof {
                lemma_offset_monotone(*self, old_rows, i as int + 1, n as int);
            }
            let row = rows[i];
            match row {
                MenuRow::Option { unique_id, width, .. } => {
                    if width > max_width {
                        max_width = width;
                    }
                    let start_y: u32 = total as u32;
                    total = total + row_height;
                    rows.set(i, MenuRow::Option { unique_id, width, start_y, end_y: total as u32 });
                },
                MenuRow::Divider { .. } => {
                    let y: u32 = (total + self.divider_padding as u64) as u32;
                    total = total + self.divider_width as u64 + self.divider_padding as u64
                        + self.divider_padding as u64;
                    rows.set(i, MenuRow::Divider { y });
                },
            }
            i = i + 1;
        }
        proof {
            assert forall|j: int| 0 <= j < n implies self.row_offset(rows@, j) == self.row_offset(
                old_rows,
                j,
            ) by {
                lemma_offsets_agree(*self, old_rows, rows@, j);
            }
            lemma_max_width_agree(old_rows, rows@, n as int);
        }
        crate::geometry::Size::new(
            max_width + 2 * self.outer_padding,
            (total + self.outer_padding as u64) as u32,
        )
    }
}

/// Finds the first option row whose hit region holds `pointer_y`, the
/// pointer's offset below the menu's top edge. Dividers are never hit.
pub fn hit_test(rows: &Vec<MenuRow>, pointer_y: i64) -> (r: Option<usize>)
    ensures
        r matches Some(i) ==> first_hit_from(rows@, pointer_y as int, 0) == Some(i as int),
        r matches Some(i) ==> i < rows@.len() && row_contains(rows@[i as int], pointer_y as int),
        r is None ==> first_hit_from(rows@, pointer_y as int, 0) is None,
{
    let mut i: usize = 0;
    while i < rows.len()
        invariant
            0 <= i <= rows@.len(),
            first_hit_from(rows@, pointer_y as int, 0) == first_hit_from(
                rows@,
                pointer_y as int,
                i as int,
            ),
        decreases rows@.len() - i,
    {
        match rows[i] {
            MenuRow::Option { start_y, end_y, .. } => {
                if pointer_y >= start_y as i64 && pointer_y < end_y as i64 {
                    return Some(i);
                }
            },
            MenuRow::Divider { .. } => {},
        }
        i = i + 1;
    }
    None
}


/// The first hit from `k` on is row `i` when row `i` holds `y` and no row
/// between them does.
proof fn lemma_first_hit_is(rows: Seq<MenuRow>, y: int, k: int, i: int)
    requires
        0 <= k <= i < rows.len(),
        row_contains(rows[i], y),
        forall|j: int| k <= j < i ==> !row_contains(#[trigger] rows[j], y),
    ensures
        first_hit_from(rows, y, k) == Some(i),
    decreases i - k,
{
    if k < i {
        lemma_first_hit_is(rows, y, k + 1, i);
    }
}

/// Nothing is hit from `k` on when no row from `k` on holds `y`.
proof fn lemma_no_hit_from(rows: Seq<MenuRow>, y: int, k: int)
    requires
        0 <= k,
        forall|j: int| k <= j < rows.len() ==> !row_contains(#[trigger] rows[j], y),
    ensures
        first_hit_from(rows, y, k) is None,
    decreases rows.len() - k,
{
    if k < rows.len() {
        lemma_no_hit_from(rows, y, k + 1);
    }
}

/// After measurement an option row ends where the next row starts.
proof fn lemma_option_end(style: DropDownMenuStyle, rows: Seq<MenuRow>, i: int)
    requires
        style.laid_out(rows),
        0 <= i < rows.len(),
        rows[i] is Option,
    ensures
        rows[i]->Option_end_y == style.row_offset(rows, i + 1),
        rows[i]->Option_start_y == style.row_offset(rows, i),
{
    assert(match rows[i] {
        MenuRow::Option { start_y, end_y, .. } => start_y == style.row_offset(rows, i) && end_y
            == style.row_offset(rows, i) + style.row_height(),
        MenuRow::Divider { y } => y == style.row_offset(rows, i) + style.divider_padding,
    });
}

/// After measurement, option hit regions follow entry order and never
/// overlap: an earlier option ends at or before a later one starts.
pub proof fn lemma_rows_ordered(style: DropDownMenuStyle, rows: Seq<MenuRow>, i: int, j: int)
    requires
        style.laid_out(rows),
        0 <= i < j < rows.len(),
        rows[i] is Option,
        rows[j] is Option,
    ensures
        rows[i]->Option_start_y <= rows[i]->Option_end_y,
        style.row_height() > 0 ==> rows[i]->Option_start_y < rows[i]->Option_end_y,
        rows[i]->Option_end_y <= rows[j]->Option_start_y,
{
    lemma_option_end(style, rows, i);
    lemma_option_end(style, rows, j);
    lemma_offset_monotone(style, rows, i, i + 1);
    lemma_offset_monotone(style, rows, i + 1, j);
}

/// After measurement, a divider between two options lies between their hit
/// regions: at or below the end of the earlier one and at or above the start
/// of the later one.
pub proof fn lemma_divider_between(
    style: DropDownMenuStyle,
    rows: Seq<MenuRow>,
    i: int,
    k: int,
    j: int,
)
    requires
        style.laid_out(rows),
        0 <= i < k < j < rows.len(),
        rows[i] is Option,
        rows[k] is Divider,
        rows[j] is Option,
    ensures
        rows[i]->Option_end_y <= rows[k]->Divider_y <= rows[j]->Option_start_y,
{
    lemma_option_end(style, rows, i);
    lemma_option_end(style, rows, j);
    assert(rows[k]->Divider_y == style.row_offset(rows, k) + style.divider_padding);
    lemma_offset_monotone(style, rows, i + 1, k);
    lemma_offset_monotone(style, rows, k + 1, j);
}

/// After measurement, a pointer offset inside an option's hit region hits
/// that option.
pub proof fn lemma_hit_inside_row(style: DropDownMenuStyle, rows: Seq<MenuRow>, i: int, y: int)
    requires
        style.laid_out(rows),
        0 <= i < rows.len(),
        row_contains(rows[i], y),
    ensures
        first_hit_from(rows, y, 0) == Some(i),
{
    assert forall|j: int| 0 <= j < i implies !row_contains(#[trigger] rows[j], y) by {
        if rows[j] is Option {
            lemma_rows_ordered(style, rows, j, i);
        }
    }
    lemma_first_hit_is(rows, y, 0, i);
}

/// After measurement, the position of a divider's stroke hits no option, as
/// long as a divider takes up some space besides its top padding.
pub proof fn lemma_divider_not_hit(style: DropDownMenuStyle, rows: Seq<MenuRow>, d: int)
    requires
        style.laid_out(rows),
        0 <= d < rows.len(),
        rows[d] is Divider,
        style.divider_width + style.divider_padding > 0,
    ensures
        first_hit_from(rows, rows[d]->Divider_y as int, 0) is None,
{
    let y = rows[d]->Divider_y as int;
    assert(y == style.row_offset(rows, d) + style.divider_padding);
    assert forall|j: int| 0 <= j < rows.len() implies !row_contains(#[trigger] rows[j], y) by {
        if rows[j] is Option {
            lemma_option_end(style, rows, j);
            if j < d {
                lemma_offset_monotone(style, rows, j + 1, d);
            } else {
                lemma_offset_monotone(style, rows, d + 1, j);
            }
        }
    }
    lemma_no_hit_from(rows, y, 0);
}


/// The paint parameters of the two labels of an option row.
#[derive(Clone, Copy, Debug, PartialEq, Eq, Structural)]
pub struct DualLabelStyle {
    pub left_properties: TextProperties,
    pub right_properties: TextProperties,
    pub left_font_color: Rgba8,
    pub right_font_color: Rgba8,
    pub vertical_align: Align,
    pub left_padding: Padding,
    pub right_padding: Padding,
}

impl DropDownMenuStyle {
    /// The label style of an option row, hovered or not.
    pub fn dual_label_style(&self, hovered: bool) -> (r: DualLabelStyle)
        ensures
            r.left_properties == self.left_text_properties,
            r.right_properties == self.right_text_properties,
            r.left_font_color == (if hovered {
                self.left_text_color_hover
            } else {
                self.left_text_color_idle
            }),
            r.right_font_color == (if hovered {
                self.right_text_color_hover
            } else {
                self.right_text_color_idle
            }),
            r.vertical_align == Align::Center,
            r.left_padding == self.left_text_padding,
            r.right_padding == self.right_text_padding,
    {
        DualLabelStyle {
            left_properties: self.left_text_properties,
            right_properties: self.right_text_properties,
            left_font_color: if hovered {
                self.left_text_color_hover
            } else {
                self.left_text_color_idle
            },
            right_font_color: if hovered {
                self.right_text_color_hover
            } else {
                self.right_text_color_idle
            },
            vertical_align: Align::Center,
            left_padding: self.left_text_padding,
            right_padding: self.right_text_padding,
        }
    }
}

/// The row that `entry` becomes before measurement, with `width` the width
/// its labels need.
pub open spec fn unmeasured_row(entry: MenuEntry, width: u32) -> MenuRow {
    match entry {
        MenuEntry::Option { unique_id, .. } => MenuRow::Option {
            unique_id,
            width,
            start_y: 0,
            end_y: 0,
        },
        MenuEntry::Divider => MenuRow::Divider { y: 0 },
    }
}

/// Turns entries into unmeasured rows, in order. `widths[i]` is the width
/// that the labels of entry `i` need; it is ignored for a divider.
pub fn rows_from_entries(entries: &Vec<MenuEntry>, widths: &Vec<u32>) -> (r: Vec<MenuRow>)
    requires
        widths@.len() == entries@.len(),
    ensures
        r@.len() == entries@.len(),
        forall|i: int| 0 <= i < r@.len() ==> #[trigger] r@[i] == unmeasured_row(entries@[i], widths@[i]),
{
    let mut rows: Vec<MenuRow> = Vec::new();
    let mut i: usize = 0;
    while i < entries.len()
        invariant
            widths@.len() == entries@.len(),
            0 <= i <= entries@.len(),
            rows@.len() == i,
            forall|j: int| 0 <= j < i ==> #[trigger] rows@[j] == unmeasured_row(entries@[j], widths@[j]),
        decreases entries@.len() - i,
    {
        let row = match &entries[i] {
            MenuEntry::Option { unique_id, .. } => MenuRow::Option {
                unique_id: *unique_id,
                width: widths[i],
                start_y: 0,
                end_y: 0,
            },
            MenuEntry::Divider => MenuRow::Divider { y: 0 },
        };
        rows.push(row);
        i = i + 1;
    }
    rows
}

/// `row` with its label width replaced by `width`; a divider stays as it is.
pub open spec fn rewidthed_row(row: MenuRow, width: u32) -> MenuRow {
    match row {
        MenuRow::Option { unique_id, start_y, end_y, .. } => MenuRow::Option {
            unique_id,
            width,
            start_y,
            end_y,
        },
        MenuRow::Divider { y } => MenuRow::Divider { y },
    }
}

/// Replaces the label width of each option row by `widths[i]`, as needed
/// after the labels were restyled. Dividers stay as they are.
pub fn with_widths(rows: &Vec<MenuRow>, widths: &Vec<u32>) -> (r: Vec<MenuRow>)
    requires
        widths@.len() == rows@.len(),
    ensures
        r@.len() == rows@.len(),
        forall|i: int| 0 <= i < r@.len() ==> #[trigger] r@[i] == rewidthed_row(rows@[i], widths@[i]),
{
    let mut out: Vec<MenuRow> = Vec::new();
    let mut i: usize = 0;
    while i < rows.len()
        invariant
            widths@.len() == rows@.len(),
            0 <= i <= rows@.len(),
            out@.len() == i,
            forall|j: int| 0 <= j < i ==> #[trigger] out@[j] == rewidthed_row(rows@[j], widths@[j]),
        decreases rows@.len() - i,
    {
        let row = match rows[i] {
            MenuRow::Option { unique_id, start_y, end_y, .. } => MenuRow::Option {
                unique_id,
                width: widths[i],
                start_y,
                end_y,
            },
            MenuRow::Divider { y } => MenuRow::Divider { y },
        };
        out.push(row);
        i = i + 1;
    }
    out
}

impl Default for DropDownMenuStyle {
    fn default() -> (r: Self)
        ensures
            r.left_text_properties == (TextProperties { font_size: 14, line_height: 16 }),
            r.right_text_properties == (TextProperties { font_size: 14, line_height: 16 }),
            r.left_text_color_idle == (Rgba8 { r: 255, g: 255, b: 255, a: 255 }),
            r.right_text_color_idle == (Rgba8 { r: 255, g: 255, b: 255, a: 255 }),
            r.left_text_color_hover == (Rgba8 { r: 255, g: 255, b: 255, a: 255 }),
            r.right_text_color_hover == (Rgba8 { r: 255, g: 255, b: 255, a: 255 }),
            r.back_quad == (QuadStyle {
                bg: Rgba8 { r: 40, g: 40, b: 40, a: 255 },
                border: BorderStyle { color: Rgba8 { r: 105, g: 105, b: 105, a: 255 }, width: 1, radius: 4 },
            }),
            r.text_bg_quad_hover == (QuadStyle {
                bg: Rgba8 { r: 65, g: 65, b: 65, a: 255 },
                border: BorderStyle { color: Rgba8 { r: 105, g: 105, b: 105, a: 255 }, width: 1, radius: 4 },
            }),
            r.outer_padding == 4,
            r.left_text_padding == (Padding { top: 5, right: 10, bottom: 5, left: 10 }),
            r.right_text_padding == (Padding { top: 5, right: 10, bottom: 5, left: 30 }),
            r.divider_color == (Rgba8 { r: 105, g: 105, b: 105, a: 150 }),
            r.divider_width == 1,
            r.divider_padding == 2,
    {
        let text = TextProperties { font_size: 14, line_height: 16 };
        DropDownMenuStyle {
            left_text_properties: text,
            right_text_properties: text,
            left_text_color_idle: white(),
            right_text_color_idle: white(),
            left_text_color_hover: white(),
            right_text_color_hover: white(),
            back_quad: QuadStyle {
                bg: Rgba8::new(40, 40, 40, 255),
                border: BorderStyle { color: Rgba8::new(105, 105, 105, 255), width: 1, radius: 4 },
            },
            text_bg_quad_hover: QuadStyle {
                bg: Rgba8::new(65, 65, 65, 255),
                border: BorderStyle { color: Rgba8::new(105, 105, 105, 255), width: 1, radius: 4 },
            },
            outer_padding: 4,
            left_text_padding: Padding::new(5, 10, 5, 10),
            right_text_padding: Padding::new(5, 10, 5, 30),
            divider_color: Rgba8::new(105, 105, 105, 150),
            divider_width: 1,
            divider_padding: 2,
        }
    }
}

} // verus!
