use vstd::prelude::*;
use crate::menu::{DropDownMenuStyle, MenuEntry};

verus! {

/// The view of an optional entry list.
pub open spec fn entries_view(e: Option<Vec<MenuEntry>>) -> Option<Seq<MenuEntry>> {
    match e {
        Some(v) => Some(v@),
        None => None,
    }
}

/// The abstract contents of a [`MenuSharedState`].
pub ghost struct MenuSharedModel {
    pub style: DropDownMenuStyle,
    pub new_entries: Option<Seq<MenuEntry>>,
    pub open_requested: bool,
    pub style_changed: bool,
}

/// The state after the handle replaces the entries: the newest replacement
/// overwrites any that was not yet drained.
pub open spec fn with_entries(m: MenuSharedModel, entries: Seq<MenuEntry>) -> MenuSharedModel {
    MenuSharedModel { new_entries: Some(entries), ..m }
}

/// The state after a drain: nothing is pending any more.
pub open spec fn drained(m: MenuSharedModel) -> MenuSharedModel {
    MenuSharedModel { new_entries: None, open_requested: false, style_changed: false, ..m }
}

/// The configuration that a drop-down menu's handle and its element share:
/// the current style and what the handle asked for since the element last
/// drained it.
pub struct MenuSharedState {
    style: DropDownMenuStyle,
    new_entries: Option<Vec<MenuEntry>>,
    open_requested: bool,
    style_changed: bool,
}

/// What was pending when the element drained the shared configuration.
pub struct PendingUpdate {
    pub new_entries: Option<Vec<MenuEntry>>,
    pub style_changed: bool,
    pub open_requested: bool,
}

/// What has to be measured again before the element applies an update.
#[derive(Clone, Copy, Debug, PartialEq, Eq, Structural)]
pub enum MeasureRequest {
    /// Nothing: the rows stay as they are.
    Keep,
    /// Build the rows afresh from the new entries, with the current style.
    Rebuild,
    /// Restyle the existing labels and measure their widths again.
    Restyle,
}

impl View for MenuSharedState {
    type V = MenuSharedModel;

    closed spec fn view(&self) -> MenuSharedModel {
        MenuSharedModel {
            style: self.style,
            new_entries: entries_view(self.new_entries),
            open_requested: self.open_requested,
            style_changed: self.style_changed,
        }
    }
}

impl MenuSharedState {
    pub fn new(style: DropDownMenuStyle) -> (r: Self)
        ensures
            r@ == (MenuSharedModel {
                style,
                new_entries: None,
                open_requested: false,
                style_changed: false,
            }),
    {
        MenuSharedState { style, new_entries: None, open_requested: false, style_changed: false }
    }

    pub fn style(&self) -> (r: DropDownMenuStyle)
        ensures
            r == self@.style,
    {
        self.style
    }

    /// Swaps in a new style. Returns `false`, changing nothing, when the style
    /// is the one already in place; otherwise flags the change and returns
    /// `true`: the element must be notified.
    pub fn set_style(&mut self, style: DropDownMenuStyle) -> (r: bool)
        ensures
            r == (style != old(self)@.style),
            r ==> final(self)@ == (MenuSharedModel { style, style_changed: true, ..old(self)@ }),
            !r ==> final(self)@ == old(self)@,
    {
        if self.style != style {
            self.style = style;
            self.style_changed = true;
            true
        } else {
            false
        }
    }

    /// Buffers a replacement of the entries, overwriting any that was not yet
    /// drained. The element must be notified.
    pub fn set_entries(&mut self, entries: Vec<MenuEntry>)
        ensures
            final(self)@ == with_entries(old(self)@, entries@),
    {
        self.new_entries = Some(entries);
    }

    /// Asks the element to open. The element must be notified.
    pub fn request_open(&mut self)
        ensures
            final(self)@ == (MenuSharedModel { open_requested: true, ..old(self)@ }),
    {
        self.open_requested = true;
    }

    /// Takes everything that is pending and clears it.
    pub fn drain(&mut self) -> (r: PendingUpdate)
        ensures
            entries_view(r.new_entries) == old(self)@.new_entries,
            r.style_changed == old(self)@.style_changed,
            r.open_requested == old(self)@.open_requested,
            final(self)@ == drained(old(self)@),
    {
        let new_entries = self.new_entries.take();
        let r = PendingUpdate {
            new_entries,
            style_changed: self.style_changed,
            open_requested: self.open_requested,
        };
        self.style_changed = false;
        self.open_requested = false;
        r
    }
}

impl PendingUpdate {
    /// New entries come first: they are measured with the current style, so
    /// a style change that came with them needs nothing more.
    pub fn measure_request(&self) -> (r: MeasureRequest)
        ensures
            r == (if self.new_entries is Some {
                MeasureRequest::Rebuild
            } else if self.style_changed {
                MeasureRequest::Restyle
            } else {
                MeasureRequest::Keep
            }),
    {
        if self.new_entries.is_some() {
            MeasureRequest::Rebuild
        } else if self.style_changed {
            MeasureRequest::Restyle
        } else {
            MeasureRequest::Keep
        }
    }
}

/// Of two entry replacements written before one drain only the second is
/// applied, and a second drain finds nothing left.
pub proof fn lemma_last_write_wins(m: MenuSharedModel, first: Seq<MenuEntry>, second: Seq<MenuEntry>)
    ensures
        with_entries(with_entries(m, first), second).new_entries == Some(second),
        drained(drained(with_entries(with_entries(m, first), second))) == drained(
            with_entries(with_entries(m, first), second),
        ),
        drained(with_entries(with_entries(m, first), second)).new_entries is None,
{
}

} // verus!
