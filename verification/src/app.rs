//! The executable controller.
//!
//! `AppState` keeps its fields to itself and carries the model's invariant as
//! a type invariant, so every operation can be called in every state and none
//! can fail. The operations work on a copy of the fields, which may pass
//! through states that break the invariant, and store the copy when it is
//! valid again.

use vstd::prelude::*;
use crate::model::{counted, least, max_position, Viewport};

verus! {

/// The controller's fields without their invariant.
#[derive(Clone, Copy, Debug, PartialEq, Eq)]
struct Fields {
    item_count: u16,
    scroll_area: u16,
    selected: u16,
    scroll: u16,
    target_scroll: u16,
}

impl View for Fields {
    type V = Viewport;

    closed spec fn view(&self) -> Viewport {
        Viewport {
            item_count: self.item_count as int,
            scroll_area: self.scroll_area as int,
            selected: self.selected as int,
            scroll: self.scroll as int,
            target_scroll: self.target_scroll as int,
        }
    }
}

impl Fields {
    /// Number of rows that do not fit on screen.
    fn max_position(&self) -> (position: u16)
        ensures
            position == max_position(self@.item_count, self@.scroll_area),
    {
        self.item_count.saturating_sub(self.scroll_area)
    }

    /// Largest offset that the window may take.
    fn limit(&self) -> (limit: u16)
        ensures
            limit == self@.limit(),
    {
        if self.scroll_area == 0 {
            0
        } else {
            self.max_position()
        }
    }

    /// Snaps window and target to the selected row where it is off screen.
    fn scroll_to_selected(&mut self)
        ensures
            final(self)@ == old(self)@.scroll_to_selected(),
    {
        if self.scroll_area == 0 {
            return ;
        }
        if self.selected < self.scroll {
            self.scroll = self.selected;
            self.target_scroll = self.scroll;
        } else if self.selected - self.scroll >= self.scroll_area {
            self.scroll = self.selected - self.scroll_area + 1;
            self.target_scroll = self.scroll;
        }
    }

    /// Moves a selection that is off screen to the nearest row on screen.
    fn select_within_view(&mut self)
        ensures
            final(self)@ == old(self)@.select_within_view(),
    {
        if self.scroll_area == 0 {
            return ;
        }
        if self.selected < self.scroll {
            self.selected = self.scroll;
        } else if self.selected - self.scroll >= self.scroll_area {
            self.selected = self.scroll + (self.scroll_area - 1);
        }
    }

    /// Pulls window and target back to the largest offset they may take.
    fn clamp_offsets(&mut self)
        ensures
            final(self)@ == (Viewport {
                scroll: least(old(self)@.scroll, old(self)@.limit()),
                target_scroll: least(old(self)@.target_scroll, old(self)@.limit()),
                ..old(self)@
            }),
    {
        let limit: u16 = self.limit();
        if self.scroll > limit {
            self.scroll = limit;
        }
        if self.target_scroll > limit {
            self.target_scroll = limit;
        }
    }
}

/// Selection, window and glide target of a table seen through a viewport.
#[derive(Clone, Copy, Debug, PartialEq, Eq)]
pub struct AppState {
    fields: Fields,
}

impl View for AppState {
    type V = Viewport;

    closed spec fn view(&self) -> Viewport {
        self.fields@
    }
}

impl Default for AppState {
    /// The controller that `AppState::new` gives.
    fn default() -> (app: AppState)
        ensures
            app@ == Viewport::empty(),
    {
        AppState::new()
    }
}

impl AppState {
    /// Every controller is in a valid state of the model.
    #[verifier::type_invariant]
    pub open spec fn inv(self) -> bool {
        self@.wf()
    }

    /// A controller over an empty table and a screen without rows.
    pub fn new() -> (app: AppState)
        ensures
            app@ == Viewport::empty(),
    {
        AppState {
            fields: Fields {
                item_count: 0,
                scroll_area: 0,
                selected: 0,
                scroll: 0,
                target_scroll: 0,
            },
        }
    }

    /// Number of rows in the table.
    pub fn item_count(&self) -> (item_count: u16)
        ensures
            item_count == self@.item_count,
    {
        self.fields.item_count
    }

    /// Number of rows that fit on screen.
    pub fn scroll_area(&self) -> (scroll_area: u16)
        ensures
            scroll_area == self@.scroll_area,
    {
        self.fields.scroll_area
    }

    /// Index of the highlighted row; zero while the table is empty.
    pub fn selected(&self) -> (selected: u16)
        ensures
            selected == self@.selected,
    {
        self.fields.selected
    }

    /// Index of the first row on screen.
    pub fn scroll(&self) -> (scroll: u16)
        ensures
            scroll == self@.scroll,
    {
        self.fields.scroll
    }

    /// The offset that the window is gliding towards.
    pub fn target_scroll(&self) -> (target_scroll: u16)
        ensures
            target_scroll == self@.target_scroll,
    {
        self.fields.target_scroll
    }

    /// Position to show on the scrollbar: the window's offset.
    pub fn scrollbar_position(&self) -> (position: u16)
        ensures
            position == self@.scrollbar_position(),
    {
        self.fields.scroll
    }

    /// Content length to show on the scrollbar: the number of rows that do
    /// not fit on screen.
    pub fn scrollbar_content_length(&self) -> (length: u16)
        ensures
            length == self@.scrollbar_content_length(),
    {
        self.fields.max_position()
    }

    /// Replaces the table by one of `len` records, of which the controller
    /// counts no more than a `u16` holds. Selection and offsets are pulled
    /// back into the new range; a table without rows puts all three at zero.
    pub fn set_dataset(&mut self, len: usize)
        ensures
            final(self)@ == old(self)@.set_dataset(counted(len as int)),
            final(self)@.wf(),
    {
        proof {
            use_type_invariant(&*self);
        }
        let item_count: u16 = if len > u16::MAX as usize {
            u16::MAX
        } else {
            len as u16
        };
        let mut next = self.fields;
        next.item_count = item_count;
        if item_count == 0 {
            next.selected = 0;
        } else if next.selected > item_count - 1 {
            next.selected = item_count - 1;
        }
        next.clamp_offsets();
        self.fields = next;
    }

    /// Gives the screen `scroll_area` rows. The offsets are pulled back into
    /// the new range, and the window moves so that the selected row stays on
    /// screen; a screen without rows puts both offsets at zero.
    pub fn set_scroll_area(&mut self, scroll_area: u16)
        ensures
            final(self)@ == old(self)@.set_scroll_area(scroll_area as int),
            final(self)@.wf(),
    {
        proof {
            use_type_invariant(&*self);
        }
        let mut next = self.fields;
        next.scroll_area = scroll_area;
        next.clamp_offsets();
        next.scroll_to_selected();
        self.fields = next;
    }

    /// Moves the selection one row up, unless it is on the first row, and
    /// snaps the window so that the selected row is on screen.
    pub fn select_up(&mut self)
        ensures
            final(self)@ == old(self)@.select_up(),
            final(self)@.wf(),
    {
        proof {
            use_type_invariant(&*self);
        }
        if self.fields.selected == 0 {
            return ;
        }
        let mut next = self.fields;
        next.selected -= 1;
        next.scroll_to_selected();
        self.fields = next;
    }

    /// Moves the selection one row down, unless it is on the last row, and
    /// snaps the window so that the selected row is on screen.
    pub fn select_down(&mut self)
        ensures
            final(self)@ == old(self)@.select_down(),
            final(self)@.wf(),
    {
        proof {
            use_type_invariant(&*self);
        }
        if self.fields.item_count == 0 || self.fields.selected >= self.fields.item_count - 1 {
            return ;
        }
        let mut next = self.fields;
        next.selected += 1;
        next.scroll_to_selected();
        self.fields = next;
    }

    /// Moves the window one row up, unless it is at the top, and ends any
    /// glide. A selection that left the screen moves to its nearest row.
    pub fn scroll_up(&mut self)
        ensures
            final(self)@ == old(self)@.scroll_up(),
            final(self)@.wf(),
    {
        proof {
            use_type_invariant(&*self);
        }
        let mut next = self.fields;
        if next.scroll > 0 {
            next.scroll -= 1;
        }
        next.target_scroll = next.scroll;
        next.select_within_view();
        self.fields = next;
    }

    /// Moves the window one row down, unless it is at the bottom, and ends
    /// any glide. A selection that left the screen moves to its nearest row.
    pub fn scroll_down(&mut self)
        ensures
            final(self)@ == old(self)@.scroll_down(),
            final(self)@.wf(),
    {
        proof {
            use_type_invariant(&*self);
        }
        let mut next = self.fields;
        if next.scroll < next.limit() {
            next.scroll += 1;
        }
        next.target_scroll = next.scroll;
        next.select_within_view();
        self.fields = next;
    }

    /// Sends the glide target one screen down, no further than the bottom.
    /// The window itself stays; where it already is at the bottom, the
    /// selection jumps to the last row.
    pub fn scroll_down_page(&mut self)
        ensures
            final(self)@ == old(self)@.scroll_down_page(),
            final(self)@.wf(),
    {
        proof {
            use_type_invariant(&*self);
        }
        let mut next = self.fields;
        let limit: u16 = next.limit();
        if next.scroll == limit && next.item_count > 0 {
            next.selected = next.item_count - 1;
        }
        if next.target_scroll < limit.saturating_sub(next.scroll_area) {
            next.target_scroll += next.scroll_area;
        } else {
            next.target_scroll = limit;
        }
        self.fields = next;
    }

    /// Sends the glide target one screen up, no further than the top. The
    /// window itself stays; where it already is at the top, the selection
    /// jumps to the first row.
    pub fn scroll_up_page(&mut self)
        ensures
            final(self)@ == old(self)@.scroll_up_page(),
            final(self)@.wf(),
    {
        proof {
            use_type_invariant(&*self);
        }
        let mut next = self.fields;
        if next.scroll == 0 {
            next.selected = 0;
        }
        if next.target_scroll > next.scroll_area {
            next.target_scroll -= next.scroll_area;
        } else {
            next.target_scroll = 0;
        }
        self.fields = next;
    }

    /// One animation step. A window within two rows of its target lands on
    /// it; a window further away covers a third of the distance, rounded
    /// down. A selection that left the screen moves to its nearest row.
    pub fn animate(&mut self)
        ensures
            final(self)@ == old(self)@.animate(),
            final(self)@.wf(),
    {
        proof {
            use_type_invariant(&*self);
        }
        let mut next = self.fields;
        if next.target_scroll >= next.scroll {
            let diff: u16 = next.target_scroll - next.scroll;
            if diff > 2 {
                next.scroll += diff / 3;
            } else {
                next.scroll = next.target_scroll;
            }
        } else {
            let diff: u16 = next.scroll - next.target_scroll;
            if diff > 2 {
                next.scroll -= diff / 3;
            } else {
                next.scroll = next.target_scroll;
            }
        }
        next.select_within_view();
        self.fields = next;
    }
}

} // verus!
