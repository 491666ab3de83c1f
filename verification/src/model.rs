//! The viewport as a mathematical state machine.
//!
//! A `Viewport` is the controller's state over unbounded integers; every
//! operation of the controller is a total function from `Viewport` to
//! `Viewport`. The executable controller is specified against these functions.

use vstd::prelude::*;

verus! {

/// The state of the controller.
pub struct Viewport {
    /// Number of rows in the table.
    pub item_count: int,
    /// Number of rows that fit on screen.
    pub scroll_area: int,
    /// Index of the highlighted row.
    pub selected: int,
    /// Index of the first row on screen.
    pub scroll: int,
    /// The offset that `scroll` is gliding towards.
    pub target_scroll: int,
}

/// Length of the scrollable range: the rows that do not fit on screen.
pub open spec fn max_position(item_count: int, scroll_area: int) -> int {
    if item_count > scroll_area {
        item_count - scroll_area
    } else {
        0
    }
}

/// Largest offset the first visible row may take. A viewport without rows
/// pins every offset to zero.
pub open spec fn scroll_limit(item_count: int, scroll_area: int) -> int {
    if scroll_area <= 0 {
        0
    } else {
        max_position(item_count, scroll_area)
    }
}

/// Number of rows that the controller takes a table of `len` records to
/// have: all of them, as far as a `u16` can count.
pub open spec fn counted(len: int) -> int {
    least(len, u16::MAX as int)
}

/// The smaller of two integers.
pub open spec fn least(a: int, b: int) -> int {
    if a <= b {
        a
    } else {
        b
    }
}

/// Distance that is left after one animation step taken `distance` rows away
/// from the target.
pub open spec fn eased_distance(distance: int) -> int {
    if distance <= 2 {
        0
    } else {
        distance - distance / 3
    }
}

/// Number of animation steps that bring a window `distance` rows away from
/// its target to rest.
pub open spec fn settle_ticks(distance: int) -> nat
    decreases distance,
{
    if distance <= 0 {
        0
    } else {
        1 + settle_ticks(eased_distance(distance))
    }
}

impl Viewport {
    /// The state before any data has arrived.
    pub open spec fn empty() -> Viewport {
        Viewport { item_count: 0, scroll_area: 0, selected: 0, scroll: 0, target_scroll: 0 }
    }

    /// Largest offset that `scroll` and `target_scroll` may take in this state.
    pub open spec fn limit(self) -> int {
        scroll_limit(self.item_count, self.scroll_area)
    }

    /// Whether row `index` lies inside the window that starts at `scroll`.
    pub open spec fn shows(self, index: int) -> bool {
        self.scroll <= index < self.scroll + self.scroll_area
    }

    /// The invariant of the controller: the selection names a row (row 0 of an
    /// empty table), both offsets lie within the scrollable range, and the
    /// selected row is on screen whenever there is a row and a screen.
    pub open spec fn wf(self) -> bool {
        &&& 0 <= self.item_count
        &&& 0 <= self.scroll_area
        &&& 0 <= self.selected
        &&& self.selected < self.item_count || self.selected == 0
        &&& 0 <= self.scroll <= self.limit()
        &&& 0 <= self.target_scroll <= self.limit()
        &&& self.item_count > 0 && self.scroll_area > 0 ==> self.shows(self.selected)
    }

    /// Position reported to the scrollbar.
    pub open spec fn scrollbar_position(self) -> int {
        self.scroll
    }

    /// Content length reported to the scrollbar.
    pub open spec fn scrollbar_content_length(self) -> int {
        max_position(self.item_count, self.scroll_area)
    }

    /// Moves the window, without gliding, by the least amount that brings the
    /// selected row on screen.
    pub open spec fn scroll_to_selected(self) -> Viewport {
        if self.scroll_area <= 0 {
            self
        } else if self.selected < self.scroll {
            Viewport { scroll: self.selected, target_scroll: self.selected, ..self }
        } else if self.selected >= self.scroll + self.scroll_area {
            Viewport {
                scroll: self.selected - self.scroll_area + 1,
                target_scroll: self.selected - self.scroll_area + 1,
                ..self
            }
        } else {
            self
        }
    }

    /// Moves the selection to the nearest row that is on screen.
    pub open spec fn select_within_view(self) -> Viewport {
        if self.scroll_area <= 0 {
            self
        } else if self.selected < self.scroll {
            Viewport { selected: self.scroll, ..self }
        } else if self.selected >= self.scroll + self.scroll_area {
            Viewport { selected: self.scroll + self.scroll_area - 1, ..self }
        } else {
            self
        }
    }

    /// Selection one row up; the window follows at once.
    pub open spec fn select_up(self) -> Viewport {
        if self.selected <= 0 {
            self
        } else {
            Viewport { selected: self.selected - 1, ..self }.scroll_to_selected()
        }
    }

    /// Selection one row down; the window follows at once.
    pub open spec fn select_down(self) -> Viewport {
        if self.selected + 1 >= self.item_count {
            self
        } else {
            Viewport { selected: self.selected + 1, ..self }.scroll_to_selected()
        }
    }

    /// Window one row up, ending any glide; the selection follows.
    pub open spec fn scroll_up(self) -> Viewport {
        let scroll = if self.scroll > 0 {
            self.scroll - 1
        } else {
            0
        };
        Viewport { scroll, target_scroll: scroll, ..self }.select_within_view()
    }

    /// Window one row down, ending any glide; the selection follows.
    pub open spec fn scroll_down(self) -> Viewport {
        let scroll = least(self.scroll + 1, self.limit());
        Viewport { scroll, target_scroll: scroll, ..self }.select_within_view()
    }

    /// Target one screen down. A window already at the bottom sends the
    /// selection to the last row.
    pub open spec fn scroll_down_page(self) -> Viewport {
        Viewport {
            selected: if self.scroll == self.limit() && self.item_count > 0 {
                self.item_count - 1
            } else {
                self.selected
            },
            target_scroll: least(self.target_scroll + self.scroll_area, self.limit()),
            ..self
        }
    }

    /// Target one screen up. A window already at the top sends the selection
    /// to the first row.
    pub open spec fn scroll_up_page(self) -> Viewport {
        Viewport {
            selected: if self.scroll == 0 {
                0
            } else {
                self.selected
            },
            target_scroll: if self.target_scroll > self.scroll_area {
                self.target_scroll - self.scroll_area
            } else {
                0
            },
            ..self
        }
    }

    /// Where one animation step puts the window: on the target when it is at
    /// most two rows away, else a third of the distance closer.
    pub open spec fn eased_scroll(self) -> int {
        let diff = self.target_scroll - self.scroll;
        if -2 <= diff <= 2 {
            self.target_scroll
        } else if diff > 2 {
            self.scroll + diff / 3
        } else {
            self.scroll - (-diff) / 3
        }
    }

    /// One animation step; the selection follows the window.
    pub open spec fn animate(self) -> Viewport {
        Viewport { scroll: self.eased_scroll(), ..self }.select_within_view()
    }

    /// The state after `ticks` animation steps.
    pub open spec fn animate_times(self, ticks: nat) -> Viewport
        decreases ticks,
    {
        if ticks == 0 {
            self
        } else {
            self.animate().animate_times((ticks - 1) as nat)
        }
    }

    /// Number of rows between the window and its target.
    pub open spec fn distance(self) -> int {
        if self.target_scroll >= self.scroll {
            self.target_scroll - self.scroll
        } else {
            self.scroll - self.target_scroll
        }
    }

    /// Whether the window has reached its target.
    pub open spec fn at_rest(self) -> bool {
        self.scroll == self.target_scroll
    }

    /// Replaces the table by one of `item_count` rows and pulls selection and
    /// offsets back into range.
    pub open spec fn set_dataset(self, item_count: int) -> Viewport {
        let limit = scroll_limit(item_count, self.scroll_area);
        Viewport {
            item_count,
            selected: if item_count <= 0 {
                0
            } else {
                least(self.selected, item_count - 1)
            },
            scroll: least(self.scroll, limit),
            target_scroll: least(self.target_scroll, limit),
            ..self
        }
    }

    /// Gives the screen `scroll_area` rows, pulls the offsets back into range
    /// and moves the window so that the selected row stays on screen.
    pub open spec fn set_scroll_area(self, scroll_area: int) -> Viewport {
        let limit = scroll_limit(self.item_count, scroll_area);
        Viewport {
            scroll_area,
            scroll: least(self.scroll, limit),
            target_scroll: least(self.target_scroll, limit),
            ..self
        }.scroll_to_selected()
    }
}

} // verus!
