//! What a frame shows: where the table and its scrollbar lie on the terminal,
//! how wide the columns are, and which rows are on screen.

use vstd::prelude::*;
use crate::app::AppState;
use crate::model::{least, Viewport};

verus! {

/// Columns of the table.
pub const COLUMNS: u16 = 7;

/// Columns of fixed width: rank and symbol.
pub const FIXED_COLUMNS: u16 = 2;

/// Width of the rank column.
pub const RANK_WIDTH: u16 = 3;

/// Width of the symbol column.
pub const SYMBOL_WIDTH: u16 = 8;

/// Cells between two columns.
pub const COLUMN_SPACING: u16 = 3;

/// Rows of the table area that the header and the gap below it take.
pub const HEADER_HEIGHT: u16 = 2;

/// Widest terminal that is laid out without an outer margin.
pub const SMALL_WIDTH: u16 = 160;

/// A rectangle of terminal cells.
#[derive(Clone, Copy, Debug, PartialEq, Eq, Structural)]
pub struct Area {
    pub x: u16,
    pub y: u16,
    pub width: u16,
    pub height: u16,
}

impl Area {
    /// Whether the rectangle lies within the grid that `u16` coordinates
    /// can address.
    pub open spec fn fits(self) -> bool {
        &&& self.x + self.width <= u16::MAX
        &&& self.y + self.height <= u16::MAX
    }

    /// The rectangle without a margin of `vertical` rows above and below and
    /// `horizontal` cells left and right; the empty rectangle at the origin
    /// where it is too small to have such a margin.
    pub open spec fn shrunk(self, vertical: int, horizontal: int) -> Area {
        if self.width < 2 * horizontal || self.height < 2 * vertical {
            Area { x: 0, y: 0, width: 0, height: 0 }
        } else {
            Area {
                x: (self.x + horizontal) as u16,
                y: (self.y + vertical) as u16,
                width: (self.width - 2 * horizontal) as u16,
                height: (self.height - 2 * vertical) as u16,
            }
        }
    }

    /// The part of the terminal that the application draws on: all but one
    /// cell left and right on a small terminal, a wider margin on a large one.
    pub open spec fn frame_area(self) -> Area {
        if self.width <= SMALL_WIDTH {
            self.shrunk(0, 1)
        } else {
            self.shrunk(3, 9)
        }
    }
}

/// Calls `ratatui::layout::Rect::inner` with a `Margin` of the two widths.
/// Trusted: the result is the rectangle moved in by the margin on each side,
/// or the default rectangle, all zero, where twice the margin exceeds the
/// width or the height. The sums that `inner` forms must not overflow.
#[verifier::external_body]
fn inner(area: Area, vertical: u16, horizontal: u16) -> (inner: Area)
    requires
        2 * horizontal <= u16::MAX,
        2 * vertical <= u16::MAX,
        area.width >= 2 * horizontal && area.height >= 2 * vertical ==> area.x + horizontal
            <= u16::MAX && area.y + vertical <= u16::MAX,
    ensures
        inner == area.shrunk(vertical as int, horizontal as int),
{
    let rect = ratatui::layout::Rect {
        x: area.x,
        y: area.y,
        width: area.width,
        height: area.height,
    };
    let inner = rect.inner(&ratatui::layout::Margin { vertical, horizontal });
    Area { x: inner.x, y: inner.y, width: inner.width, height: inner.height }
}

/// The part of a terminal of the given size that the application draws on.
pub fn frame_area(size: Area) -> (area: Area)
    requires
        size.fits(),
    ensures
        area == size.frame_area(),
        area.fits(),
{
    if size.width <= SMALL_WIDTH {
        inner(size, 0, 1)
    } else {
        inner(size, 3, 9)
    }
}

/// Width of each of the columns that share what the rank and symbol columns
/// leave of `width` cells.
pub open spec fn spec_column_width(width: int) -> int {
    let remaining = if width > RANK_WIDTH + SYMBOL_WIDTH {
        width - (RANK_WIDTH + SYMBOL_WIDTH)
    } else {
        0
    };
    let share = remaining / (COLUMNS - FIXED_COLUMNS);
    let spacing = (COLUMNS * COLUMN_SPACING) / (COLUMNS - FIXED_COLUMNS);
    if share > spacing {
        share - spacing
    } else {
        0
    }
}

/// Width of each column but rank and symbol in a table `width` cells wide:
/// what those two leave is shared out evenly, and each share gives up its
/// part of the spacing between columns.
pub fn column_width(width: u16) -> (column_width: u16)
    ensures
        column_width == spec_column_width(width as int),
{
    let remaining: u16 = width.saturating_sub(RANK_WIDTH + SYMBOL_WIDTH);
    let shared: u16 = COLUMNS - FIXED_COLUMNS;
    let spacing: u16 = (COLUMNS * COLUMN_SPACING) / shared;
    (remaining / shared).saturating_sub(spacing)
}

/// Where the table and its scrollbar lie, and how the table is divided.
#[derive(Clone, Copy, Debug, PartialEq, Eq, Structural)]
pub struct TableLayout {
    /// Cells of the table, header included.
    pub table: Area,
    /// Cells of the scrollbar.
    pub scrollbar: Area,
    /// Width of each column but rank and symbol.
    pub column_width: u16,
    /// Rows of the table area that are left for data.
    pub viewport_height: u16,
}

/// Rows that an area `height` rows high leaves below the header.
pub open spec fn spec_viewport_height(height: int) -> int {
    if height > HEADER_HEIGHT {
        height - HEADER_HEIGHT
    } else {
        0
    }
}

/// The layout of the table within `area`.
pub open spec fn spec_table_layout(area: Area) -> TableLayout {
    let table = area.shrunk(2, 5);
    TableLayout {
        table,
        scrollbar: area.shrunk(2, 3),
        column_width: spec_column_width(table.width as int) as u16,
        viewport_height: spec_viewport_height(table.height as int) as u16,
    }
}

/// Lays the table out within `area`: the table keeps a margin of two rows
/// and five cells, the scrollbar one of two rows and three cells, and the
/// rows below the header are the viewport.
pub fn table_layout(area: Area) -> (layout: TableLayout)
    requires
        area.fits(),
    ensures
        layout == spec_table_layout(area),
        layout.table.fits(),
        layout.scrollbar.fits(),
{
    let table = inner(area, 2, 5);
    let scrollbar = inner(area, 2, 3);
    TableLayout {
        table,
        scrollbar,
        column_width: column_width(table.width),
        viewport_height: table.height.saturating_sub(HEADER_HEIGHT),
    }
}

/// One row of the table as it is shown.
#[derive(Clone, Copy, Debug, PartialEq, Eq, Structural)]
pub struct Row {
    /// Position of the record in the table, from zero.
    pub index: u16,
    /// Rank shown in the first column, from one.
    pub rank: u16,
    /// Whether the row is the highlighted one.
    pub selected: bool,
}

/// The row that shows record `index` in state `v`.
pub open spec fn spec_row(v: Viewport, index: int) -> Row {
    Row { index: index as u16, rank: (index + 1) as u16, selected: index == v.selected }
}

/// Index behind the last row on screen in state `v`.
pub open spec fn spec_visible_end(v: Viewport) -> int {
    least(v.item_count, v.scroll + v.scroll_area)
}

/// The rows on screen in state `v`, top to bottom: those of the window as far
/// as the table has them.
pub open spec fn spec_visible_rows(v: Viewport) -> Seq<Row> {
    Seq::new((spec_visible_end(v) - v.scroll) as nat, |i: int| spec_row(v, v.scroll + i))
}

/// The rows on screen, top to bottom, each with its rank, which is one more
/// than its index wherever the window stands, and with the selected row
/// marked.
pub fn visible_rows(app: &AppState) -> (rows: Vec<Row>)
    ensures
        rows@ == spec_visible_rows(app@),
{
    proof {
        use_type_invariant(app);
    }
    let scroll: u16 = app.scroll();
    let selected: u16 = app.selected();
    let item_count: u16 = app.item_count();
    let end: u16 = if item_count - scroll < app.scroll_area() {
        item_count
    } else {
        scroll + app.scroll_area()
    };
    let mut rows: Vec<Row> = Vec::new();
    let mut index: u16 = scroll;
    while index < end
        invariant
            scroll == app@.scroll,
            selected == app@.selected,
            end == spec_visible_end(app@),
            end <= app@.item_count <= u16::MAX,
            scroll <= index <= end,
            rows@.len() == index - scroll,
            forall|i: int| 0 <= i < rows@.len() ==> rows@[i] == spec_row(app@, scroll + i),
        decreases end - index,
    {
        rows.push(Row { index, rank: index + 1, selected: index == selected });
        index += 1;
    }
    rows
}

/// All that a frame shows.
#[derive(Debug)]
pub struct Screen {
    /// Cells that the application draws on; the border runs along their edge.
    pub area: Area,
    /// The table and its scrollbar within `area`.
    pub layout: TableLayout,
    /// The rows on screen.
    pub rows: Vec<Row>,
    /// Position to show on the scrollbar.
    pub scrollbar_position: u16,
    /// Content length to show on the scrollbar.
    pub scrollbar_content_length: u16,
}

/// Height of the viewport on a terminal of the given size.
pub open spec fn spec_screen_height(size: Area) -> int {
    spec_table_layout(size.frame_area()).viewport_height as int
}

/// Composes the frame for a terminal of the given size. The height that the
/// layout leaves for data is handed to the controller first, so the rows
/// and the scrollbar are those of the window as it fits the terminal now.
pub fn compose(app: &mut AppState, size: Area) -> (screen: Screen)
    requires
        size.fits(),
    ensures
        final(app)@ == old(app)@.set_scroll_area(spec_screen_height(size)),
        final(app)@.wf(),
        screen.area == size.frame_area(),
        screen.layout == spec_table_layout(screen.area),
        screen.rows@ == spec_visible_rows(final(app)@),
        screen.scrollbar_position == final(app)@.scrollbar_position(),
        screen.scrollbar_content_length == final(app)@.scrollbar_content_length(),
{
    let area = frame_area(size);
    let layout = table_layout(area);
    app.set_scroll_area(layout.viewport_height);
    let rows = visible_rows(app);
    Screen {
        area,
        layout,
        rows,
        scrollbar_position: app.scrollbar_position(),
        scrollbar_content_length: app.scrollbar_content_length(),
    }
}

} // verus!
