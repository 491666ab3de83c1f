use cryptop::app::AppState;
use cryptop::frame::{
    column_width, compose, frame_area, table_layout, visible_rows, Area, Row, TableLayout,
    COLUMNS, COLUMN_SPACING, FIXED_COLUMNS, HEADER_HEIGHT, RANK_WIDTH, SMALL_WIDTH, SYMBOL_WIDTH,
};

fn area(x: u16, y: u16, width: u16, height: u16) -> Area {
    Area { x, y, width, height }
}

fn row(index: u16, selected: bool) -> Row {
    Row { index, rank: index + 1, selected }
}

#[test]
fn layout_constants() {
    assert_eq!(
        (COLUMNS, FIXED_COLUMNS, RANK_WIDTH, SYMBOL_WIDTH, COLUMN_SPACING),
        (7, 2, 3, 8, 3)
    );
    assert_eq!((HEADER_HEIGHT, SMALL_WIDTH), (2, 160));
}

#[test]
fn small_terminal_keeps_one_cell_each_side() {
    assert_eq!(frame_area(area(0, 0, 80, 24)), area(1, 0, 78, 24));
    assert_eq!(frame_area(area(0, 0, 160, 50)), area(1, 0, 158, 50));
    assert_eq!(frame_area(area(4, 7, 2, 0)), area(5, 7, 0, 0));
}

#[test]
fn large_terminal_gets_a_wide_margin() {
    assert_eq!(frame_area(area(0, 0, 161, 50)), area(9, 3, 143, 44));
    assert_eq!(frame_area(area(10, 20, 200, 6)), area(19, 23, 182, 0));
}

#[test]
fn terminal_too_small_for_its_margin_is_left_empty() {
    assert_eq!(frame_area(area(3, 3, 1, 24)), area(0, 0, 0, 0));
    assert_eq!(frame_area(area(3, 3, 200, 5)), area(0, 0, 0, 0));
}

#[test]
fn terminal_at_the_edge_of_the_grid() {
    assert_eq!(frame_area(area(65455, 65511, 80, 24)), area(65456, 65511, 78, 24));
    assert_eq!(frame_area(area(0, 0, 65535, 65535)), area(9, 3, 65517, 65529));
}

#[test]
fn column_width_shares_what_is_left() {
    assert_eq!(column_width(0), 0);
    assert_eq!(column_width(11), 0);
    assert_eq!(column_width(35), 0);
    assert_eq!(column_width(36), 1);
    assert_eq!(column_width(40), 1);
    assert_eq!(column_width(41), 2);
    assert_eq!(column_width(68), 7);
    assert_eq!(column_width(100), 13);
    assert_eq!(column_width(65535), 13100);
}

#[test]
fn table_lies_inside_its_area() {
    assert_eq!(
        table_layout(area(1, 0, 78, 24)),
        TableLayout {
            table: area(6, 2, 68, 20),
            scrollbar: area(4, 2, 72, 20),
            column_width: 7,
            viewport_height: 18,
        }
    );
}

#[test]
fn table_in_an_area_too_small() {
    assert_eq!(
        table_layout(area(1, 0, 9, 24)),
        TableLayout {
            table: area(0, 0, 0, 0),
            scrollbar: area(4, 2, 3, 20),
            column_width: 0,
            viewport_height: 0,
        }
    );
    assert_eq!(
        table_layout(area(0, 0, 80, 5)),
        TableLayout {
            table: area(5, 2, 70, 1),
            scrollbar: area(3, 2, 74, 1),
            column_width: 7,
            viewport_height: 0,
        }
    );
    assert_eq!(table_layout(area(0, 0, 80, 3)).table, area(0, 0, 0, 0));
}

#[test]
fn rows_of_the_window() {
    let mut app = AppState::new();
    app.set_dataset(100);
    app.set_scroll_area(4);
    for _ in 0..50 {
        app.scroll_down();
    }
    app.select_down();
    assert_eq!(
        visible_rows(&app),
        vec![row(50, false), row(51, true), row(52, false), row(53, false)]
    );
    assert_eq!(visible_rows(&app)[0].rank, 51);
}

#[test]
fn rows_end_with_the_table() {
    let mut app = AppState::new();
    app.set_dataset(3);
    app.set_scroll_area(10);
    assert_eq!(visible_rows(&app), vec![row(0, true), row(1, false), row(2, false)]);
    app.set_dataset(0);
    assert_eq!(visible_rows(&app), vec![]);
    app.set_dataset(3);
    app.set_scroll_area(0);
    assert_eq!(visible_rows(&app), vec![]);
}

#[test]
fn rows_during_a_glide() {
    let mut app = AppState::new();
    app.set_dataset(100);
    app.set_scroll_area(3);
    app.scroll_down_page();
    app.scroll_down_page();
    assert_eq!(visible_rows(&app), vec![row(0, true), row(1, false), row(2, false)]);
    app.animate();
    assert_eq!(visible_rows(&app), vec![row(2, true), row(3, false), row(4, false)]);
}

#[test]
fn last_rank_of_the_largest_table() {
    let mut app = AppState::new();
    app.set_dataset(65535);
    app.set_scroll_area(65535);
    app.scroll_down_page();
    app.set_scroll_area(2);
    assert_eq!(
        visible_rows(&app),
        vec![
            Row { index: 65533, rank: 65534, selected: false },
            Row { index: 65534, rank: 65535, selected: true },
        ]
    );
}

#[test]
fn compose_feeds_the_height_in_first() {
    let mut app = AppState::new();
    app.set_dataset(100);
    app.set_scroll_area(50);
    for _ in 0..30 {
        app.select_down();
    }
    let screen = compose(&mut app, area(0, 0, 80, 24));
    assert_eq!(screen.area, area(1, 0, 78, 24));
    assert_eq!(screen.layout, table_layout(area(1, 0, 78, 24)));
    assert_eq!(app.scroll_area(), 18);
    assert_eq!((app.selected(), app.scroll(), app.target_scroll()), (30, 13, 13));
    assert_eq!(screen.rows.len(), 18);
    assert_eq!(screen.rows[0], row(13, false));
    assert_eq!(screen.rows[17], row(30, true));
    assert_eq!(screen.scrollbar_position, 13);
    assert_eq!(screen.scrollbar_content_length, 82);
}

#[test]
fn compose_on_a_terminal_without_room() {
    let mut app = AppState::new();
    app.set_dataset(100);
    app.set_scroll_area(10);
    for _ in 0..30 {
        app.scroll_down();
    }
    let screen = compose(&mut app, area(0, 0, 80, 3));
    assert_eq!(screen.layout.viewport_height, 0);
    assert_eq!(screen.rows, vec![]);
    assert_eq!((app.selected(), app.scroll(), app.target_scroll()), (30, 0, 0));
    assert_eq!(screen.scrollbar_position, 0);
    assert_eq!(screen.scrollbar_content_length, 100);
}
