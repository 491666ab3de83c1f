use cryptop::app::AppState;
use cryptop::input::{finish_refresh, handle_event, turn, Action, Key, KeyPress};

fn controller() -> AppState {
    let mut app = AppState::new();
    app.set_dataset(100);
    app.set_scroll_area(10);
    for _ in 0..20 {
        app.scroll_down();
    }
    app
}

fn press(key: Key, shift: bool) -> Option<KeyPress> {
    Some(KeyPress { key, shift })
}

fn after(event: Option<KeyPress>) -> (Action, (u16, u16, u16)) {
    let mut app = controller();
    let action = handle_event(&mut app, event);
    (action, (app.selected(), app.scroll(), app.target_scroll()))
}

#[test]
fn no_event_changes_nothing() {
    assert_eq!(after(None), (Action::Continue, (20, 20, 20)));
}

#[test]
fn plain_arrows_move_the_selection() {
    assert_eq!(after(press(Key::Down, false)), (Action::Continue, (21, 20, 20)));
    assert_eq!(after(press(Key::Up, false)), (Action::Continue, (19, 19, 19)));
}

#[test]
fn shifted_arrows_move_the_window() {
    assert_eq!(after(press(Key::Down, true)), (Action::Continue, (21, 21, 21)));
    assert_eq!(after(press(Key::Up, true)), (Action::Continue, (20, 19, 19)));
}

#[test]
fn page_keys_move_the_target() {
    for shift in [false, true] {
        assert_eq!(after(press(Key::PageDown, shift)), (Action::Continue, (20, 20, 30)));
        assert_eq!(after(press(Key::PageUp, shift)), (Action::Continue, (20, 20, 10)));
    }
}

#[test]
fn q_quits_and_r_refreshes() {
    for shift in [false, true] {
        assert_eq!(after(press(Key::Char('q'), shift)), (Action::Quit, (20, 20, 20)));
        assert_eq!(after(press(Key::Char('r'), shift)), (Action::Refresh, (20, 20, 20)));
    }
}

#[test]
fn other_keys_are_ignored() {
    for key in [Key::Other, Key::Char('Q'), Key::Char('R'), Key::Char('x'), Key::Char(' ')] {
        for shift in [false, true] {
            assert_eq!(after(press(key, shift)), (Action::Continue, (20, 20, 20)));
        }
    }
}

#[test]
fn refresh_that_failed_keeps_the_state() {
    let mut app = controller();
    app.scroll_down_page();
    let before = app;
    finish_refresh(&mut app, None);
    assert_eq!(app, before);
    assert_eq!(app.item_count(), 100);
}

#[test]
fn refresh_replaces_the_dataset() {
    let mut app = controller();
    finish_refresh(&mut app, Some(25usize));
    assert_eq!(app.item_count(), 25);
    assert_eq!((app.selected(), app.scroll(), app.target_scroll()), (20, 15, 15));
    finish_refresh(&mut app, Some(0));
    assert_eq!(app.item_count(), 0);
    assert_eq!((app.selected(), app.scroll(), app.target_scroll()), (0, 0, 0));
}

#[test]
fn refresh_counts_what_a_u16_holds() {
    let mut app = controller();
    finish_refresh(&mut app, Some(65535));
    assert_eq!(app.item_count(), 65535);
    finish_refresh(&mut app, Some(65536));
    assert_eq!(app.item_count(), 65535);
    finish_refresh(&mut app, Some(usize::MAX));
    assert_eq!(app.item_count(), 65535);
    assert_eq!((app.selected(), app.scroll(), app.target_scroll()), (20, 20, 20));
}

#[test]
fn turn_animates_after_the_event() {
    let mut app = controller();
    assert_eq!(turn(&mut app, press(Key::PageDown, false)), Action::Continue);
    assert_eq!((app.selected(), app.scroll(), app.target_scroll()), (23, 23, 30));
    assert_eq!(turn(&mut app, None), Action::Continue);
    assert_eq!((app.selected(), app.scroll(), app.target_scroll()), (25, 25, 30));
    assert_eq!(turn(&mut app, press(Key::Up, false)), Action::Continue);
    assert_eq!((app.selected(), app.scroll(), app.target_scroll()), (24, 24, 24));
    assert_eq!(turn(&mut app, press(Key::Char('r'), false)), Action::Refresh);
    assert_eq!(turn(&mut app, press(Key::Char('q'), false)), Action::Quit);
    assert_eq!((app.selected(), app.scroll(), app.target_scroll()), (24, 24, 24));
}
