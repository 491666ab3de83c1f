//! From key presses to operations of the controller.
//!
//! The loop that owns the terminal waits for a key, hands what came to `turn`
//! and carries out the action that comes back. Fetching new data is such an
//! action; its outcome returns through `finish_refresh`.

use vstd::prelude::*;
use crate::app::AppState;
use crate::model::{counted, Viewport};

verus! {

/// The keys that the application tells apart.
#[derive(Clone, Copy, Debug, PartialEq, Eq, Structural)]
pub enum Key {
    Up,
    Down,
    PageUp,
    PageDown,
    Char(char),
    /// Any other key.
    Other,
}

/// A key together with what is known of the modifiers held with it.
#[derive(Clone, Copy, Debug, PartialEq, Eq, Structural)]
pub struct KeyPress {
    pub key: Key,
    /// Whether shift, and no other modifier, was held.
    pub shift: bool,
}

/// What the loop has to do after an event.
#[derive(Clone, Copy, Debug, PartialEq, Eq, Structural)]
pub enum Action {
    /// Go on with the next frame.
    Continue,
    /// Fetch the data anew and report the outcome to `finish_refresh`.
    Refresh,
    /// Leave the loop.
    Quit,
}

/// The action that an event asks of the loop: `q` quits, `r` refreshes, and
/// all else, no event included, goes on.
pub open spec fn spec_action(event: Option<KeyPress>) -> Action {
    match event {
        Some(KeyPress { key: Key::Char('q'), .. }) => Action::Quit,
        Some(KeyPress { key: Key::Char('r'), .. }) => Action::Refresh,
        _ => Action::Continue,
    }
}

/// The state that an event leads to: an arrow moves the selection, or the
/// window where shift is held; a page key moves the glide target; all else,
/// no event included, changes nothing.
pub open spec fn spec_next(v: Viewport, event: Option<KeyPress>) -> Viewport {
    match event {
        Some(KeyPress { key: Key::Up, shift: false }) => v.select_up(),
        Some(KeyPress { key: Key::Up, shift: true }) => v.scroll_up(),
        Some(KeyPress { key: Key::Down, shift: false }) => v.select_down(),
        Some(KeyPress { key: Key::Down, shift: true }) => v.scroll_down(),
        Some(KeyPress { key: Key::PageUp, .. }) => v.scroll_up_page(),
        Some(KeyPress { key: Key::PageDown, .. }) => v.scroll_down_page(),
        _ => v,
    }
}

/// Applies an event to the controller and says what the loop has to do.
/// `None` stands for a wait that ended without a key.
pub fn handle_event(app: &mut AppState, event: Option<KeyPress>) -> (action: Action)
    ensures
        final(app)@ == spec_next(old(app)@, event),
        final(app)@.wf(),
        action == spec_action(event),
{
    proof {
        use_type_invariant(&*app);
    }
    match event {
        None => Action::Continue,
        Some(press) => {
            match press.key {
                Key::Up => {
                    if press.shift {
                        app.scroll_up();
                    } else {
                        app.select_up();
                    }
                    Action::Continue
                },
                Key::Down => {
                    if press.shift {
                        app.scroll_down();
                    } else {
                        app.select_down();
                    }
                    Action::Continue
                },
                Key::PageUp => {
                    app.scroll_up_page();
                    Action::Continue
                },
                Key::PageDown => {
                    app.scroll_down_page();
                    Action::Continue
                },
                Key::Char(c) => {
                    if c == 'q' {
                        Action::Quit
                    } else if c == 'r' {
                        Action::Refresh
                    } else {
                        Action::Continue
                    }
                },
                Key::Other => Action::Continue,
            }
        },
    }
}

/// The state after a refresh: that of the new table where the fetch gave
/// `Some` number of records, the old state where it failed.
pub open spec fn spec_refreshed(v: Viewport, fetched: Option<usize>) -> Viewport {
    match fetched {
        Some(len) => v.set_dataset(counted(len as int)),
        None => v,
    }
}

/// Takes in the outcome of a refresh. A fetch that failed leaves the
/// controller as it was, so the loop goes on with the table it had.
pub fn finish_refresh(app: &mut AppState, fetched: Option<usize>)
    ensures
        final(app)@ == spec_refreshed(old(app)@, fetched),
        final(app)@.wf(),
{
    proof {
        use_type_invariant(&*app);
    }
    match fetched {
        Some(len) => app.set_dataset(len),
        None => {},
    }
}

/// One turn of the loop: the event is applied, then the window takes one
/// animation step, whether or not a key came. The wait for a key is the
/// clock of the glide.
pub fn turn(app: &mut AppState, event: Option<KeyPress>) -> (action: Action)
    ensures
        final(app)@ == spec_next(old(app)@, event).animate(),
        final(app)@.wf(),
        action == spec_action(event),
{
    let action = handle_event(app, event);
    app.animate();
    action
}

} // verus!
