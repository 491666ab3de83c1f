//! What holds of the state machine as a whole.

use vstd::prelude::*;
use crate::model::{eased_distance, max_position, settle_ticks, Viewport};

verus! {

/// Every operation leads from a valid state to a valid state: whatever the
/// user does, the selection names a row, the offsets stay in range and the
/// selected row is on screen.
pub proof fn operations_keep_the_invariant(v: Viewport, item_count: int, scroll_area: int)
    requires
        v.wf(),
        item_count >= 0,
        scroll_area >= 0,
    ensures
        Viewport::empty().wf(),
        v.set_dataset(item_count).wf(),
        v.set_scroll_area(scroll_area).wf(),
        v.select_up().wf(),
        v.select_down().wf(),
        v.scroll_up().wf(),
        v.scroll_down().wf(),
        v.scroll_up_page().wf(),
        v.scroll_down_page().wf(),
        v.animate().wf(),
{
}

/// Whichever of table size and screen height is set first, the window ends
/// within the scrollable range; and where the screen has a row and the table
/// has one, the selected row exists and is on screen.
pub proof fn dataset_and_scroll_area_in_either_order(
    v: Viewport,
    item_count: int,
    scroll_area: int,
)
    requires
        v.wf(),
        item_count >= 0,
        scroll_area >= 0,
    ensures
        ({
            let a = v.set_dataset(item_count).set_scroll_area(scroll_area);
            let b = v.set_scroll_area(scroll_area).set_dataset(item_count);
            &&& a.item_count == item_count && b.item_count == item_count
            &&& a.scroll_area == scroll_area && b.scroll_area == scroll_area
            &&& 0 <= a.scroll <= max_position(item_count, scroll_area)
            &&& 0 <= b.scroll <= max_position(item_count, scroll_area)
            &&& item_count > 0 && scroll_area > 0 ==> {
                &&& a.scroll <= a.selected < a.scroll + scroll_area
                &&& b.scroll <= b.selected < b.scroll + scroll_area
                &&& a.selected < item_count
                &&& b.selected < item_count
            }
        }),
{
}

/// A table without rows leaves selection and both offsets at zero, whatever
/// the height of the screen.
pub proof fn empty_dataset_rests_at_zero(v: Viewport, scroll_area: int)
    requires
        v.wf(),
        scroll_area >= 0,
    ensures
        v.item_count == 0 ==> v.selected == 0 && v.scroll == 0 && v.target_scroll == 0,
        ({
            let a = v.set_dataset(0).set_scroll_area(scroll_area);
            let b = v.set_scroll_area(scroll_area).set_dataset(0);
            &&& a.selected == 0 && a.scroll == 0 && a.target_scroll == 0
            &&& b.selected == 0 && b.scroll == 0 && b.target_scroll == 0
        }),
{
}

/// An animation step on a window that has reached its target changes nothing.
pub proof fn animate_at_rest_changes_nothing(v: Viewport)
    requires
        v.wf(),
        v.at_rest(),
    ensures
        v.animate() == v,
{
}

/// An animation step leaves table, screen and target as they are, and
/// shortens the way to the target as `eased_distance` says: to nothing from
/// at most two rows away, by a third, rounded down, from further away.
pub proof fn animate_shortens_the_way(v: Viewport)
    requires
        v.wf(),
    ensures
        v.animate().wf(),
        v.animate().item_count == v.item_count,
        v.animate().scroll_area == v.scroll_area,
        v.animate().target_scroll == v.target_scroll,
        v.animate().distance() == eased_distance(v.distance()),
        v.distance() > 0 ==> v.animate().distance() < v.distance(),
{
}

/// The number of steps to rest is never more than the distance.
pub proof fn settle_ticks_at_most_distance(distance: int)
    requires
        distance >= 0,
    ensures
        settle_ticks(distance) <= distance,
    decreases distance,
{
    if distance > 0 {
        settle_ticks_at_most_distance(eased_distance(distance));
    }
}

/// Repeated animation steps bring the window to its target: it is at rest
/// after `settle_ticks` steps, not before, and stays there. The steps needed
/// are at most as many as the rows it was away.
pub proof fn animate_converges(v: Viewport, ticks: nat)
    requires
        v.wf(),
    ensures
        v.animate_times(ticks).wf(),
        v.animate_times(ticks).target_scroll == v.target_scroll,
        v.animate_times(ticks).at_rest() <==> ticks >= settle_ticks(v.distance()),
        settle_ticks(v.distance()) <= v.distance(),
    decreases ticks,
{
    settle_ticks_at_most_distance(v.distance());
    if ticks > 0 {
        animate_shortens_the_way(v);
        animate_converges(v.animate(), (ticks - 1) as nat);
    }
}

/// A selection on the first row of the window takes the window with it when
/// it moves up: window and target both land on the newly selected row, with
/// no glide.
pub proof fn select_up_takes_the_window_along(v: Viewport)
    requires
        v.wf(),
        v.scroll_area > 0,
        v.selected > 0,
        v.selected == v.scroll,
    ensures
        v.select_up().selected == v.selected - 1,
        v.select_up().scroll == v.selected - 1,
        v.select_up().target_scroll == v.selected - 1,
{
}

} // verus!
