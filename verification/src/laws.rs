//! What holds of the desktop over whole runs of commands.

use crate::desk::{index_of_is_unique, Desk};
use crate::message::{CoplandMsg, MoveEvent};
use crate::snapshot::{Rendered, Snapshot};
use crate::window::{Window, WindowClose, WindowId, WindowState};
use vstd::prelude::*;

verus! {

/// The desktop after the windows `ids` have been given the focus one after
/// another.
pub open spec fn focus_all(desk: Desk, ids: Seq<WindowId>) -> Desk
    decreases ids.len(),
{
    if ids.len() == 0 {
        desk
    } else {
        focus_all(desk, ids.drop_last()).focus(ids.last())
    }
}

/// The desktop after requests to close the windows `ids` one after another.
pub open spec fn close_all(desk: Desk, ids: Seq<WindowId>) -> Desk
    decreases ids.len(),
{
    if ids.len() == 0 {
        desk
    } else {
        close_all(desk, ids.drop_last()).close(ids.last())
    }
}

/// Giving a window the focus keeps the invariant and the set of windows,
/// uses up at most one stacking index, and leaves that window, if there is
/// one, in focus and stacked strictly above every other.
pub proof fn focus_raises(desk: Desk, id: WindowId)
    requires
        desk.wf(),
        desk.max_z_index < u32::MAX,
    ensures
        desk.focus(id).wf(),
        desk.focus(id).windows.len() == desk.windows.len(),
        forall|i: int|
            0 <= i < desk.windows.len() ==> (#[trigger] desk.focus(id).windows[i]).id
                == desk.windows[i].id,
        forall|other: WindowId| desk.focus(id).contains(other) == desk.contains(other),
        desk.max_z_index <= desk.focus(id).max_z_index <= desk.max_z_index + 1,
        desk.contains(id) ==> desk.focus(id).topmost(id) && desk.focus(id).focused_window == id,
        !desk.contains(id) ==> desk.focus(id) == desk,
{
    let after = desk.focus(id);
    if desk.contains(id) {
        let place = desk.index_of(id);
        index_of_is_unique(after, id, place);
        assert forall|other: WindowId| after.contains(other) == desk.contains(other) by {
            if desk.contains(other) {
                let i = desk.index_of(other);
                assert(after.windows[i].id == other);
            }
            if after.contains(other) {
                let i = after.index_of(other);
                assert(desk.windows[i].id == other);
            }
        }
    }
}

/// Giving a window the focus moves the taskbar's highlight to it: it gets
/// the stacking index after the highest one handed out, its entry is
/// highlighted, and no other window's entry is; every other window stays
/// exactly as it was.
pub proof fn focus_moves_highlight(desk: Desk, id: WindowId, other: WindowId)
    requires
        desk.wf(),
        desk.max_z_index < u32::MAX,
        desk.contains(id),
        desk.contains(other),
        other != id,
    ensures
        desk.focus(id).get(id).unwrap().z_index == desk.max_z_index + 1,
        desk.focus(id).focused_window == id,
        desk.focus(id).active(id),
        !desk.focus(id).active(other),
        desk.focus(id).get(other) == desk.get(other),
{
    let after = desk.focus(id);
    let place = desk.index_of(id);
    let beside = desk.index_of(other);
    index_of_is_unique(after, id, place);
    index_of_is_unique(after, other, beside);
}

/// The window of the last of the requests `ids` that names a window of the
/// registry.
pub open spec fn last_present(desk: Desk, ids: Seq<WindowId>) -> Option<WindowId>
    decreases ids.len(),
{
    if ids.len() == 0 {
        None
    } else if desk.contains(ids.last()) {
        Some(ids.last())
    } else {
        last_present(desk, ids.drop_last())
    }
}

/// After any run of focus requests on a well-formed desktop, the window of
/// the last request that named a window of the registry is stacked strictly
/// above every other window present, and has the focus. The run needs one
/// stacking index for each request.
pub proof fn last_focused_is_topmost(desk: Desk, ids: Seq<WindowId>)
    requires
        desk.wf(),
        desk.max_z_index + ids.len() <= u32::MAX,
    ensures
        focus_all(desk, ids).wf(),
        last_present(desk, ids) matches Some(id) ==> focus_all(desk, ids).topmost(id)
            && focus_all(desk, ids).focused_window == id,
    decreases ids.len(),
{
    if ids.len() > 0 {
        focus_all_keeps_windows(desk, ids.drop_last());
        focus_raises(focus_all(desk, ids.drop_last()), ids.last());
        if !desk.contains(ids.last()) {
            last_focused_is_topmost(desk, ids.drop_last());
        }
    }
}

/// A run of focus requests keeps the invariant and the set of windows, and
/// uses up at most one stacking index for each request.
pub proof fn focus_all_keeps_windows(desk: Desk, ids: Seq<WindowId>)
    requires
        desk.wf(),
        desk.max_z_index + ids.len() <= u32::MAX,
    ensures
        focus_all(desk, ids).wf(),
        focus_all(desk, ids).windows.len() == desk.windows.len(),
        forall|other: WindowId| focus_all(desk, ids).contains(other) == desk.contains(other),
        desk.max_z_index <= focus_all(desk, ids).max_z_index <= desk.max_z_index + ids.len(),
    decreases ids.len(),
{
    if ids.len() > 0 {
        focus_all_keeps_windows(desk, ids.drop_last());
        focus_raises(focus_all(desk, ids.drop_last()), ids.last());
    }
}

/// Opening a window whose identity the registry already holds adds no
/// record: the registry keeps its size, and the window that was there gets
/// the focus and is stacked above every other.
pub proof fn opening_twice_adds_no_record(desk: Desk, window: Window)
    requires
        desk.wf(),
        desk.max_z_index < u32::MAX,
        desk.contains(window.id),
    ensures
        desk.open(window).windows.len() == desk.windows.len(),
        desk.open(window) == desk.focus(window.id),
        desk.open(window).focused_window == window.id,
        desk.open(window).topmost(window.id),
        desk.open(window).wf(),
{
    focus_raises(desk, window.id);
}

/// A movement of the pointer that moves a dragged window leaves it at
/// explicit offsets inside the window area: neither offset is negative, and
/// along each axis on which the window fits into the area it does not reach
/// beyond the far edge.
pub proof fn dragging_stays_inside(
    desk: Desk,
    id: WindowId,
    event: MoveEvent,
    element: Option<Rendered>,
    area: Option<(i32, i32)>,
)
    requires
        desk.wf(),
        desk.moves(id, element, area),
    ensures
        desk.drag_move(id, event, element, area).get(id).unwrap().stays_inside(
            area.unwrap().0 as int,
            area.unwrap().1 as int,
            element.unwrap().height as int,
        ),
        desk.drag_move(id, event, element, area).wf(),
{
    let after = desk.drag_move(id, event, element, area);
    let place = desk.index_of(id);
    index_of_is_unique(after, id, place);
}

/// A request to close a window leaves every window whose policy forbids
/// closing exactly as it was.
pub proof fn close_spares_invalid(desk: Desk, id: WindowId, window: Window)
    requires
        desk.windows.contains(window),
        window.close == WindowClose::Invalid,
    ensures
        desk.close(id).windows.contains(window),
{
    let i = choose|i: int| 0 <= i < desk.windows.len() && desk.windows[i] == window;
    let after = desk.close(id).windows;
    if desk.contains(id) {
        let place = desk.index_of(id);
        match desk.windows[place].close {
            WindowClose::Close => {
                if i < place {
                    assert(after[i] == window);
                } else {
                    assert(after[i - 1] == window);
                }
            },
            WindowClose::Hide => {
                assert(after[i] == window);
            },
            WindowClose::Invalid => {},
        }
    }
}

/// No run of close requests removes or hides a window whose policy forbids
/// closing: it stays in the registry exactly as it was.
pub proof fn invalid_survives_closing(desk: Desk, ids: Seq<WindowId>, window: Window)
    requires
        desk.windows.contains(window),
        window.close == WindowClose::Invalid,
    ensures
        close_all(desk, ids).windows.contains(window),
    decreases ids.len(),
{
    if ids.len() > 0 {
        invalid_survives_closing(desk, ids.drop_last(), window);
        close_spares_invalid(close_all(desk, ids.drop_last()), ids.last(), window);
    }
}

/// A window whose policy is to hide is hidden by a close request and stays
/// in the registry; opening a window of the same identity afterwards adds no
/// record and brings the hidden one back, open, in focus and stacked above
/// every other.
pub proof fn hidden_window_reopens(desk: Desk, id: WindowId, again: Window)
    requires
        desk.wf(),
        desk.max_z_index < u32::MAX,
        desk.get(id) matches Some(window) && window.close == WindowClose::Hide,
        again.id == id,
    ensures
        desk.close(id).wf(),
        desk.close(id).windows.len() == desk.windows.len(),
        desk.close(id).get(id) == Some(desk.get(id).unwrap().in_state(WindowState::Hidden)),
        desk.close(id).open(again).windows.len() == desk.windows.len(),
        desk.close(id).open(again).get(id).unwrap().state == WindowState::Open,
        desk.close(id).open(again).focused_window == id,
        desk.close(id).open(again).topmost(id),
{
    let place = desk.index_of(id);
    let closed = desk.close(id);
    index_of_is_unique(closed, id, place);
    focus_raises(closed, id);
    let reopened = closed.open(again);
    index_of_is_unique(reopened, id, place);
}

/// A maximised window that is minimised and then given the focus is
/// maximised again, not merely open.
pub proof fn minimised_from_maximised_returns(desk: Desk, id: WindowId)
    requires
        desk.wf(),
        desk.max_z_index < u32::MAX,
        desk.get(id) matches Some(window) && window.state == WindowState::Maximised,
    ensures
        desk.minimise(id).get(id).unwrap().state == WindowState::Minimised(true),
        desk.minimise(id).focus(id).get(id).unwrap().state == WindowState::Maximised,
{
    let place = desk.index_of(id);
    let minimised = desk.minimise(id);
    index_of_is_unique(minimised, id, place);
    let back = minimised.focus(id);
    index_of_is_unique(back, id, place);
}

/// Putting a window in the place of one with the same identity and the same
/// stacking index keeps the invariant.
pub proof fn replacing_keeps_invariant(desk: Desk, id: WindowId, window: Window)
    requires
        desk.wf(),
        desk.contains(id),
        window.id == id,
        window.z_index == desk.windows[desk.index_of(id)].z_index,
    ensures
        desk.with_window(id, window).wf(),
{
}

/// A close request keeps the invariant.
pub proof fn close_keeps_invariant(desk: Desk, id: WindowId)
    requires
        desk.wf(),
    ensures
        desk.close(id).wf(),
{
    if desk.contains(id) {
        let window = desk.windows[desk.index_of(id)];
        if window.close == WindowClose::Hide {
            replacing_keeps_invariant(desk, id, window.in_state(WindowState::Hidden));
        }
    }
}

/// Reconciliation with the viewport keeps the invariant.
pub proof fn reconcile_keeps_invariant(desk: Desk, snapshot: Snapshot)
    requires
        desk.wf(),
    ensures
        desk.reconcile(snapshot).wf(),
        desk.placed_again(desk.reconcile(snapshot)),
{
}

/// Every command keeps the invariant of the desktop: identities stay
/// unique, stacking indices stay distinct and below the highest one handed
/// out. A command that gives a window the focus needs an index to hand out.
pub proof fn step_keeps_invariant(desk: Desk, msg: CoplandMsg, snapshot: Snapshot)
    requires
        desk.wf(),
        msg.raises() ==> desk.max_z_index < u32::MAX,
    ensures
        desk.step(msg, snapshot).desk.wf(),
{
    match msg {
        CoplandMsg::OpenWindow(window) => {
            let entered = desk.insert(window);
            if !desk.contains(window.id) {
                let place = desk.windows.len() as int;
                raising_restores_invariant(entered, place);
            } else {
                focus_raises(desk, window.id);
            }
        },
        CoplandMsg::FocusWindow(id) => {
            focus_raises(desk, id);
        },
        CoplandMsg::CloseWindow(id) => {
            close_keeps_invariant(desk, id);
        },
        CoplandMsg::MinimiseWindow(id) => {
            if desk.contains(id) {
                let window = desk.windows[desk.index_of(id)];
                replacing_keeps_invariant(
                    desk,
                    id,
                    window.in_state(WindowState::Minimised(window.state == WindowState::Maximised)),
                );
            }
        },
        CoplandMsg::MaximiseWindow(id) => {
            if desk.contains(id) {
                let window = desk.windows[desk.index_of(id)];
                replacing_keeps_invariant(desk, id, window.in_state(WindowState::Maximised));
            }
        },
        CoplandMsg::RestoreWindow(id) => {
            if desk.contains(id) {
                let window = desk.windows[desk.index_of(id)];
                replacing_keeps_invariant(desk, id, window.in_state(WindowState::Open));
            }
        },
        CoplandMsg::ResizeWindow(id, height) => {
            if desk.contains(id) {
                let window = desk.windows[desk.index_of(id)];
                replacing_keeps_invariant(desk, id, window.with_height(height));
            }
        },
        CoplandMsg::DragWindowMove(id, event) => {
            if desk.moves(id, snapshot.element(id), snapshot.area) {
                dragging_stays_inside(desk, id, event, snapshot.element(id), snapshot.area);
            }
        },
        CoplandMsg::ResizeBrowser => {
            reconcile_keeps_invariant(desk, snapshot);
        },
        _ => {},
    }
}

/// Stacking the window at `place` anew restores the invariant where only
/// that window's stacking index stood in its way.
pub proof fn raising_restores_invariant(desk: Desk, place: int)
    requires
        0 <= place < desk.windows.len(),
        desk.wf_besides(place),
        desk.max_z_index < u32::MAX,
    ensures
        desk.focus(desk.windows[place].id).wf(),
        desk.focus(desk.windows[place].id).topmost(desk.windows[place].id),
{
    let id = desk.windows[place].id;
    index_of_is_unique(desk, id, place);
    let after = desk.focus(id);
    index_of_is_unique(after, id, place);
}

} // verus!
