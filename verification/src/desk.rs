//! The desktop as a mathematical value, and what each command makes of it.

use crate::geometry::clamp;
use crate::message::{CoplandMsg, Effect, MoveEvent};
use crate::snapshot::{Rendered, Snapshot};
use crate::text::two_digits;
use crate::theme::Theme;
use crate::window::{Window, WindowClose, WindowId, WindowPosition, WindowState};
use vstd::prelude::*;

verus! {

/// The time of day as the taskbar shows it.
pub open spec fn clock_text(hours: u32, minutes: u32) -> Seq<char> {
    two_digits(hours as nat) + ":"@ + two_digits(minutes as nat)
}

/// Those of `windows` that are not hidden, in the same order.
pub open spec fn shown(windows: Seq<Window>) -> Seq<Window>
    decreases windows.len(),
{
    if windows.len() == 0 {
        Seq::empty()
    } else if windows.last().state == WindowState::Hidden {
        shown(windows.drop_last())
    } else {
        shown(windows.drop_last()).push(windows.last())
    }
}

/// The largest distance that can lie between a pointer and the corner of a
/// window: the extent of the offsets that a drag can record.
pub open spec fn offset_limit() -> int {
    0x1_0000_0000
}

/// The desktop as a mathematical value: the windows in the order in which
/// they were opened, and the state of focus, of the drag gesture and of the
/// decoration around them.
pub struct Desk {
    /// The windows, oldest first.
    pub windows: Seq<Window>,
    /// The highest stacking index handed out so far.
    pub max_z_index: u32,
    /// The window that has the focus.
    pub focused_window: WindowId,
    /// The horizontal distance from the pointer to the dragged window's corner.
    pub mouse_offset_x: int,
    /// The vertical distance from the pointer to the dragged window's corner.
    pub mouse_offset_y: int,
    /// The window for which the drag listeners are attached, if they are.
    pub dragging: Option<WindowId>,
    /// Whether the current drag has moved its window.
    pub did_move: bool,
    /// The background theme.
    pub theme: Theme,
    /// The time of day on the taskbar.
    pub taskbar_time: Seq<char>,
}

impl Window {
    /// This window with the focus: displayed again, and stacked at `z_index`.
    pub open spec fn focused(self, z_index: u32) -> Window {
        Window { state: self.state.displayed(), z_index, ..self }
    }

    /// This window in another display state.
    pub open spec fn in_state(self, state: WindowState) -> Window {
        Window { state, ..self }
    }

    /// This window drawn at a fixed height.
    pub open spec fn with_height(self, height: u32) -> Window {
        Window { height: Some(height), ..self }
    }

    /// This window dragged towards the point `(x, y)` of a window area of
    /// the given width and height, in which it is drawn `rendered` high: it
    /// gets explicit offsets, as near to the point as the area leaves room.
    pub open spec fn dragged(self, x: int, y: int, width: int, height: int, rendered: int) -> Window {
        Window {
            left: WindowPosition::Close(clamp(x, width - self.width) as i32),
            top: WindowPosition::Close(clamp(y, height - rendered) as i32),
            ..self
        }
    }

    /// Whether this window sits at explicit offsets that keep it inside a
    /// box of the given width and height, in which it is drawn `rendered`
    /// high: neither offset is negative, and along each axis on which the
    /// window is no larger than the box, it does not reach beyond the far
    /// edge.
    pub open spec fn stays_inside(self, width: int, height: int, rendered: int) -> bool {
        &&& self.left matches WindowPosition::Close(x)
        &&& self.top matches WindowPosition::Close(y)
        &&& 0 <= x
        &&& 0 <= y
        &&& self.width <= width ==> x <= width - self.width
        &&& rendered <= height ==> y <= height - rendered
    }

    /// Whether reconciliation with the viewport concerns this window: it is
    /// in view at its own position, and that position is explicit along at
    /// least one axis.
    pub open spec fn settles(self) -> bool {
        self.state == WindowState::Open && (self.left is Close || self.top is Close)
    }

    /// This window brought back into a viewport of the given width and
    /// height, in which it is drawn `rendered` high: each explicit offset is
    /// clamped into the room that is left, each symbolic position stays.
    pub open spec fn reconciled(self, width: int, height: int, rendered: int) -> Window {
        Window {
            left: self.left.clamped(width - self.width),
            top: self.top.clamped(height - rendered),
            ..self
        }
    }

    /// This window after reconciliation with what the page shows.
    pub open spec fn reconciled_in(self, snapshot: Snapshot) -> Window {
        match snapshot.element(self.id) {
            Some(element) if self.settles() => self.reconciled(
                snapshot.viewport_width as int,
                snapshot.viewport_height as int,
                element.height as int,
            ),
            _ => self,
        }
    }
}

impl WindowPosition {
    /// This position kept inside `room`: an explicit offset is clamped, a
    /// symbolic position stays as it is.
    pub open spec fn clamped(self, room: int) -> WindowPosition {
        match self {
            WindowPosition::Close(offset) => WindowPosition::Close(clamp(offset as int, room) as i32),
            other => other,
        }
    }
}

impl Desk {
    /// Whether a window with this identity is in the registry.
    pub open spec fn contains(self, id: WindowId) -> bool {
        exists|i: int| 0 <= i < self.windows.len() && (#[trigger] self.windows[i]).id == id
    }

    /// The place in the registry of the window with this identity.
    pub open spec fn index_of(self, id: WindowId) -> int {
        choose|i: int| 0 <= i < self.windows.len() && (#[trigger] self.windows[i]).id == id
    }

    /// The window with this identity, if the registry has one.
    pub open spec fn get(self, id: WindowId) -> Option<Window> {
        if self.contains(id) {
            Some(self.windows[self.index_of(id)])
        } else {
            None
        }
    }

    /// The desktop with `window` in the place of the window `id`.
    pub open spec fn with_window(self, id: WindowId, window: Window) -> Desk {
        Desk { windows: self.windows.update(self.index_of(id), window), ..self }
    }

    /// The invariant of the desktop: no identity occurs twice, no two windows
    /// share a stacking index, no window is stacked above the highest index
    /// handed out, and the recorded drag offsets are distances between points
    /// of the screen.
    pub open spec fn wf(self) -> bool {
        &&& forall|i: int, j: int|
            0 <= i < j < self.windows.len() ==> (#[trigger] self.windows[i]).id != (
            #[trigger] self.windows[j]).id
        &&& forall|i: int, j: int|
            0 <= i < j < self.windows.len() ==> (#[trigger] self.windows[i]).z_index != (
            #[trigger] self.windows[j]).z_index
        &&& forall|i: int|
            0 <= i < self.windows.len() ==> (#[trigger] self.windows[i]).z_index
                <= self.max_z_index
        &&& -offset_limit() <= self.mouse_offset_x <= offset_limit()
        &&& -offset_limit() <= self.mouse_offset_y <= offset_limit()
    }

    /// The invariant but for the stacking index of the window at `place`,
    /// which is about to be stacked anew.
    pub open spec fn wf_besides(self, place: int) -> bool {
        &&& forall|i: int, j: int|
            0 <= i < j < self.windows.len() ==> (#[trigger] self.windows[i]).id != (
            #[trigger] self.windows[j]).id
        &&& forall|i: int, j: int|
            0 <= i < j < self.windows.len() && i != place && j != place ==> (
            #[trigger] self.windows[i]).z_index != (#[trigger] self.windows[j]).z_index
        &&& forall|i: int|
            0 <= i < self.windows.len() && i != place ==> (#[trigger] self.windows[i]).z_index
                <= self.max_z_index
        &&& -offset_limit() <= self.mouse_offset_x <= offset_limit()
        &&& -offset_limit() <= self.mouse_offset_y <= offset_limit()
    }

    /// Whether the window `id` is in the registry and stacked strictly above
    /// every other window.
    pub open spec fn topmost(self, id: WindowId) -> bool {
        &&& self.contains(id)
        &&& forall|i: int|
            0 <= i < self.windows.len() && (#[trigger] self.windows[i]).id != id
                ==> self.windows[i].z_index < self.windows[self.index_of(id)].z_index
    }

    /// Whether the taskbar shows the window `id` as active: it is in view and
    /// has the focus.
    pub open spec fn active(self, id: WindowId) -> bool {
        match self.get(id) {
            Some(window) => window.state.in_view() && self.focused_window == id,
            None => false,
        }
    }

    /// The desktop after the window `id` has been given the focus: the window
    /// is displayed again and gets the next stacking index. Without such a
    /// window nothing changes.
    pub open spec fn focus(self, id: WindowId) -> Desk {
        match self.get(id) {
            Some(window) => Desk {
                windows: self.windows.update(
                    self.index_of(id),
                    window.focused((self.max_z_index + 1) as u32),
                ),
                max_z_index: (self.max_z_index + 1) as u32,
                focused_window: id,
                ..self
            },
            None => self,
        }
    }

    /// The desktop after `window` has been entered, unless its identity is
    /// taken already.
    pub open spec fn insert(self, window: Window) -> Desk {
        if self.contains(window.id) {
            self
        } else {
            Desk { windows: self.windows.push(window), ..self }
        }
    }

    /// The desktop after `window` has been opened: it is entered unless its
    /// identity is taken already, and the window of that identity gets the
    /// focus either way.
    pub open spec fn open(self, window: Window) -> Desk {
        self.insert(window).focus(window.id)
    }

    /// The desktop after a request to close the window `id`, by the
    /// window's own policy: its record leaves the registry, or it stays and
    /// is hidden, or nothing happens. Without such a window nothing changes.
    pub open spec fn close(self, id: WindowId) -> Desk {
        match self.get(id) {
            Some(window) => match window.close {
                WindowClose::Close => Desk {
                    windows: self.windows.remove(self.index_of(id)),
                    ..self
                },
                WindowClose::Hide => self.with_window(id, window.in_state(WindowState::Hidden)),
                WindowClose::Invalid => self,
            },
            None => self,
        }
    }

    /// What a request to close the window `id` asks of the page: that the
    /// store delete the note, if `id` is a sticky note.
    pub open spec fn close_effects(id: WindowId) -> Seq<Effect> {
        match id {
            WindowId::StickyNote(note) => seq![Effect::DeleteNote(note)],
            _ => Seq::empty(),
        }
    }

    /// The desktop after the window `id` has been minimised; the window
    /// remembers whether it was maximised.
    pub open spec fn minimise(self, id: WindowId) -> Desk {
        match self.get(id) {
            Some(window) => self.with_window(
                id,
                window.in_state(WindowState::Minimised(window.state == WindowState::Maximised)),
            ),
            None => self,
        }
    }

    /// The desktop after the window `id` has been maximised.
    pub open spec fn maximise(self, id: WindowId) -> Desk {
        match self.get(id) {
            Some(window) => self.with_window(id, window.in_state(WindowState::Maximised)),
            None => self,
        }
    }

    /// The desktop after the window `id` has been restored to its own size.
    pub open spec fn restore(self, id: WindowId) -> Desk {
        match self.get(id) {
            Some(window) => self.with_window(id, window.in_state(WindowState::Open)),
            None => self,
        }
    }

    /// The desktop after the content of the window `id` has asked to be
    /// drawn `height` pixels high.
    pub open spec fn resize(self, id: WindowId, height: u32) -> Desk {
        match self.get(id) {
            Some(window) => self.with_window(id, window.with_height(height)),
            None => self,
        }
    }

    /// Whether a press on the title bar of the window `id` may concern a
    /// drag: the window is in the registry and not maximised.
    pub open spec fn can_drag(self, id: WindowId) -> bool {
        match self.get(id) {
            Some(window) => window.state != WindowState::Maximised,
            None => false,
        }
    }

    /// Whether a press on the title bar of the window `id` starts a drag:
    /// it may concern one, and it did not land on a control button.
    pub open spec fn starts_drag(self, id: WindowId, event: MoveEvent) -> bool {
        self.can_drag(id) && !event.pointer().on_button
    }

    /// The desktop after a press on the title bar of the window `id`. Where
    /// it starts a drag, the listeners are attached for that window, and the
    /// distance from the pointer to the corner of the window's element is
    /// recorded, if the page shows that element.
    pub open spec fn drag_start(
        self,
        id: WindowId,
        event: MoveEvent,
        element: Option<Rendered>,
    ) -> Desk {
        if self.starts_drag(id, event) {
            match element {
                Some(element) => Desk {
                    mouse_offset_x: element.left - event.pointer().client_x,
                    mouse_offset_y: element.top - event.pointer().client_y,
                    dragging: Some(id),
                    ..self
                },
                None => Desk { dragging: Some(id), ..self },
            }
        } else {
            self
        }
    }

    /// What a press on the title bar of the window `id` asks of the page.
    /// Where the press may concern a drag, the browser's own handling of a
    /// mouse event is suppressed. Where it starts one, the listeners are
    /// attached, after those of a drag that never ended have been detached.
    pub open spec fn drag_start_effects(self, id: WindowId, event: MoveEvent) -> Seq<Effect> {
        let suppress = if self.can_drag(id) && event is MouseEvent {
            seq![Effect::PreventDefault]
        } else {
            Seq::empty()
        };
        let detach = if self.starts_drag(id, event) && self.dragging.is_some() {
            seq![Effect::DetachDragListeners]
        } else {
            Seq::empty()
        };
        let attach = if self.starts_drag(id, event) {
            seq![Effect::AttachDragListeners(id)]
        } else {
            Seq::empty()
        };
        suppress + detach + attach
    }

    /// Whether a movement of the pointer moves the window `id`: the window
    /// is being dragged, it is in the registry and in view at its own
    /// position, and the page shows both its element and the window area.
    pub open spec fn moves(
        self,
        id: WindowId,
        element: Option<Rendered>,
        area: Option<(i32, i32)>,
    ) -> bool {
        &&& self.dragging == Some(id)
        &&& self.get(id) matches Some(window)
        &&& window.state == WindowState::Open
        &&& element.is_some()
        &&& area.is_some()
    }

    /// The desktop after a movement of the pointer during a drag of the
    /// window `id`: where it moves the window, the window follows the
    /// pointer at the recorded distance, as far as the window area leaves
    /// room, and the drag is marked as having moved.
    pub open spec fn drag_move(
        self,
        id: WindowId,
        event: MoveEvent,
        element: Option<Rendered>,
        area: Option<(i32, i32)>,
    ) -> Desk {
        if self.moves(id, element, area) {
            Desk {
                windows: self.windows.update(
                    self.index_of(id),
                    self.windows[self.index_of(id)].dragged(
                        event.pointer().client_x + self.mouse_offset_x,
                        event.pointer().client_y + self.mouse_offset_y,
                        area.unwrap().0 as int,
                        area.unwrap().1 as int,
                        element.unwrap().height as int,
                    ),
                ),
                did_move: true,
                ..self
            }
        } else {
            self
        }
    }

    /// The desktop after the pointer has been released: no drag is under
    /// way and none has moved anything.
    pub open spec fn drag_end(self) -> Desk {
        Desk { dragging: None, did_move: false, ..self }
    }

    /// What the release of the pointer after a drag of the window `id` asks
    /// of the page: to detach the listeners, whatever the state, and to send
    /// a sticky note to the store if the drag has moved it.
    pub open spec fn drag_end_effects(self, id: WindowId) -> Seq<Effect> {
        let save = match id {
            WindowId::StickyNote(note) if self.did_move => seq![Effect::UpdateNote(note)],
            _ => Seq::empty(),
        };
        seq![Effect::DetachDragListeners] + save
    }

    /// Whether `after` differs from this desktop in the placement of
    /// windows only, and only of windows that are in view at their own
    /// position: a maximised, minimised or hidden window is the same in both.
    pub open spec fn placed_again(self, after: Desk) -> bool {
        &&& after.windows.len() == self.windows.len()
        &&& forall|i: int|
            0 <= i < self.windows.len() ==> (#[trigger] after.windows[i]) == (Window {
                left: after.windows[i].left,
                top: after.windows[i].top,
                ..self.windows[i]
            })
        &&& forall|i: int|
            0 <= i < self.windows.len() && self.windows[i].state != WindowState::Open ==> (
            #[trigger] after.windows[i]) == self.windows[i]
    }

    /// Whether reconciliation cannot go ahead: it concerns a window whose
    /// element the page does not show.
    pub open spec fn blocked(self, snapshot: Snapshot) -> bool {
        exists|i: int|
            0 <= i < self.windows.len() && (#[trigger] self.windows[i]).settles()
                && snapshot.element(self.windows[i].id).is_none()
    }

    /// The desktop after reconciliation with the viewport: every window
    /// that it concerns is brought back inside, unless the page does not
    /// show the element of one of them, and then nothing changes at all.
    pub open spec fn reconcile(self, snapshot: Snapshot) -> Desk {
        if self.blocked(snapshot) {
            self
        } else {
            Desk {
                windows: Seq::new(
                    self.windows.len(),
                    |i: int| self.windows[i].reconciled_in(snapshot),
                ),
                ..self
            }
        }
    }
}

/// What a command makes of the desktop, and what it leaves for the page to do.
pub struct Step {
    /// The desktop after the command.
    pub desk: Desk,
    /// Whether the desktop has to be drawn again.
    pub render: bool,
    /// What else has to be done, in this order.
    pub effects: Seq<Effect>,
}

impl Desk {
    /// What the command `msg` makes of the desktop while the page shows
    /// `snapshot`.
    pub open spec fn step(self, msg: CoplandMsg, snapshot: Snapshot) -> Step {
        match msg {
            CoplandMsg::NewSticky => Step {
                desk: self,
                render: true,
                effects: seq![Effect::CreateNote],
            },
            CoplandMsg::OpenWindow(window) => Step {
                desk: self.open(window),
                render: true,
                effects: Seq::empty(),
            },
            CoplandMsg::FocusWindow(id) => Step {
                desk: self.focus(id),
                render: true,
                effects: Seq::empty(),
            },
            CoplandMsg::CloseWindow(id) => Step {
                desk: self.close(id),
                render: true,
                effects: Self::close_effects(id),
            },
            CoplandMsg::DragWindowStart(id, event) => Step {
                desk: self.drag_start(id, event, snapshot.element(id)),
                render: self.starts_drag(id, event),
                effects: self.drag_start_effects(id, event),
            },
            CoplandMsg::DragWindowMove(id, event) => Step {
                desk: self.drag_move(id, event, snapshot.element(id), snapshot.area),
                render: self.moves(id, snapshot.element(id), snapshot.area),
                effects: Seq::empty(),
            },
            CoplandMsg::DragWindowEnd(id, _) => Step {
                desk: self.drag_end(),
                render: false,
                effects: self.drag_end_effects(id),
            },
            CoplandMsg::MinimiseWindow(id) => Step {
                desk: self.minimise(id),
                render: self.contains(id),
                effects: Seq::empty(),
            },
            CoplandMsg::MaximiseWindow(id) => Step {
                desk: self.maximise(id),
                render: self.contains(id),
                effects: Seq::empty(),
            },
            CoplandMsg::RestoreWindow(id) => Step {
                desk: self.restore(id),
                render: self.contains(id),
                effects: Seq::empty(),
            },
            CoplandMsg::ResizeWindow(id, height) => Step {
                desk: self.resize(id, height),
                render: self.contains(id),
                effects: Seq::empty(),
            },
            CoplandMsg::ResizeBrowser => Step {
                desk: self.reconcile(snapshot),
                render: !self.blocked(snapshot),
                effects: Seq::empty(),
            },
            CoplandMsg::ThemeContextUpdated(theme) => Step {
                desk: Desk { theme, ..self },
                render: true,
                effects: seq![Effect::ReloadBackground],
            },
            CoplandMsg::UpdateTaskbarTime => Step {
                desk: Desk {
                    taskbar_time: clock_text(snapshot.hours, snapshot.minutes),
                    ..self
                },
                render: true,
                effects: Seq::empty(),
            },
        }
    }
}

/// Where no identity occurs twice, a window is found at one place only.
pub proof fn index_of_is_unique(desk: Desk, id: WindowId, i: int)
    requires
        desk.wf_besides(i),
        0 <= i < desk.windows.len(),
        desk.windows[i].id == id,
    ensures
        desk.contains(id),
        desk.index_of(id) == i,
        desk.get(id) == Some(desk.windows[i]),
{
    let j = desk.index_of(id);
    if i < j {
    } else if j < i {
    }
}

} // verus!
