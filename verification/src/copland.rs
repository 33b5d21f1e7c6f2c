//! The desktop: the registry of windows, focus and stacking order, the drag
//! gesture, and reconciliation with the viewport.

use crate::desk::{clock_text, index_of_is_unique, shown, Desk};
use crate::geometry::clamp_offset;
use crate::message::{CoplandMsg, Effect, MoveEvent, Outcome};
use crate::snapshot::{Rendered, Snapshot};
use crate::text::push_two_digits;
use crate::theme::Theme;
use crate::window::{Frame, Window, WindowClose, WindowId, WindowPosition, WindowState};
use vstd::prelude::*;
use vstd::string::*;

verus! {

/// One entry of the taskbar.
#[derive(Debug)]
pub struct TaskbarButton {
    /// The window that the entry stands for.
    pub id: WindowId,
    /// The identifier of the entry's element.
    pub key: String,
    /// Whether the entry is highlighted.
    pub active: bool,
}

impl TaskbarButton {
    /// The identifier of the taskbar entry of the window `id`.
    pub open spec fn element_id(id: WindowId) -> Seq<char> {
        "taskbar-button-"@ + id.label()
    }

    /// Whether this is the taskbar entry of `window` on a desktop where the
    /// window `focused` has the focus: it is highlighted if and only if the
    /// window is in view and has the focus.
    pub open spec fn shows(self, window: Window, focused: WindowId) -> bool {
        &&& self.id == window.id
        &&& self.key@ == Self::element_id(window.id)
        &&& self.active == (window.state.in_view() && focused == window.id)
    }

    /// The command that a click on the entry sends: a highlighted entry
    /// minimises its window, any other gives its window the focus.
    pub fn on_click(&self) -> (msg: CoplandMsg)
        ensures
            msg == if self.active {
                CoplandMsg::MinimiseWindow(self.id)
            } else {
                CoplandMsg::FocusWindow(self.id)
            },
    {
        if self.active {
            CoplandMsg::MinimiseWindow(self.id)
        } else {
            CoplandMsg::FocusWindow(self.id)
        }
    }
}

/// The time of day as the taskbar shows it: hours and minutes, two places each.
pub fn get_time_string(hours: u32, minutes: u32) -> (time: String)
    ensures
        time@ == clock_text(hours, minutes),
{
    let mut time = String::new();
    push_two_digits(&mut time, hours as u64);
    time.append(":");
    push_two_digits(&mut time, minutes as u64);
    time
}

/// The desktop and everything on it. Its view is the mathematical desktop
/// of which the contracts speak. A desktop is made well-formed and every
/// command leaves it so.
pub struct Copland {
    windows: Vec<Window>,
    max_z_index: u32,
    focused_window: WindowId,
    mouse_offset_x: i64,
    mouse_offset_y: i64,
    dragging: Option<WindowId>,
    did_move: bool,
    theme: Theme,
    taskbar_time: String,
}

impl View for Copland {
    type V = Desk;

    closed spec fn view(&self) -> Desk {
        Desk {
            windows: self.windows@,
            max_z_index: self.max_z_index,
            focused_window: self.focused_window,
            mouse_offset_x: self.mouse_offset_x as int,
            mouse_offset_y: self.mouse_offset_y as int,
            dragging: self.dragging,
            did_move: self.did_move,
            theme: self.theme,
            taskbar_time: self.taskbar_time@,
        }
    }
}

impl Copland {
    /// A desktop that holds the home window alone, in focus, under the given
    /// theme and showing the given time.
    pub fn new(theme: Theme, hours: u32, minutes: u32) -> (copland: Copland)
        ensures
            copland@.wf(),
            copland@.windows.len() == 1,
            copland@.windows[0].describes(
                WindowId::Home,
                WindowClose::Invalid,
                WindowPosition::Half,
                WindowPosition::Half,
                400,
                None,
                "assets/icons/computer_explorer-5.png"@,
                "Home"@,
            ),
            copland@.windows[0].body is Home,
            copland@.max_z_index == 1,
            copland@.focused_window == WindowId::Home,
            copland@.mouse_offset_x == 0,
            copland@.mouse_offset_y == 0,
            copland@.dragging.is_none(),
            !copland@.did_move,
            copland@.theme == theme,
            copland@.taskbar_time == clock_text(hours, minutes),
    {
        let mut windows = Vec::new();
        windows.push(Window::home());
        Copland {
            windows,
            max_z_index: 1,
            focused_window: WindowId::Home,
            mouse_offset_x: 0,
            mouse_offset_y: 0,
            dragging: None,
            did_move: false,
            theme,
            taskbar_time: get_time_string(hours, minutes),
        }
    }

    /// The windows, in the order in which they were opened.
    pub fn values(&self) -> (windows: &Vec<Window>)
        ensures
            windows@ == self@.windows,
    {
        &self.windows
    }

    /// The window that has the focus.
    pub fn focused_window(&self) -> (id: WindowId)
        ensures
            id == self@.focused_window,
    {
        self.focused_window
    }

    /// The highest stacking index handed out so far.
    pub fn max_z_index(&self) -> (z_index: u32)
        ensures
            z_index == self@.max_z_index,
    {
        self.max_z_index
    }

    /// The background theme.
    pub fn theme(&self) -> (theme: Theme)
        ensures
            theme == self@.theme,
    {
        self.theme
    }

    /// The time of day on the taskbar.
    pub fn taskbar_time(&self) -> (time: &String)
        ensures
            time@ == self@.taskbar_time,
    {
        &self.taskbar_time
    }

    /// The window for which the drag listeners are attached, if they are.
    pub fn dragging(&self) -> (window: Option<WindowId>)
        ensures
            window == self@.dragging,
    {
        self.dragging
    }

    /// The place of the window `id` in the registry.
    fn position(&self, id: WindowId) -> (found: Option<usize>)
        requires
            self@.wf(),
        ensures
            match found {
                Some(i) => i < self@.windows.len() && self@.windows[i as int].id == id
                    && self@.contains(id) && self@.index_of(id) == i,
                None => !self@.contains(id),
            },
    {
        let mut i: usize = 0;
        while i < self.windows.len()
            invariant
                self@.wf(),
                i <= self.windows@.len(),
                forall|j: int| 0 <= j < i ==> (#[trigger] self.windows@[j]).id != id,
            decreases self.windows@.len() - i,
        {
            if self.windows[i].id == id {
                proof {
                    index_of_is_unique(self@, id, i as int);
                }
                return Some(i);
            }
            i += 1;
        }
        None
    }

    /// The window `id`, if the registry has one.
    pub fn get(&self, id: WindowId) -> (window: Option<&Window>)
        requires
            self@.wf(),
        ensures
            match window {
                Some(w) => self@.get(id) == Some(*w),
                None => self@.get(id).is_none(),
            },
    {
        match self.position(id) {
            Some(i) => Some(&self.windows[i]),
            None => None,
        }
    }

    /// Displays the window at `place` again and stacks it above every other.
    fn raise(&mut self, place: usize)
        requires
            place < old(self)@.windows.len(),
            old(self)@.wf_besides(place as int),
            old(self)@.max_z_index < u32::MAX,
        ensures
            final(self)@ == old(self)@.focus(old(self)@.windows[place as int].id),
            final(self)@.wf(),
            final(self)@.topmost(old(self)@.windows[place as int].id),
    {
        let ghost before = self.windows@[place as int];
        proof {
            index_of_is_unique(self@, before.id, place as int);
        }
        let state = match self.windows[place].state {
            WindowState::Maximised => WindowState::Maximised,
            WindowState::Minimised(true) => WindowState::Maximised,
            _ => WindowState::Open,
        };
        self.windows[place].state = state;
        self.focused_window = self.windows[place].id;
        self.max_z_index += 1;
        self.windows[place].z_index = self.max_z_index;
        proof {
            assert(self.windows@ =~= old(self)@.windows.update(
                place as int,
                before.focused(self.max_z_index),
            ));
            index_of_is_unique(self@, before.id, place as int);
        }
    }

    /// Gives the window `id` the focus: it is displayed again (maximised if
    /// it was maximised, or minimised from maximised; open otherwise) and is
    /// stacked strictly above every other window. Without such a window
    /// nothing changes.
    pub fn focus(&mut self, id: WindowId)
        requires
            old(self)@.wf(),
            old(self)@.max_z_index < u32::MAX,
        ensures
            final(self)@ == old(self)@.focus(id),
            final(self)@.wf(),
            old(self)@.contains(id) ==> final(self)@.topmost(id),
            old(self)@.contains(id) ==> final(self)@.focused_window == id,
            old(self)@.contains(id) ==> final(self)@.max_z_index == old(self)@.max_z_index + 1,
    {
        if let Some(place) = self.position(id) {
            self.raise(place);
        }
    }

    /// Opens `window`. If a window of the same identity is in the registry
    /// already, the new one is dropped; either way the window of that
    /// identity gets the focus and is stacked above every other.
    pub fn open(&mut self, window: Window)
        requires
            old(self)@.wf(),
            old(self)@.max_z_index < u32::MAX,
        ensures
            final(self)@ == old(self)@.open(window),
            final(self)@.wf(),
            final(self)@.topmost(window.id),
            final(self)@.focused_window == window.id,
            old(self)@.contains(window.id) ==> final(self)@.windows.len() == old(
                self,
            )@.windows.len(),
            !old(self)@.contains(window.id) ==> final(self)@.windows.len() == old(
                self,
            )@.windows.len() + 1,
    {
        match self.position(window.id) {
            Some(place) => {
                self.raise(place);
            },
            None => {
                let place = self.windows.len();
                self.windows.push(window);
                self.raise(place);
            },
        }
    }

    /// Handles a request to close the window `id`, by the window's own
    /// policy: the record leaves the registry, or stays and is hidden, or
    /// the request is ignored. For a sticky note the store is asked to
    /// delete the note.
    pub fn close(&mut self, id: WindowId) -> (outcome: Outcome)
        requires
            old(self)@.wf(),
        ensures
            final(self)@ == old(self)@.close(id),
            final(self)@.wf(),
            outcome.render,
            outcome.effects@ == Desk::close_effects(id),
    {
        if let Some(place) = self.position(id) {
            match self.windows[place].close {
                WindowClose::Close => {
                    self.windows.remove(place);
                },
                WindowClose::Hide => {
                    self.windows[place].state = WindowState::Hidden;
                },
                WindowClose::Invalid => {},
            }
        }
        let mut effects = Vec::new();
        if let WindowId::StickyNote(note) = id {
            effects.push(Effect::DeleteNote(note));
        }
        Outcome { render: true, effects }
    }

    /// Minimises the window `id`, which remembers whether it was maximised.
    /// Says whether there is such a window.
    pub fn minimise(&mut self, id: WindowId) -> (found: bool)
        requires
            old(self)@.wf(),
        ensures
            final(self)@ == old(self)@.minimise(id),
            final(self)@.wf(),
            found == old(self)@.contains(id),
    {
        match self.position(id) {
            Some(place) => {
                let was_maximised = self.windows[place].state == WindowState::Maximised;
                self.windows[place].state = WindowState::Minimised(was_maximised);
                true
            },
            None => false,
        }
    }

    /// Maximises the window `id`. Says whether there is such a window.
    pub fn maximise(&mut self, id: WindowId) -> (found: bool)
        requires
            old(self)@.wf(),
        ensures
            final(self)@ == old(self)@.maximise(id),
            final(self)@.wf(),
            found == old(self)@.contains(id),
    {
        match self.position(id) {
            Some(place) => {
                self.windows[place].state = WindowState::Maximised;
                true
            },
            None => false,
        }
    }

    /// Restores the window `id` to its own size. Says whether there is such
    /// a window.
    pub fn restore(&mut self, id: WindowId) -> (found: bool)
        requires
            old(self)@.wf(),
        ensures
            final(self)@ == old(self)@.restore(id),
            final(self)@.wf(),
            found == old(self)@.contains(id),
    {
        match self.position(id) {
            Some(place) => {
                self.windows[place].state = WindowState::Open;
                true
            },
            None => false,
        }
    }

    /// Draws the window `id` at the height that its content asks for. Says
    /// whether there is such a window.
    pub fn resize(&mut self, id: WindowId, height: u32) -> (found: bool)
        requires
            old(self)@.wf(),
        ensures
            final(self)@ == old(self)@.resize(id, height),
            final(self)@.wf(),
            found == old(self)@.contains(id),
    {
        match self.position(id) {
            Some(place) => {
                self.windows[place].height = Some(height);
                true
            },
            None => false,
        }
    }

    /// Handles a press on the title bar of the window `id`, whose element
    /// the page shows as `element`. A press on a maximised or unknown window
    /// does nothing; one on a control button starts no drag. Any other
    /// records how far the corner of the element lies from the pointer and
    /// has the drag listeners attached.
    pub fn drag_start(&mut self, id: WindowId, event: &MoveEvent, element: Option<Rendered>) -> (outcome:
        Outcome)
        requires
            old(self)@.wf(),
        ensures
            final(self)@ == old(self)@.drag_start(id, *event, element),
            final(self)@.wf(),
            outcome.render == old(self)@.starts_drag(id, *event),
            outcome.effects@ == old(self)@.drag_start_effects(id, *event),
    {
        let mut effects = Vec::new();
        let mut render = false;
        if let Some(place) = self.position(id) {
            if self.windows[place].state != WindowState::Maximised {
                if event.prevent_default() {
                    effects.push(Effect::PreventDefault);
                }
                if !event.target_is_button() {
                    if let Some(element) = element {
                        self.mouse_offset_x = element.left as i64 - event.client_x() as i64;
                        self.mouse_offset_y = element.top as i64 - event.client_y() as i64;
                    }
                    if self.dragging.is_some() {
                        effects.push(Effect::DetachDragListeners);
                    }
                    effects.push(Effect::AttachDragListeners(id));
                    self.dragging = Some(id);
                    render = true;
                }
            }
        }
        Outcome { render, effects }
    }

    /// Handles a movement of the pointer during a drag of the window `id`,
    /// whose element the page shows as `element` inside a window area of the
    /// width and height `area`. The window follows the pointer with explicit
    /// offsets that keep it inside the area. Nothing moves unless the window
    /// is being dragged and is in view at its own position, and the page
    /// shows both the element and the area. Says whether the window moved.
    pub fn drag_move(
        &mut self,
        id: WindowId,
        event: &MoveEvent,
        element: Option<Rendered>,
        area: Option<(i32, i32)>,
    ) -> (moved: bool)
        requires
            old(self)@.wf(),
        ensures
            final(self)@ == old(self)@.drag_move(id, *event, element, area),
            final(self)@.wf(),
            moved == old(self)@.moves(id, element, area),
            old(self)@.placed_again(final(self)@),
            moved ==> final(self)@.get(id).unwrap().stays_inside(
                area.unwrap().0 as int,
                area.unwrap().1 as int,
                element.unwrap().height as int,
            ),
    {
        let dragged = match self.dragging {
            Some(dragging) => dragging == id,
            None => false,
        };
        if !dragged {
            return false;
        }
        let place = match self.position(id) {
            Some(place) => place,
            None => {
                return false;
            },
        };
        if self.windows[place].state != WindowState::Open {
            return false;
        }
        match (element, area) {
            (Some(element), Some((width, height))) => {
                let x = event.client_x() as i64 + self.mouse_offset_x;
                let y = event.client_y() as i64 + self.mouse_offset_y;
                let room_x = width as i64 - self.windows[place].width as i64;
                let room_y = height as i64 - element.height as i64;
                self.windows[place].left = WindowPosition::Close(clamp_offset(x, room_x));
                self.windows[place].top = WindowPosition::Close(clamp_offset(y, room_y));
                self.did_move = true;
                proof {
                    let before = old(self)@.windows[place as int];
                    assert(self.windows@ =~= old(self)@.windows.update(
                        place as int,
                        before.dragged(
                            x as int,
                            y as int,
                            width as int,
                            height as int,
                            element.height as int,
                        ),
                    ));
                    index_of_is_unique(self@, id, place as int);
                }
                true
            },
            _ => false,
        }
    }

    /// Handles the release of the pointer after a drag of the window `id`:
    /// the listeners are to be detached whatever the state, and a sticky
    /// note that the drag has moved is to be sent to the store.
    pub fn drag_end(&mut self, id: WindowId) -> (outcome: Outcome)
        requires
            old(self)@.wf(),
        ensures
            final(self)@ == old(self)@.drag_end(),
            final(self)@.wf(),
            !outcome.render,
            outcome.effects@ == old(self)@.drag_end_effects(id),
    {
        let mut effects = Vec::new();
        effects.push(Effect::DetachDragListeners);
        if let WindowId::StickyNote(note) = id {
            if self.did_move {
                effects.push(Effect::UpdateNote(note));
            }
        }
        self.dragging = None;
        self.did_move = false;
        Outcome { render: false, effects }
    }

    /// Reconciles the windows with the viewport after it has changed size:
    /// every window in view at an explicit position is brought back inside.
    /// If the page does not show the element of one of these windows,
    /// nothing changes at all. Says whether the windows were reconciled.
    pub fn reconcile(&mut self, snapshot: &Snapshot) -> (done: bool)
        requires
            old(self)@.wf(),
        ensures
            final(self)@ == old(self)@.reconcile(*snapshot),
            final(self)@.wf(),
            done == !old(self)@.blocked(*snapshot),
            old(self)@.placed_again(final(self)@),
    {
        let mut i: usize = 0;
        while i < self.windows.len()
            invariant
                *self == *old(self),
                self@.wf(),
                i <= self.windows@.len(),
                forall|j: int|
                    0 <= j < i && (#[trigger] self.windows@[j]).settles() ==> snapshot.element(
                        self.windows@[j].id,
                    ).is_some(),
            decreases self.windows@.len() - i,
        {
            if settles(&self.windows[i]) && snapshot.find(self.windows[i].id).is_none() {
                return false;
            }
            i += 1;
        }
        let mut i: usize = 0;
        while i < self.windows.len()
            invariant
                i <= self.windows@.len(),
                self.windows@.len() == old(self)@.windows.len(),
                forall|j: int|
                    0 <= j < i ==> (#[trigger] self.windows@[j]) == old(
                        self,
                    )@.windows[j].reconciled_in(*snapshot),
                forall|j: int|
                    i <= j < self.windows@.len() ==> (#[trigger] self.windows@[j]) == old(
                        self,
                    )@.windows[j],
                self.max_z_index == old(self).max_z_index,
                self.focused_window == old(self).focused_window,
                self.mouse_offset_x == old(self).mouse_offset_x,
                self.mouse_offset_y == old(self).mouse_offset_y,
                self.dragging == old(self).dragging,
                self.did_move == old(self).did_move,
                self.theme == old(self).theme,
                self.taskbar_time == old(self).taskbar_time,
            decreases self.windows@.len() - i,
        {
            if settles(&self.windows[i]) {
                if let Some(element) = snapshot.find(self.windows[i].id) {
                    let room_x = snapshot.viewport_width as i64 - self.windows[i].width as i64;
                    let room_y = snapshot.viewport_height as i64 - element.height as i64;
                    if let WindowPosition::Close(x) = self.windows[i].left {
                        self.windows[i].left = WindowPosition::Close(clamp_offset(x as i64, room_x));
                    }
                    if let WindowPosition::Close(y) = self.windows[i].top {
                        self.windows[i].top = WindowPosition::Close(clamp_offset(y as i64, room_y));
                    }
                }
            }
            i += 1;
        }
        assert(self.windows@ =~= old(self)@.reconcile(*snapshot).windows);
        true
    }

    /// The taskbar entry of `window`; a hidden window has none.
    pub fn view_taskbar_button(&self, window: &Window) -> (button: Option<TaskbarButton>)
        ensures
            match button {
                Some(button) => window.state != WindowState::Hidden && button.shows(
                    *window,
                    self@.focused_window,
                ),
                None => window.state == WindowState::Hidden,
            },
    {
        if window.state == WindowState::Hidden {
            return None;
        }
        let mut key = String::from_str("taskbar-button-");
        let name = window.id.to_string();
        key.append(name.as_str());
        let in_view = window.state == WindowState::Open || window.state == WindowState::Maximised;
        Some(TaskbarButton { id: window.id, key, active: in_view && self.focused_window == window.id })
    }

    /// The taskbar: one entry for each window that is not hidden, in the
    /// order in which the windows were opened.
    pub fn taskbar(&self) -> (buttons: Vec<TaskbarButton>)
        ensures
            buttons@.len() == shown(self@.windows).len(),
            forall|k: int|
                0 <= k < buttons@.len() ==> (#[trigger] buttons@[k]).shows(
                    shown(self@.windows)[k],
                    self@.focused_window,
                ),
    {
        let mut buttons: Vec<TaskbarButton> = Vec::new();
        let mut i: usize = 0;
        while i < self.windows.len()
            invariant
                i <= self.windows@.len(),
                buttons@.len() == shown(self.windows@.take(i as int)).len(),
                forall|k: int|
                    0 <= k < buttons@.len() ==> (#[trigger] buttons@[k]).shows(
                        shown(self.windows@.take(i as int))[k],
                        self@.focused_window,
                    ),
            decreases self.windows@.len() - i,
        {
            assert(self.windows@.take(i + 1).drop_last() =~= self.windows@.take(i as int));
            if let Some(button) = self.view_taskbar_button(&self.windows[i]) {
                buttons.push(button);
            }
            i += 1;
        }
        assert(self.windows@.take(i as int) =~= self.windows@);
        buttons
    }

    /// The frames of the windows that are not hidden, in the order in which
    /// the windows were opened.
    pub fn frames(&self) -> (frames: Vec<Frame>)
        ensures
            frames@.len() == shown(self@.windows).len(),
            forall|k: int|
                0 <= k < frames@.len() ==> (#[trigger] frames@[k]).draws(
                    shown(self@.windows)[k],
                    self@.focused_window,
                ),
    {
        let mut frames: Vec<Frame> = Vec::new();
        let mut i: usize = 0;
        while i < self.windows.len()
            invariant
                i <= self.windows@.len(),
                frames@.len() == shown(self.windows@.take(i as int)).len(),
                forall|k: int|
                    0 <= k < frames@.len() ==> (#[trigger] frames@[k]).draws(
                        shown(self.windows@.take(i as int))[k],
                        self@.focused_window,
                    ),
            decreases self.windows@.len() - i,
        {
            assert(self.windows@.take(i + 1).drop_last() =~= self.windows@.take(i as int));
            if self.windows[i].state != WindowState::Hidden {
                frames.push(self.windows[i].view(self));
            }
            i += 1;
        }
        assert(self.windows@.take(i as int) =~= self.windows@);
        frames
    }

    /// Handles one command while the page shows `snapshot`, and says what
    /// is left for the page to do.
    pub fn update(&mut self, msg: CoplandMsg, snapshot: &Snapshot) -> (outcome: Outcome)
        requires
            old(self)@.wf(),
            msg.raises() ==> old(self)@.max_z_index < u32::MAX,
        ensures
            final(self)@ == old(self)@.step(msg, *snapshot).desk,
            final(self)@.wf(),
            outcome.render == old(self)@.step(msg, *snapshot).render,
            outcome.effects@ == old(self)@.step(msg, *snapshot).effects,
    {
        match msg {
            CoplandMsg::NewSticky => {
                let mut effects = Vec::new();
                effects.push(Effect::CreateNote);
                Outcome { render: true, effects }
            },
            CoplandMsg::OpenWindow(window) => {
                self.open(window);
                Outcome { render: true, effects: Vec::new() }
            },
            CoplandMsg::FocusWindow(id) => {
                self.focus(id);
                Outcome { render: true, effects: Vec::new() }
            },
            CoplandMsg::CloseWindow(id) => self.close(id),
            CoplandMsg::DragWindowStart(id, event) => {
                let element = snapshot.find(id);
                self.drag_start(id, &event, element)
            },
            CoplandMsg::DragWindowMove(id, event) => {
                let element = snapshot.find(id);
                let render = self.drag_move(id, &event, element, snapshot.area);
                Outcome { render, effects: Vec::new() }
            },
            CoplandMsg::DragWindowEnd(id, _) => self.drag_end(id),
            CoplandMsg::MinimiseWindow(id) => {
                let render = self.minimise(id);
                Outcome { render, effects: Vec::new() }
            },
            CoplandMsg::MaximiseWindow(id) => {
                let render = self.maximise(id);
                Outcome { render, effects: Vec::new() }
            },
            CoplandMsg::RestoreWindow(id) => {
                let render = self.restore(id);
                Outcome { render, effects: Vec::new() }
            },
            CoplandMsg::ResizeWindow(id, height) => {
                let render = self.resize(id, height);
                Outcome { render, effects: Vec::new() }
            },
            CoplandMsg::ResizeBrowser => {
                let render = self.reconcile(snapshot);
                Outcome { render, effects: Vec::new() }
            },
            CoplandMsg::ThemeContextUpdated(theme) => {
                self.theme = theme;
                let mut effects = Vec::new();
                effects.push(Effect::ReloadBackground);
                Outcome { render: true, effects }
            },
            CoplandMsg::UpdateTaskbarTime => {
                self.taskbar_time = get_time_string(snapshot.hours, snapshot.minutes);
                Outcome { render: true, effects: Vec::new() }
            },
        }
    }
}

/// Whether reconciliation with the viewport concerns `window`.
fn settles(window: &Window) -> (concerned: bool)
    ensures
        concerned == window.settles(),
{
    let explicit = match (&window.left, &window.top) {
        (WindowPosition::Close(_), _) => true,
        (_, WindowPosition::Close(_)) => true,
        _ => false,
    };
    window.state == WindowState::Open && explicit
}

} // verus!
