//! The commands that the desktop takes, the pointer events that drive a
//! drag, and what a command leaves for the page to do.

use crate::theme::Theme;
use crate::window::{Window, WindowId};
use vstd::prelude::*;

verus! {

/// Where the pointer was when an event fired, and whether it fired on one of
/// a title bar's control buttons.
#[derive(Debug, Clone, Copy)]
pub struct Pointer {
    pub client_x: i32,
    pub client_y: i32,
    pub on_button: bool,
}

/// A pointer event of one of the two families that can drive a drag.
#[derive(Debug, Clone, Copy)]
pub enum MoveEvent {
    MouseEvent(Pointer),
    TouchEvent(Pointer),
}

impl MoveEvent {
    /// The pointer data of the event, whichever family it is of.
    pub open spec fn pointer(self) -> Pointer {
        match self {
            MoveEvent::MouseEvent(p) => p,
            MoveEvent::TouchEvent(p) => p,
        }
    }

    /// Whether the event fired on a control button.
    pub fn target_is_button(&self) -> (on_button: bool)
        ensures
            on_button == self.pointer().on_button,
    {
        match self {
            MoveEvent::MouseEvent(p) => p.on_button,
            MoveEvent::TouchEvent(p) => p.on_button,
        }
    }

    /// Whether the browser's own handling of the event can be suppressed:
    /// it can for the mouse and cannot for touch.
    pub fn prevent_default(&self) -> (suppressible: bool)
        ensures
            suppressible == (self is MouseEvent),
    {
        match self {
            MoveEvent::MouseEvent(_) => true,
            MoveEvent::TouchEvent(_) => false,
        }
    }

    pub fn client_x(&self) -> (x: i32)
        ensures
            x == self.pointer().client_x,
    {
        match self {
            MoveEvent::MouseEvent(p) => p.client_x,
            MoveEvent::TouchEvent(p) => p.client_x,
        }
    }

    pub fn client_y(&self) -> (y: i32)
        ensures
            y == self.pointer().client_y,
    {
        match self {
            MoveEvent::MouseEvent(p) => p.client_y,
            MoveEvent::TouchEvent(p) => p.client_y,
        }
    }
}

/// A command to the desktop.
#[derive(Debug)]
pub enum CoplandMsg {
    NewSticky,
    OpenWindow(Window),
    FocusWindow(WindowId),
    CloseWindow(WindowId),
    DragWindowStart(WindowId, MoveEvent),
    DragWindowMove(WindowId, MoveEvent),
    DragWindowEnd(WindowId, MoveEvent),
    MinimiseWindow(WindowId),
    MaximiseWindow(WindowId),
    RestoreWindow(WindowId),
    ResizeWindow(WindowId, u32),
    ResizeBrowser,
    ThemeContextUpdated(Theme),
    UpdateTaskbarTime,
}

/// Something the page has to do on the desktop's behalf after a command.
#[derive(Debug, PartialEq, Eq, Clone, Copy, Structural)]
pub enum Effect {
    /// Suppress the browser's own handling of the event.
    PreventDefault,
    /// Listen for pointer movement and release, for both pointer families,
    /// on behalf of the given window.
    AttachDragListeners(WindowId),
    /// Stop listening for pointer movement and release.
    DetachDragListeners,
    /// Ask the store for a new sticky note.
    CreateNote,
    /// Send the content and position of the given sticky note to the store.
    UpdateNote(usize),
    /// Ask the store to delete the given sticky note.
    DeleteNote(usize),
    /// Load the background video again.
    ReloadBackground,
}

/// What a command leaves for the page to do.
#[derive(Debug)]
pub struct Outcome {
    /// Whether the desktop has to be drawn again.
    pub render: bool,
    /// What else has to be done, in this order.
    pub effects: Vec<Effect>,
}

impl CoplandMsg {
    /// Whether the command gives a window the focus, and so needs a
    /// stacking index that has not been handed out yet.
    pub open spec fn raises(self) -> bool {
        self is OpenWindow || self is FocusWindow
    }
}

} // verus!
