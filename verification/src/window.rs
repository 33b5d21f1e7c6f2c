//! Window records: identity, placement, display state and close policy.

use crate::copland::Copland;
use crate::text::{decimal, push_decimal, push_signed_decimal, signed_decimal};
use vstd::prelude::*;
use vstd::string::*;

verus! {

/// Where a window sits along one axis.
#[derive(Debug, PartialEq, Eq, Clone, Structural)]
pub enum WindowPosition {
    /// An explicit offset in pixels from the near edge.
    Close(i32),
    /// Centred; resolved when the window is drawn.
    Half,
    /// Pinned to the far edge; resolved when the window is drawn.
    Far,
}

/// How a window is currently displayed.
#[derive(Debug, PartialEq, Eq, Clone, Structural)]
pub enum WindowState {
    /// Out of view but on the taskbar; the flag records that it was
    /// maximised when it was minimised.
    Minimised(bool),
    /// Out of view and off the taskbar, with its record kept.
    Hidden,
    /// In view at its own position and size.
    Open,
    /// In view, filling the window area.
    Maximised,
}

/// The identity of a window: one of the singletons, or a sticky note by number.
#[derive(Debug, PartialEq, Eq, Clone, Copy, Hash, PartialOrd, Ord, Structural)]
pub enum WindowId {
    Home,
    Spotify,
    AboutMe,
    SocialLinks,
    BackgroundSelector,
    Projects,
    Films,
    PhotoViewer,
    StickyNote(usize),
}

/// What a close request does to a window.
#[derive(Debug, PartialEq, Eq, Clone, Structural)]
pub enum WindowClose {
    /// The window cannot be closed.
    Invalid,
    /// The record leaves the registry.
    Close,
    /// The record stays and the window becomes hidden.
    Hide,
}

impl WindowId {
    /// The stable name of this window, from which element identifiers are made.
    pub open spec fn label(self) -> Seq<char> {
        match self {
            WindowId::Home => "Home"@,
            WindowId::Spotify => "Spotify"@,
            WindowId::AboutMe => "AboutMe"@,
            WindowId::SocialLinks => "SocialLinks"@,
            WindowId::BackgroundSelector => "BackgroundSelector"@,
            WindowId::Projects => "Projects"@,
            WindowId::Films => "Letterboxd"@,
            WindowId::PhotoViewer => "Photo Viewer"@,
            WindowId::StickyNote(index) => "StickyNote("@ + decimal(index as nat) + ")"@,
        }
    }

    /// Whether this window shows a sticky note, whose content is kept in the remote store.
    pub open spec fn is_sticky(self) -> bool {
        self is StickyNote
    }

    /// The stable name of this window as a string.
    pub fn to_string(&self) -> (name: String)
        ensures
            name@ == self.label(),
    {
        match self {
            WindowId::Home => String::from_str("Home"),
            WindowId::Spotify => String::from_str("Spotify"),
            WindowId::AboutMe => String::from_str("AboutMe"),
            WindowId::SocialLinks => String::from_str("SocialLinks"),
            WindowId::BackgroundSelector => String::from_str("BackgroundSelector"),
            WindowId::Projects => String::from_str("Projects"),
            WindowId::Films => String::from_str("Letterboxd"),
            WindowId::PhotoViewer => String::from_str("Photo Viewer"),
            WindowId::StickyNote(index) => {
                let mut name = String::from_str("StickyNote(");
                push_decimal(&mut name, *index as u64);
                name.append(")");
                name
            },
        }
    }
}

/// The data of a sticky note as its panel shows it.
#[derive(Debug, PartialEq, Eq, Clone)]
pub struct StickyNoteProps {
    pub id: u32,
    pub content: String,
    pub created_at: u64,
}

/// Which content panel a window shows. The panel itself is drawn elsewhere;
/// the registry never looks inside it.
#[derive(Debug, Clone)]
pub enum WindowBody {
    Home,
    AboutMe,
    Spotify,
    BackgroundSelector,
    Socials,
    Projects,
    Films,
    PhotoViewer,
    StickyNote(StickyNoteProps),
}

/// One window of the desktop.
#[derive(Debug, Clone)]
pub struct Window {
    pub id: WindowId,
    pub state: WindowState,
    pub close: WindowClose,
    pub z_index: u32,
    pub top: WindowPosition,
    pub left: WindowPosition,
    pub width: u32,
    pub height: Option<u32>,
    pub icon: String,
    pub title: String,
    pub body: WindowBody,
}

/// What the page needs to draw the frame of one window.
#[derive(Debug)]
pub struct Frame {
    /// The window that the frame belongs to.
    pub id: WindowId,
    /// The identifier of the window's element.
    pub key: String,
    /// The inline style of the window's element.
    pub style: String,
    /// Whether the element carries the sticky-note class beside the window class.
    pub sticky: bool,
    /// Whether the title bar is drawn as inactive.
    pub inactive: bool,
    /// Whether the title bar offers to maximise (otherwise it offers to restore).
    pub offers_maximise: bool,
    /// Whether the title bar offers to close.
    pub offers_close: bool,
}

impl Frame {
    /// Whether this is the frame of `window` on a desktop where the window
    /// `focused` has the focus.
    pub open spec fn draws(self, window: Window, focused: WindowId) -> bool {
        &&& self.id == window.id
        &&& self.key@ == Window::element_id(window.id)
        &&& self.style@ == window.style_css()
        &&& self.sticky == window.id.is_sticky()
        &&& self.inactive == (window.id != focused)
        &&& self.offers_maximise == (window.state != WindowState::Maximised)
        &&& self.offers_close == (window.close != WindowClose::Invalid)
    }
}

impl WindowState {
    /// The state in which a window is displayed once it has the focus: a
    /// maximised window, or one minimised from maximised, is maximised; any
    /// other is open.
    pub open spec fn displayed(self) -> WindowState {
        match self {
            WindowState::Maximised => WindowState::Maximised,
            WindowState::Minimised(true) => WindowState::Maximised,
            _ => WindowState::Open,
        }
    }

    /// Whether a window in this state is in view.
    pub open spec fn in_view(self) -> bool {
        self == WindowState::Open || self == WindowState::Maximised
    }
}

impl WindowPosition {
    /// The style declarations that place a window horizontally.
    pub open spec fn left_css(self) -> Seq<char> {
        match self {
            WindowPosition::Close(x) => "left: "@ + signed_decimal(x as int) + "px;"@,
            WindowPosition::Half => "left: 50%; transform: translateX(-50%);"@,
            WindowPosition::Far => "right: 0px;"@,
        }
    }

    /// The style declarations that place a window vertically.
    pub open spec fn top_css(self) -> Seq<char> {
        match self {
            WindowPosition::Close(y) => "top: "@ + signed_decimal(y as int) + "px;"@,
            WindowPosition::Half => "top: 50%; transform: translateY(-50%);"@,
            WindowPosition::Far => "bottom: 0px;"@,
        }
    }
}

/// The style declaration for a fixed height, if there is one.
pub open spec fn height_css(height: Option<u32>) -> Seq<char> {
    match height {
        Some(h) => "height: "@ + decimal(h as nat) + "px;"@,
        None => Seq::empty(),
    }
}

/// The extra declaration that centres a window on both axes at once.
pub open spec fn centred_css(left: WindowPosition, top: WindowPosition) -> Seq<char> {
    if left == WindowPosition::Half && top == WindowPosition::Half {
        "transform: translateY(-50%) translateX(-50%);"@
    } else {
        Seq::empty()
    }
}

impl Window {
    /// Whether `self` is a freshly made window, open and not yet stacked,
    /// with exactly the given description.
    pub open spec fn describes(
        self,
        id: WindowId,
        close: WindowClose,
        top: WindowPosition,
        left: WindowPosition,
        width: u32,
        height: Option<u32>,
        icon: Seq<char>,
        title: Seq<char>,
    ) -> bool {
        &&& self.id == id
        &&& self.state == WindowState::Open
        &&& self.close == close
        &&& self.z_index == 0
        &&& self.top == top
        &&& self.left == left
        &&& self.width == width
        &&& self.height == height
        &&& self.icon@ == icon
        &&& self.title@ == title
    }

    /// The declarations that size and place the window, by its state.
    pub open spec fn placement_css(self) -> Seq<char> {
        match self.state {
            WindowState::Maximised => "top: 0px; left: 0px; width: 100%; height: 100%;"@,
            WindowState::Minimised(_) | WindowState::Hidden => "display: none;"@,
            WindowState::Open => "width: "@ + decimal(self.width as nat) + "px;"@ + height_css(
                self.height,
            ) + self.left.left_css() + self.top.top_css() + centred_css(self.left, self.top),
        }
    }

    /// The inline style of the window's element: its placement, then its stacking index.
    pub open spec fn style_css(self) -> Seq<char> {
        self.placement_css() + "z-index: "@ + decimal(self.z_index as nat) + ";"@
    }

    /// The identifier of the window's element.
    pub open spec fn element_id(id: WindowId) -> Seq<char> {
        "window-"@ + id.label()
    }

    /// The permanent home window.
    pub fn home() -> (w: Window)
        ensures
            w.describes(
                WindowId::Home,
                WindowClose::Invalid,
                WindowPosition::Half,
                WindowPosition::Half,
                400,
                None,
                "assets/icons/computer_explorer-5.png"@,
                "Home"@,
            ),
            w.body is Home,
    {
        Window {
            id: WindowId::Home,
            state: WindowState::Open,
            close: WindowClose::Invalid,
            z_index: 0,
            top: WindowPosition::Half,
            left: WindowPosition::Half,
            width: 400,
            height: None,
            icon: String::from_str("assets/icons/computer_explorer-5.png"),
            title: String::from_str("Home"),
            body: WindowBody::Home,
        }
    }

    pub fn about_me() -> (w: Window)
        ensures
            w.describes(
                WindowId::AboutMe,
                WindowClose::Close,
                WindowPosition::Half,
                WindowPosition::Half,
                300,
                None,
                "assets/icons/msg_information-0.png"@,
                "About Me"@,
            ),
            w.body is AboutMe,
    {
        Window {
            id: WindowId::AboutMe,
            state: WindowState::Open,
            close: WindowClose::Close,
            z_index: 0,
            top: WindowPosition::Half,
            left: WindowPosition::Half,
            width: 300,
            height: None,
            icon: String::from_str("assets/icons/msg_information-0.png"),
            title: String::from_str("About Me"),
            body: WindowBody::AboutMe,
        }
    }

    /// The music widget, which is hidden rather than removed when closed.
    pub fn spotify() -> (w: Window)
        ensures
            w.describes(
                WindowId::Spotify,
                WindowClose::Hide,
                WindowPosition::Close(0),
                WindowPosition::Far,
                300,
                None,
                "assets/icons/spotify.svg"@,
                "Spotify"@,
            ),
            w.body is Spotify,
    {
        Window {
            id: WindowId::Spotify,
            state: WindowState::Open,
            close: WindowClose::Hide,
            z_index: 0,
            top: WindowPosition::Close(0),
            left: WindowPosition::Far,
            width: 300,
            height: None,
            icon: String::from_str("assets/icons/spotify.svg"),
            title: String::from_str("Spotify"),
            body: WindowBody::Spotify,
        }
    }

    pub fn background_selector() -> (w: Window)
        ensures
            w.describes(
                WindowId::BackgroundSelector,
                WindowClose::Close,
                WindowPosition::Close(0),
                WindowPosition::Close(0),
                300,
                None,
                "assets/icons/kodak_imaging-0.png"@,
                "Select Background"@,
            ),
            w.body is BackgroundSelector,
    {
        Window {
            id: WindowId::BackgroundSelector,
            state: WindowState::Open,
            close: WindowClose::Close,
            z_index: 0,
            top: WindowPosition::Close(0),
            left: WindowPosition::Close(0),
            width: 300,
            height: None,
            icon: String::from_str("assets/icons/kodak_imaging-0.png"),
            title: String::from_str("Select Background"),
            body: WindowBody::BackgroundSelector,
        }
    }

    pub fn socials() -> (w: Window)
        ensures
            w.describes(
                WindowId::SocialLinks,
                WindowClose::Close,
                WindowPosition::Far,
                WindowPosition::Half,
                250,
                None,
                "assets/icons/netmeeting-0.png"@,
                "Social links \u{e3}\u{192}\u{201e}"@,
            ),
            w.body is Socials,
    {
        Window {
            id: WindowId::SocialLinks,
            state: WindowState::Open,
            close: WindowClose::Close,
            z_index: 0,
            top: WindowPosition::Far,
            left: WindowPosition::Half,
            width: 250,
            height: None,
            icon: String::from_str("assets/icons/netmeeting-0.png"),
            title: String::from_str("Social links \u{e3}\u{192}\u{201e}"),
            body: WindowBody::Socials,
        }
    }

    pub fn projects() -> (w: Window)
        ensures
            w.describes(
                WindowId::Projects,
                WindowClose::Close,
                WindowPosition::Half,
                WindowPosition::Half,
                350,
                None,
                "assets/icons/keyboard-5.png"@,
                "(Some) of my projects"@,
            ),
            w.body is Projects,
    {
        Window {
            id: WindowId::Projects,
            state: WindowState::Open,
            close: WindowClose::Close,
            z_index: 0,
            top: WindowPosition::Half,
            left: WindowPosition::Half,
            width: 350,
            height: None,
            icon: String::from_str("assets/icons/keyboard-5.png"),
            title: String::from_str("(Some) of my projects"),
            body: WindowBody::Projects,
        }
    }

    /// The film diary, the one window made with a fixed height.
    pub fn films() -> (w: Window)
        ensures
            w.describes(
                WindowId::Films,
                WindowClose::Close,
                WindowPosition::Half,
                WindowPosition::Half,
                520,
                Some(400u32),
                "assets/icons/camera3_vid-2.png"@,
                "Letterboxd"@,
            ),
            w.body is Films,
    {
        Window {
            id: WindowId::Films,
            state: WindowState::Open,
            close: WindowClose::Close,
            z_index: 0,
            top: WindowPosition::Half,
            left: WindowPosition::Half,
            width: 520,
            height: Some(400),
            icon: String::from_str("assets/icons/camera3_vid-2.png"),
            title: String::from_str("Letterboxd"),
            body: WindowBody::Films,
        }
    }

    /// The window of the sticky note `id`, placed at the stored offset `(x, y)`.
    pub fn sticky_note(id: u32, content: String, created_at: u64, x: i32, y: i32) -> (w: Window)
        ensures
            w.describes(
                WindowId::StickyNote(id as usize),
                WindowClose::Close,
                WindowPosition::Close(y),
                WindowPosition::Close(x),
                200,
                None,
                "assets/icons/template_empty-5.png"@,
                "sticky note "@ + decimal(id as nat),
            ),
            w.body == WindowBody::StickyNote(StickyNoteProps { id, content, created_at }),
    {
        let mut title = String::from_str("sticky note ");
        push_decimal(&mut title, id as u64);
        Window {
            id: WindowId::StickyNote(id as usize),
            state: WindowState::Open,
            close: WindowClose::Close,
            z_index: 0,
            left: WindowPosition::Close(x),
            top: WindowPosition::Close(y),
            width: 200,
            height: None,
            icon: String::from_str("assets/icons/template_empty-5.png"),
            title,
            body: WindowBody::StickyNote(StickyNoteProps { id, content, created_at }),
        }
    }

    pub fn photo_viewer() -> (w: Window)
        ensures
            w.describes(
                WindowId::PhotoViewer,
                WindowClose::Close,
                WindowPosition::Half,
                WindowPosition::Half,
                500,
                None,
                "assets/icons/kodak_imaging-0.png"@,
                "Photo Viewer"@,
            ),
            w.body is PhotoViewer,
    {
        Window {
            id: WindowId::PhotoViewer,
            state: WindowState::Open,
            close: WindowClose::Close,
            z_index: 0,
            left: WindowPosition::Half,
            top: WindowPosition::Half,
            width: 500,
            height: None,
            icon: String::from_str("assets/icons/kodak_imaging-0.png"),
            title: String::from_str("Photo Viewer"),
            body: WindowBody::PhotoViewer,
        }
    }

    /// The identifier of the element of the window `id`.
    pub fn element_key(id: WindowId) -> (key: String)
        ensures
            key@ == Self::element_id(id),
    {
        let mut key = String::from_str("window-");
        let name = id.to_string();
        key.append(name.as_str());
        key
    }

    /// The inline style of the window's element.
    pub fn style(&self) -> (style: String)
        ensures
            style@ == self.style_css(),
    {
        let mut style = match self.state {
            WindowState::Maximised => String::from_str(
                "top: 0px; left: 0px; width: 100%; height: 100%;",
            ),
            WindowState::Minimised(_) | WindowState::Hidden => String::from_str("display: none;"),
            WindowState::Open => {
                let mut style = String::from_str("width: ");
                push_decimal(&mut style, self.width as u64);
                style.append("px;");
                if let Some(height) = self.height {
                    style.append("height: ");
                    push_decimal(&mut style, height as u64);
                    style.append("px;");
                }
                match self.left {
                    WindowPosition::Close(x) => {
                        style.append("left: ");
                        push_signed_decimal(&mut style, x as i64);
                        style.append("px;");
                    },
                    WindowPosition::Half => style.append("left: 50%; transform: translateX(-50%);"),
                    WindowPosition::Far => style.append("right: 0px;"),
                }
                match self.top {
                    WindowPosition::Close(y) => {
                        style.append("top: ");
                        push_signed_decimal(&mut style, y as i64);
                        style.append("px;");
                    },
                    WindowPosition::Half => style.append("top: 50%; transform: translateY(-50%);"),
                    WindowPosition::Far => style.append("bottom: 0px;"),
                }
                if self.left == WindowPosition::Half && self.top == WindowPosition::Half {
                    style.append("transform: translateY(-50%) translateX(-50%);");
                }
                style
            },
        };
        style.append("z-index: ");
        push_decimal(&mut style, self.z_index as u64);
        style.append(";");
        style
    }

    /// What the page needs to draw this window's frame on the desktop
    /// `copland`: the title bar is inactive unless the window has the focus,
    /// a maximised window offers to restore in place of to maximise, and a
    /// window that cannot be closed offers no close control.
    pub fn view(&self, copland: &Copland) -> (frame: Frame)
        ensures
            frame.draws(*self, copland@.focused_window),
    {
        let key = Self::element_key(self.id);
        let sticky = match self.id {
            WindowId::StickyNote(_) => true,
            _ => false,
        };
        Frame {
            id: self.id,
            key,
            style: self.style(),
            sticky,
            inactive: self.id != copland.focused_window(),
            offers_maximise: self.state != WindowState::Maximised,
            offers_close: self.close != WindowClose::Invalid,
        }
    }
}

} // verus!
