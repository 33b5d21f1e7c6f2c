//! A window manager for a single-page desktop: window records, stacking
//! order and focus, the drag gesture, and viewport reconciliation.
//!
//! The desktop takes commands and never touches the page. Each command
//! comes with a snapshot of what the page shows, and leaves behind what
//! the page has to do. What a command makes of the desktop is defined on a
//! mathematical model, of which the laws are proved.

pub mod carousel;
pub mod copland;
pub mod desk;
pub mod geometry;
pub mod json;
pub mod laws;
pub mod message;
pub mod notes;
pub mod snapshot;
pub mod spotify;
pub mod text;
pub mod theme;
pub mod window;
