//! The background theme: one index into the set of backgrounds, which wraps
//! round at both ends.

use crate::text::{decimal, push_decimal};
use rand::Rng;
use vstd::prelude::*;
use vstd::string::*;

verus! {

/// One more than the highest background index.
pub const MAX_BACKGROUND_INDEX: u32 = 23;

/// The background that the desktop shows.
#[derive(Debug, PartialEq, Eq, Clone, Copy, Structural)]
pub struct Theme {
    pub background: u32,
}

/// The index that a request for `background` selects: one step below the
/// first background is the last one, one step above the last is the first.
pub open spec fn wrapped(background: u32) -> u32 {
    if background == 0 {
        (MAX_BACKGROUND_INDEX - 1) as u32
    } else if background == MAX_BACKGROUND_INDEX {
        1
    } else {
        background
    }
}

/// A number drawn at random from `low..high`. Calls `rand::thread_rng` and
/// `Rng::gen_range`, which for integers returns a value of the half-open
/// range and panics only when the range is empty.
#[verifier::external_body]
fn draw(low: u32, high: u32) -> (drawn: u32)
    requires
        low < high,
    ensures
        low <= drawn < high,
{
    rand::thread_rng().gen_range(low..high)
}

impl Theme {
    /// Whether the index names one of the backgrounds.
    pub open spec fn wf(self) -> bool {
        1 <= self.background < MAX_BACKGROUND_INDEX
    }

    /// The path of the background video in the format with the given extension.
    pub open spec fn source_path(self, extension: Seq<char>) -> Seq<char> {
        "assets/backgrounds/"@ + decimal(self.background as nat) + "."@ + extension
    }

    /// A theme with a background picked at random.
    pub fn random() -> (theme: Theme)
        ensures
            theme.wf(),
    {
        Theme { background: draw(1, MAX_BACKGROUND_INDEX) }
    }

    /// The theme after a request for the index `background`.
    pub fn reduce(self, background: u32) -> (next: Theme)
        ensures
            next.background == wrapped(background),
            background <= MAX_BACKGROUND_INDEX ==> next.wf(),
    {
        let background = if background == 0 {
            MAX_BACKGROUND_INDEX - 1
        } else if background == MAX_BACKGROUND_INDEX {
            1
        } else {
            background
        };
        Theme { background }
    }

    /// The theme one background further on, back at the first after the last.
    pub fn increment(self) -> (next: Theme)
        ensures
            next == self.reduce_spec(self.background.saturating_add(1)),
            self.wf() ==> next.wf(),
            self.wf() ==> next.background == if self.background == MAX_BACKGROUND_INDEX - 1 {
                1
            } else {
                self.background + 1
            },
    {
        self.reduce(self.background.saturating_add(1))
    }

    /// The theme one background back, at the last before the first.
    pub fn decrement(self) -> (next: Theme)
        ensures
            next == self.reduce_spec(self.background.saturating_sub(1)),
            self.wf() ==> next.wf(),
            self.wf() ==> next.background == if self.background == 1 {
                MAX_BACKGROUND_INDEX - 1
            } else {
                self.background - 1
            },
    {
        self.reduce(self.background.saturating_sub(1))
    }

    /// The theme that a request for `background` leads to.
    pub open spec fn reduce_spec(self, background: u32) -> Theme {
        Theme { background: wrapped(background) }
    }

    /// The path of the background video in the format with the given extension.
    pub fn source(&self, extension: &str) -> (path: String)
        ensures
            path@ == self.source_path(extension@),
    {
        let mut path = String::from_str("assets/backgrounds/");
        push_decimal(&mut path, self.background as u64);
        path.append(".");
        path.append(extension);
        path
    }
}

} // verus!
