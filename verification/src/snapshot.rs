//! What the page shows of the desktop at one moment.

use crate::window::WindowId;
use vstd::prelude::*;

verus! {

/// The box of one window's element as the page currently shows it.
#[derive(Debug, Clone, Copy)]
pub struct Rendered {
    pub id: WindowId,
    /// The left edge of the element on the screen.
    pub left: i32,
    /// The top edge of the element on the screen.
    pub top: i32,
    /// The height at which the element is drawn.
    pub height: u32,
}

/// What the page shows at the moment a command is handled.
#[derive(Debug)]
pub struct Snapshot {
    /// The inner width of the browser window.
    pub viewport_width: i32,
    /// The inner height of the browser window.
    pub viewport_height: i32,
    /// The width and height of the window area, if it is mounted.
    pub area: Option<(i32, i32)>,
    /// The elements of the windows that are mounted.
    pub elements: Vec<Rendered>,
    /// The hour of the day.
    pub hours: u32,
    /// The minute of the hour.
    pub minutes: u32,
}

/// The first of `elements` that belongs to the window `id`.
pub open spec fn first_of(elements: Seq<Rendered>, id: WindowId) -> Option<Rendered>
    decreases elements.len(),
{
    if elements.len() == 0 {
        None
    } else if elements[0].id == id {
        Some(elements[0])
    } else {
        first_of(elements.drop_first(), id)
    }
}

impl Snapshot {
    /// The element of the window `id`, if the page has mounted one.
    pub open spec fn element(self, id: WindowId) -> Option<Rendered> {
        first_of(self.elements@, id)
    }

    /// The element of the window `id`, if the page has mounted one.
    pub fn find(&self, id: WindowId) -> (found: Option<Rendered>)
        ensures
            found == self.element(id),
    {
        let mut i: usize = 0;
        assert(self.elements@.skip(0) =~= self.elements@);
        while i < self.elements.len()
            invariant
                i <= self.elements@.len(),
                first_of(self.elements@, id) == first_of(self.elements@.skip(i as int), id),
            decreases self.elements@.len() - i,
        {
            assert(self.elements@.skip(i as int).drop_first() =~= self.elements@.skip(i + 1));
            if self.elements[i].id == id {
                return Some(self.elements[i]);
            }
            i += 1;
        }
        None
    }
}

} // verus!
