//! Rectangles of terminal cells.

use vstd::prelude::*;

verus! {

/// A rectangle of terminal cells: its top-left corner and its size.
#[derive(Clone, Copy, Debug, PartialEq, Eq, Structural)]
pub struct Rect {
    pub x: u16,
    pub y: u16,
    pub width: u16,
    pub height: u16,
}

impl Rect {
    /// The right and bottom edges are coordinates that a `u16` can hold.
    pub open spec fn wf(self) -> bool {
        self.x + self.width <= u16::MAX && self.y + self.height <= u16::MAX
    }

    /// The cell at column `x`, row `y` lies in the rectangle.
    pub open spec fn contains(self, x: int, y: int) -> bool {
        self.x <= x < self.x + self.width && self.y <= y < self.y + self.height
    }

    /// The number of cells.
    pub open spec fn cells(self) -> int {
        self.width * self.height
    }

    /// No cell of `inner` lies outside `self`: `inner` is empty, or its edges
    /// lie within those of `self`.
    pub open spec fn covers(self, inner: Rect) -> bool {
        inner.width == 0 || inner.height == 0 || {
            &&& self.x <= inner.x
            &&& inner.x + inner.width <= self.x + self.width
            &&& self.y <= inner.y
            &&& inner.y + inner.height <= self.y + self.height
        }
    }

    /// `covers` is containment cell by cell.
    pub proof fn lemma_covers(self, inner: Rect)
        ensures
            self.covers(inner) <==> forall|x: int, y: int|
                inner.contains(x, y) ==> self.contains(x, y),
    {
        if !self.covers(inner) {
            assert(inner.contains(inner.x as int, inner.y as int));
            assert(inner.contains(inner.x + inner.width - 1, inner.y + inner.height - 1));
        }
    }

    pub fn new(x: u16, y: u16, width: u16, height: u16) -> (rect: Rect)
        ensures
            rect == (Rect { x, y, width, height }),
    {
        Rect { x, y, width, height }
    }

    /// Whether the edges are coordinates that a `u16` can hold.
    pub fn is_wf(&self) -> (b: bool)
        ensures
            b == self.wf(),
    {
        self.width <= u16::MAX - self.x && self.height <= u16::MAX - self.y
    }

    /// Whether no cell of `inner` lies outside `self`.
    pub fn encloses(&self, inner: &Rect) -> (b: bool)
        requires
            self.wf(),
            inner.wf(),
        ensures
            b == self.covers(*inner),
    {
        inner.width == 0 || inner.height == 0 || (self.x <= inner.x && inner.x + inner.width
            <= self.x + self.width && self.y <= inner.y && inner.y + inner.height <= self.y
            + self.height)
    }
}

} // verus!
