//! The frame that may enclose a widget: which edges carry a border, and in
//! what style the border is drawn.

use vstd::prelude::*;
use crate::geometry::Rect;
use crate::style::{Colour, Style};

verus! {

/// The edges of a frame that carry a border.
#[derive(Clone, Copy, Debug, PartialEq, Eq, Structural)]
pub struct Edges {
    pub top: bool,
    pub right: bool,
    pub bottom: bool,
    pub left: bool,
}

impl Edges {
    /// No border at all.
    pub fn none() -> (edges: Edges)
        ensures
            edges == (Edges { top: false, right: false, bottom: false, left: false }),
    {
        Edges { top: false, right: false, bottom: false, left: false }
    }

    /// A border on every edge.
    pub fn all() -> (edges: Edges)
        ensures
            edges == (Edges { top: true, right: true, bottom: true, left: true }),
    {
        Edges { top: true, right: true, bottom: true, left: true }
    }

    /// The same edges, and a border on the top edge.
    pub fn top(self) -> (edges: Edges)
        ensures
            edges == (Edges { top: true, ..self }),
    {
        Edges { top: true, ..self }
    }

    /// The same edges, and a border on the right edge.
    pub fn right(self) -> (edges: Edges)
        ensures
            edges == (Edges { right: true, ..self }),
    {
        Edges { right: true, ..self }
    }

    /// The same edges, and a border on the bottom edge.
    pub fn bottom(self) -> (edges: Edges)
        ensures
            edges == (Edges { bottom: true, ..self }),
    {
        Edges { bottom: true, ..self }
    }

    /// The same edges, and a border on the left edge.
    pub fn left(self) -> (edges: Edges)
        ensures
            edges == (Edges { left: true, ..self }),
    {
        Edges { left: true, ..self }
    }
}

/// A frame around a widget.
#[derive(Clone, Copy, Debug, PartialEq, Eq, Structural)]
pub struct Frame {
    pub borders: Edges,
    pub border_style: Style,
}

impl Default for Frame {
    /// A frame without borders.
    fn default() -> (frame: Frame)
        ensures
            frame.borders == (Edges { top: false, right: false, bottom: false, left: false }),
            frame.border_style == (Style { fg: Colour::Reset, bg: Colour::Reset }),
    {
        Frame { borders: Edges::none(), border_style: Style::default() }
    }
}

impl Frame {
    /// The same frame with borders on `edges`.
    pub fn borders(self, edges: Edges) -> (frame: Frame)
        ensures
            frame == (Frame { borders: edges, ..self }),
    {
        Frame { borders: edges, ..self }
    }

    /// The same frame with its borders drawn in `style`.
    pub fn border_style(self, style: Style) -> (frame: Frame)
        ensures
            frame == (Frame { border_style: style, ..self }),
    {
        Frame { border_style: style, ..self }
    }

    /// What a frame around `area` leaves for the widget inside: `area` less
    /// one column or row for each edge that carries a border. An area of
    /// fewer than two columns or rows leaves nothing.
    pub open spec fn interior(self, area: Rect) -> Rect {
        if area.width < 2 || area.height < 2 {
            Rect { x: 0, y: 0, width: 0, height: 0 }
        } else {
            Rect {
                x: (area.x + if self.borders.left { 1int } else { 0 }) as u16,
                y: (area.y + if self.borders.top { 1int } else { 0 }) as u16,
                width: (area.width - if self.borders.left { 1int } else { 0 }
                    - if self.borders.right { 1int } else { 0 }) as u16,
                height: (area.height - if self.borders.top { 1int } else { 0 }
                    - if self.borders.bottom { 1int } else { 0 }) as u16,
            }
        }
    }

    /// The interior is a proper rectangle inside the framed area.
    pub proof fn lemma_interior(self, area: Rect)
        requires
            area.wf(),
        ensures
            self.interior(area).wf(),
            area.covers(self.interior(area)),
            self.interior(area).width <= area.width,
            self.interior(area).height <= area.height,
    {
    }
}

} // verus!
