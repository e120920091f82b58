//! The mathematical picture of a cell buffer: a grid of cells over an area,
//! and the pictures that drawing produces from it.

use vstd::prelude::*;
use vstd::arithmetic::div_mod::{lemma_fundamental_div_mod, lemma_fundamental_div_mod_converse};
use crate::geometry::Rect;
use crate::style::{Colour, Style};

verus! {

/// What one cell shows: a symbol, its colours, and its text attributes as a
/// set of bits (none are set by anything this library draws).
pub struct Cell {
    pub symbol: Seq<char>,
    pub fg: Colour,
    pub bg: Colour,
    pub modifier: u16,
}

impl Cell {
    /// A cell that shows the single character `c` in `style`, without text
    /// attributes.
    pub open spec fn of_char(c: char, style: Style) -> Cell {
        Cell { symbol: seq![c], fg: style.fg, bg: style.bg, modifier: 0 }
    }

    /// The same cell on another background.
    pub open spec fn on(self, colour: Colour) -> Cell {
        Cell { bg: colour, ..self }
    }
}

/// A grid of cells, stored row by row, that stands for an area of the screen.
pub struct Canvas {
    pub area: Rect,
    pub cells: Seq<Cell>,
}

impl Canvas {
    /// There is exactly one cell for each position of the area, and every
    /// position and every cell number fits a `u16`.
    pub open spec fn wf(self) -> bool {
        &&& self.area.wf()
        &&& self.area.cells() <= u16::MAX
        &&& self.cells.len() == self.area.cells()
    }

    /// `area` can be drawn into: the canvas is sound, and `area` is a proper
    /// rectangle that lies inside it.
    pub open spec fn holds(self, area: Rect) -> bool {
        self.wf() && area.wf() && self.area.covers(area)
    }

    /// The number of the cell at column `x`, row `y`.
    pub open spec fn index(self, x: int, y: int) -> int {
        (y - self.area.y) * self.area.width + (x - self.area.x)
    }

    /// The column of cell number `i`.
    pub open spec fn column(self, i: int) -> int {
        self.area.x + i % (self.area.width as int)
    }

    /// The row of cell number `i`.
    pub open spec fn row(self, i: int) -> int {
        self.area.y + i / (self.area.width as int)
    }

    /// The cell at column `x`, row `y`.
    pub open spec fn at(self, x: int, y: int) -> Cell {
        self.cells[self.index(x, y)]
    }

    /// The canvas with the cell at column `x`, row `y` replaced.
    pub open spec fn put(self, x: int, y: int, cell: Cell) -> Canvas {
        Canvas { area: self.area, cells: self.cells.update(self.index(x, y), cell) }
    }

    /// The canvas with `text` written from column `x` of row `y` rightwards,
    /// one character to a cell.
    pub open spec fn with_text(self, x: int, y: int, text: Seq<char>, style: Style) -> Canvas {
        let start = self.index(x, y);
        Canvas {
            area: self.area,
            cells: Seq::new(
                self.cells.len(),
                |i: int|
                    if start <= i < start + text.len() {
                        Cell::of_char(text[i - start], style)
                    } else {
                        self.cells[i]
                    },
            ),
        }
    }

    /// The canvas on which every cell has become `f` of its column, its row
    /// and what it showed before.
    pub open spec fn repaint(self, f: spec_fn(int, int, Cell) -> Cell) -> Canvas {
        Canvas {
            area: self.area,
            cells: Seq::new(
                self.cells.len(),
                |i: int| f(self.column(i), self.row(i), self.cells[i]),
            ),
        }
    }

    /// The canvas with the background of every cell inside `area` set to
    /// `colour`.
    pub open spec fn with_background(self, area: Rect, colour: Colour) -> Canvas {
        self.repaint(|x: int, y: int, c: Cell| if area.contains(x, y) { c.on(colour) } else { c })
    }

    /// A position inside the area has a cell, and the cell's number leads
    /// back to the position.
    pub proof fn lemma_index(self, x: int, y: int)
        requires
            self.wf(),
            self.area.contains(x, y),
        ensures
            0 <= self.index(x, y) < self.cells.len(),
            self.index(x, y) <= u16::MAX,
            self.column(self.index(x, y)) == x,
            self.row(self.index(x, y)) == y,
    {
        let w = self.area.width as int;
        let h = self.area.height as int;
        let dx = x - self.area.x;
        let dy = y - self.area.y;
        assert(0 <= dy * w + dx < w * h) by (nonlinear_arith)
            requires
                0 <= dx < w,
                0 <= dy < h,
        ;
        lemma_fundamental_div_mod_converse(self.index(x, y), w, dy, dx);
    }

    /// A cell's number leads to a position inside the area, and back.
    pub proof fn lemma_position(self, i: int)
        requires
            self.wf(),
            0 <= i < self.cells.len(),
        ensures
            self.area.contains(self.column(i), self.row(i)),
            self.index(self.column(i), self.row(i)) == i,
    {
        let w = self.area.width as int;
        let h = self.area.height as int;
        assert(w > 0) by (nonlinear_arith)
            requires
                0 <= i < w * h,
                0 <= w,
        ;
        lemma_fundamental_div_mod(i, w);
        assert(0 <= i / w < h && 0 <= i % w < w && (i / w) * w + i % w == i) by (nonlinear_arith)
            requires
                0 <= i < w * h,
                w > 0,
                i == w * (i / w) + i % w,
                0 <= i % w < w,
        ;
    }

    /// What a repainted canvas shows at a position: `f` of the position and
    /// of what was there.
    pub proof fn lemma_repaint_at(self, f: spec_fn(int, int, Cell) -> Cell, x: int, y: int)
        requires
            self.wf(),
            self.area.contains(x, y),
        ensures
            self.repaint(f).wf(),
            self.repaint(f).at(x, y) == f(x, y, self.at(x, y)),
    {
        self.lemma_index(x, y);
    }

    /// What a canvas shows at a position after a text has been written that
    /// ends before the right edge: a character of the text where the text
    /// lies, and elsewhere what was there.
    pub proof fn lemma_text_at(
        self,
        x: int,
        y: int,
        text: Seq<char>,
        style: Style,
        cx: int,
        cy: int,
    )
        requires
            self.wf(),
            self.area.contains(x, y),
            x + text.len() <= self.area.x + self.area.width,
            self.area.contains(cx, cy),
        ensures
            self.with_text(x, y, text, style).wf(),
            self.with_text(x, y, text, style).at(cx, cy) == if cy == y && x <= cx < x + text.len() {
                Cell::of_char(text[cx - x], style)
            } else {
                self.at(cx, cy)
            },
    {
        let w = self.area.width as int;
        let rows = cy - y;
        self.lemma_index(x, y);
        self.lemma_index(cx, cy);
        assert(self.index(cx, cy) - self.index(x, y) == rows * w + (cx - x)) by (nonlinear_arith)
            requires
                self.index(cx, cy) == (cy - self.area.y) * w + (cx - self.area.x),
                self.index(x, y) == (y - self.area.y) * w + (x - self.area.x),
                rows == cy - y,
        ;
        if rows > 0 {
            assert(rows * w >= w) by (nonlinear_arith)
                requires
                    rows >= 1,
                    w >= 0,
            ;
        } else if rows < 0 {
            assert(rows * w <= -w) by (nonlinear_arith)
                requires
                    rows <= -1,
                    w >= 0,
            ;
        }
    }
}

} // verus!
