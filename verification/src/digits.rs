//! The digit renderer: ten bitmaps of three columns by five rows, each pixel
//! drawn two cells wide and one cell high.

use vstd::prelude::*;
use tui::buffer::Buffer;
use crate::buffer::{buffer_set_string, canvas};
use crate::geometry::Rect;
use crate::paint::buffer_holds;
use crate::canvas::{Canvas, Cell};
use crate::style::Style;

verus! {

/// The bitmaps of the digits 0 to 9, row by row, three pixels to a row.
pub const DIGITS: [[u8; 15]; 10] = [
    [1, 1, 1, 1, 0, 1, 1, 0, 1, 1, 0, 1, 1, 1, 1],
    [0, 0, 1, 0, 0, 1, 0, 0, 1, 0, 0, 1, 0, 0, 1],
    [1, 1, 1, 0, 0, 1, 1, 1, 1, 1, 0, 0, 1, 1, 1],
    [1, 1, 1, 0, 0, 1, 1, 1, 1, 0, 0, 1, 1, 1, 1],
    [1, 0, 1, 1, 0, 1, 1, 1, 1, 0, 0, 1, 0, 0, 1],
    [1, 1, 1, 1, 0, 0, 1, 1, 1, 0, 0, 1, 1, 1, 1],
    [1, 1, 1, 1, 0, 0, 1, 1, 1, 1, 0, 1, 1, 1, 1],
    [1, 1, 1, 0, 0, 1, 0, 0, 1, 0, 0, 1, 0, 0, 1],
    [1, 1, 1, 1, 0, 1, 1, 1, 1, 1, 0, 1, 1, 1, 1],
    [1, 1, 1, 1, 0, 1, 1, 1, 1, 0, 0, 1, 1, 1, 1],
];

/// The symbol that fills a cell.
pub const FULL: char = '\u{2588}';

/// The width of a drawn digit in cells.
pub const DIGIT_WIDTH: u16 = 6;

/// The height of a drawn digit in cells.
pub const DIGIT_HEIGHT: u16 = 5;

/// The pixel at `column`, `row` of the bitmap of `digit` is set.
pub open spec fn pixel(digit: int, column: int, row: int) -> bool {
    &&& 0 <= digit <= 9
    &&& 0 <= column < 3
    &&& 0 <= row < 5
    &&& DIGITS@[digit]@[column + row * 3] == 1
}

/// The drawn `digit` fills the cell `dx` columns right of and `dy` rows below
/// its top-left corner.
pub open spec fn inked(digit: int, dx: int, dy: int) -> bool {
    0 <= dx < 6 && pixel(digit, dx / 2, dy)
}

/// The first of the two decimal digits of `value`.
pub open spec fn tens(value: int) -> int {
    value / 10
}

/// The second of the two decimal digits of `value`.
pub open spec fn units(value: int) -> int {
    value % 10
}

/// Whether the pixel at `column`, `row` of the bitmap of `digit` is set.
pub fn lit(digit: usize, column: usize, row: usize) -> (b: bool)
    requires
        digit <= 9,
        column < 3,
        row < 5,
    ensures
        b == pixel(digit as int, column as int, row as int),
{
    DIGITS[digit][column + row * 3] == 1
}

/// There are ten bitmaps of fifteen pixels, and every pixel is 0 or 1.
pub proof fn lemma_bitmaps(digit: int, i: int)
    requires
        0 <= digit <= 9,
        0 <= i < 15,
    ensures
        DIGITS@.len() == 10,
        DIGITS@[digit]@.len() == 15,
        DIGITS@[digit]@[i] == 0 || DIGITS@[digit]@[i] == 1,
{
}

impl Canvas {
    /// The canvas with `digit` drawn, its top-left corner at column `x`, row
    /// `y`: each cell that the digit fills shows the full block in `style`,
    /// every other cell is as before.
    pub open spec fn with_digit(self, digit: int, x: int, y: int, style: Style) -> Canvas {
        self.repaint(
            |cx: int, cy: int, c: Cell|
                if inked(digit, cx - x, cy - y) {
                    Cell::of_char(FULL, style)
                } else {
                    c
                },
        )
    }

    /// What a canvas shows at a position after a digit has been drawn: the
    /// full block in the digit's style where the digit fills the cell, and
    /// elsewhere what was there.
    pub proof fn lemma_digit_at(self, digit: int, x: int, y: int, style: Style, cx: int, cy: int)
        requires
            self.wf(),
            self.area.contains(cx, cy),
        ensures
            self.with_digit(digit, x, y, style).wf(),
            self.with_digit(digit, x, y, style).at(cx, cy) == if inked(digit, cx - x, cy - y) {
                Cell::of_char(FULL, style)
            } else {
                self.at(cx, cy)
            },
    {
        self.lemma_repaint_at(
            |cx: int, cy: int, c: Cell|
                if inked(digit, cx - x, cy - y) {
                    Cell::of_char(FULL, style)
                } else {
                    c
                },
            cx,
            cy,
        );
    }

    /// Drawing a digit is idempotent: drawn a second time in the same place
    /// and style, it changes nothing.
    pub proof fn lemma_digit_twice(self, digit: int, x: int, y: int, style: Style)
        ensures
            self.with_digit(digit, x, y, style).with_digit(digit, x, y, style) == self.with_digit(
                digit,
                x,
                y,
                style,
            ),
    {
        let once = self.with_digit(digit, x, y, style);
        assert(once.with_digit(digit, x, y, style).cells =~= once.cells);
    }

    /// The canvas with the first `done` cells of `digit` drawn, counted
    /// column by column.
    spec fn with_digit_part(
        self,
        digit: int,
        x: int,
        y: int,
        style: Style,
        done: int,
    ) -> Canvas {
        self.repaint(
            |cx: int, cy: int, c: Cell|
                if inked(digit, cx - x, cy - y) && (cx - x) * 5 + (cy - y) < done {
                    Cell::of_char(FULL, style)
                } else {
                    c
                },
        )
    }

    /// Drawing the next cell of a digit, or skipping it where the digit is
    /// blank, leads from one partial picture to the next.
    proof fn lemma_digit_step(self, digit: int, x: int, y: int, style: Style, dx: int, dy: int)
        requires
            self.wf(),
            0 <= dx < 6,
            0 <= dy < 5,
            self.area.contains(x + dx, y + dy),
        ensures
            inked(digit, dx, dy) ==> self.with_digit_part(digit, x, y, style, dx * 5 + dy).with_text(
                x + dx,
                y + dy,
                seq![FULL],
                style,
            ) == self.with_digit_part(digit, x, y, style, dx * 5 + dy + 1),
            !inked(digit, dx, dy) ==> self.with_digit_part(digit, x, y, style, dx * 5 + dy)
                == self.with_digit_part(digit, x, y, style, dx * 5 + dy + 1),
    {
        let before = self.with_digit_part(digit, x, y, style, dx * 5 + dy);
        let after = self.with_digit_part(digit, x, y, style, dx * 5 + dy + 1);
        let written = before.with_text(x + dx, y + dy, seq![FULL], style);
        self.lemma_index(x + dx, y + dy);
        assert forall|i: int| 0 <= i < self.cells.len() implies (inked(digit, dx, dy)
            ==> written.cells[i] == after.cells[i]) && (!inked(digit, dx, dy) ==> before.cells[i]
            == after.cells[i]) by {
            self.lemma_position(i);
        }
        if inked(digit, dx, dy) {
            assert(written.cells =~= after.cells);
        } else {
            assert(before.cells =~= after.cells);
        }
    }

    /// Before any cell has been visited the canvas is as it was.
    proof fn lemma_digit_none(self, digit: int, x: int, y: int, style: Style)
        ensures
            self.with_digit_part(digit, x, y, style, 0) == self,
    {
        assert(self.with_digit_part(digit, x, y, style, 0).cells =~= self.cells);
    }

    /// Once all thirty cells have been visited the digit is drawn.
    proof fn lemma_digit_done(self, digit: int, x: int, y: int, style: Style)
        ensures
            self.with_digit_part(digit, x, y, style, 30) == self.with_digit(digit, x, y, style),
    {
        assert(self.with_digit_part(digit, x, y, style, 30).cells =~= self.with_digit(
            digit,
            x,
            y,
            style,
        ).cells);
    }
}

/// Draws `digit` into `buf` with its top-left corner at column `x`, row `y`:
/// for each pixel set in its bitmap, the two cells that the pixel covers
/// show the full block in `style`. Cells of clear pixels are not touched.
pub fn draw_digit(digit: usize, x: u16, y: u16, buf: &mut Buffer, style: Style)
    requires
        digit <= 9,
        canvas(*old(buf)).wf(),
        canvas(*old(buf)).area.contains(x as int, y as int),
        canvas(*old(buf)).area.contains(x + 5, y + 4),
    ensures
        canvas(*final(buf)) == canvas(*old(buf)).with_digit(
            digit as int,
            x as int,
            y as int,
            style,
        ),
        canvas(*final(buf)).wf(),
{
    let ghost start = canvas(*buf);
    proof {
        start.lemma_digit_none(digit as int, x as int, y as int, style);
    }
    let mut dx: u16 = 0;
    while dx < DIGIT_WIDTH
        invariant
            dx <= 6,
            digit <= 9,
            start.wf(),
            start.area.contains(x as int, y as int),
            start.area.contains(x + 5, y + 4),
            canvas(*buf) == start.with_digit_part(digit as int, x as int, y as int, style, dx * 5),
        decreases 6 - dx,
    {
        let mut dy: u16 = 0;
        while dy < DIGIT_HEIGHT
            invariant
                dx < 6,
                dy <= 5,
                digit <= 9,
                start.wf(),
                start.area.contains(x as int, y as int),
                start.area.contains(x + 5, y + 4),
                canvas(*buf) == start.with_digit_part(
                    digit as int,
                    x as int,
                    y as int,
                    style,
                    dx * 5 + dy,
                ),
            decreases 5 - dy,
        {
            proof {
                start.lemma_digit_step(digit as int, x as int, y as int, style, dx as int, dy as int);
                reveal_strlit("\u{2588}");
            }
            if lit(digit, (dx / 2) as usize, dy as usize) {
                buffer_set_string(buf, x + dx, y + dy, "\u{2588}", style);
                assert("\u{2588}"@ =~= seq![FULL]);
            }
            dy = dy + 1;
        }
        dx = dx + 1;
    }
    proof {
        start.lemma_digit_done(digit as int, x as int, y as int, style);
    }
}

/// The box of six columns and five rows that a digit drawn at column `x`,
/// row `y` stands in.
pub open spec fn digit_box(x: u16, y: u16) -> Rect {
    Rect { x, y, width: 6, height: 5 }
}

/// Draws `digit` into `buf` with its top-left corner at column `x`, row `y`,
/// if that can be done, and says whether it could: `digit` is one of 0 to 9,
/// and its box can be drawn into. Else the buffer is left as it is.
pub fn render_digit(digit: usize, x: u16, y: u16, buf: &mut Buffer, style: Style) -> (done: bool)
    ensures
        done == (digit <= 9 && canvas(*old(buf)).holds(digit_box(x, y))),
        done ==> canvas(*final(buf)) == canvas(*old(buf)).with_digit(
            digit as int,
            x as int,
            y as int,
            style,
        ) && canvas(*final(buf)).wf(),
        !done ==> *final(buf) == *old(buf),
{
    let area = Rect { x, y, width: DIGIT_WIDTH, height: DIGIT_HEIGHT };
    if digit <= 9 && buffer_holds(buf, &area) {
        draw_digit(digit, x, y, buf, style);
        true
    } else {
        false
    }
}

} // verus!
