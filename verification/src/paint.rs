//! Drawing steps that several widgets share.

use vstd::prelude::*;
use vstd::arithmetic::div_mod::lemma_fundamental_div_mod_converse;
use tui::buffer::Buffer;
use crate::buffer::{buffer_area_of, buffer_len, buffer_set_bg, canvas};
use crate::canvas::{Canvas, Cell};
use crate::geometry::Rect;
use crate::style::Colour;

verus! {

impl Canvas {
    /// What a canvas shows at a position after a background has been set:
    /// inside the area what was there on the new background, outside it
    /// what was there.
    pub proof fn lemma_background_at(self, area: Rect, colour: Colour, x: int, y: int)
        requires
            self.wf(),
            self.area.contains(x, y),
        ensures
            self.with_background(area, colour).wf(),
            self.with_background(area, colour).at(x, y) == if area.contains(x, y) {
                self.at(x, y).on(colour)
            } else {
                self.at(x, y)
            },
    {
        self.lemma_repaint_at(
            |x: int, y: int, c: Cell| if area.contains(x, y) { c.on(colour) } else { c },
            x,
            y,
        );
    }

    /// The canvas with the background set on the first `done` cells of
    /// `area`, counted row by row.
    spec fn with_background_part(self, area: Rect, colour: Colour, done: int) -> Canvas {
        self.repaint(
            |x: int, y: int, c: Cell|
                if area.contains(x, y) && (y - area.y) * area.width + (x - area.x) < done {
                    c.on(colour)
                } else {
                    c
                },
        )
    }

    /// Setting the background of the next cell of `area` leads from one
    /// partial picture to the next.
    proof fn lemma_background_step(self, area: Rect, colour: Colour, x: int, y: int)
        requires
            self.wf(),
            area.contains(x, y),
            self.area.contains(x, y),
        ensures
            ({
                let done = (y - area.y) * area.width + (x - area.x);
                let before = self.with_background_part(area, colour, done);
                before.put(x, y, before.at(x, y).on(colour)) == self.with_background_part(
                    area,
                    colour,
                    done + 1,
                )
            }),
    {
        let w = area.width as int;
        let done = (y - area.y) * w + (x - area.x);
        let before = self.with_background_part(area, colour, done);
        let after = self.with_background_part(area, colour, done + 1);
        let set = before.put(x, y, before.at(x, y).on(colour));
        self.lemma_index(x, y);
        assert forall|i: int| 0 <= i < self.cells.len() implies set.cells[i] == after.cells[i] by {
            self.lemma_position(i);
            let cx = self.column(i);
            let cy = self.row(i);
            if area.contains(cx, cy) && (cy - area.y) * w + (cx - area.x) == done {
                lemma_fundamental_div_mod_converse(done, w, cy - area.y, cx - area.x);
                lemma_fundamental_div_mod_converse(done, w, y - area.y, x - area.x);
            }
        }
        assert(set.cells =~= after.cells);
    }

    /// With no cell done the canvas is as it was; with all of them done the
    /// background is set.
    proof fn lemma_background_ends(self, area: Rect, colour: Colour)
        ensures
            self.with_background_part(area, colour, 0) == self,
            self.with_background_part(area, colour, area.cells()) == self.with_background(
                area,
                colour,
            ),
    {
        let w = area.width as int;
        let h = area.height as int;
        assert forall|x: int, y: int| area.contains(x, y) implies 0 <= (y - area.y) * w + (x
            - area.x) < w * h by {
            let dx = x - area.x;
            let dy = y - area.y;
            assert(0 <= dy * w + dx < w * h) by (nonlinear_arith)
                requires
                    0 <= dx < w,
                    0 <= dy < h,
            ;
        }
        assert(self.with_background_part(area, colour, 0).cells =~= self.cells);
        assert(self.with_background_part(area, colour, area.cells()).cells
            =~= self.with_background(area, colour).cells);
    }
}

/// Sets the background of every cell of `area` to `colour`. Symbols and
/// foregrounds stay.
pub fn fill_background(area: Rect, buf: &mut Buffer, colour: Colour)
    requires
        canvas(*old(buf)).wf(),
        area.wf(),
        canvas(*old(buf)).area.covers(area),
    ensures
        canvas(*final(buf)) == canvas(*old(buf)).with_background(area, colour),
        canvas(*final(buf)).wf(),
{
    let ghost start = canvas(*buf);
    let ghost w = area.width as int;
    proof {
        start.lemma_background_ends(area, colour);
    }
    let mut y: u16 = area.y;
    while y < area.y + area.height
        invariant
            area.y <= y <= area.y + area.height,
            w == area.width,
            start.wf(),
            area.wf(),
            start.area.covers(area),
            canvas(*buf) == start.with_background_part(area, colour, (y - area.y) * w),
        decreases area.y + area.height - y,
    {
        let mut x: u16 = area.x;
        while x < area.x + area.width
            invariant
                area.y <= y < area.y + area.height,
                area.x <= x <= area.x + area.width,
                w == area.width,
                start.wf(),
                area.wf(),
                start.area.covers(area),
                canvas(*buf) == start.with_background_part(
                    area,
                    colour,
                    (y - area.y) * w + (x - area.x),
                ),
            decreases area.x + area.width - x,
        {
            proof {
                start.lemma_background_step(area, colour, x as int, y as int);
            }
            buffer_set_bg(buf, x, y, colour);
            x = x + 1;
        }
        proof {
            assert((y - area.y) * w + w == (y + 1 - area.y) * w) by (nonlinear_arith);
        }
        y = y + 1;
    }
    proof {
        assert((area.height as int) * w == area.cells()) by (nonlinear_arith)
            requires
                w == area.width,
                area.cells() == area.width * area.height,
        ;
    }
}

/// Whether the buffer holds exactly one cell for each position of its area,
/// with every position and cell number within `u16`.
pub fn buffer_is_sound(buf: &Buffer) -> (sound: bool)
    ensures
        sound == canvas(*buf).wf(),
{
    let area = buffer_area_of(buf);
    let len = buffer_len(buf);
    if !area.is_wf() {
        return false;
    }
    assert(area.width * area.height <= 0xffff * 0xffff) by (nonlinear_arith)
        requires
            area.width <= 0xffff,
            area.height <= 0xffff,
    ;
    let cells: u32 = area.width as u32 * area.height as u32;
    cells <= 0xffff && len == cells as usize
}

/// Whether `area` can be drawn into: the buffer is sound, and `area` is a
/// proper rectangle that lies inside it.
pub fn buffer_holds(buf: &Buffer, area: &Rect) -> (holds: bool)
    ensures
        holds == canvas(*buf).holds(*area),
{
    buffer_is_sound(buf) && area.is_wf() && buffer_area_of(buf).encloses(area)
}

/// Sets the background of every cell of `area` to `colour` if `area` can be
/// drawn into, and says whether it could. A buffer that cannot be drawn into
/// is left as it is.
pub fn render_background(area: Rect, buf: &mut Buffer, colour: Colour) -> (done: bool)
    ensures
        done == canvas(*old(buf)).holds(area),
        done ==> canvas(*final(buf)) == canvas(*old(buf)).with_background(area, colour) && canvas(
            *final(buf),
        ).wf(),
        !done ==> *final(buf) == *old(buf),
{
    if buffer_holds(buf, &area) {
        fill_background(area, buf, colour);
        true
    } else {
        false
    }
}

} // verus!
