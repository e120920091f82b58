//! The clock widget: six block digits and two colons, `HH:MM:SS`, in a box
//! of 51 by 5 cells.

use vstd::prelude::*;
use tui::buffer::Buffer;
use crate::buffer::{
    buffer_draw_frame, buffer_set_string, canvas, frame_drawn, frame_inner,
};
use crate::canvas::{Canvas, Cell};
use crate::digits::{draw_digit, inked, tens, units, FULL};
use crate::frame::Frame;
use crate::geometry::Rect;
use crate::paint::{buffer_holds, fill_background};
use crate::style::{Colour, Hue, Style};
use crate::time::Timestamp;

verus! {

/// The width of the clock in cells.
pub const CLOCK_WIDTH: u16 = 51;

/// The height of the clock in cells.
pub const CLOCK_HEIGHT: u16 = 5;

/// How far right of the clock's left edge the tens of the hour begin.
pub const HOUR_TENS: u16 = 0;

/// How far right of the clock's left edge the units of the hour begin.
pub const HOUR_UNITS: u16 = 7;

/// How far right of the clock's left edge the first colon begins.
pub const FIRST_COLON: u16 = 15;

/// How far right of the clock's left edge the tens of the minute begin.
pub const MINUTE_TENS: u16 = 19;

/// How far right of the clock's left edge the units of the minute begin.
pub const MINUTE_UNITS: u16 = 26;

/// How far right of the clock's left edge the second colon begins.
pub const SECOND_COLON: u16 = 34;

/// How far right of the clock's left edge the tens of the second begin.
pub const SECOND_TENS: u16 = 38;

/// How far right of the clock's left edge the units of the second begin.
pub const SECOND_UNITS: u16 = 45;

/// A clock to be drawn: the time it shows, where it stands in the area it is
/// given, its colours, and the frame around it if it has one.
///
/// Digits and colons are drawn in the foreground of `style`, or in green
/// where the style leaves the foreground to the terminal. A background other
/// than `Colour::Reset` is spread over the whole area before the digits are
/// drawn.
#[derive(Clone, Copy, Debug)]
pub struct Clock {
    pub block: Option<Frame>,
    pub center: bool,
    pub datetime: Timestamp,
    pub style: Style,
}

/// What the clock puts into a cell.
pub enum Mark {
    /// A cell that a digit fills.
    Digit,
    /// A cell of a colon.
    Colon,
    /// Nothing: the cell keeps what it shows.
    Nothing,
}

impl Canvas {
    /// The canvas with a colon drawn in the two columns from `x`: a blank in
    /// `style` in each of them, one row and three rows below row `y`.
    pub open spec fn with_colon(self, x: int, y: int, style: Style) -> Canvas {
        self.with_text(x, y + 1, seq![' ', ' '], style).with_text(x, y + 3, seq![' ', ' '], style)
    }

    /// The canvas after a frame has been drawn around `area`.
    pub open spec fn framed(self, area: Rect, frame: Frame) -> Canvas {
        Canvas { area: self.area, cells: frame_drawn(self.cells, self.area, area, frame) }
    }
}

impl Clock {
    /// A clock that shows `datetime`: in the default style, at the top-left
    /// corner of its area, without a frame.
    pub fn with_datetime(datetime: Timestamp) -> (clock: Clock)
        ensures
            clock.block is None,
            !clock.center,
            clock.datetime == datetime,
            clock.style == (Style { fg: Colour::Reset, bg: Colour::Reset }),
    {
        Clock { block: None, center: false, datetime, style: Style::default() }
    }

    /// The same clock inside the frame `block`.
    pub fn block(self, block: Frame) -> (clock: Clock)
        ensures
            clock == (Clock { block: Some(block), ..self }),
    {
        Clock { block: Some(block), ..self }
    }

    /// The same clock, centred in its area or not.
    pub fn center(self, center: bool) -> (clock: Clock)
        ensures
            clock == (Clock { center, ..self }),
    {
        Clock { center, ..self }
    }

    /// The same clock in other colours.
    pub fn style(self, style: Style) -> (clock: Clock)
        ensures
            clock == (Clock { style, ..self }),
    {
        Clock { style, ..self }
    }

    /// The colour of digits and colons: the foreground of the clock's style,
    /// or green where the style leaves the foreground to the terminal.
    pub open spec fn spec_ink(&self) -> Colour {
        if self.style.fg == Colour::Reset {
            Colour::Plain(Hue::Green)
        } else {
            self.style.fg
        }
    }

    /// The style of the cells that a digit fills: the ink on no background.
    pub open spec fn digit_style(self) -> Style {
        Style { fg: self.ink(), bg: Colour::Reset }
    }

    /// The style of the cells of a colon: the ink as background.
    pub open spec fn colon_style(self) -> Style {
        Style { fg: Colour::Reset, bg: self.ink() }
    }

    /// The colour of digits and colons.
    #[verifier::when_used_as_spec(spec_ink)]
    pub fn ink(&self) -> (ink: Colour)
        ensures
            ink == self.spec_ink(),
    {
        if self.style.fg == Colour::Reset {
            Colour::Plain(Hue::Green)
        } else {
            self.style.fg
        }
    }

    /// Where the clock's top-left corner comes to stand in the content area
    /// `area`: nowhere if the area has fewer than 51 columns or 5 rows; in
    /// the middle of the area if the clock is centred, rounding towards the
    /// top-left; else at the area's own corner.
    pub open spec fn spec_origin(self, area: Rect) -> Option<(u16, u16)> {
        if area.width < 51 || area.height < 5 {
            None
        } else if self.center {
            Some(
                (
                    (area.x + (area.width - 51) / 2) as u16,
                    (area.y + (area.height - 5) / 2) as u16,
                ),
            )
        } else {
            Some((area.x, area.y))
        }
    }

    /// The content area with the clock's background, where it has one.
    pub open spec fn backed(self, area: Rect, canvas: Canvas) -> Canvas {
        if self.style.bg != Colour::Reset {
            canvas.with_background(area, self.style.bg)
        } else {
            canvas
        }
    }

    /// The canvas after the clock has been drawn into the content area
    /// `area`: untouched if the clock finds no place; else the background,
    /// then the six digits of the time and the two colons, each at its
    /// offset from the clock's corner.
    pub open spec fn content_drawn(self, area: Rect, canvas: Canvas) -> Canvas {
        match self.spec_origin(area) {
            None => canvas,
            Some((left, top)) => {
                let time = self.datetime;
                let top = top as int;
                let ink = self.digit_style();
                let dots = self.colon_style();
                self.backed(area, canvas)
                    .with_digit(tens(time.hour() as int), left + HOUR_TENS, top, ink)
                    .with_digit(units(time.hour() as int), left + HOUR_UNITS, top, ink)
                    .with_colon(left + FIRST_COLON, top, dots)
                    .with_digit(tens(time.minute() as int), left + MINUTE_TENS, top, ink)
                    .with_digit(units(time.minute() as int), left + MINUTE_UNITS, top, ink)
                    .with_colon(left + SECOND_COLON, top, dots)
                    .with_digit(tens(time.second() as int), left + SECOND_TENS, top, ink)
                    .with_digit(units(time.second() as int), left + SECOND_UNITS, top, ink)
            },
        }
    }

    /// The canvas after the clock has been drawn into `area`: its frame, if
    /// it has one, around `area`, and the clock in what the frame leaves.
    pub open spec fn drawn(self, area: Rect, canvas: Canvas) -> Canvas {
        match self.block {
            Some(frame) => self.content_drawn(frame.interior(area), canvas.framed(area, frame)),
            None => self.content_drawn(area, canvas),
        }
    }

    /// What the clock puts into the cell `dx` columns right of and `dy` rows
    /// below its top-left corner: the digits of the hour from columns 0 and
    /// 7, of the minute from columns 19 and 26, of the second from columns
    /// 38 and 45, and the colons from columns 15 and 34.
    pub open spec fn mark(self, dx: int, dy: int) -> Mark {
        let time = self.datetime;
        if inked(tens(time.hour() as int), dx - HOUR_TENS, dy)
            || inked(units(time.hour() as int), dx - HOUR_UNITS, dy)
            || inked(tens(time.minute() as int), dx - MINUTE_TENS, dy)
            || inked(units(time.minute() as int), dx - MINUTE_UNITS, dy)
            || inked(tens(time.second() as int), dx - SECOND_TENS, dy)
            || inked(units(time.second() as int), dx - SECOND_UNITS, dy) {
            Mark::Digit
        } else if (FIRST_COLON <= dx < FIRST_COLON + 2 || SECOND_COLON <= dx < SECOND_COLON + 2)
            && (dy == 1 || dy == 3) {
            Mark::Colon
        } else {
            Mark::Nothing
        }
    }

    /// The clock marks no cell outside its box of 51 by 5 cells.
    pub proof fn lemma_mark_in_box(self, dx: int, dy: int)
        ensures
            !(self.mark(dx, dy) is Nothing) ==> 0 <= dx < 51 && 0 <= dy < 5,
    {
    }

    /// Where the clock stands. It finds a place in every content area of 51
    /// columns and 5 rows or more, and in no other. A clock that is not
    /// centred stands at the corner of the area; one that is centred stands
    /// half of the spare columns to the right and half of the spare rows
    /// down, rounded down. Either way its box lies inside the area.
    pub proof fn lemma_origin(self, area: Rect)
        requires
            area.wf(),
        ensures
            area.width < 51 || area.height < 5 ==> self.spec_origin(area) is None,
            area.width >= 51 && area.height >= 5 && !self.center ==> self.spec_origin(area)
                == Some((area.x, area.y)),
            area.width >= 51 && area.height >= 5 && self.center ==> self.spec_origin(area) == Some(
                (
                    (area.x + (area.width - 51) / 2) as u16,
                    (area.y + (area.height - 5) / 2) as u16,
                ),
            ) && area.x + (area.width - 51) / 2 <= u16::MAX && area.y + (area.height - 5) / 2
                <= u16::MAX,
            self.spec_origin(area) matches Some((left, top)) ==> area.contains(
                left as int,
                top as int,
            ) && area.contains(left + 50, top + 4),
    {
    }

    /// A content area of fewer than 51 columns or 5 rows is left as it is. If
    /// the clock has a frame, the frame is drawn, and nothing else.
    pub proof fn lemma_too_small(self, area: Rect, canvas: Canvas)
        ensures
            area.width < 51 || area.height < 5 ==> self.content_drawn(area, canvas) == canvas,
            self.block matches Some(frame) ==> (frame.interior(area).width < 51 || frame.interior(
                area,
            ).height < 5 ==> self.drawn(area, canvas) == canvas.framed(area, frame)),
    {
    }

    /// What a cell at column `x`, row `y` shows after the clock has been
    /// drawn into the content area `area`, if it showed `was` before: the
    /// full block in the clock's colour where a digit fills the cell, a blank
    /// on the clock's colour in a colon, and elsewhere what it showed, on the
    /// clock's background if the clock has one and the cell lies in the area.
    /// Where the clock finds no place, every cell shows what it showed.
    pub open spec fn shown(self, area: Rect, x: int, y: int, was: Cell) -> Cell {
        match self.spec_origin(area) {
            None => was,
            Some((left, top)) => match self.mark(x - left, y - top) {
                Mark::Digit => Cell::of_char(FULL, self.digit_style()),
                Mark::Colon => Cell::of_char(' ', self.colon_style()),
                Mark::Nothing => if self.style.bg != Colour::Reset && area.contains(x, y) {
                    was.on(self.style.bg)
                } else {
                    was
                },
            },
        }
    }

    /// What drawing the clock into `area` does cell by cell. No cell outside
    /// `area` changes. Without a frame, every cell is as `shown` says. With a
    /// frame, every cell inside the borders is as `shown` says of the cell
    /// that the frame has left there: the same cell on the default
    /// background.
    pub open spec fn cells_drawn(self, area: Rect, before: Canvas, after: Canvas) -> bool {
        forall|x: int, y: int|
            #![trigger after.at(x, y)]
            before.area.contains(x, y) ==> {
                &&& !area.contains(x, y) ==> after.at(x, y) == before.at(x, y)
                &&& self.block is None ==> after.at(x, y) == self.shown(area, x, y, before.at(x, y))
                &&& self.block matches Some(frame) ==> (frame.interior(area).contains(x, y)
                    ==> after.at(x, y) == self.shown(
                    frame.interior(area),
                    x,
                    y,
                    before.at(x, y).on(Colour::Reset),
                ))
            }
    }

    /// Drawing the clock keeps a sound canvas sound, over the same area.
    pub proof fn lemma_content_wf(self, area: Rect, canvas: Canvas)
        requires
            canvas.wf(),
        ensures
            self.content_drawn(area, canvas).wf(),
            self.content_drawn(area, canvas).area == canvas.area,
    {
    }

    /// What the canvas shows at a position after the clock has been drawn
    /// into a content area: what `shown` says.
    pub proof fn lemma_content_at(self, area: Rect, canvas: Canvas, x: int, y: int)
        requires
            canvas.wf(),
            area.wf(),
            canvas.area.covers(area),
            canvas.area.contains(x, y),
        ensures
            self.content_drawn(area, canvas).wf(),
            self.content_drawn(area, canvas).area == canvas.area,
            self.content_drawn(area, canvas).at(x, y) == self.shown(area, x, y, canvas.at(x, y)),
            !area.contains(x, y) ==> self.shown(area, x, y, canvas.at(x, y)) == canvas.at(x, y),
    {
        if self.spec_origin(area) is Some {
            let (left, top) = self.spec_origin(area)->Some_0;
            let time = self.datetime;
            let ink = self.digit_style();
            let dots = self.colon_style();
            let blanks = seq![' ', ' '];
            self.lemma_origin(area);
            canvas.lemma_background_at(area, self.style.bg, x, y);
            let c0 = self.backed(area, canvas);
            c0.lemma_digit_at(tens(time.hour() as int), left + HOUR_TENS, top as int, ink, x, y);
            let c1 = c0.with_digit(tens(time.hour() as int), left + HOUR_TENS, top as int, ink);
            c1.lemma_digit_at(units(time.hour() as int), left + HOUR_UNITS, top as int, ink, x, y);
            let c2 = c1.with_digit(units(time.hour() as int), left + HOUR_UNITS, top as int, ink);
            c2.lemma_text_at(left + FIRST_COLON, top + 1, blanks, dots, x, y);
            let c3 = c2.with_text(left + FIRST_COLON, top + 1, blanks, dots);
            c3.lemma_text_at(left + FIRST_COLON, top + 3, blanks, dots, x, y);
            let c4 = c3.with_text(left + FIRST_COLON, top + 3, blanks, dots);
            c4.lemma_digit_at(tens(time.minute() as int), left + MINUTE_TENS, top as int, ink, x, y);
            let c5 = c4.with_digit(tens(time.minute() as int), left + MINUTE_TENS, top as int, ink);
            c5.lemma_digit_at(units(time.minute() as int), left + MINUTE_UNITS, top as int, ink, x, y);
            let c6 = c5.with_digit(units(time.minute() as int), left + MINUTE_UNITS, top as int, ink);
            c6.lemma_text_at(left + SECOND_COLON, top + 1, blanks, dots, x, y);
            let c7 = c6.with_text(left + SECOND_COLON, top + 1, blanks, dots);
            c7.lemma_text_at(left + SECOND_COLON, top + 3, blanks, dots, x, y);
            let c8 = c7.with_text(left + SECOND_COLON, top + 3, blanks, dots);
            c8.lemma_digit_at(tens(time.second() as int), left + SECOND_TENS, top as int, ink, x, y);
            let c9 = c8.with_digit(tens(time.second() as int), left + SECOND_TENS, top as int, ink);
            c9.lemma_digit_at(units(time.second() as int), left + SECOND_UNITS, top as int, ink, x, y);
        }
    }

    /// Where the clock's top-left corner comes to stand in the content area
    /// `area`, if the area is large enough for the clock.
    pub fn origin(&self, area: Rect) -> (origin: Option<(u16, u16)>)
        requires
            area.wf(),
        ensures
            origin == self.spec_origin(area),
            origin matches Some((left, top)) ==> area.contains(left as int, top as int)
                && area.contains(left + 50, top + 4),
    {
        if area.height < CLOCK_HEIGHT || area.width < CLOCK_WIDTH {
            None
        } else if self.center {
            let left = area.x + (area.width - CLOCK_WIDTH) / 2;
            let top = area.y + (area.height - CLOCK_HEIGHT) / 2;
            Some((left, top))
        } else {
            Some((area.x, area.y))
        }
    }
}

/// Draws a colon into the two columns from `x`: a blank in `style` in each
/// of them, one row and three rows below row `y`.
pub fn draw_colon(x: u16, y: u16, buf: &mut Buffer, style: Style)
    requires
        canvas(*old(buf)).wf(),
        canvas(*old(buf)).area.contains(x as int, y as int),
        canvas(*old(buf)).area.contains(x + 1, y + 4),
    ensures
        canvas(*final(buf)) == canvas(*old(buf)).with_colon(x as int, y as int, style),
        canvas(*final(buf)).wf(),
{
    proof {
        reveal_strlit("  ");
    }
    assert("  "@ =~= seq![' ', ' ']);
    buffer_set_string(buf, x, y + 1, "  ", style);
    buffer_set_string(buf, x, y + 3, "  ", style);
}

impl Clock {
    /// Draws the clock into the content area `area`, which no frame shares.
    /// An area of fewer than 51 columns or 5 rows is left as it is.
    pub fn draw_content(&self, area: Rect, buf: &mut Buffer)
        requires
            canvas(*old(buf)).wf(),
            area.wf(),
            canvas(*old(buf)).area.covers(area),
        ensures
            canvas(*final(buf)) == self.content_drawn(area, canvas(*old(buf))),
            canvas(*final(buf)).wf(),
            area.width < 51 || area.height < 5 ==> *final(buf) == *old(buf),
    {
        proof {
            self.lemma_content_wf(area, canvas(*buf));
        }
        match self.origin(area) {
            None => {},
            Some((left, top)) => {
                if self.style.bg != Colour::Reset {
                    fill_background(area, buf, self.style.bg);
                }
                let digits = Style { fg: self.ink(), bg: Colour::Reset };
                let colons = Style { fg: Colour::Reset, bg: self.ink() };
                let hour = self.datetime.hour() as usize;
                let minute = self.datetime.minute() as usize;
                let second = self.datetime.second() as usize;

                draw_digit(hour / 10, left + HOUR_TENS, top, buf, digits);
                draw_digit(hour % 10, left + HOUR_UNITS, top, buf, digits);

                draw_colon(left + FIRST_COLON, top, buf, colons);

                draw_digit(minute / 10, left + MINUTE_TENS, top, buf, digits);
                draw_digit(minute % 10, left + MINUTE_UNITS, top, buf, digits);

                draw_colon(left + SECOND_COLON, top, buf, colons);

                draw_digit(second / 10, left + SECOND_TENS, top, buf, digits);
                draw_digit(second % 10, left + SECOND_UNITS, top, buf, digits);
            },
        }
    }

    /// Draws the clock into `area`: its frame, if it has one, around `area`,
    /// and the clock in what the frame leaves.
    pub fn draw(&self, area: Rect, buf: &mut Buffer)
        requires
            canvas(*old(buf)).wf(),
            area.wf(),
            canvas(*old(buf)).area.covers(area),
        ensures
            canvas(*final(buf)) == self.drawn(area, canvas(*old(buf))),
            canvas(*final(buf)).wf(),
            self.cells_drawn(area, canvas(*old(buf)), canvas(*final(buf))),
            self.block is None && (area.width < 51 || area.height < 5) ==> *final(buf) == *old(buf),
            area.width < 2 || area.height < 2 ==> *final(buf) == *old(buf),
    {
        let ghost before = canvas(*buf);
        match self.block {
            Some(frame) => {
                buffer_draw_frame(buf, area, &frame);
                let inner = frame_inner(&frame, area);
                let ghost framed = canvas(*buf);
                proof {
                    frame.lemma_interior(area);
                }
                self.draw_content(inner, buf);
                proof {
                    let after = canvas(*buf);
                    assert forall|x: int, y: int| before.area.contains(x, y) implies {
                        &&& !area.contains(x, y) ==> #[trigger] after.at(x, y) == before.at(x, y)
                        &&& inner.contains(x, y) ==> after.at(x, y) == self.shown(
                            inner,
                            x,
                            y,
                            before.at(x, y).on(Colour::Reset),
                        )
                    } by {
                        self.lemma_content_at(inner, framed, x, y);
                    }
                }
            },
            None => {
                self.draw_content(area, buf);
                proof {
                    let after = canvas(*buf);
                    assert forall|x: int, y: int| before.area.contains(x, y) implies {
                        &&& !area.contains(x, y) ==> #[trigger] after.at(x, y) == before.at(x, y)
                        &&& after.at(x, y) == self.shown(area, x, y, before.at(x, y))
                    } by {
                        self.lemma_content_at(area, before, x, y);
                    }
                }
            },
        }
    }

    /// Whether `area` can be drawn into: the buffer is sound, and `area` is
    /// a proper rectangle that lies inside it.
    pub open spec fn drawable(area: Rect, canvas: Canvas) -> bool {
        canvas.holds(area)
    }

    /// What `render` does to a buffer: it draws the clock into `area` and
    /// says so, if that can be done; else it leaves the buffer as it is.
    pub open spec fn rendered(self, area: Rect, before: Buffer, after: Buffer, done: bool) -> bool {
        &&& done == Self::drawable(area, canvas(before))
        &&& done ==> canvas(after) == self.drawn(area, canvas(before))
        &&& done ==> canvas(after).wf() && self.cells_drawn(area, canvas(before), canvas(after))
        &&& !done ==> after == before
        &&& self.block is None && (area.width < 51 || area.height < 5) ==> after == before
        &&& area.width < 2 || area.height < 2 ==> after == before
    }

    /// Draws the clock into `area` if that can be done, and says whether it
    /// was. A buffer that cannot be drawn into is left as it is.
    pub fn render(&self, area: Rect, buf: &mut Buffer) -> (done: bool)
        ensures
            self.rendered(area, *old(buf), *final(buf), done),
    {
        if buffer_holds(buf, &area) {
            self.draw(area, buf);
            true
        } else {
            false
        }
    }

    /// Draws the clock into the content area `area`, which no frame shares,
    /// if `area` can be drawn into, and says whether it could. A buffer that
    /// cannot be drawn into is left as it is.
    pub fn render_content(&self, area: Rect, buf: &mut Buffer) -> (done: bool)
        ensures
            done == canvas(*old(buf)).holds(area),
            done ==> canvas(*final(buf)) == self.content_drawn(area, canvas(*old(buf))) && canvas(
                *final(buf),
            ).wf(),
            !done ==> *final(buf) == *old(buf),
            area.width < 51 || area.height < 5 ==> *final(buf) == *old(buf),
    {
        if buffer_holds(buf, &area) {
            self.draw_content(area, buf);
            true
        } else {
            false
        }
    }
}

/// The box of two columns and five rows that a colon drawn at column `x`,
/// row `y` stands in.
pub open spec fn colon_box(x: u16, y: u16) -> Rect {
    Rect { x, y, width: 2, height: 5 }
}

/// Draws a colon into the two columns from `x`, below row `y`, if its box
/// can be drawn into, and says whether it could. Else the buffer is left as
/// it is.
pub fn render_colon(x: u16, y: u16, buf: &mut Buffer, style: Style) -> (done: bool)
    ensures
        done == canvas(*old(buf)).holds(colon_box(x, y)),
        done ==> canvas(*final(buf)) == canvas(*old(buf)).with_colon(x as int, y as int, style)
            && canvas(*final(buf)).wf(),
        !done ==> *final(buf) == *old(buf),
{
    let area = Rect { x, y, width: 2, height: CLOCK_HEIGHT };
    if buffer_holds(buf, &area) {
        draw_colon(x, y, buf, style);
        true
    } else {
        false
    }
}

impl Default for Clock {
    /// A clock that shows the local time of the moment it is made.
    fn default() -> (clock: Clock)
        ensures
            clock.block is None,
            !clock.center,
            clock.datetime.wf(),
            clock.style == (Style { fg: Colour::Reset, bg: Colour::Reset }),
    {
        Clock::with_datetime(Timestamp::now())
    }
}

} // verus!
