//! The cell buffer that widgets draw into, and everything that is taken on
//! trust about it. The items marked `external_body` here call into `tui`;
//! their contracts are believed, not proved.

use vstd::prelude::*;
use tui::buffer::Buffer;
use crate::canvas::{Canvas, Cell};
use crate::frame::Frame;
use crate::geometry::Rect;
use crate::style::{Colour, Hue, Style};

verus! {

/// `tui::buffer::Buffer`, the grid of cells that a frame of the screen is
/// drawn into. Nothing is known of a buffer but what `buffer_area` and
/// `buffer_cells` say of it.
#[verifier::external_type_specification]
#[verifier::external_body]
pub struct ExBuffer(tui::buffer::Buffer);

/// `tui::style::Color`, only ever made from a `Colour` and handed on.
#[verifier::external_type_specification]
#[verifier::external_body]
pub struct ExColor(tui::style::Color);

/// `tui::widgets::Block`, only ever made from a `Frame` and handed on.
#[verifier::external_type_specification]
#[verifier::external_body]
pub struct ExBlock<'a>(tui::widgets::Block<'a>);

/// The area that a buffer stands for: its `area` field.
pub uninterp spec fn buffer_area(buf: Buffer) -> Rect;

/// The cells of a buffer in storage order: its `content` field, each cell
/// with its symbol as a sequence of characters, its two colours, and the bits
/// of its modifier. `Colour::Plain` and `Colour::Bright` stand for the sixteen
/// named colours of `tui` (plain white for `Gray`, bright black for
/// `DarkGray`, bright white for `White`).
pub uninterp spec fn buffer_cells(buf: Buffer) -> Seq<Cell>;

/// The cells of a buffer that stands for `buffer_area` and held `cells`, after
/// `Block::draw` has drawn `frame` around `area`: the block's background over
/// the whole of `area`, and lines and corners along the edges that carry a
/// border.
pub uninterp spec fn frame_drawn(
    cells: Seq<Cell>,
    buffer_area: Rect,
    area: Rect,
    frame: Frame,
) -> Seq<Cell>;

/// A buffer seen as a canvas.
pub open spec fn canvas(buf: Buffer) -> Canvas {
    Canvas { area: buffer_area(buf), cells: buffer_cells(buf) }
}

/// What a frame drawn around `area` leaves of a canvas: a cell outside `area`
/// is as it was, and a cell inside the borders keeps its symbol, foreground
/// and modifier on the default background.
pub open spec fn frame_kept(before: Canvas, after: Canvas, area: Rect, frame: Frame) -> bool {
    forall|x: int, y: int|
        #![trigger after.at(x, y)]
        before.area.contains(x, y) ==> {
            &&& !area.contains(x, y) ==> after.at(x, y) == before.at(x, y)
            &&& frame.interior(area).contains(x, y) ==> after.at(x, y) == before.at(x, y).on(
                Colour::Reset,
            )
        }
}

/// A character that fills exactly one cell when written: printable ASCII, or
/// the full block.
pub open spec fn narrow(c: char) -> bool {
    0x20 <= c as u32 <= 0x7e || c as u32 == 0x2588
}

/// The `tui` colour for a hue at normal intensity.
#[verifier::external_body]
fn plain_color(hue: Hue) -> tui::style::Color {
    match hue {
        Hue::Black => tui::style::Color::Black,
        Hue::Red => tui::style::Color::Red,
        Hue::Green => tui::style::Color::Green,
        Hue::Yellow => tui::style::Color::Yellow,
        Hue::Blue => tui::style::Color::Blue,
        Hue::Magenta => tui::style::Color::Magenta,
        Hue::Cyan => tui::style::Color::Cyan,
        Hue::White => tui::style::Color::Gray,
    }
}

/// The `tui` colour for a hue at high intensity.
#[verifier::external_body]
fn bright_color(hue: Hue) -> tui::style::Color {
    match hue {
        Hue::Black => tui::style::Color::DarkGray,
        Hue::Red => tui::style::Color::LightRed,
        Hue::Green => tui::style::Color::LightGreen,
        Hue::Yellow => tui::style::Color::LightYellow,
        Hue::Blue => tui::style::Color::LightBlue,
        Hue::Magenta => tui::style::Color::LightMagenta,
        Hue::Cyan => tui::style::Color::LightCyan,
        Hue::White => tui::style::Color::White,
    }
}

/// The `tui` colour that a colour of this library stands for.
#[verifier::external_body]
fn tui_color(colour: Colour) -> tui::style::Color {
    match colour {
        Colour::Reset => tui::style::Color::Reset,
        Colour::Plain(hue) => plain_color(hue),
        Colour::Bright(hue) => bright_color(hue),
        Colour::Indexed(i) => tui::style::Color::Indexed(i),
        Colour::Rgb(r, g, b) => tui::style::Color::Rgb(r, g, b),
    }
}

/// `Buffer::area`: the area that the buffer stands for.
#[verifier::external_body]
pub(crate) fn buffer_area_of(buf: &Buffer) -> (area: Rect)
    ensures
        area == buffer_area(*buf),
{
    let area = buf.area();
    Rect { x: area.x, y: area.y, width: area.width, height: area.height }
}

/// `Buffer::content`: the number of cells that the buffer holds.
#[verifier::external_body]
pub(crate) fn buffer_len(buf: &Buffer) -> (len: usize)
    ensures
        len == buffer_cells(*buf).len(),
{
    buf.content().len()
}

/// `Buffer::get_mut` and `Cell::set_bg`: the cell at column `x`, row `y`
/// takes the background `colour` and keeps the rest; no other cell changes.
#[verifier::external_body]
pub(crate) fn buffer_set_bg(buf: &mut Buffer, x: u16, y: u16, colour: Colour)
    requires
        canvas(*old(buf)).wf(),
        canvas(*old(buf)).area.contains(x as int, y as int),
    ensures
        canvas(*final(buf)) == canvas(*old(buf)).put(
            x as int,
            y as int,
            canvas(*old(buf)).at(x as int, y as int).on(colour),
        ),
{
    buf.get_mut(x, y).set_bg(tui_color(colour));
}

/// `Buffer::set_string`: a text of narrow characters that ends before the
/// buffer's right edge is written from column `x` of row `y` rightwards, one
/// character to a cell, each cell taking the two colours of `style` and no
/// modifier; no other cell changes.
#[verifier::external_body]
pub(crate) fn buffer_set_string(buf: &mut Buffer, x: u16, y: u16, text: &str, style: Style)
    requires
        canvas(*old(buf)).wf(),
        canvas(*old(buf)).area.contains(x as int, y as int),
        x + text@.len() <= canvas(*old(buf)).area.x + canvas(*old(buf)).area.width,
        forall|i: int| 0 <= i < text@.len() ==> narrow(#[trigger] text@[i]),
    ensures
        canvas(*final(buf)) == canvas(*old(buf)).with_text(x as int, y as int, text@, style),
{
    let style = tui::style::Style {
        fg: tui_color(style.fg),
        bg: tui_color(style.bg),
        modifier: tui::style::Modifier::empty(),
    };
    buf.set_string(x, y, text, style);
}

/// The `tui` block for a frame: borders on the frame's edges, in the
/// frame's border style, no title, and the default style inside.
#[verifier::external_body]
fn tui_block(frame: &Frame) -> tui::widgets::Block<'static> {
    let mut borders = tui::widgets::Borders::empty();
    borders.set(tui::widgets::Borders::TOP, frame.borders.top);
    borders.set(tui::widgets::Borders::RIGHT, frame.borders.right);
    borders.set(tui::widgets::Borders::BOTTOM, frame.borders.bottom);
    borders.set(tui::widgets::Borders::LEFT, frame.borders.left);
    let style = tui::style::Style {
        fg: tui_color(frame.border_style.fg),
        bg: tui_color(frame.border_style.bg),
        modifier: tui::style::Modifier::empty(),
    };
    tui::widgets::Block::default().borders(borders).border_style(style)
}

/// `Block::inner`: the area that the frame leaves for the widget inside.
#[verifier::external_body]
pub(crate) fn frame_inner(frame: &Frame, area: Rect) -> (inner: Rect)
    requires
        area.wf(),
    ensures
        inner == frame.interior(area),
{
    let area = tui::layout::Rect { x: area.x, y: area.y, width: area.width, height: area.height };
    let inner = tui_block(frame).inner(area);
    Rect { x: inner.x, y: inner.y, width: inner.width, height: inner.height }
}

/// `Block::draw`: the frame is drawn around `area`. The buffer keeps its
/// area and the number of its cells; what the cells then show is
/// `frame_drawn`. Around an area of fewer than two columns or rows nothing
/// is drawn. No cell outside `area` is touched, and of a cell inside the
/// borders only the background is set, to the default.
#[verifier::external_body]
pub(crate) fn buffer_draw_frame(buf: &mut Buffer, area: Rect, frame: &Frame)
    requires
        canvas(*old(buf)).wf(),
        area.wf(),
        canvas(*old(buf)).area.covers(area),
    ensures
        buffer_area(*final(buf)) == buffer_area(*old(buf)),
        buffer_cells(*final(buf)) == frame_drawn(
            buffer_cells(*old(buf)),
            buffer_area(*old(buf)),
            area,
            *frame,
        ),
        buffer_cells(*final(buf)).len() == buffer_cells(*old(buf)).len(),
        area.width < 2 || area.height < 2 ==> *final(buf) == *old(buf),
        frame_kept(canvas(*old(buf)), canvas(*final(buf)), area, *frame),
{
    let area = tui::layout::Rect { x: area.x, y: area.y, width: area.width, height: area.height };
    tui::widgets::Widget::draw(&mut tui_block(frame), area, buf);
}

} // verus!
