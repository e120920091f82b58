//! Dividing the screen among widgets. The division is `tui`'s own, taken on
//! trust.

use vstd::prelude::*;
use crate::geometry::Rect;

verus! {

/// `band` is a band of rows of `size`: it has the columns of `size`, and its
/// rows are rows of `size`.
pub open spec fn spans(size: Rect, band: Rect) -> bool {
    &&& band.x == size.x
    &&& band.width == size.width
    &&& size.y <= band.y
    &&& band.y + band.height <= size.y + size.height
}

/// The first `rows` rows of `size`.
pub open spec fn top_rows(size: Rect, rows: u16) -> Rect {
    Rect { x: size.x, y: size.y, width: size.width, height: rows }
}

/// What `size` has below its first `rows` rows.
pub open spec fn rows_below(size: Rect, rows: u16) -> Rect {
    Rect {
        x: size.x,
        y: (size.y + rows) as u16,
        width: size.width,
        height: (size.height - rows) as u16,
    }
}

/// `Layout::split`, for a vertical layout of two bands: one that asks for
/// `top` rows (`Constraint::Length`), and one that asks for `rest` rows or
/// more (`Constraint::Min`). Returns the two areas that `tui` assigns.
///
/// How many rows each band asks for is a wish that `tui` hands to its
/// constraint solver. On a screen with rows enough for both wishes the
/// solver grants them: the first band is the top `top` rows, the second is
/// all the rows below. On a smaller screen the heights are not claimed, only
/// what `tui` demands of the solver for every band, whatever is wished: the
/// band has the columns of `size`, its rows are rows of `size`, and the
/// first band begins at the top of `size`.
#[verifier::external_body]
pub(crate) fn split_rows(size: Rect, top: u16, rest: u16) -> (rows: Vec<Rect>)
    requires
        size.wf(),
    ensures
        rows@.len() == 2,
        forall|i: int| 0 <= i < rows@.len() ==> spans(size, #[trigger] rows@[i]),
        rows@[0].y == size.y,
        size.height >= top + rest ==> rows@[0] == top_rows(size, top) && rows@[1] == rows_below(
            size,
            top,
        ),
{
    let size = tui::layout::Rect { x: size.x, y: size.y, width: size.width, height: size.height };
    let bands = vec![tui::layout::Constraint::Length(top), tui::layout::Constraint::Min(rest)];
    let layout = tui::layout::Layout::default().direction(tui::layout::Direction::Vertical);
    let rows = layout.constraints(bands).split(size);
    rows.iter().map(|r| Rect { x: r.x, y: r.y, width: r.width, height: r.height }).collect()
}

} // verus!
