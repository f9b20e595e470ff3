//! What holds of the drawing primitives on every surface, proved over the
//! model that their contracts are stated in.

use vstd::prelude::*;
use vstd::arithmetic::div_mod::lemma_fundamental_div_mod_converse;
use crate::surface::Surface;

verus! {

/// On a well-formed surface the geometry alone decides what is addressable:
/// every pixel of the drawable area has its cell in the backing store.
pub proof fn lemma_wf_addressable(s: Surface, x: int, y: int)
    requires
        s.wf(),
        s.in_bounds(x, y),
    ensures
        s.addressable(x, y),
{
    assert(y * s.stride <= (s.height - 1) * s.stride) by (nonlinear_arith)
        requires
            y <= s.height - 1,
            s.stride >= 0,
    ;
}

/// A cell position inside a row determines its pixel: with `x` below the
/// stride, the cell of `(x, y)` lies in row `y` at column `x` and nowhere
/// else.
pub proof fn lemma_cell_index_unique(s: Surface, x: int, y: int)
    requires
        0 <= x < s.stride,
    ensures
        s.cell_index(x, y) % (s.stride as int) == x,
        s.cell_index(x, y) / (s.stride as int) == y,
{
    lemma_fundamental_div_mod_converse(s.cell_index(x, y), s.stride as int, y, x);
}

/// A pixel outside the drawable area, with `x` at or past `min(width,
/// stride)` or `y` at or past `height`, has no value, and drawing it changes
/// nothing.
pub proof fn lemma_out_of_bounds_rejected(s: Surface, color: u32, x: int, y: int)
    requires
        x >= s.columns() || y >= s.height,
    ensures
        s.pixel(x, y) is None,
        s.draw_point(color, x, y) == s,
{
}

/// Round trip: after drawing a pixel of the drawable area, reading it yields
/// the colour that was drawn.
pub proof fn lemma_draw_point_round_trip(s: Surface, color: u32, x: int, y: int)
    requires
        s.wf(),
        s.in_bounds(x, y),
    ensures
        s.draw_point(color, x, y).pixel(x, y) == Some(color),
{
    lemma_wf_addressable(s, x, y);
    assert(0 <= s.cell_index(x, y)) by (nonlinear_arith)
        requires
            s.cell_index(x, y) == y * s.stride + x,
            0 <= y,
            0 <= x,
            0 <= s.stride,
    ;
}

/// Drawing one pixel leaves every other pixel as it was.
pub proof fn lemma_draw_point_keeps_others(
    s: Surface,
    color: u32,
    x: int,
    y: int,
    other_x: int,
    other_y: int,
)
    requires
        (other_x, other_y) != (x, y),
    ensures
        s.draw_point(color, x, y).pixel(other_x, other_y) == s.pixel(other_x, other_y),
{
    if s.addressable(x, y) && s.addressable(other_x, other_y) {
        lemma_cell_index_unique(s, x, y);
        lemma_cell_index_unique(s, other_x, other_y);
    }
}

/// All or nothing, the refusal: when any of the four corners of the
/// rectangle lies outside the drawable area, the fill changes nothing.
pub proof fn lemma_fill_rect_refused(s: Surface, color: u32, x: int, y: int, w: int, h: int)
    requires
        !s.in_bounds(x, y) || !s.in_bounds(x + w - 1, y) || !s.in_bounds(x, y + h - 1)
            || !s.in_bounds(x + w - 1, y + h - 1),
    ensures
        !s.accepts_rect(x, y, w, h),
        s.fill_rect(color, x, y, w, h) == s,
{
}

/// All or nothing, the fill: an accepted rectangle has every one of its
/// pixels set to `color`, and every pixel outside it keeps its value.
pub proof fn lemma_fill_rect_paints(
    s: Surface,
    color: u32,
    x: int,
    y: int,
    w: int,
    h: int,
    px: int,
    py: int,
)
    requires
        s.accepts_rect(x, y, w, h),
    ensures
        x <= px < x + w && y <= py < y + h ==> s.fill_rect(color, x, y, w, h).pixel(px, py)
            == Some(color),
        !(x <= px < x + w && y <= py < y + h) ==> s.fill_rect(color, x, y, w, h).pixel(px, py)
            == s.pixel(px, py),
{
    let filled = s.fill_rect(color, x, y, w, h);
    if x <= px < x + w && y <= py < y + h {
        assert(py * s.stride <= (y + h - 1) * s.stride) by (nonlinear_arith)
            requires
                py <= y + h - 1,
                s.stride >= 0,
        ;
        assert(0 <= py * s.stride) by (nonlinear_arith)
            requires
                0 <= py,
                s.stride >= 0,
        ;
        lemma_cell_index_unique(s, px, py);
        assert(s.addressable(px, py));
        assert(filled.addressable(px, py));
    } else if s.addressable(px, py) {
        assert(0 <= py * s.stride) by (nonlinear_arith)
            requires
                0 <= py,
                s.stride >= 0,
        ;
        lemma_cell_index_unique(s, px, py);
        assert(filled.addressable(px, py));
    }
}

/// Filling the whole visible area sets every pixel of the drawable area,
/// the last column included, and leaves the padding cells of every row as
/// they were. The stride is at least the width, as firmware supplies it.
pub proof fn lemma_fill_whole_surface(s: Surface, color: u32, x: int, y: int)
    requires
        s.wf(),
        s.width <= s.stride,
        0 <= y,
    ensures
        s.in_bounds(x, y) ==> s.fill_rect(color, 0, 0, s.width as int, s.height as int).pixel(x, y)
            == Some(color),
        s.width <= x < s.stride && s.cell_index(x, y) < s.cells.len() ==> s.fill_rect(
            color,
            0,
            0,
            s.width as int,
            s.height as int,
        ).cells[s.cell_index(x, y)] == s.cells[s.cell_index(x, y)],
        s.fill_rect(color, 0, 0, s.width as int, s.height as int).cells.len() == s.cells.len(),
{
    let w = s.width as int;
    let h = s.height as int;
    if s.in_bounds(x, y) {
        lemma_wf_addressable(s, w - 1, h - 1);
        assert(s.accepts_rect(0, 0, w, h));
        lemma_fill_rect_paints(s, color, 0, 0, w, h, x, y);
    }
    if s.width <= x < s.stride && s.cell_index(x, y) < s.cells.len() {
        lemma_cell_index_unique(s, x, y);
        assert(0 <= y * s.stride) by (nonlinear_arith)
            requires
                0 <= y,
                s.stride >= 0,
        ;
    }
}

/// The width, not the stride, bounds the drawable columns: a padding column,
/// at or past the width though still below the stride, is refused.
pub proof fn lemma_padding_column_rejected(s: Surface, color: u32, x: int, y: int)
    requires
        s.width <= x < s.stride,
    ensures
        !s.in_x_range(x),
        s.pixel(x, y) is None,
        s.draw_point(color, x, y) == s,
{
}

/// A rectangle without columns or without rows is refused and changes
/// nothing, wherever its origin lies.
pub proof fn lemma_empty_rect_refused(s: Surface, color: u32, x: int, y: int, w: int, h: int)
    requires
        w == 0 || h == 0,
    ensures
        !s.accepts_rect(x, y, w, h),
        s.fill_rect(color, x, y, w, h) == s,
{
}

/// Neither primitive ever changes the geometry or the size of the backing
/// store.
pub proof fn lemma_geometry_kept(s: Surface, color: u32, x: int, y: int, w: int, h: int)
    ensures
        s.draw_point(color, x, y).width == s.width,
        s.draw_point(color, x, y).height == s.height,
        s.draw_point(color, x, y).stride == s.stride,
        s.draw_point(color, x, y).cells.len() == s.cells.len(),
        s.fill_rect(color, x, y, w, h).width == s.width,
        s.fill_rect(color, x, y, w, h).height == s.height,
        s.fill_rect(color, x, y, w, h).stride == s.stride,
        s.fill_rect(color, x, y, w, h).cells.len() == s.cells.len(),
{
}

} // verus!
