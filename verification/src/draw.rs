//! Drawing primitives over any [`Bitmap`]: a single point and a filled
//! rectangle.

use vstd::prelude::*;
use vstd::arithmetic::div_mod::{lemma_fundamental_div_mod, lemma_fundamental_div_mod_converse};
use crate::bitmap::Bitmap;
use crate::error::VramError;
use crate::surface::Surface;

verus! {

/// Cell `index` has been painted once `rows` full rows of the rectangle and
/// the first `cols` cells of the next row are done.
spec fn reached(s: Surface, x: int, y: int, w: int, rows: int, cols: int, index: int) -> bool {
    let px = index % (s.stride as int);
    let py = index / (s.stride as int);
    &&& x <= px < x + w
    &&& (y <= py < y + rows || (py == y + rows && px < x + cols))
}

/// The surface in the middle of a row-major fill.
spec fn partly_filled(s: Surface, color: u32, x: int, y: int, w: int, rows: int, cols: int)
    -> Surface {
    Surface {
        cells: Seq::new(
            s.cells.len(),
            |index: int|
                if reached(s, x, y, w, rows, cols, index) {
                    color
                } else {
                    s.cells[index]
                },
        ),
        ..s
    }
}

/// Every pixel of an accepted rectangle is addressable.
proof fn lemma_rect_addressable(s: Surface, x: int, y: int, w: int, h: int, i: int, j: int)
    requires
        s.accepts_rect(x, y, w, h),
        0 <= i < h,
        0 <= j < w,
    ensures
        s.addressable(x + j, y + i),
{
    assert((y + i) * s.stride <= (y + h - 1) * s.stride) by (nonlinear_arith)
        requires
            y + i <= y + h - 1,
            s.stride >= 0,
    ;
}

/// Nothing is painted before the fill starts.
proof fn lemma_fill_start(s: Surface, color: u32, x: int, y: int, w: int)
    ensures
        partly_filled(s, color, x, y, w, 0, 0) == s,
{
    assert(partly_filled(s, color, x, y, w, 0, 0).cells =~= s.cells);
}

/// Painting the next pixel of the current row advances the fill by one cell.
proof fn lemma_fill_step(s: Surface, color: u32, x: int, y: int, w: int, rows: int, cols: int)
    requires
        0 <= x,
        0 <= y,
        0 <= rows,
        0 <= cols < w,
        x + cols < s.stride,
        s.cell_index(x + cols, y + rows) < s.cells.len(),
    ensures
        partly_filled(s, color, x, y, w, rows, cols).store(
            s.cell_index(x + cols, y + rows),
            color,
        ) == partly_filled(s, color, x, y, w, rows, cols + 1),
{
    let stride = s.stride as int;
    let target = s.cell_index(x + cols, y + rows);
    let before = partly_filled(s, color, x, y, w, rows, cols);
    let after = partly_filled(s, color, x, y, w, rows, cols + 1);
    lemma_fundamental_div_mod_converse(target, stride, y + rows, x + cols);
    assert(0 <= target) by (nonlinear_arith)
        requires
            target == (y + rows) * stride + (x + cols),
            0 <= y + rows,
            0 <= stride,
            0 <= x + cols,
    ;
    assert forall|index: int| 0 <= index < s.cells.len() implies before.store(
        target,
        color,
    ).cells[index] == after.cells[index] by {
        let px = index % stride;
        let py = index / stride;
        if px == x + cols && py == y + rows {
            lemma_fundamental_div_mod(index, stride);
            assert(stride * py == (y + rows) * stride) by (nonlinear_arith)
                requires
                    py == y + rows,
            ;
            assert(index == target);
        }
    }
    assert(before.store(target, color).cells =~= after.cells);
}

/// A finished row is the start of the next one.
proof fn lemma_fill_next_row(s: Surface, color: u32, x: int, y: int, w: int, rows: int)
    requires
        0 <= rows,
    ensures
        partly_filled(s, color, x, y, w, rows, w) == partly_filled(s, color, x, y, w, rows + 1, 0),
{
    assert(partly_filled(s, color, x, y, w, rows, w).cells =~= partly_filled(
        s,
        color,
        x,
        y,
        w,
        rows + 1,
        0,
    ).cells);
}

/// After the last row the whole rectangle, and nothing else, is painted.
proof fn lemma_fill_done(s: Surface, color: u32, x: int, y: int, w: int, h: int)
    requires
        s.accepts_rect(x, y, w, h),
    ensures
        partly_filled(s, color, x, y, w, h, 0) == s.fill_rect(color, x, y, w, h),
{
    assert(partly_filled(s, color, x, y, w, h, 0).cells =~= s.fill_rect(color, x, y, w, h).cells);
}

/// Writes `color` to pixel `(x, y)` without any range test. The caller has
/// validated the pixel.
pub fn unchecked_draw_point<T: Bitmap>(buf: &mut T, color: u32, x: u32, y: u32)
    requires
        old(buf)@.addressable(x as int, y as int),
    ensures
        final(buf)@ == old(buf)@.draw_point(color, x as int, y as int),
{
    *buf.unchecked_pixel_at_mut(x, y) = color;
}

/// Writes `color` to pixel `(x, y)`, or fails with `OutOfBounds` and no side
/// effect when the bounds-checked accessor yields no cell.
pub fn draw_point<T: Bitmap>(buf: &mut T, color: u32, x: u32, y: u32) -> (r: Result<
    (),
    VramError,
>)
    ensures
        r.is_ok() <==> old(buf)@.addressable(x as int, y as int),
        r matches Err(e) ==> e == VramError::OutOfBounds,
        r.is_err() ==> final(buf)@ == old(buf)@,
        final(buf)@ == old(buf)@.draw_point(color, x as int, y as int),
{
    match buf.pixel_at_mut(x, y) {
        Some(cell) => {
            *cell = color;
            Ok(())
        },
        None => Err(VramError::OutOfBounds),
    }
}

/// Fills the rectangle with origin `(x, y)`, `w` columns wide and `h` rows
/// high, with `color`. The corners are validated before anything is written:
/// either every pixel of the rectangle is written, or the request fails with
/// `OutOfBounds` and the buffer is untouched. An empty rectangle is refused.
pub fn fill_rect<T: Bitmap>(buf: &mut T, color: u32, x: u32, y: u32, w: u32, h: u32) -> (r: Result<
    (),
    VramError,
>)
    ensures
        r.is_ok() <==> old(buf)@.accepts_rect(x as int, y as int, w as int, h as int),
        r matches Err(e) ==> e == VramError::OutOfBounds,
        r.is_err() ==> final(buf)@ == old(buf)@,
        final(buf)@ == old(buf)@.fill_rect(color, x as int, y as int, w as int, h as int),
{
    let ghost before = buf@;
    if w == 0 || h == 0 {
        return Err(VramError::OutOfBounds);
    }
    if !buf.is_in_x_range(x) || !buf.is_in_y_range(y) {
        return Err(VramError::OutOfBounds);
    }
    let far_x: u64 = x as u64 + (w - 1) as u64;
    let far_y: u64 = y as u64 + (h - 1) as u64;
    if far_x > u32::MAX as u64 || far_y > u32::MAX as u64 {
        return Err(VramError::OutOfBounds);
    }
    if buf.pixel_at_mut(far_x as u32, far_y as u32).is_none() {
        return Err(VramError::OutOfBounds);
    }
    assert(buf@ == before) by {
        assert(buf@.cells =~= before.cells);
    }
    proof {
        lemma_fill_start(before, color, x as int, y as int, w as int);
    }
    let mut i: u32 = 0;
    while i < h
        invariant
            i <= h,
            before.accepts_rect(x as int, y as int, w as int, h as int),
            buf@ == partly_filled(before, color, x as int, y as int, w as int, i as int, 0),
        decreases h - i,
    {
        let mut j: u32 = 0;
        while j < w
            invariant
                i < h,
                j <= w,
                before.accepts_rect(x as int, y as int, w as int, h as int),
                buf@ == partly_filled(
                    before,
                    color,
                    x as int,
                    y as int,
                    w as int,
                    i as int,
                    j as int,
                ),
            decreases w - j,
        {
            proof {
                lemma_rect_addressable(
                    before,
                    x as int,
                    y as int,
                    w as int,
                    h as int,
                    i as int,
                    j as int,
                );
                lemma_fill_step(before, color, x as int, y as int, w as int, i as int, j as int);
            }
            unchecked_draw_point(buf, color, x + j, y + i);
            j = j + 1;
        }
        proof {
            lemma_fill_next_row(before, color, x as int, y as int, w as int, i as int);
        }
        i = i + 1;
    }
    proof {
        lemma_fill_done(before, color, x as int, y as int, w as int, h as int);
    }
    Ok(())
}

} // verus!
