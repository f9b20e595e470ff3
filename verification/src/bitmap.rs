//! The capability set of a pixel-addressable surface, and the bounds-checked
//! and unchecked pixel accessors built on it.

use vstd::prelude::*;
use crate::surface::{Surface, BYTES_PER_PIXEL};

verus! {

/// What any pixel-addressable surface must expose: its geometry and mutable
/// access to its backing store. The accessors are provided on top of these,
/// so the address formula exists once.
pub trait Bitmap {
    /// The surface this value stands for.
    spec fn view(&self) -> Surface;

    /// Bytes per pixel cell; the encoding is fixed at 32 bits per pixel.
    fn bytes_per_pixel(&self) -> (n: u32)
        ensures
            n == BYTES_PER_PIXEL,
    ;

    /// Row stride of the backing store, in pixel cells.
    fn pixels_per_line(&self) -> (n: u32)
        ensures
            n == self@.stride,
    ;

    /// Visible pixels per row.
    fn width(&self) -> (n: u32)
        ensures
            n == self@.width,
    ;

    /// Visible rows.
    fn height(&self) -> (n: u32)
        ensures
            n == self@.height,
    ;

    /// The backing store, as pixel cells. Writing through it changes the
    /// cells of the surface and leaves the geometry alone.
    fn buf_mut(&mut self) -> (buf: &mut [u32])
        ensures
            buf@ == old(self)@.cells,
            final(self)@ == (Surface { cells: final(buf)@, ..old(self)@ }),
    ;

    /// The cell of pixel `(x, y)`, at position `y * stride + x` of the backing
    /// store, without any range test. The caller has validated the pixel.
    fn unchecked_pixel_at_mut(&mut self, x: u32, y: u32) -> (cell: &mut u32)
        requires
            old(self)@.addressable(x as int, y as int),
        ensures
            *cell == old(self)@.cells[old(self)@.cell_index(x as int, y as int)],
            final(self)@ == old(self)@.store(
                old(self)@.cell_index(x as int, y as int),
                *final(cell),
            ),
    {
        let stride: usize = self.pixels_per_line() as usize;
        let buf = self.buf_mut();
        assert(buf@.len() <= usize::MAX) by {
            vstd::slice::axiom_spec_len(buf);
        }
        let index: usize = y as usize * stride + x as usize;
        &mut buf[index]
    }

    /// The cell of pixel `(x, y)` if the pixel is addressable, and no value
    /// otherwise: `x` must be below `min(width, stride)`, `y` below `height`,
    /// and the cell must exist in the backing store.
    fn pixel_at_mut(&mut self, x: u32, y: u32) -> (cell: Option<&mut u32>)
        ensures
            cell.is_some() <==> old(self)@.addressable(x as int, y as int),
            cell matches Some(c) ==> Some(*c) == old(self)@.pixel(x as int, y as int),
            cell matches Some(c) ==> final(self)@ == old(self)@.store(
                old(self)@.cell_index(x as int, y as int),
                *final(c),
            ),
            cell.is_none() ==> final(self)@ == old(self)@,
    {
        if self.is_in_x_range(x) && self.is_in_y_range(y) {
            let stride: u64 = self.pixels_per_line() as u64;
            let len: usize = self.buf_mut().len();
            assert(y as u64 * stride + x as u64 <= u64::MAX) by (nonlinear_arith)
                requires
                    y <= u32::MAX,
                    stride <= u32::MAX,
                    x <= u32::MAX,
            ;
            let index: u64 = y as u64 * stride + x as u64;
            if index < len as u64 {
                Some(self.unchecked_pixel_at_mut(x, y))
            } else {
                None
            }
        } else {
            None
        }
    }

    /// `px` names a drawable column: it is below both the width and the
    /// stride.
    fn is_in_x_range(&self, px: u32) -> (b: bool)
        ensures
            b == self@.in_x_range(px as int),
    {
        let width: u32 = self.width();
        let stride: u32 = self.pixels_per_line();
        if width <= stride {
            px < width
        } else {
            px < stride
        }
    }

    /// `py` names a visible row.
    fn is_in_y_range(&self, py: u32) -> (b: bool)
        ensures
            b == self@.in_y_range(py as int),
    {
        py < self.height()
    }
}

} // verus!
