//! The mathematical model of a pixel-addressable surface.
//!
//! A surface is a flat, row-major backing store of 32-bit pixel cells together
//! with its geometry. Rows are `stride` cells apart; only the first
//! `min(width, stride)` cells of the first `height` rows are drawable. Every
//! contract of the drawing primitives is stated over this model.

use vstd::prelude::*;

verus! {

/// Size of one pixel cell in bytes. The cell of pixel `(x, y)` lies
/// `(y * stride + x) * BYTES_PER_PIXEL` bytes behind the base of the buffer.
pub const BYTES_PER_PIXEL: u32 = 4;

/// A backing store of pixel cells and the geometry laid over it.
pub struct Surface {
    /// The backing store, one entry per pixel cell, starting at the base of
    /// the buffer.
    pub cells: Seq<u32>,
    /// Visible pixels per row.
    pub width: u32,
    /// Visible rows.
    pub height: u32,
    /// Pixel cells per row of the backing store. Firmware may pad rows, so
    /// this can exceed `width`.
    pub stride: u32,
}

impl Surface {
    /// Number of drawable columns: `min(width, stride)`. Padding columns are
    /// never drawable, and no column reaches past the row allocation.
    pub open spec fn columns(self) -> int {
        if self.width <= self.stride {
            self.width as int
        } else {
            self.stride as int
        }
    }

    /// `x` names a drawable column.
    pub open spec fn in_x_range(self, x: int) -> bool {
        0 <= x < self.columns()
    }

    /// `y` names a visible row.
    pub open spec fn in_y_range(self, y: int) -> bool {
        0 <= y < self.height
    }

    /// `(x, y)` lies inside the drawable area described by the geometry.
    pub open spec fn in_bounds(self, x: int, y: int) -> bool {
        self.in_x_range(x) && self.in_y_range(y)
    }

    /// Position of the cell of pixel `(x, y)` in the backing store. Row
    /// offsets are keyed off the stride, never the width.
    pub open spec fn cell_index(self, x: int, y: int) -> int {
        y * self.stride + x
    }

    /// `(x, y)` is inside the drawable area and its cell exists in the backing
    /// store. Geometry is taken as supplied, so the second half is what keeps
    /// every access inside the buffer.
    pub open spec fn addressable(self, x: int, y: int) -> bool {
        self.in_bounds(x, y) && self.cell_index(x, y) < self.cells.len()
    }

    /// The backing store holds a cell for every pixel of the drawable area.
    pub open spec fn wf(self) -> bool {
        self.columns() > 0 && self.height > 0 ==> (self.height - 1) * self.stride + self.columns()
            <= self.cells.len()
    }

    /// Bounds-checked read of pixel `(x, y)`.
    pub open spec fn pixel(self, x: int, y: int) -> Option<u32> {
        if self.addressable(x, y) {
            Some(self.cells[self.cell_index(x, y)])
        } else {
            None
        }
    }

    /// The surface with cell `index` holding `color` and nothing else changed.
    pub open spec fn store(self, index: int, color: u32) -> Surface {
        Surface { cells: self.cells.update(index, color), ..self }
    }

    /// Bounds-checked write of one pixel: an addressable pixel takes `color`,
    /// any other request leaves the surface as it is.
    pub open spec fn draw_point(self, color: u32, x: int, y: int) -> Surface {
        if self.addressable(x, y) {
            self.store(self.cell_index(x, y), color)
        } else {
            self
        }
    }

    /// The rectangle with origin `(x, y)`, `w` columns wide and `h` rows high,
    /// can be filled: it is not empty, its origin and its far corner
    /// `(x + w - 1, y + h - 1)` lie in the drawable area, and the cell of the
    /// far corner exists. An empty rectangle has no far corner and is refused.
    pub open spec fn accepts_rect(self, x: int, y: int, w: int, h: int) -> bool {
        &&& w > 0
        &&& h > 0
        &&& self.in_bounds(x, y)
        &&& self.addressable(x + w - 1, y + h - 1)
    }

    /// Cell `index` belongs to a pixel of the rectangle.
    pub open spec fn rect_covers(self, x: int, y: int, w: int, h: int, index: int) -> bool {
        &&& x <= index % (self.stride as int) < x + w
        &&& y <= index / (self.stride as int) < y + h
    }

    /// All-or-nothing fill: an accepted rectangle has every one of its cells
    /// set to `color` and no other cell touched; a refused one changes nothing.
    pub open spec fn fill_rect(self, color: u32, x: int, y: int, w: int, h: int) -> Surface {
        if self.accepts_rect(x, y, w, h) {
            Surface {
                cells: Seq::new(
                    self.cells.len(),
                    |index: int|
                        if self.rect_covers(x, y, w, h, index) {
                            color
                        } else {
                            self.cells[index]
                        },
                ),
                ..self
            }
        } else {
            self
        }
    }
}

} // verus!
