//! The display's frame buffer as a pixel-addressable surface.

use vstd::prelude::*;
use crate::bitmap::Bitmap;
use crate::efi::{locate_graphic_protocol, EfiGraphicsOutputProtocol, EfiStatus};
use crate::error::VramError;
use crate::surface::{Surface, BYTES_PER_PIXEL};

verus! {

/// A view of the firmware's frame buffer: the buffer itself and the geometry
/// laid over it. It is made once from the descriptor and never resized.
pub struct VramBufferInfo<'a> {
    /// The frame buffer, as pixel cells.
    pub buf: &'a mut [u32],
    /// Visible pixels per row.
    pub width: u32,
    /// Visible rows.
    pub height: u32,
    /// Row stride of the frame buffer, in pixel cells.
    pub pixels_per_line: u32,
}

impl<'a> VramBufferInfo<'a> {
    /// Takes the frame buffer and the geometry out of the descriptor. Nothing
    /// is validated here and no pixel is copied; out-of-range geometry is
    /// caught by the accessors.
    pub fn from_descriptor(gp: EfiGraphicsOutputProtocol<'a>) -> (vram: Self)
        ensures
            vram@ == gp.surface(),
            final(gp.mode.frame_buffer)@ == final(vram.buf)@,
    {
        VramBufferInfo {
            buf: gp.mode.frame_buffer,
            width: gp.mode.info.horizontal_resolution,
            height: gp.mode.info.vertical_resolution,
            pixels_per_line: gp.mode.info.pixels_per_scan_line,
        }
    }
}

impl<'a> Bitmap for VramBufferInfo<'a> {
    open spec fn view(&self) -> Surface {
        Surface {
            cells: self.buf@,
            width: self.width,
            height: self.height,
            stride: self.pixels_per_line,
        }
    }

    fn bytes_per_pixel(&self) -> (n: u32) {
        BYTES_PER_PIXEL
    }

    fn pixels_per_line(&self) -> (n: u32) {
        self.pixels_per_line
    }

    fn width(&self) -> (n: u32) {
        self.width
    }

    fn height(&self) -> (n: u32) {
        self.height
    }

    fn buf_mut(&mut self) -> (buf: &mut [u32]) {
        &mut *self.buf
    }
}

/// Locates the graphics output capability and wraps its frame buffer.
/// `status` and `interface` are the outcome of the firmware's protocol
/// lookup. Fails with `LocateError` exactly when the lookup did.
pub fn init_vram<'a>(status: EfiStatus, interface: Option<EfiGraphicsOutputProtocol<'a>>) -> (r:
    Result<VramBufferInfo<'a>, VramError>)
    ensures
        r.is_ok() <==> status.succeeded() && interface.is_some(),
        r matches Ok(vram) ==> interface matches Some(gp) && vram@ == gp.surface()
            && final(gp.mode.frame_buffer)@ == final(vram.buf)@,
        r matches Err(e) ==> e == VramError::LocateError,
        r.is_err() ==> (interface matches Some(gp) ==> final(gp.mode.frame_buffer)@
            == gp.mode.frame_buffer@),
{
    match locate_graphic_protocol(status, interface) {
        Ok(gp) => Ok(VramBufferInfo::from_descriptor(gp)),
        Err(e) => Err(e),
    }
}

} // verus!
