//! The boot screen: what is drawn once the frame buffer has been found.

use vstd::prelude::*;
use crate::bitmap::Bitmap;
use crate::draw::{draw_point, fill_rect};
use crate::efi::{EfiGraphicsOutputProtocol, EfiStatus};
use crate::error::VramError;
use crate::surface::Surface;
use crate::vram::{init_vram, VramBufferInfo};

verus! {

/// Number of points on the diagonal gradient.
pub const DIAGONAL_POINTS: u32 = 256;

/// The first `n` points of the diagonal gradient drawn over `s`: point `i`
/// sits at `(i, i)` and has the grey level `i` in each colour channel. Points
/// that fall outside the surface are skipped.
pub open spec fn diagonal(s: Surface, n: nat) -> Surface
    decreases n,
{
    if n == 0 {
        s
    } else {
        diagonal(s, (n - 1) as nat).draw_point((0x010101 * (n - 1)) as u32, n - 1, n - 1)
    }
}

/// The background: the whole visible area in black.
pub open spec fn background(s: Surface) -> Surface {
    s.fill_rect(0x000000, 0, 0, s.width as int, s.height as int)
}

/// The background with the red square on it.
pub open spec fn red_square(s: Surface) -> Surface {
    background(s).fill_rect(0xff0000, 32, 32, 32, 32)
}

/// The red square followed by the green one.
pub open spec fn green_square(s: Surface) -> Surface {
    red_square(s).fill_rect(0x00ff00, 64, 64, 64, 64)
}

/// The green square followed by the blue one.
pub open spec fn blue_square(s: Surface) -> Surface {
    green_square(s).fill_rect(0x0000ff, 128, 128, 128, 128)
}

/// Every rectangle of the boot screen fits the surface.
pub open spec fn boot_screen_fits(s: Surface) -> bool {
    &&& s.accepts_rect(0, 0, s.width as int, s.height as int)
    &&& s.accepts_rect(32, 32, 32, 32)
    &&& s.accepts_rect(64, 64, 64, 64)
    &&& s.accepts_rect(128, 128, 128, 128)
}

/// What is on the surface when the boot sequence stops. The rectangles are
/// drawn in order and the first one that does not fit ends the sequence; the
/// diagonal is drawn only after all four.
pub open spec fn boot_screen(s: Surface) -> Surface {
    if !s.accepts_rect(0, 0, s.width as int, s.height as int) {
        s
    } else if !s.accepts_rect(32, 32, 32, 32) {
        background(s)
    } else if !s.accepts_rect(64, 64, 64, 64) {
        red_square(s)
    } else if !s.accepts_rect(128, 128, 128, 128) {
        green_square(s)
    } else {
        diagonal(blue_square(s), DIAGONAL_POINTS as nat)
    }
}

/// The terminal state of the boot sequence: nothing runs after it.
pub struct Halted<'a> {
    /// The frame buffer as the sequence left it, if one was found.
    pub vram: Option<VramBufferInfo<'a>>,
    /// Whether the sequence ran to its end, or the failure that stopped it.
    pub outcome: Result<(), VramError>,
}

/// The boot sequence. `status` and `interface` are the outcome of the
/// firmware's lookup of the graphics output capability. The screen is cleared
/// to black, three squares are filled and a diagonal gradient of 256 points is
/// drawn over them. The sequence stops with `LocateError` when there is no
/// frame buffer and with `OutOfBounds` at the first rectangle that does not
/// fit; diagonal points outside the surface are skipped.
pub fn efi_main<'a>(status: EfiStatus, interface: Option<EfiGraphicsOutputProtocol<'a>>) -> (halted:
    Halted<'a>)
    ensures
        halted.vram.is_some() <==> status.succeeded() && interface.is_some(),
        halted.vram.is_none() ==> halted.outcome == Err::<(), VramError>(VramError::LocateError),
        halted.vram.is_none() ==> (interface matches Some(gp) ==> final(gp.mode.frame_buffer)@
            == gp.mode.frame_buffer@),
        halted.vram matches Some(vram) ==> (interface matches Some(gp) ==> {
            &&& vram@ == boot_screen(gp.surface())
            &&& halted.outcome.is_ok() <==> boot_screen_fits(gp.surface())
            &&& halted.outcome matches Err(e) ==> e == VramError::OutOfBounds
        }),
{
    let mut vram = match init_vram(status, interface) {
        Ok(vram) => vram,
        Err(e) => {
            return Halted { vram: None, outcome: Err(e) };
        },
    };
    let ghost start = vram@;
    let vw: u32 = vram.width();
    let vh: u32 = vram.height();
    match fill_rect(&mut vram, 0x000000, 0, 0, vw, vh) {
        Ok(()) => {},
        Err(e) => {
            return Halted { vram: Some(vram), outcome: Err(e) };
        },
    }
    match fill_rect(&mut vram, 0xff0000, 32, 32, 32, 32) {
        Ok(()) => {},
        Err(e) => {
            return Halted { vram: Some(vram), outcome: Err(e) };
        },
    }
    match fill_rect(&mut vram, 0x00ff00, 64, 64, 64, 64) {
        Ok(()) => {},
        Err(e) => {
            return Halted { vram: Some(vram), outcome: Err(e) };
        },
    }
    match fill_rect(&mut vram, 0x0000ff, 128, 128, 128, 128) {
        Ok(()) => {},
        Err(e) => {
            return Halted { vram: Some(vram), outcome: Err(e) };
        },
    }
    let mut i: u32 = 0;
    while i < DIAGONAL_POINTS
        invariant
            i <= DIAGONAL_POINTS,
            vram@ == diagonal(blue_square(start), i as nat),
        decreases DIAGONAL_POINTS - i,
    {
        let _ = draw_point(&mut vram, 0x010101 * i, i, i);
        i = i + 1;
    }
    Halted { vram: Some(vram), outcome: Ok(()) }
}

} // verus!
