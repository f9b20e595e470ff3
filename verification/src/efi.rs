//! What the firmware hands over at boot: status codes, the identifier of the
//! graphics output capability, and the descriptor of the display buffer.

use vstd::prelude::*;
use crate::error::VramError;
use crate::surface::Surface;

verus! {

/// Number of machine words that precede the protocol lookup entry in the
/// boot services table.
pub const BOOT_SERVICES_RESERVED_WORDS: usize = 40;

/// Byte offset of the protocol lookup entry in the boot services table.
pub const LOCATE_PROTOCOL_OFFSET: usize = BOOT_SERVICES_RESERVED_WORDS * 8;

/// Number of machine words that precede the boot services reference in the
/// system table.
pub const SYSTEM_TABLE_RESERVED_WORDS: usize = 12;

/// Byte offset of the boot services reference in the system table.
pub const BOOT_SERVICES_OFFSET: usize = SYSTEM_TABLE_RESERVED_WORDS * 8;

/// Size in bytes of the pixel information record: version, horizontal and
/// vertical resolution, twenty reserved bytes, pixels per scan line.
pub const PIXEL_INFO_SIZE: usize = 4 + 4 + 4 + 20 + 4;

/// The status code that reports success.
pub const EFI_SUCCESS: u64 = 0;

/// Status code returned by a firmware service.
#[derive(Debug, Clone, Copy, PartialEq, Eq, Structural)]
pub struct EfiStatus(pub u64);

impl EfiStatus {
    /// The service succeeded.
    pub open spec fn succeeded(self) -> bool {
        self.0 == EFI_SUCCESS
    }

    /// The service succeeded.
    pub fn is_success(&self) -> (b: bool)
        ensures
            b == self.succeeded(),
    {
        self.0 == EFI_SUCCESS
    }
}

/// A 128-bit capability identifier, in its four wire fields of four, two, two
/// and eight bytes.
#[derive(Debug, Clone, Copy, PartialEq, Eq)]
pub struct EfiGuid {
    pub data0: u32,
    pub data1: u16,
    pub data2: u16,
    pub data3: [u8; 8],
}

/// The identifier of the graphics output capability.
pub fn efi_graphics_output_protocol_guid() -> (guid: EfiGuid)
    ensures
        guid.data0 == 0x9042a9de,
        guid.data1 == 0x23dc,
        guid.data2 == 0x4a38,
        guid.data3@ == seq![0x96u8, 0xfb, 0x7a, 0xde, 0xd0, 0x80, 0x51, 0x6a],
{
    EfiGuid {
        data0: 0x9042a9de,
        data1: 0x23dc,
        data2: 0x4a38,
        data3: [0x96, 0xfb, 0x7a, 0xde, 0xd0, 0x80, 0x51, 0x6a],
    }
}

/// The pixel information record of a display mode.
#[derive(Debug, Clone, Copy, PartialEq, Eq, Structural)]
pub struct EfiGraphicsOutputProtocolPixelInfo {
    pub version: u32,
    pub horizontal_resolution: u32,
    pub vertical_resolution: u32,
    /// Row stride in pixels. Firmware may align rows, so this can exceed the
    /// horizontal resolution.
    pub pixels_per_scan_line: u32,
}

/// The current display mode and the frame buffer that belongs to it.
pub struct EfiGraphicsOutputProtocolMode<'a> {
    pub max_mode: u32,
    pub mode: u32,
    pub info: EfiGraphicsOutputProtocolPixelInfo,
    pub size_of_info: u64,
    /// The linear frame buffer: the memory that starts at the base address
    /// reported by the firmware, as pixel cells.
    pub frame_buffer: &'a mut [u32],
}

/// The descriptor of the graphics output capability.
pub struct EfiGraphicsOutputProtocol<'a> {
    pub mode: EfiGraphicsOutputProtocolMode<'a>,
}

impl<'a> EfiGraphicsOutputProtocol<'a> {
    /// The surface that the descriptor describes: the frame buffer under the
    /// geometry of the current mode, taken as supplied.
    pub open spec fn surface(self) -> Surface {
        Surface {
            cells: self.mode.frame_buffer@,
            width: self.mode.info.horizontal_resolution,
            height: self.mode.info.vertical_resolution,
            stride: self.mode.info.pixels_per_scan_line,
        }
    }
}

/// Turns the outcome of the firmware's protocol lookup into the descriptor or
/// a failure. `status` is the code the lookup returned and `interface` the
/// descriptor it wrote to its output slot, if any. Any status other than
/// success, and a lookup that left the slot empty, is a `LocateError`.
pub fn locate_graphic_protocol<'a>(
    status: EfiStatus,
    interface: Option<EfiGraphicsOutputProtocol<'a>>,
) -> (r: Result<EfiGraphicsOutputProtocol<'a>, VramError>)
    ensures
        r.is_ok() <==> status.succeeded() && interface.is_some(),
        r matches Ok(gp) ==> interface == Some(gp),
        r matches Err(e) ==> e == VramError::LocateError,
        r.is_err() ==> (interface matches Some(gp) ==> final(gp.mode.frame_buffer)@
            == gp.mode.frame_buffer@),
{
    if !status.is_success() {
        return Err(VramError::LocateError);
    }
    match interface {
        Some(gp) => Ok(gp),
        None => Err(VramError::LocateError),
    }
}

} // verus!
