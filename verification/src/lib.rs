//! Early-boot graphics: the firmware's linear frame buffer, described by its
//! geometry and written through bounds-checked pixel primitives.

pub mod bitmap;
pub mod boot;
pub mod draw;
pub mod efi;
pub mod error;
pub mod laws;
pub mod surface;
pub mod vram;

pub use bitmap::Bitmap;
pub use boot::{efi_main, Halted};
pub use draw::{draw_point, fill_rect, unchecked_draw_point};
pub use efi::{
    efi_graphics_output_protocol_guid, locate_graphic_protocol, EfiGraphicsOutputProtocol,
    EfiGraphicsOutputProtocolMode, EfiGraphicsOutputProtocolPixelInfo, EfiGuid, EfiStatus,
};
pub use error::VramError;
pub use surface::{Surface, BYTES_PER_PIXEL};
pub use vram::{init_vram, VramBufferInfo};
