use efi_vram::efi::{
    BOOT_SERVICES_OFFSET, EFI_SUCCESS, LOCATE_PROTOCOL_OFFSET, PIXEL_INFO_SIZE,
};
use efi_vram::{
    draw_point, efi_graphics_output_protocol_guid, efi_main, init_vram, locate_graphic_protocol,
    Bitmap, EfiGraphicsOutputProtocol, EfiGraphicsOutputProtocolMode,
    EfiGraphicsOutputProtocolPixelInfo, EfiGuid, EfiStatus, VramError,
};

fn descriptor(mem: &mut [u32], width: u32, height: u32, stride: u32) -> EfiGraphicsOutputProtocol {
    EfiGraphicsOutputProtocol {
        mode: EfiGraphicsOutputProtocolMode {
            max_mode: 1,
            mode: 0,
            info: EfiGraphicsOutputProtocolPixelInfo {
                version: 0,
                horizontal_resolution: width,
                vertical_resolution: height,
                pixels_per_scan_line: stride,
            },
            size_of_info: 36,
            frame_buffer: mem,
        },
    }
}

#[test]
fn layout_constants() {
    assert_eq!(LOCATE_PROTOCOL_OFFSET, 320);
    assert_eq!(BOOT_SERVICES_OFFSET, 96);
    assert_eq!(PIXEL_INFO_SIZE, 36);
    assert_eq!(EFI_SUCCESS, 0);
}

#[test]
fn graphics_output_guid_fields() {
    let guid = efi_graphics_output_protocol_guid();
    assert_eq!(
        guid,
        EfiGuid {
            data0: 0x9042a9de,
            data1: 0x23dc,
            data2: 0x4a38,
            data3: [0x96, 0xfb, 0x7a, 0xde, 0xd0, 0x80, 0x51, 0x6a],
        }
    );
    let mut other = guid;
    other.data3[7] = 0x6b;
    assert_ne!(guid, other);
}

#[test]
fn status_success_is_zero_only() {
    assert!(EfiStatus(0).is_success());
    assert!(!EfiStatus(1).is_success());
    assert!(!EfiStatus(0x8000_0000_0000_000e).is_success());
    assert!(!EfiStatus(u64::MAX).is_success());
}

#[test]
fn locate_succeeds_on_success_with_a_descriptor() {
    let mut mem = vec![0u32; 6];
    let gp = descriptor(&mut mem[..], 3, 2, 3);
    let found = locate_graphic_protocol(EfiStatus(0), Some(gp));
    match found {
        Ok(gp) => {
            assert_eq!(gp.mode.info.horizontal_resolution, 3);
            assert_eq!(gp.mode.info.vertical_resolution, 2);
            assert_eq!(gp.mode.info.pixels_per_scan_line, 3);
            assert_eq!(gp.mode.frame_buffer.len(), 6);
        }
        Err(_) => panic!("lookup that succeeded was refused"),
    }
}

#[test]
fn locate_fails_on_any_other_status() {
    let mut mem = vec![0u32; 6];
    let gp = descriptor(&mut mem[..], 3, 2, 3);
    assert!(matches!(
        locate_graphic_protocol(EfiStatus(0x8000_0000_0000_000e), Some(gp)),
        Err(VramError::LocateError)
    ));
    assert!(matches!(
        locate_graphic_protocol(EfiStatus(1), None),
        Err(VramError::LocateError)
    ));
}

#[test]
fn locate_fails_when_the_slot_was_left_empty() {
    assert!(matches!(
        locate_graphic_protocol(EfiStatus(0), None),
        Err(VramError::LocateError)
    ));
}

#[test]
fn init_vram_copies_the_geometry_and_keeps_the_buffer() {
    let mut mem = vec![0u32; 8 * 3];
    {
        let gp = descriptor(&mut mem[..], 5, 3, 8);
        let mut vram = match init_vram(EfiStatus(0), Some(gp)) {
            Ok(vram) => vram,
            Err(_) => panic!("frame buffer was not found"),
        };
        assert_eq!(vram.width(), 5);
        assert_eq!(vram.height(), 3);
        assert_eq!(vram.pixels_per_line(), 8);
        assert_eq!(vram.bytes_per_pixel(), 4);
        assert_eq!(draw_point(&mut vram, 0x55, 4, 2), Ok(()));
        assert_eq!(draw_point(&mut vram, 0x55, 5, 2), Err(VramError::OutOfBounds));
    }
    // the write went to the firmware's memory, not to a copy
    assert_eq!(mem[2 * 8 + 4], 0x55);
    assert_eq!(mem.iter().filter(|c| **c != 0).count(), 1);
}

#[test]
fn init_vram_does_not_validate_the_geometry() {
    let mut mem = vec![0u32; 4];
    let gp = descriptor(&mut mem[..], 100, 100, 50);
    let mut vram = match init_vram(EfiStatus(0), Some(gp)) {
        Ok(vram) => vram,
        Err(_) => panic!("frame buffer was not found"),
    };
    assert_eq!(vram.width(), 100);
    assert_eq!(vram.pixels_per_line(), 50);
    assert_eq!(draw_point(&mut vram, 1, 3, 0), Ok(()));
    assert_eq!(draw_point(&mut vram, 1, 4, 0), Err(VramError::OutOfBounds));
}

#[test]
fn init_vram_fails_with_locate_error() {
    let mut mem = vec![3u32; 4];
    {
        let gp = descriptor(&mut mem[..], 2, 2, 2);
        assert!(matches!(init_vram(EfiStatus(5), Some(gp)), Err(VramError::LocateError)));
    }
    assert!(matches!(init_vram(EfiStatus(0), None), Err(VramError::LocateError)));
    assert_eq!(mem, vec![3u32; 4]);
}

fn expected_boot_cell(x: usize, y: usize, width: usize) -> u32 {
    if x >= width {
        return 0xeeeeeeee;
    }
    if x == y && x < 256 {
        return 0x010101 * x as u32;
    }
    if (128..256).contains(&x) && (128..256).contains(&y) {
        0x0000ff
    } else if (64..128).contains(&x) && (64..128).contains(&y) {
        0x00ff00
    } else if (32..64).contains(&x) && (32..64).contains(&y) {
        0xff0000
    } else {
        0
    }
}

#[test]
fn boot_screen_on_a_padded_display() {
    let (width, height, stride) = (800usize, 600usize, 832usize);
    let mut mem = vec![0xeeeeeeee_u32; stride * height];
    {
        let gp = descriptor(&mut mem[..], 800, 600, 832);
        let mut halted = efi_main(EfiStatus(0), Some(gp));
        assert_eq!(halted.outcome, Ok(()));
        let vram = halted.vram.as_mut().expect("no frame buffer");
        assert_eq!(vram.pixel_at_mut(40, 40).map(|c| *c), Some(0x282828));
        assert_eq!(vram.pixel_at_mut(41, 40).map(|c| *c), Some(0xff0000));
        assert_eq!(vram.pixel_at_mut(100, 101).map(|c| *c), Some(0x00ff00));
        assert_eq!(vram.pixel_at_mut(200, 130).map(|c| *c), Some(0x0000ff));
        assert_eq!(vram.pixel_at_mut(255, 255).map(|c| *c), Some(0xffffff));
        assert_eq!(vram.pixel_at_mut(0, 0).map(|c| *c), Some(0));
        assert_eq!(vram.pixel_at_mut(799, 599).map(|c| *c), Some(0));
        assert!(vram.pixel_at_mut(800, 0).is_none());
    }
    for y in 0..height {
        for x in 0..stride {
            assert_eq!(mem[y * stride + x], expected_boot_cell(x, y, width), "({}, {})", x, y);
        }
    }
}

#[test]
fn boot_stops_without_a_frame_buffer() {
    let halted = efi_main(EfiStatus(0x8000_0000_0000_000e), None);
    assert!(halted.vram.is_none());
    assert_eq!(halted.outcome, Err(VramError::LocateError));

    let mut mem = vec![1u32; 300 * 300];
    {
        let gp = descriptor(&mut mem[..], 300, 300, 300);
        let halted = efi_main(EfiStatus(3), Some(gp));
        assert!(halted.vram.is_none());
        assert_eq!(halted.outcome, Err(VramError::LocateError));
    }
    assert!(mem.iter().all(|c| *c == 1));
}

#[test]
fn boot_stops_at_the_first_rectangle_that_does_not_fit() {
    // 100 x 100: the background and the red square fit, the green one does not
    let mut mem = vec![0x77u32; 100 * 100];
    {
        let gp = descriptor(&mut mem[..], 100, 100, 100);
        let halted = efi_main(EfiStatus(0), Some(gp));
        assert!(halted.vram.is_some());
        assert_eq!(halted.outcome, Err(VramError::OutOfBounds));
    }
    for y in 0..100usize {
        for x in 0..100usize {
            let red = (32..64).contains(&x) && (32..64).contains(&y);
            assert_eq!(mem[y * 100 + x], if red { 0xff0000 } else { 0 }, "({}, {})", x, y);
        }
    }
}

#[test]
fn boot_on_an_empty_display_draws_nothing() {
    let mut mem = vec![0x77u32; 16];
    {
        let gp = descriptor(&mut mem[..], 0, 0, 0);
        let halted = efi_main(EfiStatus(0), Some(gp));
        assert!(halted.vram.is_some());
        assert_eq!(halted.outcome, Err(VramError::OutOfBounds));
    }
    assert_eq!(mem, vec![0x77u32; 16]);
}

#[test]
fn boot_with_a_stride_below_the_width_refuses_the_background() {
    let mut mem = vec![0x77u32; 300 * 300];
    {
        let gp = descriptor(&mut mem[..], 300, 300, 256);
        let halted = efi_main(EfiStatus(0), Some(gp));
        assert_eq!(halted.outcome, Err(VramError::OutOfBounds));
    }
    assert!(mem.iter().all(|c| *c == 0x77));
}
