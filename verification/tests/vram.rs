use hypercubed::ps2::display::PixelStorageMethod;
use hypercubed::ps2::draw::{Framebuffer, FramebufferInitArgs, ZBuffer, ZBufferInitArgs};
use hypercubed::ps2::gs::{DepthTestMethod, SetFramebuffer1, SetZBuffer1};
use hypercubed::ps2::vram::{Buffer, OutOfMemoryError, Placement, Texture, VramAllocator, PAGE_SIZE};

#[test]
fn reserve_lowest_and_highest() {
    let mut vram = VramAllocator::new();
    let low = vram.reserve(10, Placement::PreferLowest).unwrap();
    assert_eq!(low.start_address(), 0);
    assert_eq!(low.size(), 10 * PAGE_SIZE);
    let high = vram.reserve(12, Placement::PreferHighest).unwrap();
    assert_eq!(high.start_address(), (512 - 12) * PAGE_SIZE);
    let next = vram.reserve(1, Placement::PreferLowest).unwrap();
    assert_eq!(next.start_address(), 10 * PAGE_SIZE);
}

#[test]
fn reserve_fails_when_no_gap_fits() {
    let mut vram = VramAllocator::new();
    assert_eq!(vram.reserve(513, Placement::PreferLowest).unwrap_err(), OutOfMemoryError);
    let all = vram.reserve(512, Placement::PreferHighest).unwrap();
    assert_eq!(all.start_address(), 0);
    assert!(vram.reserve(1, Placement::PreferLowest).is_err());
    assert_eq!(OutOfMemoryError.message(), "out of video memory");
}

#[test]
fn reserve_release_reserve_gives_the_same_pages() {
    let mut vram = VramAllocator::new();
    let a = Buffer::new(&mut vram, 100, Placement::PreferLowest).unwrap();
    let b = Buffer::new(&mut vram, 50, Placement::PreferLowest).unwrap();
    assert_eq!(b.start_address(), 100 * PAGE_SIZE);
    a.release(&mut vram);
    let c = Buffer::new(&mut vram, 100, Placement::PreferLowest).unwrap();
    assert_eq!(c.start_address(), 0);
    let d = Buffer::new(&mut vram, 400, Placement::PreferLowest);
    assert!(d.is_err());
}

#[test]
fn texture_sizes() {
    // 640 x 448 at 32 bits is 1146880 bytes, 140 pages.
    assert_eq!(Texture::calculate_size(640, 448, PixelStorageMethod::Psm32, PAGE_SIZE), 140 * PAGE_SIZE);
    // 16-bit formats take half; widths are padded to 64 pixels.
    assert_eq!(Texture::calculate_size(100, 10, PixelStorageMethod::Psm16, 1), 128 * 10 * 2);
    // Palette formats pad to 128, and 4-bit pixels take half a byte.
    assert_eq!(Texture::calculate_size(130, 2, PixelStorageMethod::Psm4, 1), 256);
    // A small palette (16 wide or less) is not padded.
    assert_eq!(Texture::calculate_size(16, 16, PixelStorageMethod::Psm32, 1), 1024);
    // 120 bytes round up to the next multiple of a power-of-two alignment.
    assert_eq!(Texture::calculate_size(10, 3, PixelStorageMethod::Psm32, 64), 128);
    assert_eq!(Texture::calculate_size(10, 3, PixelStorageMethod::Psm32, 8), 120);
    let mut vram = VramAllocator::new();
    let t = Texture::new(&mut vram, 640, 448, PixelStorageMethod::Psm32, Placement::PreferHighest).unwrap();
    assert_eq!(t.buffer_size(), 140 * PAGE_SIZE);
    assert_eq!(t.start_address(), (512 - 140) * PAGE_SIZE);
    assert_eq!(t.width(), 640);
    assert_eq!(t.pixel_format(), PixelStorageMethod::Psm32);
}

#[test]
fn framebuffer_and_depth_buffer_registers() {
    let mut vram = VramAllocator::new();
    let fb = Framebuffer::new(
        &mut vram,
        FramebufferInitArgs {
            width: 640,
            height: 448,
            pixel_format: PixelStorageMethod::Psm32,
            mask: 0xFF00_0000,
            placement_preference: Placement::PreferLowest,
        },
    )
    .unwrap();
    let zb = ZBuffer::new(
        &mut vram,
        ZBufferInitArgs {
            width: 640,
            height: 448,
            pixel_format: PixelStorageMethod::PsmZ24,
            depth_test_method: DepthTestMethod::GreaterThan,
            mask: true,
            placement_preference: Placement::PreferLowest,
        },
    )
    .unwrap();
    assert_eq!(fb.start_address(), 0);
    assert_eq!(zb.start_address(), 140 * PAGE_SIZE);
    assert_eq!(zb.get_depth_test_method(), DepthTestMethod::GreaterThan);
    let frame = SetFramebuffer1::new(&fb);
    assert_eq!(frame.get_shifted_base_address(), 0);
    assert_eq!(frame.get_shifted_buffer_width(), 10);
    assert_eq!(frame.get_format_raw(), 0);
    assert_eq!(frame.get_mask(), 0xFF00_0000);
    assert_eq!(frame.to_framebuffer_2_packet_data(), [frame.0, 0x4D]);
    let z = SetZBuffer1::new(&zb);
    // 140 pages of 8 KiB is address 0x118000, base 0x118000 / 2048 = 560, kept to 9 bits.
    assert_eq!(z.get_shifted_base_address(), 560 & 0x1FF);
    assert_eq!(z.get_format_raw(), 1);
    assert!(z.get_masked());
    assert_eq!(z.to_z_buffer_2_packet_data(), [z.0, 0x4F]);
}

#[test]
fn releasing_buffers_gives_their_pages_back() {
    let mut vram = VramAllocator::new();
    let fb = Framebuffer::new(
        &mut vram,
        FramebufferInitArgs {
            width: 640,
            height: 448,
            pixel_format: PixelStorageMethod::Psm32,
            mask: 0,
            placement_preference: Placement::PreferLowest,
        },
    )
    .unwrap();
    let zb = ZBuffer::new(
        &mut vram,
        ZBufferInitArgs {
            width: 640,
            height: 448,
            pixel_format: PixelStorageMethod::PsmZ24,
            depth_test_method: DepthTestMethod::GreaterThan,
            mask: false,
            placement_preference: Placement::PreferLowest,
        },
    )
    .unwrap();
    assert_eq!(zb.start_address(), 140 * PAGE_SIZE);
    fb.release(&mut vram);
    let t = Texture::new(&mut vram, 640, 448, PixelStorageMethod::Psm32, Placement::PreferLowest).unwrap();
    assert_eq!(t.start_address(), 0);
    zb.release(&mut vram);
    t.release(&mut vram);
    // Everything is free again.
    assert_eq!(vram.reserve(512, Placement::PreferLowest).unwrap().start_address(), 0);
}
