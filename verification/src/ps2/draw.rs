//! Frame buffers and depth buffers in video memory.
use vstd::prelude::*;
use crate::ps2::display::PixelStorageMethod;
use crate::ps2::gs::DepthTestMethod;
use crate::ps2::vram::{
    spec_texture_pages, size_fits, any_gap_fits, reservation_placed, OutOfMemoryError, Placement,
    Texture, VramAllocator, MAX_ALLOCATIONS, PAGE_SIZE, allocated_at, released_at,
};

verus! {

/// A colour frame buffer.
#[derive(Debug)]
pub struct Framebuffer {
    texture: Texture,
    pub mask: u32,
}

/// What a frame buffer is made from.
#[derive(Clone, Copy, Debug, PartialEq, Eq, Structural)]
pub struct FramebufferInitArgs {
    pub width: u32,
    pub height: u32,
    pub pixel_format: PixelStorageMethod,
    pub mask: u32,
    pub placement_preference: Placement,
}

/// The texture of a new buffer can be made without overflow or running out of slots.
pub open spec fn texture_request_ok(
    vram: &VramAllocator,
    width: u32,
    height: u32,
    pf: PixelStorageMethod,
) -> bool {
    &&& vram.wf()
    &&& size_fits(width, height, pf, PAGE_SIZE)
    &&& spec_texture_pages(width, height, pf) <= u16::MAX
    &&& vram.allocations().len() < MAX_ALLOCATIONS || !any_gap_fits(
        vram.allocations(),
        spec_texture_pages(width, height, pf) as u16,
    )
}

/// The outcome of making a buffer's texture.
pub open spec fn texture_made(
    before: &VramAllocator,
    after: &VramAllocator,
    width: u32,
    height: u32,
    pf: PixelStorageMethod,
    placement: Placement,
    r: Result<&Texture, OutOfMemoryError>,
) -> bool {
    let pages = spec_texture_pages(width, height, pf) as u16;
    &&& after.wf()
    &&& r is Err == !any_gap_fits(before.allocations(), pages)
    &&& r is Err ==> after.allocations() == before.allocations()
    &&& r matches Ok(t) ==> {
        &&& t.spec_width() == width
        &&& t.spec_height() == height
        &&& t.spec_pixel_format() == pf
        &&& t.spec_buffer().spec_num_pages() == pages
        &&& reservation_placed(
            before.allocations(),
            after.allocations(),
            placement,
            pages,
            t.spec_buffer().spec_start_page(),
        )
    }
}

impl Framebuffer {
    pub closed spec fn spec_texture(&self) -> &Texture {
        &self.texture
    }

    /// The write mask of the frame buffer.
    pub closed spec fn spec_mask(&self) -> u32 {
        self.mask
    }

    /// Byte address of the frame buffer in video memory.
    pub open spec fn spec_start_address(&self) -> int {
        self.spec_texture().spec_buffer().spec_start_page() * PAGE_SIZE
    }

    pub fn get_mask(&self) -> (m: u32)
        ensures
            m == self.spec_mask(),
    {
        self.mask
    }

    /// Gives the frame buffer's video memory back to the allocator.
    pub fn release(self, vram: &mut VramAllocator)
        requires
            old(vram).wf(),
            allocated_at(old(vram).allocations(), self.spec_texture().spec_buffer().spec_start_page()),
        ensures
            final(vram).wf(),
            released_at(
                old(vram).allocations(),
                final(vram).allocations(),
                self.spec_texture().spec_buffer().spec_start_page(),
            ),
    {
        self.texture.release(vram);
    }

    /// Makes a frame buffer, reserving its video memory.
    pub fn new(vram: &mut VramAllocator, args: FramebufferInitArgs) -> (r: Result<
        Self,
        OutOfMemoryError,
    >)
        requires
            texture_request_ok(old(vram), args.width, args.height, args.pixel_format),
        ensures
            texture_made(
                old(vram),
                final(vram),
                args.width,
                args.height,
                args.pixel_format,
                args.placement_preference,
                match r {
                    Ok(f) => Ok(f.spec_texture()),
                    Err(e) => Err(e),
                },
            ),
            r matches Ok(f) ==> f.spec_mask() == args.mask,
    {
        let texture = match Texture::new(
            vram,
            args.width,
            args.height,
            args.pixel_format,
            args.placement_preference,
        ) {
            Ok(t) => t,
            Err(e) => {
                return Err(e);
            },
        };
        Ok(Self { texture, mask: args.mask })
    }

    pub fn get_texture(&self) -> (t: &Texture)
        ensures
            t == self.spec_texture(),
    {
        &self.texture
    }

    pub fn width(&self) -> (w: u32)
        ensures
            w == self.spec_texture().spec_width(),
    {
        self.texture.width()
    }

    pub fn height(&self) -> (h: u32)
        ensures
            h == self.spec_texture().spec_height(),
    {
        self.texture.height()
    }

    pub fn pixel_format(&self) -> (p: PixelStorageMethod)
        ensures
            p == self.spec_texture().spec_pixel_format(),
    {
        self.texture.pixel_format()
    }

    pub fn start_address(&self) -> (a: u32)
        ensures
            a == self.spec_texture().spec_buffer().spec_start_page() * PAGE_SIZE,
    {
        self.texture.start_address()
    }

    pub fn buffer_size(&self) -> (s: u32)
        ensures
            s == self.spec_texture().spec_buffer().spec_num_pages() * PAGE_SIZE,
    {
        self.texture.buffer_size()
    }
}

/// A depth buffer.
#[derive(Debug)]
pub struct ZBuffer {
    texture: Texture,
    pub depth_test_method: DepthTestMethod,
    pub mask: bool,
}

/// What a depth buffer is made from.
#[derive(Clone, Copy, Debug, PartialEq, Eq, Structural)]
pub struct ZBufferInitArgs {
    pub width: u32,
    pub height: u32,
    pub pixel_format: PixelStorageMethod,
    pub depth_test_method: DepthTestMethod,
    pub mask: bool,
    pub placement_preference: Placement,
}

impl ZBuffer {
    pub closed spec fn spec_texture(&self) -> &Texture {
        &self.texture
    }

    /// Gives the depth buffer's video memory back to the allocator.
    pub fn release(self, vram: &mut VramAllocator)
        requires
            old(vram).wf(),
            allocated_at(old(vram).allocations(), self.spec_texture().spec_buffer().spec_start_page()),
        ensures
            final(vram).wf(),
            released_at(
                old(vram).allocations(),
                final(vram).allocations(),
                self.spec_texture().spec_buffer().spec_start_page(),
            ),
    {
        self.texture.release(vram);
    }

    /// Whether depth writes are masked.
    pub closed spec fn spec_mask(&self) -> bool {
        self.mask
    }

    /// How depths are compared.
    pub closed spec fn spec_depth_test_method(&self) -> DepthTestMethod {
        self.depth_test_method
    }

    /// Byte address of the depth buffer in video memory.
    pub open spec fn spec_start_address(&self) -> int {
        self.spec_texture().spec_buffer().spec_start_page() * PAGE_SIZE
    }

    pub fn get_masked(&self) -> (m: bool)
        ensures
            m == self.spec_mask(),
    {
        self.mask
    }

    pub fn get_depth_test_method(&self) -> (m: DepthTestMethod)
        ensures
            m == self.spec_depth_test_method(),
    {
        self.depth_test_method
    }

    /// Makes a depth buffer, reserving its video memory.
    pub fn new(vram: &mut VramAllocator, args: ZBufferInitArgs) -> (r: Result<
        Self,
        OutOfMemoryError,
    >)
        requires
            texture_request_ok(old(vram), args.width, args.height, args.pixel_format),
        ensures
            texture_made(
                old(vram),
                final(vram),
                args.width,
                args.height,
                args.pixel_format,
                args.placement_preference,
                match r {
                    Ok(z) => Ok(z.spec_texture()),
                    Err(e) => Err(e),
                },
            ),
            r matches Ok(z) ==> z.spec_mask() == args.mask && z.spec_depth_test_method()
                == args.depth_test_method,
    {
        let texture = match Texture::new(
            vram,
            args.width,
            args.height,
            args.pixel_format,
            args.placement_preference,
        ) {
            Ok(t) => t,
            Err(e) => {
                return Err(e);
            },
        };
        Ok(Self { texture, depth_test_method: args.depth_test_method, mask: args.mask })
    }

    pub fn get_texture(&self) -> (t: &Texture)
        ensures
            t == self.spec_texture(),
    {
        &self.texture
    }

    pub fn width(&self) -> (w: u32)
        ensures
            w == self.spec_texture().spec_width(),
    {
        self.texture.width()
    }

    pub fn height(&self) -> (h: u32)
        ensures
            h == self.spec_texture().spec_height(),
    {
        self.texture.height()
    }

    pub fn pixel_format(&self) -> (p: PixelStorageMethod)
        ensures
            p == self.spec_texture().spec_pixel_format(),
    {
        self.texture.pixel_format()
    }

    pub fn start_address(&self) -> (a: u32)
        ensures
            a == self.spec_texture().spec_buffer().spec_start_page() * PAGE_SIZE,
    {
        self.texture.start_address()
    }

    pub fn buffer_size(&self) -> (s: u32)
        ensures
            s == self.spec_texture().spec_buffer().spec_num_pages() * PAGE_SIZE,
    {
        self.texture.buffer_size()
    }
}

} // verus!
