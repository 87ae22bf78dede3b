//! Frame-buffer settings of the two rectangular-area read circuits (DISPFB1/DISPFB2).
use vstd::prelude::*;
use crate::ps2::display::PixelStorageMethod;

verus! {

/// One of the two read circuits.
#[derive(Clone, Copy, Debug, PartialEq, Eq, Structural)]
pub enum DisplayIndex {
    Display1,
    Display2,
}

/// Frame-buffer settings of one read circuit.
#[derive(Clone, Copy, Debug)]
pub struct SetArgs {
    pub shifted_address: u16,
    pub shifted_width: u8,
    pub psm: PixelStorageMethod,
    pub dbx: u16,
    pub dby: u16,
}

/// The register address of a read circuit's frame-buffer settings.
pub fn register_address(display: DisplayIndex) -> (a: u32)
    ensures
        a == match display {
            DisplayIndex::Display1 => 0x12000070u32,
            DisplayIndex::Display2 => 0x12000090u32,
        },
{
    match display {
        DisplayIndex::Display1 => 0x12000070,
        DisplayIndex::Display2 => 0x12000090,
    }
}

/// The low and high words written to the register.
pub open spec fn spec_encode(args: SetArgs) -> (u32, u32) {
    (
        (args.shifted_address as u32 & 0x1FF) | ((args.shifted_width as u32 & 0x3F) << 9) | ((
        args.psm.spec_code() as u32) << 15),
        (args.dbx as u32 & 0x7FF) | ((args.dby as u32 & 0x7FF) << 11),
    )
}

/// Encodes the settings as the register's low and high words.
pub fn encode(args: SetArgs) -> (words: (u32, u32))
    ensures
        words == spec_encode(args),
        words.0 & 0x1FF == args.shifted_address as u32 & 0x1FF,
        (words.0 >> 9) & 0x3F == args.shifted_width as u32 & 0x3F,
        words.0 >> 15 == args.psm.spec_code() as u32,
        words.1 & 0x7FF == args.dbx as u32 & 0x7FF,
        words.1 >> 11 == args.dby as u32 & 0x7FF,
{
    let a = args.shifted_address as u32;
    let w = args.shifted_width as u32;
    let p = args.psm.code() as u32;
    let x = args.dbx as u32;
    let y = args.dby as u32;
    let low: u32 = (a & 0x1FF) | ((w & 0x3F) << 9) | (p << 15);
    let high: u32 = (x & 0x7FF) | ((y & 0x7FF) << 11);
    assert(((((a & 0x1FF) | ((w & 0x3F) << 9) | (p << 15)) & 0x1FF) == a & 0x1FF) && (((((a
        & 0x1FF) | ((w & 0x3F) << 9) | (p << 15)) >> 9) & 0x3F) == w & 0x3F) && ((((a & 0x1FF) | ((
    w & 0x3F) << 9) | (p << 15)) >> 15) == p) && ((((x & 0x7FF) | ((y & 0x7FF) << 11)) & 0x7FF)
        == x & 0x7FF) && ((((x & 0x7FF) | ((y & 0x7FF) << 11)) >> 11) == y & 0x7FF))
        by (bit_vector)
        requires
            p < 64,
    ;
    (low, high)
}

/// The settings of both read circuits for a frame buffer shown at (`x`, `y`): the second
/// circuit reads one line lower, for the flicker filter.
pub fn filtered_framebuffer_args(
    vram_framebuffer_address: u32,
    width: u32,
    psm: PixelStorageMethod,
    x: u32,
    y: u32,
) -> (args: (SetArgs, SetArgs))
    requires
        vram_framebuffer_address >> 11 <= u16::MAX,
        width >> 6 <= u8::MAX,
        x <= u16::MAX,
        y + 1 <= u16::MAX,
    ensures
        args.0.shifted_address == vram_framebuffer_address >> 11,
        args.0.shifted_width == width >> 6,
        args.0.psm == psm,
        args.0.dbx == x,
        args.0.dby == y,
        args.1.shifted_address == vram_framebuffer_address >> 11,
        args.1.shifted_width == width >> 6,
        args.1.psm == psm,
        args.1.dbx == x,
        args.1.dby == y + 1,
{
    let shifted_address = (vram_framebuffer_address >> 11) as u16;
    let shifted_width = (width >> 6) as u8;
    (
        SetArgs { shifted_address, shifted_width, psm, dbx: x as u16, dby: y as u16 },
        SetArgs { shifted_address, shifted_width, psm, dbx: x as u16, dby: (y + 1) as u16 },
    )
}

} // verus!
