//! Screen placement settings of the two rectangular-area read circuits (DISPLAY1/DISPLAY2).
use vstd::prelude::*;

verus! {

pub use crate::ps2::display_fb::DisplayIndex;

/// Screen placement of one read circuit.
#[derive(Clone, Copy, Debug, PartialEq, Eq, Structural)]
pub struct SetArgs {
    pub dx: u16,
    pub dy: u16,
    pub magh: u8,
    pub magv: u8,
    pub dw: u16,
    pub dh: u16,
}

/// The register address of a read circuit's screen placement.
pub fn register_address(display: DisplayIndex) -> (a: u32)
    ensures
        a == match display {
            DisplayIndex::Display1 => 0x12000080u32,
            DisplayIndex::Display2 => 0x120000A0u32,
        },
{
    match display {
        DisplayIndex::Display1 => 0x12000080,
        DisplayIndex::Display2 => 0x120000A0,
    }
}

pub open spec fn spec_encode(args: SetArgs) -> (u32, u32) {
    (
        (args.dx as u32 & 0xFFF) | ((args.dy as u32 & 0x7FF) << 12) | ((args.magh as u32 & 0xF)
            << 23) | ((args.magv as u32 & 0x3) << 27),
        (args.dw as u32 & 0xFFF) | ((args.dh as u32 & 0x7FF) << 12),
    )
}

/// Encodes the placement as the register's low and high words.
pub fn encode(args: SetArgs) -> (words: (u32, u32))
    ensures
        words == spec_encode(args),
        words.0 & 0xFFF == args.dx as u32 & 0xFFF,
        (words.0 >> 12) & 0x7FF == args.dy as u32 & 0x7FF,
        (words.0 >> 23) & 0xF == args.magh as u32 & 0xF,
        (words.0 >> 27) == args.magv as u32 & 0x3,
        words.1 & 0xFFF == args.dw as u32 & 0xFFF,
        words.1 >> 12 == args.dh as u32 & 0x7FF,
{
    let dx = args.dx as u32;
    let dy = args.dy as u32;
    let mh = args.magh as u32;
    let mv = args.magv as u32;
    let dw = args.dw as u32;
    let dh = args.dh as u32;
    let low: u32 = (dx & 0xFFF) | ((dy & 0x7FF) << 12) | ((mh & 0xF) << 23) | ((mv & 0x3) << 27);
    let high: u32 = (dw & 0xFFF) | ((dh & 0x7FF) << 12);
    assert(((((dx & 0xFFF) | ((dy & 0x7FF) << 12) | ((mh & 0xF) << 23) | ((mv & 0x3) << 27))
        & 0xFFF) == dx & 0xFFF) && (((((dx & 0xFFF) | ((dy & 0x7FF) << 12) | ((mh & 0xF) << 23) | (
    (mv & 0x3) << 27)) >> 12) & 0x7FF) == dy & 0x7FF) && (((((dx & 0xFFF) | ((dy & 0x7FF) << 12)
        | ((mh & 0xF) << 23) | ((mv & 0x3) << 27)) >> 23) & 0xF) == mh & 0xF) && ((((dx & 0xFFF) | (
    (dy & 0x7FF) << 12) | ((mh & 0xF) << 23) | ((mv & 0x3) << 27)) >> 27) == mv & 0x3) && ((((dw
        & 0xFFF) | ((dh & 0x7FF) << 12)) & 0xFFF) == dw & 0xFFF) && ((((dw & 0xFFF) | ((dh & 0x7FF)
        << 12)) >> 12) == dh & 0x7FF)) by (bit_vector);
    (low, high)
}

} // verus!
