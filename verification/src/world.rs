//! World geometry: the height of the world, and where a block lies among chunks and sections.
use vstd::prelude::*;

verus! {

/// Blocks along each side of a subchunk.
pub const SUBCHUNK_AXIS_LEN_I32: i32 = 16;

/// The lowest block height of the world.
pub const MIN_HEIGHT_I32: i32 = -64;

/// The highest block height of the world.
pub const MAX_HEIGHT_I32: i32 = 319;

/// `v` divided by 16, rounded down.
pub fn div_euclid_16(v: i32) -> (q: i32)
    ensures
        q == v / 16,
{
    let shifted: i64 = v as i64 + 0x8000_0000;
    (shifted / 16 - 0x800_0000) as i32
}

/// The remainder of `v` divided by 16, from 0 to 15.
pub fn rem_euclid_16(v: i32) -> (r: i32)
    ensures
        r == v % 16,
        0 <= r < 16,
{
    let shifted: i64 = v as i64 + 0x8000_0000;
    (shifted % 16) as i32
}

/// The subchunk (column `x`, section `y`, column `z`) that holds the block at `block`, such as
/// the block the camera is in, where a visibility search starts.
pub fn subchunk_containing(block: [i32; 3]) -> (s: [i32; 3])
    requires
        block[1] - MIN_HEIGHT_I32 <= i32::MAX,
    ensures
        s[0] == block[0] / 16,
        s[1] == (block[1] - MIN_HEIGHT_I32) / 16,
        s[2] == block[2] / 16,
        16 * s[0] <= block[0] < 16 * s[0] + 16,
        16 * s[1] + MIN_HEIGHT_I32 <= block[1] < 16 * s[1] + MIN_HEIGHT_I32 + 16,
        16 * s[2] <= block[2] < 16 * s[2] + 16,
{
    let x = div_euclid_16(block[0]);
    let y = div_euclid_16(block[1] - MIN_HEIGHT_I32);
    let z = div_euclid_16(block[2]);
    proof {
        vstd::arithmetic::div_mod::lemma_fundamental_div_mod(block[0] as int, 16);
        vstd::arithmetic::div_mod::lemma_fundamental_div_mod(block[1] - MIN_HEIGHT_I32, 16);
        vstd::arithmetic::div_mod::lemma_fundamental_div_mod(block[2] as int, 16);
    }
    [x, y, z]
}

/// Where a block lies: its chunk column, its section, and its position in the section.
#[derive(Clone, Copy, Debug, PartialEq, Eq, Structural)]
pub struct BlockLocation {
    pub chunk_x: i32,
    pub chunk_z: i32,
    pub section: usize,
    pub x: usize,
    pub y: usize,
    pub z: usize,
}

/// Where the block at `global_pos` lies, or `None` below the bottom of the world.
pub fn get_section_info_and_inner_pos(global_pos: [i32; 3]) -> (r: Option<BlockLocation>)
    requires
        global_pos[1] - MIN_HEIGHT_I32 <= i32::MAX,
    ensures
        match r {
            None => global_pos[1] < MIN_HEIGHT_I32,
            Some(l) => {
                &&& global_pos[1] >= MIN_HEIGHT_I32
                &&& l.chunk_x == global_pos[0] / 16
                &&& l.chunk_z == global_pos[2] / 16
                &&& l.section == (global_pos[1] - MIN_HEIGHT_I32) / 16
                &&& l.x == global_pos[0] % 16
                &&& l.y == global_pos[1] % 16
                &&& l.z == global_pos[2] % 16
            },
        },
{
    let (gx, gy, gz) = (global_pos[0], global_pos[1], global_pos[2]);
    let chunk_x = div_euclid_16(gx);
    let chunk_z = div_euclid_16(gz);
    let section_i = div_euclid_16(gy - MIN_HEIGHT_I32);
    if section_i < 0 {
        return None;
    }
    Some(
        BlockLocation {
            chunk_x,
            chunk_z,
            section: section_i as usize,
            x: rem_euclid_16(gx) as usize,
            y: rem_euclid_16(gy) as usize,
            z: rem_euclid_16(gz) as usize,
        },
    )
}

/// A block location names its block: chunk and position put back together give the block.
pub proof fn lemma_block_location_round_trip(global_pos: [i32; 3], l: BlockLocation)
    requires
        global_pos[1] >= MIN_HEIGHT_I32,
        l.chunk_x == global_pos[0] / 16,
        l.chunk_z == global_pos[2] / 16,
        l.section == (global_pos[1] - MIN_HEIGHT_I32) / 16,
        l.x == global_pos[0] % 16,
        l.y == global_pos[1] % 16,
        l.z == global_pos[2] % 16,
    ensures
        l.chunk_x * 16 + l.x == global_pos[0],
        l.chunk_z * 16 + l.z == global_pos[2],
        l.section * 16 + l.y + MIN_HEIGHT_I32 == global_pos[1],
        l.x < 16 && l.y < 16 && l.z < 16,
{
    let (gx, gy, gz) = (global_pos[0] as int, global_pos[1] as int, global_pos[2] as int);
    vstd::arithmetic::div_mod::lemma_fundamental_div_mod(gx, 16);
    vstd::arithmetic::div_mod::lemma_fundamental_div_mod(gz, 16);
    vstd::arithmetic::div_mod::lemma_fundamental_div_mod(gy + 64, 16);
    vstd::arithmetic::div_mod::lemma_fundamental_div_mod(gy, 16);
    assert((gy + 64) % 16 == gy % 16) by {
        vstd::arithmetic::div_mod::lemma_mod_add_multiples_vanish(gy, 16);
        vstd::arithmetic::div_mod::lemma_mod_add_multiples_vanish(gy + 16, 16);
        vstd::arithmetic::div_mod::lemma_mod_add_multiples_vanish(gy + 32, 16);
        vstd::arithmetic::div_mod::lemma_mod_add_multiples_vanish(gy + 48, 16);
    }
}

/// The world coordinates of the lowest corner of the subchunk in column `x`, `z`, section `y`.
pub fn subchunk_start_coords(subchunk: [i32; 3]) -> (c: [i32; 3])
    requires
        i32::MIN <= 16 * subchunk[0] <= i32::MAX,
        i32::MIN <= 16 * subchunk[1] <= i32::MAX,
        i32::MIN <= 16 * subchunk[1] + MIN_HEIGHT_I32,
        i32::MIN <= 16 * subchunk[2] <= i32::MAX,
    ensures
        c[0] == 16 * subchunk[0],
        c[1] == 16 * subchunk[1] + MIN_HEIGHT_I32,
        c[2] == 16 * subchunk[2],
{
    let (x, y, z) = (subchunk[0], subchunk[1], subchunk[2]);
    [SUBCHUNK_AXIS_LEN_I32 * x, SUBCHUNK_AXIS_LEN_I32 * y + MIN_HEIGHT_I32, SUBCHUNK_AXIS_LEN_I32 * z]
}

} // verus!
