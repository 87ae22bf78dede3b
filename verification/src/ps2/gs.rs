//! Graphics-synthesiser register contents, as sent in GIF packets.
use vstd::prelude::*;
use crate::bitfield::{get_field, set_field, spec_get_field, spec_set_field, low_mask, lemma_get_set_same};
use crate::ps2::display::PixelStorageMethod;
use crate::ps2::draw;
use crate::ps2::gif::GsRegisterPacketData;
use crate::ps2::vram::PAGE_SIZE;
use crate::bitfield::{lemma_get_set_other, lemma_get_set_flag, lemma_get_field_bound};

verus! {

/// Values of 1, 2, ..., 32 bits.
pub proof fn lemma_low_masks()
    ensures
        low_mask(1) == 1,
        low_mask(2) == 3,
        low_mask(3) == 7,
        low_mask(4) == 15,
        low_mask(6) == 63,
        low_mask(8) == 255,
        low_mask(9) == 511,
        low_mask(11) == 2047,
        low_mask(15) == 0x7FFF,
        low_mask(16) == 0xFFFF,
        low_mask(32) == 0xFFFF_FFFF,
{
    assert(((1u64 << 1u64) - 1) as u64 == 1 && ((1u64 << 2u64) - 1) as u64 == 3 && ((1u64 << 3u64) - 1) as u64 == 7
        && ((1u64 << 4u64) - 1) as u64 == 15 && ((1u64 << 6u64) - 1) as u64 == 63 && ((1u64 << 8u64) - 1) as u64 == 255
        && ((1u64 << 9u64) - 1) as u64 == 511 && ((1u64 << 11u64) - 1) as u64 == 2047
        && ((1u64 << 15u64) - 1) as u64 == 0x7FFF && ((1u64 << 16u64) - 1) as u64 == 0xFFFF
        && ((1u64 << 32u64) - 1) as u64 == 0xFFFF_FFFF) by (bit_vector);
}

/// PRIM: the primitive to draw and how.
#[derive(Clone, Copy, Debug, PartialEq, Eq, Structural)]
pub struct SetPrimitive(pub u64);

impl SetPrimitive {
    pub open spec fn spec_primitive_type_raw(self) -> u8 {
        spec_get_field(self.0, 0, 3) as u8
    }

    pub fn get_primitive_type_raw(&self) -> (r: u8)
        ensures
            r == self.spec_primitive_type_raw(),
    {
        get_field(self.0, 0, 3) as u8
    }

    pub fn set_primitive_type_raw(&mut self, value: u8)
        ensures
            final(self).0 == spec_set_field(old(self).0, 0, 3, value as u64),
            final(self).spec_primitive_type_raw() == ((value as u64) & low_mask(3)) as u8,
    {
        proof {
            lemma_get_set_same(self.0, 0, 3, value as u64);
        }
        self.0 = set_field(self.0, 0, 3, value as u64);
    }

    pub open spec fn spec_gouraud_shading_enabled(self) -> bool {
        spec_get_field(self.0, 3, 1) == 1
    }

    pub fn get_gouraud_shading_enabled(&self) -> (r: bool)
        ensures
            r == self.spec_gouraud_shading_enabled(),
    {
        get_field(self.0, 3, 1) == 1
    }

    pub fn set_gouraud_shading_enabled(&mut self, value: bool)
        ensures
            final(self).0 == spec_set_field(old(self).0, 3, 1, if value { 1 } else { 0 }),
            final(self).spec_gouraud_shading_enabled() == value,
    {
        proof {
            lemma_get_set_flag(self.0, 3, value);
        }
        self.0 = set_field(self.0, 3, 1, if value { 1 } else { 0 });
    }

    pub open spec fn spec_texture_mapping_enabled(self) -> bool {
        spec_get_field(self.0, 4, 1) == 1
    }

    pub fn get_texture_mapping_enabled(&self) -> (r: bool)
        ensures
            r == self.spec_texture_mapping_enabled(),
    {
        get_field(self.0, 4, 1) == 1
    }

    pub fn set_texture_mapping_enabled(&mut self, value: bool)
        ensures
            final(self).0 == spec_set_field(old(self).0, 4, 1, if value { 1 } else { 0 }),
            final(self).spec_texture_mapping_enabled() == value,
    {
        proof {
            lemma_get_set_flag(self.0, 4, value);
        }
        self.0 = set_field(self.0, 4, 1, if value { 1 } else { 0 });
    }

    pub open spec fn spec_fog_enabled(self) -> bool {
        spec_get_field(self.0, 5, 1) == 1
    }

    pub fn get_fog_enabled(&self) -> (r: bool)
        ensures
            r == self.spec_fog_enabled(),
    {
        get_field(self.0, 5, 1) == 1
    }

    pub fn set_fog_enabled(&mut self, value: bool)
        ensures
            final(self).0 == spec_set_field(old(self).0, 5, 1, if value { 1 } else { 0 }),
            final(self).spec_fog_enabled() == value,
    {
        proof {
            lemma_get_set_flag(self.0, 5, value);
        }
        self.0 = set_field(self.0, 5, 1, if value { 1 } else { 0 });
    }

    pub open spec fn spec_alpha_blending_enabled(self) -> bool {
        spec_get_field(self.0, 6, 1) == 1
    }

    pub fn get_alpha_blending_enabled(&self) -> (r: bool)
        ensures
            r == self.spec_alpha_blending_enabled(),
    {
        get_field(self.0, 6, 1) == 1
    }

    pub fn set_alpha_blending_enabled(&mut self, value: bool)
        ensures
            final(self).0 == spec_set_field(old(self).0, 6, 1, if value { 1 } else { 0 }),
            final(self).spec_alpha_blending_enabled() == value,
    {
        proof {
            lemma_get_set_flag(self.0, 6, value);
        }
        self.0 = set_field(self.0, 6, 1, if value { 1 } else { 0 });
    }

    pub open spec fn spec_antialiasing_enabled(self) -> bool {
        spec_get_field(self.0, 7, 1) == 1
    }

    pub fn get_antialiasing_enabled(&self) -> (r: bool)
        ensures
            r == self.spec_antialiasing_enabled(),
    {
        get_field(self.0, 7, 1) == 1
    }

    pub fn set_antialiasing_enabled(&mut self, value: bool)
        ensures
            final(self).0 == spec_set_field(old(self).0, 7, 1, if value { 1 } else { 0 }),
            final(self).spec_antialiasing_enabled() == value,
    {
        proof {
            lemma_get_set_flag(self.0, 7, value);
        }
        self.0 = set_field(self.0, 7, 1, if value { 1 } else { 0 });
    }

    pub open spec fn spec_use_uv_coords(self) -> bool {
        spec_get_field(self.0, 8, 1) == 1
    }

    pub fn get_use_uv_coords(&self) -> (r: bool)
        ensures
            r == self.spec_use_uv_coords(),
    {
        get_field(self.0, 8, 1) == 1
    }

    pub fn set_use_uv_coords(&mut self, value: bool)
        ensures
            final(self).0 == spec_set_field(old(self).0, 8, 1, if value { 1 } else { 0 }),
            final(self).spec_use_uv_coords() == value,
    {
        proof {
            lemma_get_set_flag(self.0, 8, value);
        }
        self.0 = set_field(self.0, 8, 1, if value { 1 } else { 0 });
    }

    pub open spec fn spec_use_context_2_regs(self) -> bool {
        spec_get_field(self.0, 9, 1) == 1
    }

    pub fn get_use_context_2_regs(&self) -> (r: bool)
        ensures
            r == self.spec_use_context_2_regs(),
    {
        get_field(self.0, 9, 1) == 1
    }

    pub fn set_use_context_2_regs(&mut self, value: bool)
        ensures
            final(self).0 == spec_set_field(old(self).0, 9, 1, if value { 1 } else { 0 }),
            final(self).spec_use_context_2_regs() == value,
    {
        proof {
            lemma_get_set_flag(self.0, 9, value);
        }
        self.0 = set_field(self.0, 9, 1, if value { 1 } else { 0 });
    }

    pub open spec fn spec_fix_fragment_value_enabled(self) -> bool {
        spec_get_field(self.0, 10, 1) == 1
    }

    pub fn get_fix_fragment_value_enabled(&self) -> (r: bool)
        ensures
            r == self.spec_fix_fragment_value_enabled(),
    {
        get_field(self.0, 10, 1) == 1
    }

    pub fn set_fix_fragment_value_enabled(&mut self, value: bool)
        ensures
            final(self).0 == spec_set_field(old(self).0, 10, 1, if value { 1 } else { 0 }),
            final(self).spec_fix_fragment_value_enabled() == value,
    {
        proof {
            lemma_get_set_flag(self.0, 10, value);
        }
        self.0 = set_field(self.0, 10, 1, if value { 1 } else { 0 });
    }

}
/// PRMODE: drawing attributes used when PRMODECONT selects them.
#[derive(Clone, Copy, Debug, PartialEq, Eq, Structural)]
pub struct SetAlternativePrimitive(pub u64);

impl SetAlternativePrimitive {
    pub open spec fn spec_gouraud_shading_enabled(self) -> bool {
        spec_get_field(self.0, 3, 1) == 1
    }

    pub fn get_gouraud_shading_enabled(&self) -> (r: bool)
        ensures
            r == self.spec_gouraud_shading_enabled(),
    {
        get_field(self.0, 3, 1) == 1
    }

    pub fn set_gouraud_shading_enabled(&mut self, value: bool)
        ensures
            final(self).0 == spec_set_field(old(self).0, 3, 1, if value { 1 } else { 0 }),
            final(self).spec_gouraud_shading_enabled() == value,
    {
        proof {
            lemma_get_set_flag(self.0, 3, value);
        }
        self.0 = set_field(self.0, 3, 1, if value { 1 } else { 0 });
    }

    pub open spec fn spec_texture_mapping_enabled(self) -> bool {
        spec_get_field(self.0, 4, 1) == 1
    }

    pub fn get_texture_mapping_enabled(&self) -> (r: bool)
        ensures
            r == self.spec_texture_mapping_enabled(),
    {
        get_field(self.0, 4, 1) == 1
    }

    pub fn set_texture_mapping_enabled(&mut self, value: bool)
        ensures
            final(self).0 == spec_set_field(old(self).0, 4, 1, if value { 1 } else { 0 }),
            final(self).spec_texture_mapping_enabled() == value,
    {
        proof {
            lemma_get_set_flag(self.0, 4, value);
        }
        self.0 = set_field(self.0, 4, 1, if value { 1 } else { 0 });
    }

    pub open spec fn spec_fog_enabled(self) -> bool {
        spec_get_field(self.0, 5, 1) == 1
    }

    pub fn get_fog_enabled(&self) -> (r: bool)
        ensures
            r == self.spec_fog_enabled(),
    {
        get_field(self.0, 5, 1) == 1
    }

    pub fn set_fog_enabled(&mut self, value: bool)
        ensures
            final(self).0 == spec_set_field(old(self).0, 5, 1, if value { 1 } else { 0 }),
            final(self).spec_fog_enabled() == value,
    {
        proof {
            lemma_get_set_flag(self.0, 5, value);
        }
        self.0 = set_field(self.0, 5, 1, if value { 1 } else { 0 });
    }

    pub open spec fn spec_alpha_blending_enabled(self) -> bool {
        spec_get_field(self.0, 6, 1) == 1
    }

    pub fn get_alpha_blending_enabled(&self) -> (r: bool)
        ensures
            r == self.spec_alpha_blending_enabled(),
    {
        get_field(self.0, 6, 1) == 1
    }

    pub fn set_alpha_blending_enabled(&mut self, value: bool)
        ensures
            final(self).0 == spec_set_field(old(self).0, 6, 1, if value { 1 } else { 0 }),
            final(self).spec_alpha_blending_enabled() == value,
    {
        proof {
            lemma_get_set_flag(self.0, 6, value);
        }
        self.0 = set_field(self.0, 6, 1, if value { 1 } else { 0 });
    }

    pub open spec fn spec_antialiasing_enabled(self) -> bool {
        spec_get_field(self.0, 7, 1) == 1
    }

    pub fn get_antialiasing_enabled(&self) -> (r: bool)
        ensures
            r == self.spec_antialiasing_enabled(),
    {
        get_field(self.0, 7, 1) == 1
    }

    pub fn set_antialiasing_enabled(&mut self, value: bool)
        ensures
            final(self).0 == spec_set_field(old(self).0, 7, 1, if value { 1 } else { 0 }),
            final(self).spec_antialiasing_enabled() == value,
    {
        proof {
            lemma_get_set_flag(self.0, 7, value);
        }
        self.0 = set_field(self.0, 7, 1, if value { 1 } else { 0 });
    }

    pub open spec fn spec_use_uv_coords(self) -> bool {
        spec_get_field(self.0, 8, 1) == 1
    }

    pub fn get_use_uv_coords(&self) -> (r: bool)
        ensures
            r == self.spec_use_uv_coords(),
    {
        get_field(self.0, 8, 1) == 1
    }

    pub fn set_use_uv_coords(&mut self, value: bool)
        ensures
            final(self).0 == spec_set_field(old(self).0, 8, 1, if value { 1 } else { 0 }),
            final(self).spec_use_uv_coords() == value,
    {
        proof {
            lemma_get_set_flag(self.0, 8, value);
        }
        self.0 = set_field(self.0, 8, 1, if value { 1 } else { 0 });
    }

    pub open spec fn spec_use_context_2_regs(self) -> bool {
        spec_get_field(self.0, 9, 1) == 1
    }

    pub fn get_use_context_2_regs(&self) -> (r: bool)
        ensures
            r == self.spec_use_context_2_regs(),
    {
        get_field(self.0, 9, 1) == 1
    }

    pub fn set_use_context_2_regs(&mut self, value: bool)
        ensures
            final(self).0 == spec_set_field(old(self).0, 9, 1, if value { 1 } else { 0 }),
            final(self).spec_use_context_2_regs() == value,
    {
        proof {
            lemma_get_set_flag(self.0, 9, value);
        }
        self.0 = set_field(self.0, 9, 1, if value { 1 } else { 0 });
    }

    pub open spec fn spec_fix_fragment_value_enabled(self) -> bool {
        spec_get_field(self.0, 10, 1) == 1
    }

    pub fn get_fix_fragment_value_enabled(&self) -> (r: bool)
        ensures
            r == self.spec_fix_fragment_value_enabled(),
    {
        get_field(self.0, 10, 1) == 1
    }

    pub fn set_fix_fragment_value_enabled(&mut self, value: bool)
        ensures
            final(self).0 == spec_set_field(old(self).0, 10, 1, if value { 1 } else { 0 }),
            final(self).spec_fix_fragment_value_enabled() == value,
    {
        proof {
            lemma_get_set_flag(self.0, 10, value);
        }
        self.0 = set_field(self.0, 10, 1, if value { 1 } else { 0 });
    }

}
/// FRAME_1: the frame buffer of drawing context 1.
#[derive(Clone, Copy, Debug, PartialEq, Eq, Structural)]
pub struct SetFramebuffer1(pub u64);

impl SetFramebuffer1 {
    pub open spec fn spec_shifted_base_address(self) -> u32 {
        spec_get_field(self.0, 0, 9) as u32
    }

    pub fn get_shifted_base_address(&self) -> (r: u32)
        ensures
            r == self.spec_shifted_base_address(),
    {
        get_field(self.0, 0, 9) as u32
    }

    pub fn set_shifted_base_address(&mut self, value: u32)
        ensures
            final(self).0 == spec_set_field(old(self).0, 0, 9, value as u64),
            final(self).spec_shifted_base_address() == ((value as u64) & low_mask(9)) as u32,
    {
        proof {
            lemma_get_set_same(self.0, 0, 9, value as u64);
        }
        self.0 = set_field(self.0, 0, 9, value as u64);
    }

    pub open spec fn spec_shifted_buffer_width(self) -> u32 {
        spec_get_field(self.0, 16, 6) as u32
    }

    pub fn get_shifted_buffer_width(&self) -> (r: u32)
        ensures
            r == self.spec_shifted_buffer_width(),
    {
        get_field(self.0, 16, 6) as u32
    }

    pub fn set_shifted_buffer_width(&mut self, value: u32)
        ensures
            final(self).0 == spec_set_field(old(self).0, 16, 6, value as u64),
            final(self).spec_shifted_buffer_width() == ((value as u64) & low_mask(6)) as u32,
    {
        proof {
            lemma_get_set_same(self.0, 16, 6, value as u64);
        }
        self.0 = set_field(self.0, 16, 6, value as u64);
    }

    pub open spec fn spec_format_raw(self) -> u8 {
        spec_get_field(self.0, 24, 6) as u8
    }

    pub fn get_format_raw(&self) -> (r: u8)
        ensures
            r == self.spec_format_raw(),
    {
        get_field(self.0, 24, 6) as u8
    }

    pub fn set_format_raw(&mut self, value: u8)
        ensures
            final(self).0 == spec_set_field(old(self).0, 24, 6, value as u64),
            final(self).spec_format_raw() == ((value as u64) & low_mask(6)) as u8,
    {
        proof {
            lemma_get_set_same(self.0, 24, 6, value as u64);
        }
        self.0 = set_field(self.0, 24, 6, value as u64);
    }

    pub open spec fn spec_mask(self) -> u32 {
        spec_get_field(self.0, 32, 32) as u32
    }

    pub fn get_mask(&self) -> (r: u32)
        ensures
            r == self.spec_mask(),
    {
        get_field(self.0, 32, 32) as u32
    }

    pub fn set_mask(&mut self, value: u32)
        ensures
            final(self).0 == spec_set_field(old(self).0, 32, 32, value as u64),
            final(self).spec_mask() == ((value as u64) & low_mask(32)) as u32,
    {
        proof {
            lemma_get_set_same(self.0, 32, 32, value as u64);
        }
        self.0 = set_field(self.0, 32, 32, value as u64);
    }

}
/// ZBUF_1: the depth buffer of drawing context 1.
#[derive(Clone, Copy, Debug, PartialEq, Eq, Structural)]
pub struct SetZBuffer1(pub u64);

impl SetZBuffer1 {
    pub open spec fn spec_shifted_base_address(self) -> u32 {
        spec_get_field(self.0, 0, 9) as u32
    }

    pub fn get_shifted_base_address(&self) -> (r: u32)
        ensures
            r == self.spec_shifted_base_address(),
    {
        get_field(self.0, 0, 9) as u32
    }

    pub fn set_shifted_base_address(&mut self, value: u32)
        ensures
            final(self).0 == spec_set_field(old(self).0, 0, 9, value as u64),
            final(self).spec_shifted_base_address() == ((value as u64) & low_mask(9)) as u32,
    {
        proof {
            lemma_get_set_same(self.0, 0, 9, value as u64);
        }
        self.0 = set_field(self.0, 0, 9, value as u64);
    }

    pub open spec fn spec_format_raw(self) -> u8 {
        spec_get_field(self.0, 24, 4) as u8
    }

    pub fn get_format_raw(&self) -> (r: u8)
        ensures
            r == self.spec_format_raw(),
    {
        get_field(self.0, 24, 4) as u8
    }

    pub fn set_format_raw(&mut self, value: u8)
        ensures
            final(self).0 == spec_set_field(old(self).0, 24, 4, value as u64),
            final(self).spec_format_raw() == ((value as u64) & low_mask(4)) as u8,
    {
        proof {
            lemma_get_set_same(self.0, 24, 4, value as u64);
        }
        self.0 = set_field(self.0, 24, 4, value as u64);
    }

    pub open spec fn spec_masked(self) -> bool {
        spec_get_field(self.0, 32, 1) == 1
    }

    pub fn get_masked(&self) -> (r: bool)
        ensures
            r == self.spec_masked(),
    {
        get_field(self.0, 32, 1) == 1
    }

    pub fn set_masked(&mut self, value: bool)
        ensures
            final(self).0 == spec_set_field(old(self).0, 32, 1, if value { 1 } else { 0 }),
            final(self).spec_masked() == value,
    {
        proof {
            lemma_get_set_flag(self.0, 32, value);
        }
        self.0 = set_field(self.0, 32, 1, if value { 1 } else { 0 });
    }

}
/// SCISSOR_1: the drawing area of context 1.
#[derive(Clone, Copy, Debug, PartialEq, Eq, Structural)]
pub struct SetScissor1(pub u64);

impl SetScissor1 {
    pub open spec fn spec_x_min(self) -> u16 {
        spec_get_field(self.0, 0, 11) as u16
    }

    pub fn get_x_min(&self) -> (r: u16)
        ensures
            r == self.spec_x_min(),
    {
        get_field(self.0, 0, 11) as u16
    }

    pub fn set_x_min(&mut self, value: u16)
        ensures
            final(self).0 == spec_set_field(old(self).0, 0, 11, value as u64),
            final(self).spec_x_min() == ((value as u64) & low_mask(11)) as u16,
    {
        proof {
            lemma_get_set_same(self.0, 0, 11, value as u64);
        }
        self.0 = set_field(self.0, 0, 11, value as u64);
    }

    pub open spec fn spec_x_max(self) -> u16 {
        spec_get_field(self.0, 16, 11) as u16
    }

    pub fn get_x_max(&self) -> (r: u16)
        ensures
            r == self.spec_x_max(),
    {
        get_field(self.0, 16, 11) as u16
    }

    pub fn set_x_max(&mut self, value: u16)
        ensures
            final(self).0 == spec_set_field(old(self).0, 16, 11, value as u64),
            final(self).spec_x_max() == ((value as u64) & low_mask(11)) as u16,
    {
        proof {
            lemma_get_set_same(self.0, 16, 11, value as u64);
        }
        self.0 = set_field(self.0, 16, 11, value as u64);
    }

    pub open spec fn spec_y_min(self) -> u16 {
        spec_get_field(self.0, 32, 11) as u16
    }

    pub fn get_y_min(&self) -> (r: u16)
        ensures
            r == self.spec_y_min(),
    {
        get_field(self.0, 32, 11) as u16
    }

    pub fn set_y_min(&mut self, value: u16)
        ensures
            final(self).0 == spec_set_field(old(self).0, 32, 11, value as u64),
            final(self).spec_y_min() == ((value as u64) & low_mask(11)) as u16,
    {
        proof {
            lemma_get_set_same(self.0, 32, 11, value as u64);
        }
        self.0 = set_field(self.0, 32, 11, value as u64);
    }

    pub open spec fn spec_y_max(self) -> u16 {
        spec_get_field(self.0, 48, 11) as u16
    }

    pub fn get_y_max(&self) -> (r: u16)
        ensures
            r == self.spec_y_max(),
    {
        get_field(self.0, 48, 11) as u16
    }

    pub fn set_y_max(&mut self, value: u16)
        ensures
            final(self).0 == spec_set_field(old(self).0, 48, 11, value as u64),
            final(self).spec_y_max() == ((value as u64) & low_mask(11)) as u16,
    {
        proof {
            lemma_get_set_same(self.0, 48, 11, value as u64);
        }
        self.0 = set_field(self.0, 48, 11, value as u64);
    }

}
/// TEST_1: pixel tests of drawing context 1.
#[derive(Clone, Copy, Debug, PartialEq, Eq, Structural)]
pub struct SetPixelTesting1(pub u64);

impl SetPixelTesting1 {
    pub open spec fn spec_alpha_testing_enabled(self) -> bool {
        spec_get_field(self.0, 0, 1) == 1
    }

    pub fn get_alpha_testing_enabled(&self) -> (r: bool)
        ensures
            r == self.spec_alpha_testing_enabled(),
    {
        get_field(self.0, 0, 1) == 1
    }

    pub fn set_alpha_testing_enabled(&mut self, value: bool)
        ensures
            final(self).0 == spec_set_field(old(self).0, 0, 1, if value { 1 } else { 0 }),
            final(self).spec_alpha_testing_enabled() == value,
    {
        proof {
            lemma_get_set_flag(self.0, 0, value);
        }
        self.0 = set_field(self.0, 0, 1, if value { 1 } else { 0 });
    }

    pub open spec fn spec_alpha_test_method_raw(self) -> u8 {
        spec_get_field(self.0, 1, 3) as u8
    }

    pub fn get_alpha_test_method_raw(&self) -> (r: u8)
        ensures
            r == self.spec_alpha_test_method_raw(),
    {
        get_field(self.0, 1, 3) as u8
    }

    pub fn set_alpha_test_method_raw(&mut self, value: u8)
        ensures
            final(self).0 == spec_set_field(old(self).0, 1, 3, value as u64),
            final(self).spec_alpha_test_method_raw() == ((value as u64) & low_mask(3)) as u8,
    {
        proof {
            lemma_get_set_same(self.0, 1, 3, value as u64);
        }
        self.0 = set_field(self.0, 1, 3, value as u64);
    }

    pub open spec fn spec_alpha_ref(self) -> u8 {
        spec_get_field(self.0, 4, 8) as u8
    }

    pub fn get_alpha_ref(&self) -> (r: u8)
        ensures
            r == self.spec_alpha_ref(),
    {
        get_field(self.0, 4, 8) as u8
    }

    pub fn set_alpha_ref(&mut self, value: u8)
        ensures
            final(self).0 == spec_set_field(old(self).0, 4, 8, value as u64),
            final(self).spec_alpha_ref() == ((value as u64) & low_mask(8)) as u8,
    {
        proof {
            lemma_get_set_same(self.0, 4, 8, value as u64);
        }
        self.0 = set_field(self.0, 4, 8, value as u64);
    }

    pub open spec fn spec_alpha_fail_mode_raw(self) -> u8 {
        spec_get_field(self.0, 12, 2) as u8
    }

    pub fn get_alpha_fail_mode_raw(&self) -> (r: u8)
        ensures
            r == self.spec_alpha_fail_mode_raw(),
    {
        get_field(self.0, 12, 2) as u8
    }

    pub fn set_alpha_fail_mode_raw(&mut self, value: u8)
        ensures
            final(self).0 == spec_set_field(old(self).0, 12, 2, value as u64),
            final(self).spec_alpha_fail_mode_raw() == ((value as u64) & low_mask(2)) as u8,
    {
        proof {
            lemma_get_set_same(self.0, 12, 2, value as u64);
        }
        self.0 = set_field(self.0, 12, 2, value as u64);
    }

    pub open spec fn spec_dest_alpha_testing_enabled(self) -> bool {
        spec_get_field(self.0, 14, 1) == 1
    }

    pub fn get_dest_alpha_testing_enabled(&self) -> (r: bool)
        ensures
            r == self.spec_dest_alpha_testing_enabled(),
    {
        get_field(self.0, 14, 1) == 1
    }

    pub fn set_dest_alpha_testing_enabled(&mut self, value: bool)
        ensures
            final(self).0 == spec_set_field(old(self).0, 14, 1, if value { 1 } else { 0 }),
            final(self).spec_dest_alpha_testing_enabled() == value,
    {
        proof {
            lemma_get_set_flag(self.0, 14, value);
        }
        self.0 = set_field(self.0, 14, 1, if value { 1 } else { 0 });
    }

    pub open spec fn spec_dest_alpha_pass_enabled(self) -> bool {
        spec_get_field(self.0, 15, 1) == 1
    }

    pub fn get_dest_alpha_pass_enabled(&self) -> (r: bool)
        ensures
            r == self.spec_dest_alpha_pass_enabled(),
    {
        get_field(self.0, 15, 1) == 1
    }

    pub fn set_dest_alpha_pass_enabled(&mut self, value: bool)
        ensures
            final(self).0 == spec_set_field(old(self).0, 15, 1, if value { 1 } else { 0 }),
            final(self).spec_dest_alpha_pass_enabled() == value,
    {
        proof {
            lemma_get_set_flag(self.0, 15, value);
        }
        self.0 = set_field(self.0, 15, 1, if value { 1 } else { 0 });
    }

    pub open spec fn spec_depth_test_enabled(self) -> bool {
        spec_get_field(self.0, 16, 1) == 1
    }

    pub fn get_depth_test_enabled(&self) -> (r: bool)
        ensures
            r == self.spec_depth_test_enabled(),
    {
        get_field(self.0, 16, 1) == 1
    }

    pub fn set_depth_test_enabled(&mut self, value: bool)
        ensures
            final(self).0 == spec_set_field(old(self).0, 16, 1, if value { 1 } else { 0 }),
            final(self).spec_depth_test_enabled() == value,
    {
        proof {
            lemma_get_set_flag(self.0, 16, value);
        }
        self.0 = set_field(self.0, 16, 1, if value { 1 } else { 0 });
    }

    pub open spec fn spec_depth_test_method_raw(self) -> u8 {
        spec_get_field(self.0, 17, 2) as u8
    }

    pub fn get_depth_test_method_raw(&self) -> (r: u8)
        ensures
            r == self.spec_depth_test_method_raw(),
    {
        get_field(self.0, 17, 2) as u8
    }

    pub fn set_depth_test_method_raw(&mut self, value: u8)
        ensures
            final(self).0 == spec_set_field(old(self).0, 17, 2, value as u64),
            final(self).spec_depth_test_method_raw() == ((value as u64) & low_mask(2)) as u8,
    {
        proof {
            lemma_get_set_same(self.0, 17, 2, value as u64);
        }
        self.0 = set_field(self.0, 17, 2, value as u64);
    }

}

/// Fixed point 12.4 number.
#[derive(Clone, Copy, Debug, PartialEq, Eq, Structural)]
pub struct Fixed12P4(pub u16);

impl Fixed12P4 {
    /// Zero.
    pub fn zero() -> (r: Self)
        ensures
            r.0 == 0,
    {
        Fixed12P4(0)
    }

    /// The whole number `x`, kept to the 12 integer bits the format has.
    pub fn from_u16(x: u16) -> (r: Self)
        ensures
            r.0 == (x as int * 16) % 0x1_0000,
            x < 0x1000 ==> r.0 == x * 16,
    {
        assert((x << 4u16) as int == (x as int * 16) % 0x1_0000) by (bit_vector);
        Fixed12P4(x << 4)
    }
}

/// Fixed point 28.4 number.
#[derive(Clone, Copy, Debug, PartialEq, Eq, Structural)]
pub struct Fixed28P4(pub u32);

impl Fixed28P4 {
    /// Zero.
    pub fn zero() -> (r: Self)
        ensures
            r.0 == 0,
    {
        Fixed28P4(0)
    }

    /// The whole number `x`, kept to the 28 integer bits the format has.
    pub fn from_u32(x: u32) -> (r: Self)
        ensures
            r.0 == (x as int * 16) % 0x1_0000_0000,
            x < 0x1000_0000 ==> r.0 == x * 16,
    {
        assert((x << 4u32) as int == (x as int * 16) % 0x1_0000_0000) by (bit_vector);
        Fixed28P4(x << 4)
    }
}

/// How the depth of a new pixel is compared with the stored one.
#[derive(Clone, Copy, Debug, PartialEq, Eq, Structural)]
pub enum DepthTestMethod {
    AlwaysFail,
    AlwaysPass,
    GreaterThanOrEqual,
    GreaterThan,
}

impl DepthTestMethod {
    pub open spec fn spec_code(self) -> u8 {
        match self {
            DepthTestMethod::AlwaysFail => 0,
            DepthTestMethod::AlwaysPass => 1,
            DepthTestMethod::GreaterThanOrEqual => 2,
            DepthTestMethod::GreaterThan => 3,
        }
    }

    /// The method with hardware code `code` (two bits).
    pub open spec fn spec_from_code(code: u8) -> Self {
        if code == 0 {
            DepthTestMethod::AlwaysFail
        } else if code == 1 {
            DepthTestMethod::AlwaysPass
        } else if code == 2 {
            DepthTestMethod::GreaterThanOrEqual
        } else {
            DepthTestMethod::GreaterThan
        }
    }

    pub fn code(&self) -> (c: u8)
        ensures
            c == self.spec_code(),
            c < 4,
            Self::spec_from_code(c) == *self,
    {
        match self {
            DepthTestMethod::AlwaysFail => 0,
            DepthTestMethod::AlwaysPass => 1,
            DepthTestMethod::GreaterThanOrEqual => 2,
            DepthTestMethod::GreaterThan => 3,
        }
    }
}

/// The kind of primitive drawn from the vertices kicked.
#[derive(Clone, Copy, Debug, PartialEq, Eq, Structural)]
pub enum PrimitiveType {
    Point,
    Line,
    LineStrip,
    Triangle,
    TriangleStrip,
    TriangleFan,
    Sprite,
}

impl PrimitiveType {
    pub open spec fn spec_code(self) -> u8 {
        match self {
            PrimitiveType::Point => 0,
            PrimitiveType::Line => 1,
            PrimitiveType::LineStrip => 2,
            PrimitiveType::Triangle => 3,
            PrimitiveType::TriangleStrip => 4,
            PrimitiveType::TriangleFan => 5,
            PrimitiveType::Sprite => 6,
        }
    }

    /// The primitive with hardware code `code` (below 7).
    pub open spec fn spec_from_code(code: u8) -> Self {
        if code == 0 {
            PrimitiveType::Point
        } else if code == 1 {
            PrimitiveType::Line
        } else if code == 2 {
            PrimitiveType::LineStrip
        } else if code == 3 {
            PrimitiveType::Triangle
        } else if code == 4 {
            PrimitiveType::TriangleStrip
        } else if code == 5 {
            PrimitiveType::TriangleFan
        } else {
            PrimitiveType::Sprite
        }
    }

    pub fn code(&self) -> (c: u8)
        ensures
            c == self.spec_code(),
            c < 7,
            Self::spec_from_code(c) == *self,
    {
        match self {
            PrimitiveType::Point => 0,
            PrimitiveType::Line => 1,
            PrimitiveType::LineStrip => 2,
            PrimitiveType::Triangle => 3,
            PrimitiveType::TriangleStrip => 4,
            PrimitiveType::TriangleFan => 5,
            PrimitiveType::Sprite => 6,
        }
    }
}

/// How the alpha of a new pixel is compared with the reference alpha.
#[derive(Clone, Copy, Debug, PartialEq, Eq, Structural)]
pub enum AlphaTestMethod {
    AlwaysFail,
    AlwaysPass,
    LessThanAlphaRef,
    LessThanOrEqualAlphaRef,
    EqualAlphaRef,
    GreaterThanOrEqualAlphaRef,
    GreaterThanAlphaRef,
    NotEqualAlphaRef,
}

impl AlphaTestMethod {
    pub open spec fn spec_code(self) -> u8 {
        match self {
            AlphaTestMethod::AlwaysFail => 0,
            AlphaTestMethod::AlwaysPass => 1,
            AlphaTestMethod::LessThanAlphaRef => 2,
            AlphaTestMethod::LessThanOrEqualAlphaRef => 3,
            AlphaTestMethod::EqualAlphaRef => 4,
            AlphaTestMethod::GreaterThanOrEqualAlphaRef => 5,
            AlphaTestMethod::GreaterThanAlphaRef => 6,
            AlphaTestMethod::NotEqualAlphaRef => 7,
        }
    }

    /// The method with hardware code `code` (three bits).
    pub open spec fn spec_from_code(code: u8) -> Self {
        if code == 0 {
            AlphaTestMethod::AlwaysFail
        } else if code == 1 {
            AlphaTestMethod::AlwaysPass
        } else if code == 2 {
            AlphaTestMethod::LessThanAlphaRef
        } else if code == 3 {
            AlphaTestMethod::LessThanOrEqualAlphaRef
        } else if code == 4 {
            AlphaTestMethod::EqualAlphaRef
        } else if code == 5 {
            AlphaTestMethod::GreaterThanOrEqualAlphaRef
        } else if code == 6 {
            AlphaTestMethod::GreaterThanAlphaRef
        } else {
            AlphaTestMethod::NotEqualAlphaRef
        }
    }

    pub fn code(&self) -> (c: u8)
        ensures
            c == self.spec_code(),
            c < 8,
            Self::spec_from_code(c) == *self,
    {
        match self {
            AlphaTestMethod::AlwaysFail => 0,
            AlphaTestMethod::AlwaysPass => 1,
            AlphaTestMethod::LessThanAlphaRef => 2,
            AlphaTestMethod::LessThanOrEqualAlphaRef => 3,
            AlphaTestMethod::EqualAlphaRef => 4,
            AlphaTestMethod::GreaterThanOrEqualAlphaRef => 5,
            AlphaTestMethod::GreaterThanAlphaRef => 6,
            AlphaTestMethod::NotEqualAlphaRef => 7,
        }
    }
}

/// What is still written when the alpha test fails.
#[derive(Clone, Copy, Debug, PartialEq, Eq, Structural)]
pub enum AlphaFailMode {
    UpdateNeither,
    UpdateFramebufferRgba,
    UpdateZBuffer,
    UpdateFramebufferRgb,
}

impl AlphaFailMode {
    pub open spec fn spec_code(self) -> u8 {
        match self {
            AlphaFailMode::UpdateNeither => 0,
            AlphaFailMode::UpdateFramebufferRgba => 1,
            AlphaFailMode::UpdateZBuffer => 2,
            AlphaFailMode::UpdateFramebufferRgb => 3,
        }
    }

    /// The mode with hardware code `code` (two bits).
    pub open spec fn spec_from_code(code: u8) -> Self {
        if code == 0 {
            AlphaFailMode::UpdateNeither
        } else if code == 1 {
            AlphaFailMode::UpdateFramebufferRgba
        } else if code == 2 {
            AlphaFailMode::UpdateZBuffer
        } else {
            AlphaFailMode::UpdateFramebufferRgb
        }
    }

    pub fn code(&self) -> (c: u8)
        ensures
            c == self.spec_code(),
            c < 4,
            Self::spec_from_code(c) == *self,
    {
        match self {
            AlphaFailMode::UpdateNeither => 0,
            AlphaFailMode::UpdateFramebufferRgba => 1,
            AlphaFailMode::UpdateZBuffer => 2,
            AlphaFailMode::UpdateFramebufferRgb => 3,
        }
    }
}


impl GsRegisterPacketData for SetPrimitive {
    open spec fn spec_register_num(&self) -> u64 {
        0x00
    }

    open spec fn spec_dword(&self) -> u64 {
        self.0
    }

    fn register_num(&self) -> (r: u64) {
        0x00
    }

    fn to_dword(&self) -> (r: u64) {
        self.0
    }
}

impl GsRegisterPacketData for SetAlternativePrimitive {
    open spec fn spec_register_num(&self) -> u64 {
        0x1B
    }

    open spec fn spec_dword(&self) -> u64 {
        self.0
    }

    fn register_num(&self) -> (r: u64) {
        0x1B
    }

    fn to_dword(&self) -> (r: u64) {
        self.0
    }
}

impl GsRegisterPacketData for SetFramebuffer1 {
    open spec fn spec_register_num(&self) -> u64 {
        0x4C
    }

    open spec fn spec_dword(&self) -> u64 {
        self.0
    }

    fn register_num(&self) -> (r: u64) {
        0x4C
    }

    fn to_dword(&self) -> (r: u64) {
        self.0
    }
}

impl GsRegisterPacketData for SetZBuffer1 {
    open spec fn spec_register_num(&self) -> u64 {
        0x4E
    }

    open spec fn spec_dword(&self) -> u64 {
        self.0
    }

    fn register_num(&self) -> (r: u64) {
        0x4E
    }

    fn to_dword(&self) -> (r: u64) {
        self.0
    }
}

impl GsRegisterPacketData for SetScissor1 {
    open spec fn spec_register_num(&self) -> u64 {
        0x40
    }

    open spec fn spec_dword(&self) -> u64 {
        self.0
    }

    fn register_num(&self) -> (r: u64) {
        0x40
    }

    fn to_dword(&self) -> (r: u64) {
        self.0
    }
}

impl GsRegisterPacketData for SetPixelTesting1 {
    open spec fn spec_register_num(&self) -> u64 {
        0x47
    }

    open spec fn spec_dword(&self) -> u64 {
        self.0
    }

    fn register_num(&self) -> (r: u64) {
        0x47
    }

    fn to_dword(&self) -> (r: u64) {
        self.0
    }
}

/// PRMODECONT: whether PRIM (rather than PRMODE) gives the drawing attributes.
#[derive(Clone, Copy, Debug, PartialEq, Eq, Structural)]
pub struct SetUseMainPrimitive(pub bool);

impl GsRegisterPacketData for SetUseMainPrimitive {
    open spec fn spec_register_num(&self) -> u64 {
        0x1A
    }

    open spec fn spec_dword(&self) -> u64 {
        if self.0 {
            1
        } else {
            0
        }
    }

    fn register_num(&self) -> (r: u64) {
        0x1A
    }

    fn to_dword(&self) -> (r: u64) {
        if self.0 {
            1
        } else {
            0
        }
    }
}

/// DTHE: whether dithering is on.
#[derive(Clone, Copy, Debug, PartialEq, Eq, Structural)]
pub struct SetDitheringEnabled(pub bool);

impl GsRegisterPacketData for SetDitheringEnabled {
    open spec fn spec_register_num(&self) -> u64 {
        0x45
    }

    open spec fn spec_dword(&self) -> u64 {
        if self.0 {
            1
        } else {
            0
        }
    }

    fn register_num(&self) -> (r: u64) {
        0x45
    }

    fn to_dword(&self) -> (r: u64) {
        if self.0 {
            1
        } else {
            0
        }
    }
}

/// COLCLAMP: whether colours are clamped (rather than wrapped) to 0..=255.
#[derive(Clone, Copy, Debug, PartialEq, Eq, Structural)]
pub struct SetColourClampingEnabled(pub bool);

impl GsRegisterPacketData for SetColourClampingEnabled {
    open spec fn spec_register_num(&self) -> u64 {
        0x46
    }

    open spec fn spec_dword(&self) -> u64 {
        if self.0 {
            1
        } else {
            0
        }
    }

    fn register_num(&self) -> (r: u64) {
        0x46
    }

    fn to_dword(&self) -> (r: u64) {
        if self.0 {
            1
        } else {
            0
        }
    }
}

impl SetPrimitive {
    /// The primitive type held (the raw code must name one).
    pub open spec fn spec_primitive_type(self) -> PrimitiveType {
        PrimitiveType::spec_from_code(self.spec_primitive_type_raw())
    }

    pub fn get_primitive_type(&self) -> (r: PrimitiveType)
        requires
            self.spec_primitive_type_raw() < 7,
        ensures
            r == self.spec_primitive_type(),
            r.spec_code() == self.spec_primitive_type_raw(),
    {
        let raw = self.get_primitive_type_raw();
        if raw == 0 {
            PrimitiveType::Point
        } else if raw == 1 {
            PrimitiveType::Line
        } else if raw == 2 {
            PrimitiveType::LineStrip
        } else if raw == 3 {
            PrimitiveType::Triangle
        } else if raw == 4 {
            PrimitiveType::TriangleStrip
        } else if raw == 5 {
            PrimitiveType::TriangleFan
        } else {
            PrimitiveType::Sprite
        }
    }

    pub fn set_primitive_type(&mut self, prim_type: PrimitiveType)
        ensures
            final(self).0 == spec_set_field(old(self).0, 0, 3, prim_type.spec_code() as u64),
            final(self).spec_primitive_type_raw() == prim_type.spec_code(),
            final(self).spec_primitive_type() == prim_type,
    {
        let code = prim_type.code();
        proof {
            lemma_low_masks();
            assert((code as u64) & 7 == code as u64) by (bit_vector)
                requires
                    code < 7,
            ;
        }
        self.set_primitive_type_raw(code);
    }
}

/// RGBAQ: the colour (and texture Q) of the next vertex.
#[derive(Clone, Copy, Debug, PartialEq, Eq, Structural)]
pub struct SetRGBAQ {
    pub r: u8,
    pub g: u8,
    pub b: u8,
    pub a: u8,
    pub q: u32,
}

impl GsRegisterPacketData for SetRGBAQ {
    open spec fn spec_register_num(&self) -> u64 {
        0x01
    }

    open spec fn spec_dword(&self) -> u64 {
        (self.r + self.g * 0x100 + self.b * 0x1_0000 + self.a * 0x100_0000 + self.q
            * 0x1_0000_0000) as u64
    }

    fn register_num(&self) -> (r: u64) {
        0x01
    }

    fn to_dword(&self) -> (d: u64) {
        let (r, g, b, a, q) = (self.r, self.g, self.b, self.a, self.q);
        assert((r as u64) | ((g as u64) << 8u64) | ((b as u64) << 16u64) | ((a as u64) << 24u64)
            | ((q as u64) << 32u64) == (r + g * 0x100 + b * 0x1_0000 + a * 0x100_0000 + q
            * 0x1_0000_0000) as u64) by (bit_vector);
        (r as u64) | ((g as u64) << 8) | ((b as u64) << 16) | ((a as u64) << 24) | ((q as u64)
            << 32)
    }
}

/// XYZ2: the position of a vertex, which is then drawn.
#[derive(Clone, Copy, Debug, PartialEq, Eq, Structural)]
pub struct KickVertexXYZ2 {
    pub x: Fixed12P4,
    pub y: Fixed12P4,
    pub z: u32,
}

impl GsRegisterPacketData for KickVertexXYZ2 {
    open spec fn spec_register_num(&self) -> u64 {
        0x05
    }

    open spec fn spec_dword(&self) -> u64 {
        (self.x.0 + self.y.0 * 0x1_0000 + self.z * 0x1_0000_0000) as u64
    }

    fn register_num(&self) -> (r: u64) {
        0x05
    }

    fn to_dword(&self) -> (d: u64) {
        let (x, y, z) = (self.x.0, self.y.0, self.z);
        assert((x as u64) | ((y as u64) << 16u64) | ((z as u64) << 32u64) == (x + y * 0x1_0000 + z
            * 0x1_0000_0000) as u64) by (bit_vector);
        (x as u64) | ((y as u64) << 16) | ((z as u64) << 32)
    }
}

/// XYOFFSET_1: the offset of the primitive coordinate space of context 1.
#[derive(Clone, Copy, Debug, PartialEq, Eq, Structural)]
pub struct SetXYOffset1 {
    pub x: Fixed28P4,
    pub y: Fixed28P4,
}

impl GsRegisterPacketData for SetXYOffset1 {
    open spec fn spec_register_num(&self) -> u64 {
        0x18
    }

    open spec fn spec_dword(&self) -> u64 {
        (self.x.0 + self.y.0 * 0x1_0000_0000) as u64
    }

    fn register_num(&self) -> (r: u64) {
        0x18
    }

    fn to_dword(&self) -> (d: u64) {
        let (x, y) = (self.x.0, self.y.0);
        assert((x as u64) | ((y as u64) << 32u64) == (x + y * 0x1_0000_0000) as u64)
            by (bit_vector);
        (x as u64) | ((y as u64) << 32)
    }
}

impl SetXYOffset1 {
    /// The same offset, addressed to context 2 (XYOFFSET_2).
    pub fn to_xy_offset_2_packet_data(&self) -> (r: [u64; 2])
        ensures
            r@ == seq![self.spec_dword(), 0x19u64],
    {
        [self.to_dword(), self.register_num() + 1]
    }
}

/// The FRAME_1 word for a frame buffer at `address` of `width` pixels in format `format`.
pub open spec fn spec_framebuffer_word(address: u32, width: u32, format: u8, mask: u32) -> u64 {
    spec_set_field(
        spec_set_field(
            spec_set_field(spec_set_field(0, 0, 9, (address >> 11) as u64), 16, 6, (width >> 6) as u64),
            24,
            6,
            format as u64,
        ),
        32,
        32,
        mask as u64,
    )
}

impl SetFramebuffer1 {
    /// The FRAME_1 value that draws into `framebuffer`.
    pub fn new(framebuffer: &draw::Framebuffer) -> (r: Self)
        ensures
            r.0 == spec_framebuffer_word(
                framebuffer.spec_start_address() as u32,
                framebuffer.spec_texture().spec_width(),
                framebuffer.spec_texture().spec_pixel_format().spec_code(),
                framebuffer.spec_mask(),
            ),
            r.spec_shifted_base_address() == ((framebuffer.spec_start_address() as u32 >> 11) as u64
                & 511) as u32,
            r.spec_shifted_buffer_width() == ((framebuffer.spec_texture().spec_width() >> 6) as u64
                & 63) as u32,
            r.spec_format_raw() == framebuffer.spec_texture().spec_pixel_format().spec_code(),
            r.spec_mask() == framebuffer.spec_mask(),
    {
        let address = framebuffer.start_address();
        let width = framebuffer.width();
        let format = framebuffer.pixel_format().code();
        let mask = framebuffer.get_mask();
        let mut out = SetFramebuffer1(0);
        out.set_shifted_base_address(address >> 11);
        out.set_shifted_buffer_width(width >> 6);
        out.set_format_raw(format);
        out.set_mask(mask);
        proof {
            let w0 = spec_set_field(0, 0, 9, (address >> 11) as u64);
            let w1 = spec_set_field(w0, 16, 6, (width >> 6) as u64);
            let w2 = spec_set_field(w1, 24, 6, format as u64);
            lemma_low_masks();
            lemma_get_set_other(w0, 16, 6, (width >> 6) as u64, 0, 9);
            lemma_get_set_other(w1, 24, 6, format as u64, 0, 9);
            lemma_get_set_other(w2, 32, 32, mask as u64, 0, 9);
            lemma_get_set_other(w1, 24, 6, format as u64, 16, 6);
            lemma_get_set_other(w2, 32, 32, mask as u64, 16, 6);
            lemma_get_set_other(w2, 32, 32, mask as u64, 24, 6);
            lemma_get_set_same(w1, 24, 6, format as u64);
            lemma_get_set_same(w2, 32, 32, mask as u64);
            assert((mask as u64) & 0xFFFF_FFFF == mask as u64) by (bit_vector);
            assert((format as u64) & 63 == format as u64) by (bit_vector)
                requires
                    format < 64,
            ;
        }
        out
    }

    /// The same value, addressed to context 2 (FRAME_2).
    pub fn to_framebuffer_2_packet_data(&self) -> (r: [u64; 2])
        ensures
            r@ == seq![self.0, 0x4Du64],
    {
        [self.to_dword(), self.register_num() + 1]
    }
}

/// The ZBUF format code of a depth storage method.
pub open spec fn spec_zbuffer_format(pf: PixelStorageMethod) -> u8 {
    match pf {
        PixelStorageMethod::PsmZ32 => 0x00,
        PixelStorageMethod::PsmZ24 => 0x01,
        PixelStorageMethod::PsmZ16 => 0x02,
        _ => 0x0A,
    }
}

/// The ZBUF_1 word for a depth buffer at `address` in depth format `format`.
pub open spec fn spec_zbuffer_word(address: u32, format: u8, masked: bool) -> u64 {
    spec_set_field(
        spec_set_field(spec_set_field(0, 0, 9, (address / 2048) as u64), 24, 4, format as u64),
        32,
        1,
        if masked {
            1
        } else {
            0
        },
    )
}

impl SetZBuffer1 {
    /// The ZBUF_1 value that tests against `z_buffer`, whose format must be a depth format.
    pub fn new(z_buffer: &draw::ZBuffer) -> (r: Self)
        requires
            z_buffer.spec_texture().spec_pixel_format().spec_is_depth(),
        ensures
            r.0 == spec_zbuffer_word(
                z_buffer.spec_start_address() as u32,
                spec_zbuffer_format(z_buffer.spec_texture().spec_pixel_format()),
                z_buffer.spec_mask(),
            ),
            r.spec_shifted_base_address() == ((z_buffer.spec_start_address() as u32 / 2048) as u64
                & 511) as u32,
            r.spec_format_raw() == spec_zbuffer_format(z_buffer.spec_texture().spec_pixel_format()),
            r.spec_masked() == z_buffer.spec_mask(),
    {
        let address = z_buffer.start_address();
        let format: u8 = match z_buffer.pixel_format() {
            PixelStorageMethod::PsmZ32 => 0x00,
            PixelStorageMethod::PsmZ24 => 0x01,
            PixelStorageMethod::PsmZ16 => 0x02,
            _ => 0x0A,
        };
        let masked = z_buffer.get_masked();
        let mut out = SetZBuffer1(0);
        out.set_shifted_base_address(address / 2048);
        out.set_format_raw(format);
        out.set_masked(masked);
        proof {
            let w0 = spec_set_field(0, 0, 9, (address / 2048) as u64);
            let w1 = spec_set_field(w0, 24, 4, format as u64);
            lemma_low_masks();
            lemma_get_set_other(w0, 24, 4, format as u64, 0, 9);
            lemma_get_set_other(w1, 32, 1, if masked { 1 } else { 0 }, 0, 9);
            lemma_get_set_other(w1, 32, 1, if masked { 1 } else { 0 }, 24, 4);
            lemma_get_set_same(w0, 24, 4, format as u64);
            assert((format as u64) & 15 == format as u64) by (bit_vector)
                requires
                    format < 16,
            ;
        }
        out
    }

    /// The same value, addressed to context 2 (ZBUF_2).
    pub fn to_z_buffer_2_packet_data(&self) -> (r: [u64; 2])
        ensures
            r@ == seq![self.0, 0x4Fu64],
    {
        [self.to_dword(), self.register_num() + 1]
    }
}

/// How the alpha of blended pixels is corrected.
#[derive(Clone, Copy, Debug, PartialEq, Eq, Structural)]
pub enum AlphaCorrectionMode {
    Rgba32,
    Rgba16,
}

/// FBA_1: the alpha correction of context 1.
#[derive(Clone, Copy, Debug, PartialEq, Eq, Structural)]
pub struct SetAlphaCorrection1(pub AlphaCorrectionMode);

impl GsRegisterPacketData for SetAlphaCorrection1 {
    open spec fn spec_register_num(&self) -> u64 {
        0x4A
    }

    open spec fn spec_dword(&self) -> u64 {
        match self.0 {
            AlphaCorrectionMode::Rgba32 => 0,
            AlphaCorrectionMode::Rgba16 => 1,
        }
    }

    fn register_num(&self) -> (r: u64) {
        0x4A
    }

    fn to_dword(&self) -> (r: u64) {
        match self.0 {
            AlphaCorrectionMode::Rgba32 => 0,
            AlphaCorrectionMode::Rgba16 => 1,
        }
    }
}

/// The SCISSOR_1 word for the drawing rectangle given.
pub open spec fn spec_scissor_word(x_min: u16, x_max: u16, y_min: u16, y_max: u16) -> u64 {
    spec_set_field(
        spec_set_field(
            spec_set_field(spec_set_field(0, 0, 11, x_min as u64), 16, 11, x_max as u64),
            32,
            11,
            y_min as u64,
        ),
        48,
        11,
        y_max as u64,
    )
}

impl SetScissor1 {
    /// The SCISSOR_1 value for the rectangle given (each bound kept to 11 bits).
    pub fn new(x_min: u16, x_max: u16, y_min: u16, y_max: u16) -> (r: Self)
        ensures
            r.0 == spec_scissor_word(x_min, x_max, y_min, y_max),
            r.spec_x_min() == x_min & 0x7FF,
            r.spec_x_max() == x_max & 0x7FF,
            r.spec_y_min() == y_min & 0x7FF,
            r.spec_y_max() == y_max & 0x7FF,
    {
        let mut out = SetScissor1(0);
        out.set_x_min(x_min);
        out.set_x_max(x_max);
        out.set_y_min(y_min);
        out.set_y_max(y_max);
        proof {
            let w0 = spec_set_field(0, 0, 11, x_min as u64);
            let w1 = spec_set_field(w0, 16, 11, x_max as u64);
            let w2 = spec_set_field(w1, 32, 11, y_min as u64);
            lemma_low_masks();
            lemma_get_set_other(w0, 16, 11, x_max as u64, 0, 11);
            lemma_get_set_other(w1, 32, 11, y_min as u64, 0, 11);
            lemma_get_set_other(w2, 48, 11, y_max as u64, 0, 11);
            lemma_get_set_other(w1, 32, 11, y_min as u64, 16, 11);
            lemma_get_set_other(w2, 48, 11, y_max as u64, 16, 11);
            lemma_get_set_other(w2, 48, 11, y_max as u64, 32, 11);
            lemma_get_set_same(w0, 16, 11, x_max as u64);
            lemma_get_set_same(w1, 32, 11, y_min as u64);
            lemma_get_set_same(w2, 48, 11, y_max as u64);
            lemma_get_set_same(0, 0, 11, x_min as u64);
            assert(((x_min as u64) & 0x7FF) as u16 == x_min & 0x7FF && ((x_max as u64) & 0x7FF) as u16
                == x_max & 0x7FF && ((y_min as u64) & 0x7FF) as u16 == y_min & 0x7FF && ((y_max as u64)
                & 0x7FF) as u16 == y_max & 0x7FF) by (bit_vector);
        }
        out
    }

    /// The same value, addressed to context 2 (SCISSOR_2).
    pub fn to_reg_2_packet_data(&self) -> (r: [u64; 2])
        ensures
            r@ == seq![self.0, 0x41u64],
    {
        [self.to_dword(), self.register_num() + 1]
    }
}

impl SetPixelTesting1 {
    pub open spec fn spec_alpha_test_method(self) -> AlphaTestMethod {
        AlphaTestMethod::spec_from_code(self.spec_alpha_test_method_raw())
    }

    pub open spec fn spec_alpha_fail_mode(self) -> AlphaFailMode {
        AlphaFailMode::spec_from_code(self.spec_alpha_fail_mode_raw())
    }

    pub open spec fn spec_depth_test_method(self) -> DepthTestMethod {
        DepthTestMethod::spec_from_code(self.spec_depth_test_method_raw())
    }

    pub fn get_alpha_test_method(&self) -> (r: AlphaTestMethod)
        ensures
            r == self.spec_alpha_test_method(),
            r.spec_code() == self.spec_alpha_test_method_raw(),
    {
        let raw = self.get_alpha_test_method_raw();
        proof {
            lemma_low_masks();
            lemma_get_field_bound(self.0, 1, 3);
        }
        if raw == 0 {
            AlphaTestMethod::AlwaysFail
        } else if raw == 1 {
            AlphaTestMethod::AlwaysPass
        } else if raw == 2 {
            AlphaTestMethod::LessThanAlphaRef
        } else if raw == 3 {
            AlphaTestMethod::LessThanOrEqualAlphaRef
        } else if raw == 4 {
            AlphaTestMethod::EqualAlphaRef
        } else if raw == 5 {
            AlphaTestMethod::GreaterThanOrEqualAlphaRef
        } else if raw == 6 {
            AlphaTestMethod::GreaterThanAlphaRef
        } else {
            AlphaTestMethod::NotEqualAlphaRef
        }
    }

    pub fn set_alpha_test_method(&mut self, method: AlphaTestMethod)
        ensures
            final(self).0 == spec_set_field(old(self).0, 1, 3, method.spec_code() as u64),
            final(self).spec_alpha_test_method() == method,
    {
        let code = method.code();
        proof {
            lemma_low_masks();
            assert((code as u64) & 7 == code as u64) by (bit_vector)
                requires
                    code < 8,
            ;
        }
        self.set_alpha_test_method_raw(code);
    }

    pub fn get_alpha_fail_mode(&self) -> (r: AlphaFailMode)
        ensures
            r == self.spec_alpha_fail_mode(),
            r.spec_code() == self.spec_alpha_fail_mode_raw(),
    {
        let raw = self.get_alpha_fail_mode_raw();
        proof {
            lemma_low_masks();
            lemma_get_field_bound(self.0, 12, 2);
        }
        if raw == 0 {
            AlphaFailMode::UpdateNeither
        } else if raw == 1 {
            AlphaFailMode::UpdateFramebufferRgba
        } else if raw == 2 {
            AlphaFailMode::UpdateZBuffer
        } else {
            AlphaFailMode::UpdateFramebufferRgb
        }
    }

    pub fn set_alpha_fail_mode(&mut self, method: AlphaFailMode)
        ensures
            final(self).0 == spec_set_field(old(self).0, 12, 2, method.spec_code() as u64),
            final(self).spec_alpha_fail_mode() == method,
    {
        let code = method.code();
        proof {
            lemma_low_masks();
            assert((code as u64) & 3 == code as u64) by (bit_vector)
                requires
                    code < 4,
            ;
        }
        self.set_alpha_fail_mode_raw(code);
    }

    pub fn get_depth_test_method(&self) -> (r: DepthTestMethod)
        ensures
            r == self.spec_depth_test_method(),
            r.spec_code() == self.spec_depth_test_method_raw(),
    {
        let raw = self.get_depth_test_method_raw();
        proof {
            lemma_low_masks();
            lemma_get_field_bound(self.0, 17, 2);
        }
        if raw == 0 {
            DepthTestMethod::AlwaysFail
        } else if raw == 1 {
            DepthTestMethod::AlwaysPass
        } else if raw == 2 {
            DepthTestMethod::GreaterThanOrEqual
        } else {
            DepthTestMethod::GreaterThan
        }
    }

    pub fn set_depth_test_method(&mut self, method: DepthTestMethod)
        ensures
            final(self).0 == spec_set_field(old(self).0, 17, 2, method.spec_code() as u64),
            final(self).spec_depth_test_method() == method,
    {
        let code = method.code();
        proof {
            lemma_low_masks();
            assert((code as u64) & 3 == code as u64) by (bit_vector)
                requires
                    code < 4,
            ;
        }
        self.set_depth_test_method_raw(code);
    }
}

/// FINISH: asks the graphics synthesiser to signal when drawing is done.
#[derive(Clone, Copy, Debug, PartialEq, Eq, Structural)]
pub struct Finished;

impl GsRegisterPacketData for Finished {
    open spec fn spec_register_num(&self) -> u64 {
        0x61
    }

    open spec fn spec_dword(&self) -> u64 {
        1
    }

    fn register_num(&self) -> (r: u64) {
        0x61
    }

    fn to_dword(&self) -> (r: u64) {
        1
    }
}

} // verus!
