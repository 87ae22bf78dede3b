//! The demonstration frame: a black clear over the frame buffer and a shaded triangle that
//! sweeps from side to side.
use vstd::prelude::*;
use crate::bitfield::spec_set_field;
use crate::ps2::gif::{GsRegisterPacketData, Packet};
use crate::ps2::gs::{
    AlphaFailMode, AlphaTestMethod, DepthTestMethod, Finished, Fixed12P4, KickVertexXYZ2,
    PrimitiveType, SetPixelTesting1, SetPrimitive, SetRGBAQ,
};

verus! {

/// Where the triangle starts.
pub const TRIANGLE_START_X: u16 = 2048;

/// The triangle's vertical centre in primitive coordinates.
pub const TRIANGLE_Y: u16 = 2048;

/// The triangle's width and height.
pub const TRIANGLE_SCALE: u16 = 200;

/// The TEST_1 word of the frame: alpha test `alpha_testing` (not equal to 0, failures update
/// the depth buffer only), depth test `depth_testing` with `depth_method`.
pub open spec fn spec_frame_pixel_testing(
    alpha_testing: bool,
    depth_testing: bool,
    depth_method: DepthTestMethod,
) -> u64 {
    let w0 = spec_set_field(0, 0, 1, if alpha_testing { 1 } else { 0 });
    let w1 = spec_set_field(w0, 1, 3, AlphaTestMethod::NotEqualAlphaRef.spec_code() as u64);
    let w2 = spec_set_field(w1, 4, 8, 0);
    let w3 = spec_set_field(w2, 12, 2, AlphaFailMode::UpdateZBuffer.spec_code() as u64);
    let w4 = spec_set_field(w3, 14, 1, 0);
    let w5 = spec_set_field(w4, 15, 1, 0);
    let w6 = spec_set_field(w5, 16, 1, if depth_testing { 1 } else { 0 });
    spec_set_field(w6, 17, 2, depth_method.spec_code() as u64)
}

/// The PRIM word of the frame: triangles, Gouraud shading `gouraud`, nothing else.
pub open spec fn spec_frame_primitive(gouraud: bool) -> u64 {
    let w0 = spec_set_field(0, 0, 3, PrimitiveType::Triangle.spec_code() as u64);
    let w1 = spec_set_field(w0, 3, 1, if gouraud { 1 } else { 0 });
    let w2 = spec_set_field(w1, 4, 1, 0);
    let w3 = spec_set_field(w2, 5, 1, 0);
    let w4 = spec_set_field(w3, 6, 1, 0);
    let w5 = spec_set_field(w4, 7, 1, 0);
    let w6 = spec_set_field(w5, 8, 1, 0);
    let w7 = spec_set_field(w6, 9, 1, 0);
    spec_set_field(w7, 10, 1, 0)
}

fn frame_pixel_testing(alpha_testing: bool, depth_testing: bool, depth_method: DepthTestMethod) -> (t:
    SetPixelTesting1)
    ensures
        t.0 == spec_frame_pixel_testing(alpha_testing, depth_testing, depth_method),
{
    let mut out = SetPixelTesting1(0);
    out.set_alpha_testing_enabled(alpha_testing);
    out.set_alpha_test_method(AlphaTestMethod::NotEqualAlphaRef);
    out.set_alpha_ref(0x00);
    out.set_alpha_fail_mode(AlphaFailMode::UpdateZBuffer);
    out.set_dest_alpha_testing_enabled(false);
    out.set_dest_alpha_pass_enabled(false);
    out.set_depth_test_enabled(depth_testing);
    out.set_depth_test_method(depth_method);
    out
}

fn frame_primitive(gouraud: bool) -> (p: SetPrimitive)
    ensures
        p.0 == spec_frame_primitive(gouraud),
{
    let mut out = SetPrimitive(0);
    out.set_primitive_type(PrimitiveType::Triangle);
    out.set_gouraud_shading_enabled(gouraud);
    out.set_texture_mapping_enabled(false);
    out.set_fog_enabled(false);
    out.set_alpha_blending_enabled(false);
    out.set_antialiasing_enabled(false);
    out.set_use_uv_coords(false);
    out.set_use_context_2_regs(false);
    out.set_fix_fragment_value_enabled(false);
    out
}

/// The XYZ2 word of a vertex at whole-pixel primitive coordinates `x`, `y`, depth 0.
pub open spec fn spec_vertex_word(x: int, y: int) -> u64 {
    (x * 16 + y * 16 * 0x1_0000) as u64
}

/// The RGBAQ word of an opaque colour.
pub open spec fn spec_colour_word(r: u8, g: u8, b: u8) -> u64 {
    (r + g * 0x100 + b * 0x1_0000 + 0xFF * 0x100_0000) as u64
}

fn vertex(x: u16, y: u16) -> (v: KickVertexXYZ2)
    requires
        x < 0x1000,
        y < 0x1000,
    ensures
        v.spec_dword() == spec_vertex_word(x as int, y as int),
{
    KickVertexXYZ2 { x: Fixed12P4::from_u16(x), y: Fixed12P4::from_u16(y), z: 0 }
}

/// The quadwords of one frame: a clear of the `width` by `height` frame buffer (two black
/// triangles, no tests), then a red-green-blue triangle centred at `x_offset`, tested against the
/// depth buffer with `depth_method`, then FINISH.
pub open spec fn spec_frame_data(
    width: int,
    height: int,
    depth_method: DepthTestMethod,
    x_offset: int,
) -> Seq<[u64; 2]> {
    let left = 2048 - width / 2;
    let right = 2048 + width / 2 - 1;
    let top = 2048 - height / 2;
    let bottom = 2048 + height / 2 - 1;
    let half = TRIANGLE_SCALE / 2;
    seq![
        [spec_frame_pixel_testing(false, false, DepthTestMethod::AlwaysPass), 0x47],
        [spec_frame_primitive(false), 0x00],
        [spec_colour_word(0, 0, 0), 0x01],
        [spec_vertex_word(left, top), 0x05],
        [spec_vertex_word(right, top), 0x05],
        [spec_vertex_word(left, bottom), 0x05],
        [spec_vertex_word(right, top), 0x05],
        [spec_vertex_word(left, bottom), 0x05],
        [spec_vertex_word(right, bottom), 0x05],
        [spec_frame_pixel_testing(true, true, depth_method), 0x47],
        [spec_frame_primitive(true), 0x00],
        [spec_colour_word(0xFF, 0, 0), 0x01],
        [spec_vertex_word(x_offset - half, TRIANGLE_Y + half), 0x05],
        [spec_colour_word(0, 0xFF, 0), 0x01],
        [spec_vertex_word(x_offset, TRIANGLE_Y - half), 0x05],
        [spec_colour_word(0, 0, 0xFF), 0x01],
        [spec_vertex_word(x_offset + half, TRIANGLE_Y + half), 0x05],
        [1, 0x61],
    ]
}

/// The packet that draws one frame of the demonstration on a frame buffer of `fb_width` by
/// `fb_height` pixels (each kept to 16 bits) with the triangle at `x_offset`.
pub fn triangle_frame_packet(
    fb_width: u32,
    fb_height: u32,
    depth_test_method: DepthTestMethod,
    x_offset: u16,
) -> (p: Packet)
    requires
        (fb_width as u16) / 2 <= 2048,
        (fb_height as u16) / 2 <= 2048,
        100 <= x_offset < 0x1000 - 100,
    ensures
        p.spec_data() == spec_frame_data(
            (fb_width as u16) as int,
            (fb_height as u16) as int,
            depth_test_method,
            x_offset as int,
        ),
        p.spec_fields().spec_nloop() == 18,
        p.spec_fields().spec_end_of_packet(),
{
    let w = fb_width as u16;
    let h = fb_height as u16;
    let left = 2048 - w / 2;
    let right = 2048 + w / 2 - 1;
    let top = 2048 - h / 2;
    let bottom = 2048 + h / 2 - 1;
    let half = TRIANGLE_SCALE / 2;
    let clear_testing = frame_pixel_testing(false, false, DepthTestMethod::AlwaysPass);
    let clear_primitive = frame_primitive(false);
    let black = SetRGBAQ { r: 0x00, g: 0x00, b: 0x00, a: 0xFF, q: 0x00 };
    let v0 = vertex(left, top);
    let v1 = vertex(right, top);
    let v2 = vertex(left, bottom);
    let v3 = vertex(right, top);
    let v4 = vertex(left, bottom);
    let v5 = vertex(right, bottom);
    let testing = frame_pixel_testing(true, true, depth_test_method);
    let primitive = frame_primitive(true);
    let red = SetRGBAQ { r: 0xFF, g: 0x00, b: 0x00, a: 0xFF, q: 0x00 };
    let t0 = vertex(x_offset - half, half + TRIANGLE_Y);
    let green = SetRGBAQ { r: 0x00, g: 0xFF, b: 0x00, a: 0xFF, q: 0x00 };
    let t1 = vertex(x_offset, TRIANGLE_Y - half);
    let blue = SetRGBAQ { r: 0x00, g: 0x00, b: 0xFF, a: 0xFF, q: 0x00 };
    let t2 = vertex(half + x_offset, half + TRIANGLE_Y);
    let finished = Finished;
    let mut writes: Vec<[u64; 2]> = Vec::new();
    writes.push([clear_testing.to_dword(), clear_testing.register_num()]);
    writes.push([clear_primitive.to_dword(), clear_primitive.register_num()]);
    writes.push([black.to_dword(), black.register_num()]);
    writes.push([v0.to_dword(), v0.register_num()]);
    writes.push([v1.to_dword(), v1.register_num()]);
    writes.push([v2.to_dword(), v2.register_num()]);
    writes.push([v3.to_dword(), v3.register_num()]);
    writes.push([v4.to_dword(), v4.register_num()]);
    writes.push([v5.to_dword(), v5.register_num()]);
    writes.push([testing.to_dword(), testing.register_num()]);
    writes.push([primitive.to_dword(), primitive.register_num()]);
    writes.push([red.to_dword(), red.register_num()]);
    writes.push([t0.to_dword(), t0.register_num()]);
    writes.push([green.to_dword(), green.register_num()]);
    writes.push([t1.to_dword(), t1.register_num()]);
    writes.push([blue.to_dword(), blue.register_num()]);
    writes.push([t2.to_dword(), t2.register_num()]);
    writes.push([finished.to_dword(), finished.register_num()]);
    let p = Packet::packed_from_register_writes(writes);
    assert(p.spec_data() =~= spec_frame_data(w as int, h as int, depth_test_method, x_offset as int));
    p
}

/// The triangle's position in the next frame after one at `current`: one step right, back to
/// 1848 after passing 2248.
pub fn next_triangle_x_offset(current: u16) -> (next: u16)
    requires
        current < u16::MAX,
    ensures
        next == if current + 1 > 2248 {
            1848
        } else {
            current + 1
        },
{
    let next = current + 1;
    if next > 2248 {
        1848
    } else {
        next
    }
}

} // verus!
