use hypercubed::ps2::display::{
    background_colour_word, csr_drawing_finished, csr_reset_word, csr_vsync_occurred,
    default_mode_for_region, output_pmode_word, resolve_mode, screen_setup, FrameMode, ModeId,
    PixelStorageMethod, Region, SetModeArgs,
};
use hypercubed::ps2::display_area;
use hypercubed::ps2::display_fb;
use hypercubed::ps2::dma::{
    channel_control_word, control_word_running, memory_address_word, normal_transfer_words,
    stat_clear_word, Channel, ChannelControlData, ChannelFlags, ChannelRegistry, DmacAction,
    Direction, Mode,
};
use hypercubed::ps2::gif::{GsRegisterPacketData, Packet, PacketDataFormat, PacketFields, Register};
use hypercubed::ps2::gs::{
    AlphaFailMode, AlphaTestMethod, DepthTestMethod, Finished, Fixed12P4, Fixed28P4,
    KickVertexXYZ2, PrimitiveType, SetAlphaCorrection1, AlphaCorrectionMode,
    SetColourClampingEnabled, SetDitheringEnabled, SetPixelTesting1, SetPrimitive, SetRGBAQ,
    SetScissor1, SetUseMainPrimitive, SetXYOffset1,
};
use hypercubed::ps2::interrupts::{handler_from_reply, InterruptType};
use hypercubed::ps2::time::{clock_timestamp, read_clock_timestamp, Instant, FS_PER_INSTANT_CLOCK_TICK};
use hypercubed::ps2::triangle::{next_triangle_x_offset, triangle_frame_packet};

#[test]
fn fixed_point_conversions() {
    assert_eq!(Fixed12P4::zero(), Fixed12P4(0));
    assert_eq!(Fixed28P4::zero(), Fixed28P4(0));
    assert_eq!(Fixed12P4::from_u16(2048).0, 0x8000);
    assert_eq!(Fixed12P4::from_u16(1).0, 16);
    assert_eq!(Fixed12P4::from_u16(0x1001).0, 16);
    assert_eq!(Fixed28P4::from_u32(2048).0, 0x8000);
    assert_eq!(Fixed28P4::from_u32(0x1000_0001).0, 16);
}

#[test]
fn primitive_type_round_trip() {
    let mut p = SetPrimitive(0);
    p.set_primitive_type(PrimitiveType::TriangleFan);
    assert_eq!(p.0, 5);
    assert_eq!(p.get_primitive_type(), PrimitiveType::TriangleFan);
    p.set_gouraud_shading_enabled(true);
    assert_eq!(p.0, 5 | 8);
    assert_eq!(p.get_primitive_type(), PrimitiveType::TriangleFan);
    assert!(p.get_gouraud_shading_enabled());
    p.set_primitive_type(PrimitiveType::Sprite);
    assert_eq!(p.get_primitive_type(), PrimitiveType::Sprite);
    assert!(p.get_gouraud_shading_enabled());
    assert_eq!(p.register_num(), 0x00);
    assert_eq!(p.to_dword(), 6 | 8);
}

#[test]
fn pixel_testing_fields() {
    let mut t = SetPixelTesting1(0);
    t.set_alpha_test_method(AlphaTestMethod::NotEqualAlphaRef);
    t.set_alpha_fail_mode(AlphaFailMode::UpdateZBuffer);
    t.set_depth_test_enabled(true);
    t.set_depth_test_method(DepthTestMethod::GreaterThanOrEqual);
    assert_eq!(t.0, (7 << 1) | (2 << 12) | (1 << 16) | (2 << 17));
    assert_eq!(t.get_alpha_test_method(), AlphaTestMethod::NotEqualAlphaRef);
    assert_eq!(t.get_alpha_fail_mode(), AlphaFailMode::UpdateZBuffer);
    assert_eq!(t.get_depth_test_method(), DepthTestMethod::GreaterThanOrEqual);
    t.set_alpha_ref(0xAB);
    assert_eq!(t.get_alpha_ref(), 0xAB);
    assert_eq!(t.get_depth_test_method(), DepthTestMethod::GreaterThanOrEqual);
    assert_eq!(t.register_num(), 0x47);
}

#[test]
fn vertex_and_colour_words() {
    let c = SetRGBAQ { r: 1, g: 2, b: 3, a: 4, q: 5 };
    assert_eq!(c.to_dword(), 0x0000_0005_0403_0201);
    assert_eq!(c.register_num(), 0x01);
    let v = KickVertexXYZ2 { x: Fixed12P4(0x1234), y: Fixed12P4(0x5678), z: 9 };
    assert_eq!(v.to_dword(), 0x0000_0009_5678_1234);
    assert_eq!(v.register_num(), 0x05);
    let o = SetXYOffset1 { x: Fixed28P4(7), y: Fixed28P4(8) };
    assert_eq!(o.to_dword(), (8u64 << 32) | 7);
    assert_eq!(o.register_num(), 0x18);
    assert_eq!(o.to_xy_offset_2_packet_data(), [(8u64 << 32) | 7, 0x19]);
}

#[test]
fn flag_registers() {
    assert_eq!(SetUseMainPrimitive(true).to_dword(), 1);
    assert_eq!(SetUseMainPrimitive(false).register_num(), 0x1A);
    assert_eq!(SetDitheringEnabled(false).to_dword(), 0);
    assert_eq!(SetDitheringEnabled(true).register_num(), 0x45);
    assert_eq!(SetColourClampingEnabled(true).register_num(), 0x46);
    assert_eq!(SetAlphaCorrection1(AlphaCorrectionMode::Rgba16).to_dword(), 1);
    assert_eq!(SetAlphaCorrection1(AlphaCorrectionMode::Rgba32).register_num(), 0x4A);
    assert_eq!(Finished.to_dword(), 1);
    assert_eq!(Finished.register_num(), 0x61);
}

#[test]
fn scissor_packs_and_truncates_bounds() {
    let s = SetScissor1::new(0, 639, 0, 0x1FFF);
    assert_eq!(s.get_x_min(), 0);
    assert_eq!(s.get_x_max(), 639);
    assert_eq!(s.get_y_min(), 0);
    assert_eq!(s.get_y_max(), 0x7FF);
    assert_eq!(s.0, (639u64 << 16) | (0x7FFu64 << 48));
    assert_eq!(s.to_reg_2_packet_data(), [s.0, 0x41]);
}

#[test]
fn gif_tag_fields() {
    let mut f = PacketFields(0);
    f.set_num_regs(16);
    assert_eq!(f.get_num_regs_raw(), 0);
    assert_eq!(f.get_num_regs(), 16);
    f.set_num_regs(3);
    assert_eq!(f.get_num_regs(), 3);
    f.set_data_format(PacketDataFormat::Image);
    assert_eq!(f.get_data_format(), PacketDataFormat::Image);
    f.set_data_format_raw(3);
    assert_eq!(f.get_data_format(), PacketDataFormat::Image);
    f.set_data_format(PacketDataFormat::RegList);
    assert_eq!(f.get_data_format(), PacketDataFormat::RegList);
    f.set_prim_data(SetPrimitive(0xFFFF));
    assert_eq!(f.get_prim_data().0, 0x7FF);
    assert_eq!(f.get_num_regs(), 3);
    assert_eq!(Register::AddressAndData.code(), 14);
    assert_eq!(Register::Fog.code(), 10);
}

#[test]
fn packed_gif_packet_layout() {
    let a = SetDitheringEnabled(true);
    let b = Finished;
    let tags: [&dyn GsRegisterPacketData; 2] = [&a, &b];
    let p = Packet::packed_from_gs_reg_array(&tags);
    let q = p.as_dma_packet();
    assert_eq!(q.len(), 3);
    let head = PacketFields(q[0][0]);
    assert_eq!(head.get_nloop(), 2);
    assert!(head.get_end_of_packet());
    assert_eq!(head.get_data_format(), PacketDataFormat::Packed);
    assert_eq!(head.get_num_regs(), 1);
    assert_eq!(q[0][1], 14);
    assert_eq!(q[1], [1, 0x45]);
    assert_eq!(q[2], [1, 0x61]);
}

#[test]
fn dma_channel_words() {
    let data = ChannelControlData {
        dir: Direction::FromMemory,
        mode: Mode::Chain,
        address_stack_pointer: 7,
        transfer_dma_tag_enable: true,
        dma_tag_irq_bit_enable: false,
        start: true,
        tag_bits: 0xABCD,
    };
    assert_eq!(channel_control_word(&data), 1 | (1 << 2) | (2 << 4) | (1 << 6) | (1 << 8) | (0xABCD << 16));
    let default = ChannelControlData::default();
    assert_eq!(channel_control_word(&default), 1 | (1 << 7));
    assert_eq!(stat_clear_word(&[Channel::Gif, Channel::Vif0, Channel::Gif]), 0b101);
    assert_eq!(stat_clear_word(&[]), 0);
    assert_eq!(memory_address_word(0xFFFF_FFFF), 0x7FFF_FFF0);
    assert!(control_word_running(0x100));
    assert!(!control_word_running(0xFF));
    let w = normal_transfer_words(Channel::Gif, 19, 0x8010_0040);
    assert_eq!(w.stat, 1 << 2);
    assert_eq!(w.quadword_count, 19);
    assert_eq!(w.memory_address, 0x0010_0040);
    assert_eq!(w.channel_control, 1 | (1 << 7) | (1 << 8));
    assert_eq!(ChannelFlags::default(), ChannelFlags { transfer_tag: false, interrupt_safe: false });
}

#[test]
fn dma_channel_handler_lifecycle() {
    let mut reg = ChannelRegistry::new();
    let flags = ChannelFlags { transfer_tag: false, interrupt_safe: true };
    assert!(!reg.is_initialised(Channel::Gif));
    let actions = reg.initialise_channel(Channel::Gif, true, flags);
    assert_eq!(
        actions,
        vec![
            DmacAction::ClearTagAddresses(Channel::Gif),
            DmacAction::ClearSprAddress(Channel::Gif),
            DmacAction::AddHandler(Channel::Gif),
        ]
    );
    assert!(!reg.is_initialised(Channel::Gif));
    assert_eq!(reg.handler_added(Channel::Gif, 7, flags), DmacAction::EnableDmacWithInterrupt(Channel::Gif));
    assert!(reg.is_initialised(Channel::Gif));
    let again = reg.initialise_channel(Channel::Gif, false, flags);
    assert_eq!(
        again,
        vec![
            DmacAction::DisableDmacWithInterrupt(Channel::Gif),
            DmacAction::RemoveHandler(Channel::Gif, 7),
            DmacAction::ClearTagAddresses(Channel::Gif),
            DmacAction::ClearSprAddress(Channel::Gif),
        ]
    );
    assert!(reg.is_initialised(Channel::Gif));
    assert_eq!(reg.shutdown_channel(Channel::Gif, flags), vec![]);
    assert!(!reg.is_initialised(Channel::Gif));
    assert_eq!(reg.shutdown_channel(Channel::Gif, flags), vec![]);
    let ipu = reg.initialise_channel(Channel::IpuTo, false, ChannelFlags::default());
    assert_eq!(ipu, vec![]);
    let spr = reg.initialise_channel(Channel::SprFrom, false, ChannelFlags::default());
    assert_eq!(spr, vec![DmacAction::ClearSprAddress(Channel::SprFrom)]);
}

#[test]
fn interrupt_codes_and_replies() {
    assert_eq!(InterruptType::Gs.code(), 0);
    assert_eq!(InterruptType::Timer2.code(), 11);
    assert_eq!(InterruptType::Vu0Watchdog.code(), 14);
    assert!(handler_from_reply(-1).is_err());
    assert_eq!(handler_from_reply(3).unwrap().id(), 3);
    assert_eq!(handler_from_reply(0).unwrap().id(), 0);
}

#[test]
fn instant_clock() {
    assert_eq!(clock_timestamp(2, 0x1234), 0x2_1234);
    assert_eq!(read_clock_timestamp(1, 0xFFFF, 1, 0), 0x1_FFFF);
    assert_eq!(read_clock_timestamp(1, 0xFFFF, 2, 3), 0x2_0003);
    let a = Instant::from_timestamp(100);
    let b = Instant::from_timestamp(103);
    // Three ticks of 108.506944 ns each.
    assert_eq!(b.duration_since(a).nanoseconds(), 325);
    assert_eq!(FS_PER_INSTANT_CLOCK_TICK, 108_506_944);
    assert_eq!(a.duration_since(b).nanoseconds(), 0);
}

#[test]
fn display_modes_and_words() {
    let args = default_mode_for_region(Region::Pal, true);
    assert_eq!(args.mode_id, ModeId::Pal);
    assert!(args.interlaced);
    let mode = resolve_mode(SetModeArgs { interlaced: false, mode_id: ModeId::Hd1080i, frame_mode: FrameMode::Frame, flicker_filter: true });
    assert!(mode.interlaced);
    assert!(mode.flicker_filter);
    let mode = resolve_mode(SetModeArgs { interlaced: false, mode_id: ModeId::Ntsc, frame_mode: FrameMode::Frame, flicker_filter: true });
    assert!(!mode.flicker_filter);
    assert_eq!(ModeId::Ntsc.get_info().height, 224);
    assert_eq!(background_colour_word(1, 2, 3), 0x030201);
    assert_eq!(csr_reset_word(), 0x200);
    assert!(csr_drawing_finished(2));
    assert!(!csr_drawing_finished(8));
    assert!(csr_vsync_occurred(8));
    assert_eq!(output_pmode_word(false), 2 | 4 | (1 << 6) | (0x80 << 8));
    assert_eq!(output_pmode_word(true), 1 | 2 | 4 | (1 << 5) | (0x70 << 8));
}

#[test]
fn screen_setup_for_ntsc_field_mode() {
    let mode = resolve_mode(default_mode_for_region(Region::Ntsc, false));
    let setup = screen_setup(mode, 0, 0, 640, 448);
    assert_eq!(setup.magh, 4);
    assert_eq!(setup.magv, 1);
    assert_eq!(setup.display_1.dx, 652);
    assert_eq!(setup.display_1.dy, 50);
    assert_eq!(setup.display_1.dw, 2559);
    assert_eq!(setup.display_1.dh, 447);
    assert_eq!(setup.display_2, setup.display_1);
    let (lo, hi) = display_area::encode(setup.display_1);
    assert_eq!(lo, 652 | (50 << 12) | (3 << 23));
    assert_eq!(hi, 2559 | (447 << 12));
    assert_eq!(display_area::register_address(display_fb::DisplayIndex::Display2), 0x120000A0);
}

#[test]
fn display_framebuffer_words() {
    let (a, b) = display_fb::filtered_framebuffer_args(0x4000, 640, PixelStorageMethod::Psm32, 0, 0);
    assert_eq!(a.shifted_address, 8);
    assert_eq!(a.shifted_width, 10);
    assert_eq!(b.dby, 1);
    let (lo, hi) = display_fb::encode(b);
    assert_eq!(lo, 8 | (10 << 9));
    assert_eq!(hi, 1 << 11);
    assert_eq!(PixelStorageMethod::PsmZ16S.code(), 0x3A);
}

#[test]
fn triangle_frame_sweeps_and_draws() {
    assert_eq!(next_triangle_x_offset(2048), 2049);
    assert_eq!(next_triangle_x_offset(2248), 1848);
    let p = triangle_frame_packet(640, 448, DepthTestMethod::GreaterThanOrEqual, 2048);
    let q = p.as_dma_packet();
    assert_eq!(q.len(), 19);
    assert_eq!(PacketFields(q[0][0]).get_nloop(), 18);
    assert_eq!(q[3], [0xFF00_0000, 0x01]);
    assert_eq!(q[4], [((2048 - 320) * 16) as u64 | ((((2048 - 224) * 16) as u64) << 16), 0x05]);
    assert_eq!(q[13], [((1948 * 16) as u64) | (((2148 * 16) as u64) << 16), 0x05]);
    assert_eq!(q[12], [0xFF00_00FF, 0x01]);
    assert_eq!(q[18], [1, 0x61]);
    let testing = SetPixelTesting1(q[10][0]);
    assert!(testing.get_depth_test_enabled());
    assert_eq!(testing.get_depth_test_method(), DepthTestMethod::GreaterThanOrEqual);
    assert_eq!(SetPrimitive(q[11][0]).get_primitive_type(), PrimitiveType::Triangle);
    assert!(SetPrimitive(q[11][0]).get_gouraud_shading_enabled());
    assert!(!SetPrimitive(q[2][0]).get_gouraud_shading_enabled());
}
