use vstd::prelude::*;
use crate::ps2::display_area;

verus! {

/// How pixels are stored in graphics-synthesiser memory.
#[derive(Clone, Copy, Debug, PartialEq, Eq, Structural)]
pub enum PixelStorageMethod {
    Psm32,
    Psm24,
    Psm16,
    Psm16S,
    Psm8,
    Psm4,
    Psm8H,
    Psm4HL,
    Psm4HH,
    PsmZ32,
    PsmZ24,
    PsmZ16,
    PsmZ16S,
}

impl PixelStorageMethod {
    /// The hardware code of the storage method.
    pub open spec fn spec_code(self) -> u8 {
        match self {
            PixelStorageMethod::Psm32 => 0x00,
            PixelStorageMethod::Psm24 => 0x01,
            PixelStorageMethod::Psm16 => 0x02,
            PixelStorageMethod::Psm16S => 0x0A,
            PixelStorageMethod::Psm8 => 0x13,
            PixelStorageMethod::Psm4 => 0x14,
            PixelStorageMethod::Psm8H => 0x1B,
            PixelStorageMethod::Psm4HL => 0x24,
            PixelStorageMethod::Psm4HH => 0x2C,
            PixelStorageMethod::PsmZ32 => 0x30,
            PixelStorageMethod::PsmZ24 => 0x31,
            PixelStorageMethod::PsmZ16 => 0x32,
            PixelStorageMethod::PsmZ16S => 0x3A,
        }
    }

    pub fn code(&self) -> (c: u8)
        ensures
            c == self.spec_code(),
            c < 64,
    {
        match self {
            PixelStorageMethod::Psm32 => 0x00,
            PixelStorageMethod::Psm24 => 0x01,
            PixelStorageMethod::Psm16 => 0x02,
            PixelStorageMethod::Psm16S => 0x0A,
            PixelStorageMethod::Psm8 => 0x13,
            PixelStorageMethod::Psm4 => 0x14,
            PixelStorageMethod::Psm8H => 0x1B,
            PixelStorageMethod::Psm4HL => 0x24,
            PixelStorageMethod::Psm4HH => 0x2C,
            PixelStorageMethod::PsmZ32 => 0x30,
            PixelStorageMethod::PsmZ24 => 0x31,
            PixelStorageMethod::PsmZ16 => 0x32,
            PixelStorageMethod::PsmZ16S => 0x3A,
        }
    }

    /// Whether this is one of the depth-buffer storage methods.
    pub open spec fn spec_is_depth(self) -> bool {
        match self {
            PixelStorageMethod::PsmZ32 | PixelStorageMethod::PsmZ24 | PixelStorageMethod::PsmZ16
            | PixelStorageMethod::PsmZ16S => true,
            _ => false,
        }
    }
}

/// The console's video region.
#[derive(Clone, Copy, Debug, PartialEq, Eq, Structural)]
pub enum Region {
    Ntsc,
    Pal,
}

/// A video mode of the graphics synthesiser.
#[derive(Clone, Copy, Debug, PartialEq, Eq, Structural)]
pub enum ModeId {
    /// NTSC-NI
    Ntsc,
    /// PAL-NI
    Pal,
    /// 480p
    Hd480p,
    /// 576p (only available in BIOS >= 220)
    Hd576p,
    /// 720p
    Hd720p,
    /// 1080i
    Hd1080i,
    /// VGA 640x480@60
    Vga640x60,
    /// VGA 640x480@72
    Vga640x72,
    /// VGA 640x480@75
    Vga640x75,
    /// VGA 640x480@85
    Vga640x85,
    /// VGA 800x600@56
    Vga800x56,
    /// VGA 800x600@60
    Vga800x60,
    /// VGA 800x600@72
    Vga800x72,
    /// VGA 800x600@75
    Vga800x75,
    /// VGA 800x600@85
    Vga800x85,
    /// VGA 1024x768@60
    Vga1024x60,
    /// VGA 1024x768@70
    Vga1024x70,
    /// VGA 1024x768@75
    Vga1024x75,
    /// VGA 1024x768@85
    Vga1024x85,
    /// VGA 1280x1024@60
    Vga1280x60,
    /// VGA 1280x1024@75
    Vga1280x75,
}

/// Screen placement of a video mode.
#[derive(Clone, Copy, Debug, PartialEq, Eq, Structural)]
pub struct ModeInfo {
    pub x: u32,
    pub y: u32,
    pub width: u32,
    /// Non-interlaced height.
    pub height: u32,
}

impl ModeId {
    /// The mode code passed to the kernel's `SetGsCrt`.
    pub fn code(&self) -> (c: u8)
        ensures
            c == self.spec_code(),
    {
        match self {
            ModeId::Ntsc => 0x02,
            ModeId::Pal => 0x03,
            ModeId::Hd480p => 0x50,
            ModeId::Hd576p => 0x53,
            ModeId::Hd720p => 0x52,
            ModeId::Hd1080i => 0x51,
            ModeId::Vga640x60 => 0x1A,
            ModeId::Vga640x72 => 0x1B,
            ModeId::Vga640x75 => 0x1C,
            ModeId::Vga640x85 => 0x1D,
            ModeId::Vga800x56 => 0x2A,
            ModeId::Vga800x60 => 0x2B,
            ModeId::Vga800x72 => 0x2C,
            ModeId::Vga800x75 => 0x2D,
            ModeId::Vga800x85 => 0x2E,
            ModeId::Vga1024x60 => 0x3B,
            ModeId::Vga1024x70 => 0x3C,
            ModeId::Vga1024x75 => 0x3D,
            ModeId::Vga1024x85 => 0x3E,
            ModeId::Vga1280x60 => 0x4A,
            ModeId::Vga1280x75 => 0x4B,
        }
    }

    pub open spec fn spec_code(self) -> u8 {
        match self {
            ModeId::Ntsc => 0x02,
            ModeId::Pal => 0x03,
            ModeId::Hd480p => 0x50,
            ModeId::Hd576p => 0x53,
            ModeId::Hd720p => 0x52,
            ModeId::Hd1080i => 0x51,
            ModeId::Vga640x60 => 0x1A,
            ModeId::Vga640x72 => 0x1B,
            ModeId::Vga640x75 => 0x1C,
            ModeId::Vga640x85 => 0x1D,
            ModeId::Vga800x56 => 0x2A,
            ModeId::Vga800x60 => 0x2B,
            ModeId::Vga800x72 => 0x2C,
            ModeId::Vga800x75 => 0x2D,
            ModeId::Vga800x85 => 0x2E,
            ModeId::Vga1024x60 => 0x3B,
            ModeId::Vga1024x70 => 0x3C,
            ModeId::Vga1024x75 => 0x3D,
            ModeId::Vga1024x85 => 0x3E,
            ModeId::Vga1280x60 => 0x4A,
            ModeId::Vga1280x75 => 0x4B,
        }
    }

    /// The modes whose screen placement is known.
    pub open spec fn spec_has_info(self) -> bool {
        self == ModeId::Ntsc || self == ModeId::Pal || self == ModeId::Vga640x60
    }

    pub open spec fn spec_info(self) -> ModeInfo {
        match self {
            ModeId::Ntsc => ModeInfo { x: 652, y: 26, width: 2560, height: 224 },
            ModeId::Pal => ModeInfo { x: 680, y: 37, width: 2560, height: 256 },
            _ => ModeInfo { x: 280, y: 18, width: 1280, height: 480 },
        }
    }

    /// The screen placement of the mode (known for NTSC, PAL and VGA 640x480@60).
    pub fn get_info(&self) -> (info: ModeInfo)
        requires
            self.spec_has_info(),
        ensures
            info == self.spec_info(),
    {
        match self {
            ModeId::Ntsc => ModeInfo { x: 652, y: 26, width: 2560, height: 224 },
            ModeId::Pal => ModeInfo { x: 680, y: 37, width: 2560, height: 256 },
            _ => ModeInfo { x: 280, y: 18, width: 1280, height: 480 },
        }
    }
}

/// Whether interlaced output shows whole frames or alternate fields.
#[derive(Clone, Copy, Debug, PartialEq, Eq, Structural)]
pub enum FrameMode {
    Field,
    Frame,
}

impl FrameMode {
    pub open spec fn spec_code(self) -> u8 {
        match self {
            FrameMode::Field => 0,
            FrameMode::Frame => 1,
        }
    }

    pub fn code(&self) -> (c: u8)
        ensures
            c == self.spec_code(),
    {
        match self {
            FrameMode::Field => 0,
            FrameMode::Frame => 1,
        }
    }
}

/// Which alpha value blends the two read circuits.
#[derive(Clone, Copy, Debug, PartialEq, Eq, Structural)]
pub enum AlphaBlend {
    ReadCircuit1,
    Alpha,
}

/// Which read circuit's alpha is output.
#[derive(Clone, Copy, Debug, PartialEq, Eq, Structural)]
pub enum AlphaOutput {
    ReadCircuit1,
    ReadCircuit2,
}

/// What read circuit 1 is blended with.
#[derive(Clone, Copy, Debug, PartialEq, Eq, Structural)]
pub enum BlendMethod {
    ReadCircuit2,
    BackgroundColour,
}

/// Arguments for setting a video mode.
#[derive(Clone, Copy, Debug, PartialEq, Eq, Structural)]
pub struct SetModeArgs {
    pub interlaced: bool,
    pub mode_id: ModeId,
    pub frame_mode: FrameMode,
    pub flicker_filter: bool,
}

/// The mode actually set: 1080i is always interlaced, and the flicker filter only applies to
/// interlaced output.
#[derive(Clone, Copy, Debug, PartialEq, Eq, Structural)]
pub struct DisplayMode {
    pub mode_id: ModeId,
    pub interlaced: bool,
    pub frame_mode: FrameMode,
    pub flicker_filter: bool,
}

/// Fixes up requested mode arguments the way the hardware needs them.
pub fn resolve_mode(args: SetModeArgs) -> (mode: DisplayMode)
    ensures
        mode.mode_id == args.mode_id,
        mode.frame_mode == args.frame_mode,
        mode.interlaced == (args.interlaced || args.mode_id == ModeId::Hd1080i),
        mode.flicker_filter == (args.flicker_filter && mode.interlaced),
{
    let interlaced = args.interlaced || args.mode_id == ModeId::Hd1080i;
    let flicker_filter = args.flicker_filter && interlaced;
    DisplayMode { mode_id: args.mode_id, interlaced, frame_mode: args.frame_mode, flicker_filter }
}

/// The default interlaced mode for a region.
pub fn default_mode_for_region(region: Region, flicker_filter: bool) -> (args: SetModeArgs)
    ensures
        args.interlaced,
        args.frame_mode == FrameMode::Field,
        args.flicker_filter == flicker_filter,
        args.mode_id == (match region {
            Region::Ntsc => ModeId::Ntsc,
            Region::Pal => ModeId::Pal,
        }),
{
    SetModeArgs {
        interlaced: true,
        mode_id: match region {
            Region::Ntsc => ModeId::Ntsc,
            Region::Pal => ModeId::Pal,
        },
        frame_mode: FrameMode::Field,
        flicker_filter,
    }
}


/// Whether the output shows alternate fields of an interlaced picture.
pub open spec fn spec_field_interlaced(mode: DisplayMode) -> bool {
    mode.interlaced && mode.frame_mode == FrameMode::Field
}

/// The screen placement needs no arithmetic beyond 32 bits.
pub open spec fn screen_setup_fits(mode: DisplayMode, x: u32, y: u32) -> bool {
    let info = mode.mode_id.spec_info();
    &&& info.x + x <= u32::MAX
    &&& if spec_field_interlaced(mode) {
        (info.y + y - 1) * 2 + y <= u32::MAX
    } else {
        info.y + y + y <= u32::MAX
    }
}

/// Vertical start of the picture: the mode's offset plus the adjustment, doubled (less one
/// line) for field output, and then adjusted once more.
pub open spec fn spec_screen_dy(mode: DisplayMode, y: u32) -> int {
    let info = mode.mode_id.spec_info();
    if spec_field_interlaced(mode) {
        (info.y + y - 1) * 2 + y
    } else {
        info.y + y + y
    }
}

/// Height of the picture in output lines.
pub open spec fn spec_screen_dh(mode: DisplayMode) -> int {
    let info = mode.mode_id.spec_info();
    if spec_field_interlaced(mode) {
        info.height * 2
    } else {
        info.height as int
    }
}

/// Magnification, at least 1.
pub open spec fn spec_magnification(screen: int, buffer: int) -> int {
    if screen / buffer < 1 {
        1
    } else {
        screen / buffer
    }
}

/// Where and how large the frame buffer appears on screen, for both read circuits.
#[derive(Clone, Copy, Debug, PartialEq, Eq, Structural)]
pub struct ScreenSetup {
    pub magh: u32,
    pub magv: u32,
    pub display_1: display_area::SetArgs,
    pub display_2: display_area::SetArgs,
}

/// Places a `width` x `height` frame buffer at offset (`x`, `y`) of the given mode. With the
/// flicker filter the second read circuit shows one line less.
pub fn screen_setup(mode: DisplayMode, x: u32, y: u32, width: u32, height: u32) -> (setup:
    ScreenSetup)
    requires
        mode.mode_id.spec_has_info(),
        width >= 1,
        height >= 1,
        mode.flicker_filter ==> height >= 2,
        screen_setup_fits(mode, x, y),
    ensures
        setup.magh == spec_magnification(mode.mode_id.spec_info().width as int, width as int),
        setup.magv == spec_magnification(spec_screen_dh(mode), height as int),
        setup.display_1.dx == (mode.mode_id.spec_info().x + x) as u16,
        setup.display_1.dy == spec_screen_dy(mode, y) as u16,
        setup.display_1.magh == (setup.magh - 1) as u8,
        setup.display_1.magv == (setup.magv - 1) as u8,
        setup.display_1.dw == (mode.mode_id.spec_info().width - 1) as u16,
        setup.display_1.dh == (height - 1) as u16,
        setup.display_2.dx == setup.display_1.dx,
        setup.display_2.dy == setup.display_1.dy,
        setup.display_2.magh == setup.display_1.magh,
        setup.display_2.magv == setup.display_1.magv,
        setup.display_2.dw == setup.display_1.dw,
        setup.display_2.dh == if mode.flicker_filter {
            (height - 2) as u16
        } else {
            (height - 1) as u16
        },
{
    let info = mode.mode_id.get_info();
    let dx = info.x + x;
    let mut dy = info.y + y;
    let dw = info.width;
    let mut dh = info.height;
    if mode.interlaced && mode.frame_mode == FrameMode::Field {
        dy = (dy - 1) * 2;
        dh = info.height * 2;
    }
    dy = dy + y;
    let mut magh = dw / width;
    let mut magv = dh / height;
    if magh < 1 {
        magh = 1;
    }
    if magv < 1 {
        magv = 1;
    }
    let display_1 = display_area::SetArgs {
        dx: dx as u16,
        dy: dy as u16,
        magh: (magh - 1) as u8,
        magv: (magv - 1) as u8,
        dw: (dw - 1) as u16,
        dh: (height - 1) as u16,
    };
    let display_2 = if mode.flicker_filter {
        display_area::SetArgs {
            dx: dx as u16,
            dy: dy as u16,
            magh: (magh - 1) as u8,
            magv: (magv - 1) as u8,
            dw: (dw - 1) as u16,
            dh: (height - 2) as u16,
        }
    } else {
        display_1
    };
    ScreenSetup { magh, magv, display_1, display_2 }
}

/// The PCRTC mode word: which read circuits are on, how they are blended, and the blending
/// alpha.
pub open spec fn spec_pmode_word(
    read_circuit_1: bool,
    read_circuit_2: bool,
    alpha_select: AlphaBlend,
    alpha_output: AlphaOutput,
    blend_method: BlendMethod,
    alpha: u8,
) -> u32 {
    (if read_circuit_1 { 1u32 } else { 0u32 }) | ((if read_circuit_2 { 1u32 } else { 0u32 }) << 1)
        | (1u32 << 2) | ((if alpha_select == AlphaBlend::Alpha { 1u32 } else { 0u32 }) << 5) | ((
    if alpha_output == AlphaOutput::ReadCircuit2 { 1u32 } else { 0u32 }) << 6) | ((
    if blend_method == BlendMethod::BackgroundColour { 1u32 } else { 0u32 }) << 7) | ((alpha as u32)
        << 8)
}

pub fn pmode_word(
    read_circuit_1: bool,
    read_circuit_2: bool,
    alpha_select: AlphaBlend,
    alpha_output: AlphaOutput,
    blend_method: BlendMethod,
    alpha: u8,
) -> (w: u32)
    ensures
        w == spec_pmode_word(read_circuit_1, read_circuit_2, alpha_select, alpha_output, blend_method, alpha),
{
    let rc1: u32 = if read_circuit_1 { 1 } else { 0 };
    let rc2: u32 = if read_circuit_2 { 1 } else { 0 };
    let asel: u32 = match alpha_select {
        AlphaBlend::ReadCircuit1 => 0,
        AlphaBlend::Alpha => 1,
    };
    let aout: u32 = match alpha_output {
        AlphaOutput::ReadCircuit1 => 0,
        AlphaOutput::ReadCircuit2 => 1,
    };
    let blend: u32 = match blend_method {
        BlendMethod::ReadCircuit2 => 0,
        BlendMethod::BackgroundColour => 1,
    };
    rc1 | (rc2 << 1) | (1 << 2) | (asel << 5) | (aout << 6) | (blend << 7) | ((alpha as u32) << 8)
}

/// The PCRTC mode used to enable output: both read circuits blended with alpha 0x70 when the
/// flicker filter is on, read circuit 2 alone with alpha 0x80 otherwise.
pub fn output_pmode_word(flicker_filter: bool) -> (w: u32)
    ensures
        w == if flicker_filter {
            spec_pmode_word(true, true, AlphaBlend::Alpha, AlphaOutput::ReadCircuit1, BlendMethod::ReadCircuit2, 0x70)
        } else {
            spec_pmode_word(false, true, AlphaBlend::ReadCircuit1, AlphaOutput::ReadCircuit2, BlendMethod::ReadCircuit2, 0x80)
        },
{
    if flicker_filter {
        pmode_word(true, true, AlphaBlend::Alpha, AlphaOutput::ReadCircuit1, BlendMethod::ReadCircuit2, 0x70)
    } else {
        pmode_word(false, true, AlphaBlend::ReadCircuit1, AlphaOutput::ReadCircuit2, BlendMethod::ReadCircuit2, 0x80)
    }
}

/// The background-colour register word.
pub fn background_colour_word(r: u8, g: u8, b: u8) -> (w: u32)
    ensures
        w == (r as u32) | ((g as u32) << 8) | ((b as u32) << 16),
{
    (r as u32) | ((g as u32) << 8) | ((b as u32) << 16)
}

/// The system status register value that resets the graphics synthesiser.
pub fn csr_reset_word() -> (w: u64)
    ensures
        w == 1u64 << 9,
{
    1 << 9
}

/// Whether a system status register value reports that drawing has finished.
pub fn csr_drawing_finished(csr: u32) -> (r: bool)
    ensures
        r == (csr & 2 != 0),
{
    csr & 2 != 0
}

/// Whether a system status register value reports a vertical sync.
pub fn csr_vsync_occurred(csr: u32) -> (r: bool)
    ensures
        r == (csr & 8 != 0),
{
    csr & 8 != 0
}


/// PAL and NTSC screens are equally wide: for every buffer width, the horizontal
/// magnification of the picture is the same in both modes (a 640-wide buffer fills the screen
/// at magnification 4 in either); PAL only has more lines.
pub proof fn lemma_pal_ntsc_same_horizontal_scale(buffer_width: int)
    requires
        buffer_width > 0,
    ensures
        spec_magnification(ModeId::Pal.spec_info().width as int, buffer_width) == spec_magnification(
            ModeId::Ntsc.spec_info().width as int,
            buffer_width,
        ),
        ModeId::Pal.spec_info().height > ModeId::Ntsc.spec_info().height,
{
}

} // verus!
