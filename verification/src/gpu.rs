//! The GPU: the GP0 drawing/command port with its multi-word command
//! FIFO, the GP1 control port, and the status register.

use vstd::prelude::*;
use crate::errors::EmuError;

verus! {

/// What the GP0 port is currently consuming.
#[derive(Clone, Copy, PartialEq, Eq, Structural, Debug)]
pub enum Gp0Mode {
    /// Words belong to a drawing or configuration command.
    Command,
    /// Words are image data of a transfer to video memory.
    ImageLoad,
}

/// Depth of texture pixels.
#[derive(Clone, Copy, PartialEq, Eq, Structural, Debug)]
pub enum TextureDepth {
    T4Bit,
    T8Bit,
    T15Bit,
}

/// The field displayed in interlaced mode.
#[derive(Clone, Copy, PartialEq, Eq, Structural, Debug)]
pub enum Field {
    Bottom,
    Top,
}

/// The DMA routing selected through GP1.
#[derive(Clone, Copy, PartialEq, Eq, Structural, Debug)]
pub enum DmaDirection {
    Off,
    Fifo,
    CpuToGpu0,
    VRamToCpu,
}

/// Depth of displayed pixels.
#[derive(Clone, Copy, PartialEq, Eq, Structural, Debug)]
pub enum DisplayDepth {
    D15Bits,
    D24Bits,
}

/// Video standard.
#[derive(Clone, Copy, PartialEq, Eq, Structural, Debug)]
pub enum VMode {
    NTSC,
    PAL,
}

/// Vertical display resolution.
#[derive(Clone, Copy, PartialEq, Eq, Structural, Debug)]
pub enum VerticalRes {
    Y240Lines,
    Y480Lines,
}

/// The horizontal-resolution composite, as stored in status bits 16-18.
#[derive(Clone, Copy, PartialEq, Eq, Structural, Debug)]
pub struct HorisontalRes(pub u8);

impl HorisontalRes {
    /// Builds the composite from the two fields of the display-mode word.
    pub fn from_fields(hr1: u8, hr2: u8) -> (r: HorisontalRes)
        ensures
            r == (HorisontalRes(((hr2 & 1) | ((hr1 & 3) << 1)) as u8)),
    {
        let hr = (hr2 & 1) | ((hr1 & 3) << 1);
        HorisontalRes(hr)
    }

    /// The composite shifted to its place in the status register.
    pub open spec fn spec_into_status(self) -> u32 {
        (self.0 as u32) << 16
    }

    #[verifier::when_used_as_spec(spec_into_status)]
    pub fn into_status(self) -> (r: u32)
        ensures
            r == self.spec_into_status(),
    {
        (self.0 as u32) << 16
    }
}

/// The handler that runs when a GP0 command's words are all collected.
#[derive(Clone, Copy, PartialEq, Eq, Structural, Debug)]
pub enum Gp0Command {
    Nop,
    ClearCache,
    QuadMonoOpaque,
    QuadTextureBlendOpaque,
    TriangleShadedOpaque,
    QuadShadedOpaque,
    ImageLoad,
    ImageStore,
    DrawMode,
    TextureWindow,
    DrawingAreaTopLeft,
    DrawingAreaBottomRight,
    DrawingOffset,
    MaskBitSetting,
}

/// Total number of words of a GP0 command, its opcode word included.
pub open spec fn command_length(c: Gp0Command) -> u32 {
    match c {
        Gp0Command::Nop => 1,
        Gp0Command::ClearCache => 1,
        Gp0Command::QuadMonoOpaque => 5,
        Gp0Command::QuadTextureBlendOpaque => 9,
        Gp0Command::TriangleShadedOpaque => 6,
        Gp0Command::QuadShadedOpaque => 8,
        Gp0Command::ImageLoad => 3,
        Gp0Command::ImageStore => 3,
        Gp0Command::DrawMode => 1,
        Gp0Command::TextureWindow => 1,
        Gp0Command::DrawingAreaTopLeft => 1,
        Gp0Command::DrawingAreaBottomRight => 1,
        Gp0Command::DrawingOffset => 1,
        Gp0Command::MaskBitSetting => 1,
    }
}

/// The command selected by the high byte of a GP0 opcode word, or `None`
/// when the opcode is not recognized.
pub open spec fn gp0_decode(op: u32) -> Option<Gp0Command> {
    if op == 0x00 {
        Some(Gp0Command::Nop)
    } else if op == 0x01 {
        Some(Gp0Command::ClearCache)
    } else if op == 0x28 {
        Some(Gp0Command::QuadMonoOpaque)
    } else if op == 0x2c {
        Some(Gp0Command::QuadTextureBlendOpaque)
    } else if op == 0x30 {
        Some(Gp0Command::TriangleShadedOpaque)
    } else if op == 0x38 {
        Some(Gp0Command::QuadShadedOpaque)
    } else if op == 0xa0 {
        Some(Gp0Command::ImageLoad)
    } else if op == 0xc0 {
        Some(Gp0Command::ImageStore)
    } else if op == 0xe1 {
        Some(Gp0Command::DrawMode)
    } else if op == 0xe2 {
        Some(Gp0Command::TextureWindow)
    } else if op == 0xe3 {
        Some(Gp0Command::DrawingAreaTopLeft)
    } else if op == 0xe4 {
        Some(Gp0Command::DrawingAreaBottomRight)
    } else if op == 0xe5 {
        Some(Gp0Command::DrawingOffset)
    } else if op == 0xe6 {
        Some(Gp0Command::MaskBitSetting)
    } else {
        None
    }
}

/// The FIFO that collects the words of a multi-word GP0 command.
pub struct CommandBuffer {
    pub buffer: Vec<u32>,
}

impl View for CommandBuffer {
    type V = Seq<u32>;

    open spec fn view(&self) -> Seq<u32> {
        self.buffer@
    }
}

impl CommandBuffer {
    /// The longest command has 9 words; the buffer never grows past 12.
    pub open spec fn wf(&self) -> bool {
        self@.len() <= 12
    }

    /// An empty buffer.
    pub fn new() -> (r: CommandBuffer)
        ensures
            r@ == Seq::<u32>::empty(),
    {
        CommandBuffer { buffer: Vec::new() }
    }

    /// Drops all collected words.
    pub fn clear(&mut self)
        ensures
            final(self)@ == Seq::<u32>::empty(),
    {
        self.buffer.clear();
    }

    /// Appends one word.
    pub fn push_word(&mut self, word: u32)
        requires
            old(self)@.len() < 12,
        ensures
            final(self)@ == old(self)@.push(word),
    {
        self.buffer.push(word);
    }

    /// The word at `index`, which must be below the number of collected
    /// words.
    pub fn index(&self, index: usize) -> (r: u32)
        requires
            index < self@.len(),
        ensures
            r == self@[index as int],
    {
        self.buffer[index]
    }
}

/// The mathematical state of the GPU.
pub ghost struct GpuState {
    pub page_base_x: u8,
    pub page_base_y: u8,
    pub semi_transparency: u8,
    pub texture_depth: TextureDepth,
    pub dithering: bool,
    pub draw_to_display: bool,
    pub force_set_mask_bit: bool,
    pub preserve_masked_pixels: bool,
    pub field: Field,
    pub texture_disable: bool,
    pub hres: HorisontalRes,
    pub vres: VerticalRes,
    pub vmode: VMode,
    pub display_depth: DisplayDepth,
    pub interlaced: bool,
    pub display_disable: bool,
    pub interrupt: bool,
    pub dma_direction: DmaDirection,
    pub rectangle_texture_x_flip: bool,
    pub rectangle_texture_y_flip: bool,
    pub texture_window_x_mask: u8,
    pub texture_window_y_mask: u8,
    pub texture_window_x_offset: u8,
    pub texture_window_y_offset: u8,
    pub drawing_area_left: u16,
    pub drawing_area_top: u16,
    pub drawing_area_right: u16,
    pub drawing_area_bottom: u16,
    pub drawing_x_offset: i16,
    pub drawing_y_offset: i16,
    pub display_vram_x_start: u16,
    pub display_vram_y_start: u16,
    pub display_horizontal_start: u16,
    pub display_horizontal_end: u16,
    pub display_line_start: u16,
    pub display_line_end: u16,
    pub gp0_command: Seq<u32>,
    pub gp0_command_remaining: u32,
    pub gp0_command_method: Gp0Command,
    pub gp0_mode: Gp0Mode,
}

/// The GPU's register bank and GP0 command FIFO.
pub struct Gpu {
    pub page_base_x: u8,
    pub page_base_y: u8,
    pub semi_transparency: u8,
    pub texture_depth: TextureDepth,
    pub dithering: bool,
    pub draw_to_display: bool,
    pub force_set_mask_bit: bool,
    pub preserve_masked_pixels: bool,
    pub field: Field,
    pub texture_disable: bool,
    pub hres: HorisontalRes,
    pub vres: VerticalRes,
    pub vmode: VMode,
    pub display_depth: DisplayDepth,
    pub interlaced: bool,
    pub display_disable: bool,
    pub interrupt: bool,
    pub dma_direction: DmaDirection,
    pub rectangle_texture_x_flip: bool,
    pub rectangle_texture_y_flip: bool,
    pub texture_window_x_mask: u8,
    pub texture_window_y_mask: u8,
    pub texture_window_x_offset: u8,
    pub texture_window_y_offset: u8,
    pub drawing_area_left: u16,
    pub drawing_area_top: u16,
    pub drawing_area_right: u16,
    pub drawing_area_bottom: u16,
    pub drawing_x_offset: i16,
    pub drawing_y_offset: i16,
    pub display_vram_x_start: u16,
    pub display_vram_y_start: u16,
    pub display_horizontal_start: u16,
    pub display_horizontal_end: u16,
    pub display_line_start: u16,
    pub display_line_end: u16,
    pub gp0_command: CommandBuffer,
    pub gp0_command_remaining: u32,
    pub gp0_command_method: Gp0Command,
    pub gp0_mode: Gp0Mode,
}

impl View for Gpu {
    type V = GpuState;

    open spec fn view(&self) -> GpuState {
        GpuState {
            page_base_x: self.page_base_x,
            page_base_y: self.page_base_y,
            semi_transparency: self.semi_transparency,
            texture_depth: self.texture_depth,
            dithering: self.dithering,
            draw_to_display: self.draw_to_display,
            force_set_mask_bit: self.force_set_mask_bit,
            preserve_masked_pixels: self.preserve_masked_pixels,
            field: self.field,
            texture_disable: self.texture_disable,
            hres: self.hres,
            vres: self.vres,
            vmode: self.vmode,
            display_depth: self.display_depth,
            interlaced: self.interlaced,
            display_disable: self.display_disable,
            interrupt: self.interrupt,
            dma_direction: self.dma_direction,
            rectangle_texture_x_flip: self.rectangle_texture_x_flip,
            rectangle_texture_y_flip: self.rectangle_texture_y_flip,
            texture_window_x_mask: self.texture_window_x_mask,
            texture_window_y_mask: self.texture_window_y_mask,
            texture_window_x_offset: self.texture_window_x_offset,
            texture_window_y_offset: self.texture_window_y_offset,
            drawing_area_left: self.drawing_area_left,
            drawing_area_top: self.drawing_area_top,
            drawing_area_right: self.drawing_area_right,
            drawing_area_bottom: self.drawing_area_bottom,
            drawing_x_offset: self.drawing_x_offset,
            drawing_y_offset: self.drawing_y_offset,
            display_vram_x_start: self.display_vram_x_start,
            display_vram_y_start: self.display_vram_y_start,
            display_horizontal_start: self.display_horizontal_start,
            display_horizontal_end: self.display_horizontal_end,
            display_line_start: self.display_line_start,
            display_line_end: self.display_line_end,
            gp0_command: self.gp0_command@,
            gp0_command_remaining: self.gp0_command_remaining,
            gp0_command_method: self.gp0_command_method,
            gp0_mode: self.gp0_mode,
        }
    }
}

/// 1 when the flag is set, else 0.
pub open spec fn bit32(b: bool) -> u32 {
    if b {
        1u32
    } else {
        0u32
    }
}

/// The encoding of a texture depth in status bits 7-8.
pub open spec fn texture_depth_bits(t: TextureDepth) -> u32 {
    match t {
        TextureDepth::T4Bit => 0,
        TextureDepth::T8Bit => 1,
        TextureDepth::T15Bit => 2,
    }
}

/// The encoding of the displayed field in status bit 13.
pub open spec fn field_bit(f: Field) -> u32 {
    match f {
        Field::Bottom => 0,
        Field::Top => 1,
    }
}

/// The encoding of the vertical resolution in status bit 19.
pub open spec fn vres_bit(v: VerticalRes) -> u32 {
    match v {
        VerticalRes::Y240Lines => 0,
        VerticalRes::Y480Lines => 1,
    }
}

/// The encoding of the video standard in status bit 20.
pub open spec fn vmode_bit(v: VMode) -> u32 {
    match v {
        VMode::NTSC => 0,
        VMode::PAL => 1,
    }
}

/// The encoding of the display depth in status bit 21.
pub open spec fn display_depth_bit(d: DisplayDepth) -> u32 {
    match d {
        DisplayDepth::D15Bits => 0,
        DisplayDepth::D24Bits => 1,
    }
}

/// The encoding of the DMA direction in status bits 29-30.
pub open spec fn dma_direction_bits(d: DmaDirection) -> u32 {
    match d {
        DmaDirection::Off => 0,
        DmaDirection::Fifo => 1,
        DmaDirection::CpuToGpu0 => 2,
        DmaDirection::VRamToCpu => 3,
    }
}

/// The power-on state of the GPU.
pub open spec fn gpu_power_on() -> GpuState {
    GpuState {
        page_base_x: 0,
        page_base_y: 0,
        semi_transparency: 0,
        texture_depth: TextureDepth::T4Bit,
        dithering: false,
        draw_to_display: false,
        force_set_mask_bit: false,
        preserve_masked_pixels: false,
        field: Field::Top,
        texture_disable: false,
        hres: HorisontalRes(0),
        vres: VerticalRes::Y240Lines,
        vmode: VMode::NTSC,
        display_depth: DisplayDepth::D15Bits,
        interlaced: false,
        display_disable: true,
        interrupt: false,
        dma_direction: DmaDirection::Off,
        rectangle_texture_x_flip: false,
        rectangle_texture_y_flip: false,
        texture_window_x_mask: 0,
        texture_window_y_mask: 0,
        texture_window_x_offset: 0,
        texture_window_y_offset: 0,
        drawing_area_left: 0,
        drawing_area_top: 0,
        drawing_area_right: 0,
        drawing_area_bottom: 0,
        drawing_x_offset: 0,
        drawing_y_offset: 0,
        display_vram_x_start: 0,
        display_vram_y_start: 0,
        display_horizontal_start: 0,
        display_horizontal_end: 0,
        display_line_start: 0,
        display_line_end: 0,
        gp0_command: Seq::empty(),
        gp0_command_remaining: 0,
        gp0_command_method: Gp0Command::Nop,
        gp0_mode: Gp0Mode::Command,
    }
}

/// The status word: every display and drawing flag at its documented bit
/// position, the ready bits 26-28 hard-wired to 1, and the DMA-request
/// bit 25 derived from the DMA direction.
pub open spec fn status_spec(g: GpuState) -> u32 {
    let r = (g.page_base_x as u32) | ((g.page_base_y as u32) << 4) | ((g.semi_transparency as u32)
        << 5) | (texture_depth_bits(g.texture_depth) << 7) | (bit32(g.dithering) << 9) | (bit32(
        g.draw_to_display,
    ) << 10) | (bit32(g.force_set_mask_bit) << 11) | (bit32(g.preserve_masked_pixels) << 12) | (
    field_bit(g.field) << 13) | (bit32(g.texture_disable) << 15) | g.hres.spec_into_status() | (
    vres_bit(g.vres) << 19) | (vmode_bit(g.vmode) << 20) | (display_depth_bit(g.display_depth)
        << 21) | (bit32(g.interlaced) << 22) | (bit32(g.display_disable) << 23) | (bit32(
        g.interrupt,
    ) << 24) | (1u32 << 26) | (1u32 << 27) | (1u32 << 28) | (dma_direction_bits(g.dma_direction)
        << 29);
    let dma_request = match g.dma_direction {
        DmaDirection::Off => 0u32,
        DmaDirection::Fifo => 1u32,
        DmaDirection::CpuToGpu0 => (r >> 28) & 1,
        DmaDirection::VRamToCpu => (r >> 27) & 1,
    };
    r | (dma_request << 25)
}

/// GP0(0xE1), draw mode: page base, semi-transparency, texture depth,
/// dithering, draw-to-display, texture disable and rectangle flips.  The
/// reserved texture depth 3 is an error.
pub open spec fn gp0_draw_mode_spec(g: GpuState, value: u32) -> Result<GpuState, EmuError> {
    if (value >> 7) & 3 == 3 {
        Err(EmuError::UnhandledTextureDepth((value >> 7) & 3))
    } else {
        Ok(
            GpuState {
                page_base_x: (value & 0xf) as u8,
                page_base_y: ((value >> 4) & 1) as u8,
                semi_transparency: ((value >> 5) & 3) as u8,
                texture_depth: if (value >> 7) & 3 == 0 {
                    TextureDepth::T4Bit
                } else if (value >> 7) & 3 == 1 {
                    TextureDepth::T8Bit
                } else {
                    TextureDepth::T15Bit
                },
                dithering: (value >> 9) & 1 != 0,
                draw_to_display: (value >> 10) & 1 != 0,
                texture_disable: (value >> 11) & 1 != 0,
                rectangle_texture_x_flip: (value >> 12) & 1 != 0,
                rectangle_texture_y_flip: (value >> 13) & 1 != 0,
                ..g
            },
        )
    }
}

/// GP0(0xA0), image load: after the three header words, the port expects
/// one data word for each two pixels, the pixel count padded to even.
pub open spec fn gp0_image_load_spec(g: GpuState) -> GpuState {
    let res = g.gp0_command[2];
    let width = res & 0xffff;
    let height = res >> 16;
    let pixels = ((width * height) as u32 + 1) as u32 & 0xfffffffeu32;
    GpuState { gp0_command_remaining: pixels / 2, gp0_mode: Gp0Mode::ImageLoad, ..g }
}

/// GP0(0xE2), texture window: 5-bit masks and offsets.
pub open spec fn gp0_texture_window_spec(g: GpuState, value: u32) -> GpuState {
    GpuState {
        texture_window_x_mask: (value & 0x1f) as u8,
        texture_window_y_mask: ((value >> 5) & 0x1f) as u8,
        texture_window_x_offset: ((value >> 10) & 0x1f) as u8,
        texture_window_y_offset: ((value >> 15) & 0x1f) as u8,
        ..g
    }
}

/// GP0(0xE3), drawing area top-left: two 10-bit coordinates.
pub open spec fn gp0_drawing_area_top_left_spec(g: GpuState, value: u32) -> GpuState {
    GpuState {
        drawing_area_left: (value & 0x3ff) as u16,
        drawing_area_top: ((value >> 10) & 0x3ff) as u16,
        ..g
    }
}

/// GP0(0xE4), drawing area bottom-right: two 10-bit coordinates.
pub open spec fn gp0_drawing_area_bottom_right_spec(g: GpuState, value: u32) -> GpuState {
    GpuState {
        drawing_area_right: (value & 0x3ff) as u16,
        drawing_area_bottom: ((value >> 10) & 0x3ff) as u16,
        ..g
    }
}

/// An 11-bit field sign-extended to 16 bits.
pub open spec fn sign_extend_11(v: u16) -> i16 {
    if v & 0x400 != 0 {
        (v | 0xf800) as i16
    } else {
        v as i16
    }
}

/// GP0(0xE5), drawing offset: two signed 11-bit coordinates.
pub open spec fn gp0_drawing_offset_spec(g: GpuState, value: u32) -> GpuState {
    GpuState {
        drawing_x_offset: sign_extend_11((value & 0x7ff) as u16),
        drawing_y_offset: sign_extend_11(((value >> 11) & 0x7ff) as u16),
        ..g
    }
}

/// GP0(0xE6), mask bit settings.
pub open spec fn gp0_mask_bit_setting_spec(g: GpuState, value: u32) -> GpuState {
    GpuState { force_set_mask_bit: value & 1 != 0, preserve_masked_pixels: value & 2 != 0, ..g }
}

/// The state change of running a collected command's handler.
pub open spec fn gp0_run_spec(m: Gp0Command, g: GpuState) -> Result<GpuState, EmuError> {
    match m {
        Gp0Command::Nop => Ok(g),
        Gp0Command::ClearCache => Ok(g),
        Gp0Command::QuadMonoOpaque => Ok(g),
        Gp0Command::QuadTextureBlendOpaque => Ok(g),
        Gp0Command::TriangleShadedOpaque => Ok(g),
        Gp0Command::QuadShadedOpaque => Ok(g),
        Gp0Command::ImageLoad => Ok(gp0_image_load_spec(g)),
        Gp0Command::ImageStore => Ok(g),
        Gp0Command::DrawMode => gp0_draw_mode_spec(g, g.gp0_command[0]),
        Gp0Command::TextureWindow => Ok(gp0_texture_window_spec(g, g.gp0_command[0])),
        Gp0Command::DrawingAreaTopLeft => Ok(gp0_drawing_area_top_left_spec(g, g.gp0_command[0])),
        Gp0Command::DrawingAreaBottomRight => Ok(
            gp0_drawing_area_bottom_right_spec(g, g.gp0_command[0]),
        ),
        Gp0Command::DrawingOffset => Ok(gp0_drawing_offset_spec(g, g.gp0_command[0])),
        Gp0Command::MaskBitSetting => Ok(gp0_mask_bit_setting_spec(g, g.gp0_command[0])),
    }
}

/// The state change of one word arriving at GP0 after any new command has
/// been decoded: the countdown drops by one and, in command mode, the
/// word is collected and a complete command runs its handler; in
/// image-load mode the word is image data and only counted.
pub open spec fn gp0_feed_spec(g: GpuState, value: u32) -> Result<GpuState, EmuError> {
    let remaining = (g.gp0_command_remaining - 1) as u32;
    match g.gp0_mode {
        Gp0Mode::Command => {
            let g2 = GpuState {
                gp0_command_remaining: remaining,
                gp0_command: g.gp0_command.push(value),
                ..g
            };
            if remaining == 0 {
                gp0_run_spec(g2.gp0_command_method, g2)
            } else {
                Ok(g2)
            }
        },
        Gp0Mode::ImageLoad => {
            if remaining == 0 {
                Ok(GpuState { gp0_command_remaining: remaining, gp0_mode: Gp0Mode::Command, ..g })
            } else {
                Ok(GpuState { gp0_command_remaining: remaining, ..g })
            }
        },
    }
}

/// The start of a GP0 word: with no command pending, the word's high
/// byte selects a new command and the FIFO is cleared for it.
pub open spec fn gp0_begin_spec(g: GpuState, value: u32) -> Result<GpuState, EmuError> {
    if g.gp0_command_remaining == 0 {
        match gp0_decode((value >> 24) & 0xff) {
            Some(m) => Ok(
                GpuState {
                    gp0_command_remaining: command_length(m),
                    gp0_command_method: m,
                    gp0_command: Seq::empty(),
                    ..g
                },
            ),
            None => Err(EmuError::UnhandledGp0Command(value)),
        }
    } else {
        Ok(g)
    }
}

/// The state change of a word written to GP0.  With no command pending,
/// the word's high byte selects a new command first.
pub open spec fn gp0_spec(g: GpuState, value: u32) -> Result<GpuState, EmuError> {
    match gp0_begin_spec(g, value) {
        Ok(g1) => gp0_feed_spec(g1, value),
        Err(e) => Err(e),
    }
}

/// GP1(0x00), reset: every display and drawing register returns to its
/// power-on value; the GP0 command FIFO is left alone.
pub open spec fn gp1_reset_spec(g: GpuState) -> GpuState {
    GpuState {
        gp0_command: g.gp0_command,
        gp0_command_remaining: g.gp0_command_remaining,
        gp0_command_method: g.gp0_command_method,
        gp0_mode: g.gp0_mode,
        ..gpu_power_on()
    }
}

/// GP1(0x01), reset command buffer: the FIFO is cleared and the port
/// returns to command mode.
pub open spec fn gp1_reset_command_buffer_spec(g: GpuState) -> GpuState {
    GpuState {
        gp0_command: Seq::empty(),
        gp0_command_remaining: 0,
        gp0_mode: Gp0Mode::Command,
        ..g
    }
}

/// GP1(0x08), display mode.  Bit 7 selects an unsupported resolution and
/// is an error.
pub open spec fn gp1_display_mode_spec(g: GpuState, value: u32) -> Result<GpuState, EmuError> {
    if value & 0x80 != 0 {
        Err(EmuError::UnsupportedDisplayMode(value))
    } else {
        Ok(
            GpuState {
                hres: HorisontalRes(((((value >> 6) & 1) as u8) & 1 | (((value & 3) as u8) & 3)
                    << 1) as u8),
                vres: if value & 0x4 != 0 {
                    VerticalRes::Y480Lines
                } else {
                    VerticalRes::Y240Lines
                },
                vmode: if value & 0x8 != 0 {
                    VMode::PAL
                } else {
                    VMode::NTSC
                },
                display_depth: if value & 0x10 != 0 {
                    DisplayDepth::D15Bits
                } else {
                    DisplayDepth::D24Bits
                },
                interlaced: value & 0x20 != 0,
                ..g
            },
        )
    }
}

/// GP1(0x04), DMA direction: the low two bits.
pub open spec fn gp1_dma_direction_spec(g: GpuState, value: u32) -> GpuState {
    GpuState {
        dma_direction: if value & 3 == 0 {
            DmaDirection::Off
        } else if value & 3 == 1 {
            DmaDirection::Fifo
        } else if value & 3 == 2 {
            DmaDirection::CpuToGpu0
        } else {
            DmaDirection::VRamToCpu
        },
        ..g
    }
}

/// GP1(0x05), display VRAM start: an even 10-bit x and a 9-bit y.
pub open spec fn gp1_display_vram_start_spec(g: GpuState, value: u32) -> GpuState {
    GpuState {
        display_vram_x_start: (value & 0x3fe) as u16,
        display_vram_y_start: ((value >> 10) & 0x1ff) as u16,
        ..g
    }
}

/// GP1(0x06), horizontal display range: two 12-bit bounds.
pub open spec fn gp1_display_horizontal_range_spec(g: GpuState, value: u32) -> GpuState {
    GpuState {
        display_horizontal_start: (value & 0xfff) as u16,
        display_horizontal_end: ((value >> 12) & 0xfff) as u16,
        ..g
    }
}

/// GP1(0x07), vertical display range: two 10-bit bounds.
pub open spec fn gp1_display_vertical_range_spec(g: GpuState, value: u32) -> GpuState {
    GpuState {
        display_line_start: (value & 0x3ff) as u16,
        display_line_end: ((value >> 10) & 0x3ff) as u16,
        ..g
    }
}

/// The state change of a word written to GP1, dispatched on its high
/// byte.
pub open spec fn gp1_spec(g: GpuState, value: u32) -> Result<GpuState, EmuError> {
    let op = (value >> 24) & 0xff;
    if op == 0x00 {
        Ok(gp1_reset_spec(g))
    } else if op == 0x01 {
        Ok(gp1_reset_command_buffer_spec(g))
    } else if op == 0x02 {
        Ok(GpuState { interrupt: false, ..g })
    } else if op == 0x03 {
        Ok(GpuState { display_disable: value & 1 != 0, ..g })
    } else if op == 0x04 {
        Ok(gp1_dma_direction_spec(g, value))
    } else if op == 0x05 {
        Ok(gp1_display_vram_start_spec(g, value))
    } else if op == 0x06 {
        Ok(gp1_display_horizontal_range_spec(g, value))
    } else if op == 0x07 {
        Ok(gp1_display_vertical_range_spec(g, value))
    } else if op == 0x08 {
        gp1_display_mode_spec(g, value)
    } else {
        Err(EmuError::UnhandledGp1Command(value))
    }
}

impl Gpu {
    /// A well-formed GPU: the FIFO never holds more than 12 words, and
    /// while a command is being collected the words already collected and
    /// the words still owed add up to the command's length.
    pub open spec fn wf(&self) -> bool {
        gpu_inv(self@)
    }

    /// Power-on state.
    pub fn new() -> (r: Gpu)
        ensures
            r@ == gpu_power_on(),
            r.wf(),
    {
        let r = Gpu {
            page_base_x: 0,
            page_base_y: 0,
            semi_transparency: 0,
            texture_depth: TextureDepth::T4Bit,
            dithering: false,
            draw_to_display: false,
            force_set_mask_bit: false,
            preserve_masked_pixels: false,
            field: Field::Top,
            texture_disable: false,
            hres: HorisontalRes::from_fields(0, 0),
            vres: VerticalRes::Y240Lines,
            vmode: VMode::NTSC,
            display_depth: DisplayDepth::D15Bits,
            interlaced: false,
            display_disable: true,
            interrupt: false,
            dma_direction: DmaDirection::Off,
            rectangle_texture_x_flip: false,
            rectangle_texture_y_flip: false,
            texture_window_x_mask: 0,
            texture_window_y_mask: 0,
            texture_window_x_offset: 0,
            texture_window_y_offset: 0,
            drawing_area_left: 0,
            drawing_area_top: 0,
            drawing_area_right: 0,
            drawing_area_bottom: 0,
            drawing_x_offset: 0,
            drawing_y_offset: 0,
            display_vram_x_start: 0,
            display_vram_y_start: 0,
            display_horizontal_start: 0,
            display_horizontal_end: 0,
            display_line_start: 0,
            display_line_end: 0,
            gp0_command: CommandBuffer::new(),
            gp0_command_remaining: 0,
            gp0_command_method: Gp0Command::Nop,
            gp0_mode: Gp0Mode::Command,
        };
        proof {
            assert((0u8 & 1) | ((0u8 & 3) << 1) == 0u8) by (bit_vector);
        }
        r
    }

    /// Reads the status register.
    pub fn status(&self) -> (r: u32)
        ensures
            r == status_spec(self@),
    {
        let r = (self.page_base_x as u32) | ((self.page_base_y as u32) << 4) | ((
        self.semi_transparency as u32) << 5) | ((match self.texture_depth {
            TextureDepth::T4Bit => 0u32,
            TextureDepth::T8Bit => 1u32,
            TextureDepth::T15Bit => 2u32,
        }) << 7) | ((if self.dithering {
            1u32
        } else {
            0u32
        }) << 9) | ((if self.draw_to_display {
            1u32
        } else {
            0u32
        }) << 10) | ((if self.force_set_mask_bit {
            1u32
        } else {
            0u32
        }) << 11) | ((if self.preserve_masked_pixels {
            1u32
        } else {
            0u32
        }) << 12) | ((match self.field {
            Field::Bottom => 0u32,
            Field::Top => 1u32,
        }) << 13) | ((if self.texture_disable {
            1u32
        } else {
            0u32
        }) << 15) | self.hres.into_status() | ((match self.vres {
            VerticalRes::Y240Lines => 0u32,
            VerticalRes::Y480Lines => 1u32,
        }) << 19) | ((match self.vmode {
            VMode::NTSC => 0u32,
            VMode::PAL => 1u32,
        }) << 20) | ((match self.display_depth {
            DisplayDepth::D15Bits => 0u32,
            DisplayDepth::D24Bits => 1u32,
        }) << 21) | ((if self.interlaced {
            1u32
        } else {
            0u32
        }) << 22) | ((if self.display_disable {
            1u32
        } else {
            0u32
        }) << 23) | ((if self.interrupt {
            1u32
        } else {
            0u32
        }) << 24) | (1u32 << 26) | (1u32 << 27) | (1u32 << 28) | ((match self.dma_direction {
            DmaDirection::Off => 0u32,
            DmaDirection::Fifo => 1u32,
            DmaDirection::CpuToGpu0 => 2u32,
            DmaDirection::VRamToCpu => 3u32,
        }) << 29);

        let dma_request = match self.dma_direction {
            DmaDirection::Off => 0u32,
            DmaDirection::Fifo => 1u32,
            DmaDirection::CpuToGpu0 => (r >> 28) & 1,
            DmaDirection::VRamToCpu => (r >> 27) & 1,
        };

        r | (dma_request << 25)
    }

    /// Reads the GPUREAD register; image stores are not sourced, so it
    /// always returns 0.
    pub fn read(&self) -> (r: u32)
        ensures
            r == 0u32,
    {
        0
    }

    /// Decodes the command selected by a GP0 word when none is pending.
    fn gp0_start(&mut self, value: u32) -> (r: Result<(), EmuError>)
        requires
            old(self).wf(),
        ensures
            final(self).wf(),
            final(self)@.gp0_mode == old(self)@.gp0_mode,
            match r {
                Ok(()) => gp0_begin_spec(old(self)@, value) == Ok::<GpuState, EmuError>(
                    final(self)@,
                ) && final(self)@.gp0_command_remaining >= 1,
                Err(e) => gp0_begin_spec(old(self)@, value) == Err::<GpuState, EmuError>(e)
                    && final(self)@ == old(self)@,
            },
    {
        if self.gp0_command_remaining == 0 {
            let opcode = (value >> 24) & 0xff;

            let (length, method): (u32, Gp0Command) = if opcode == 0x00 {
                (1, Gp0Command::Nop)
            } else if opcode == 0x01 {
                (1, Gp0Command::ClearCache)
            } else if opcode == 0x28 {
                (5, Gp0Command::QuadMonoOpaque)
            } else if opcode == 0x2c {
                (9, Gp0Command::QuadTextureBlendOpaque)
            } else if opcode == 0x30 {
                (6, Gp0Command::TriangleShadedOpaque)
            } else if opcode == 0x38 {
                (8, Gp0Command::QuadShadedOpaque)
            } else if opcode == 0xa0 {
                (3, Gp0Command::ImageLoad)
            } else if opcode == 0xc0 {
                (3, Gp0Command::ImageStore)
            } else if opcode == 0xe1 {
                (1, Gp0Command::DrawMode)
            } else if opcode == 0xe2 {
                (1, Gp0Command::TextureWindow)
            } else if opcode == 0xe3 {
                (1, Gp0Command::DrawingAreaTopLeft)
            } else if opcode == 0xe4 {
                (1, Gp0Command::DrawingAreaBottomRight)
            } else if opcode == 0xe5 {
                (1, Gp0Command::DrawingOffset)
            } else if opcode == 0xe6 {
                (1, Gp0Command::MaskBitSetting)
            } else {
                return Err(EmuError::UnhandledGp0Command(value));
            };

            self.gp0_command_remaining = length;
            self.gp0_command_method = method;

            self.gp0_command.clear();
        }

        Ok(())
    }

    /// Runs the handler of the command whose words are all collected.
    fn gp0_run(&mut self) -> (r: Result<(), EmuError>)
        requires
            old(self)@.gp0_command.len() == command_length(old(self)@.gp0_command_method),
        ensures
            match r {
                Ok(()) => gp0_run_spec(old(self)@.gp0_command_method, old(self)@) == Ok::<
                    GpuState,
                    EmuError,
                >(final(self)@),
                Err(e) => gp0_run_spec(old(self)@.gp0_command_method, old(self)@) == Err::<
                    GpuState,
                    EmuError,
                >(e) && final(self)@ == old(self)@,
            },
    {
        match self.gp0_command_method {
            Gp0Command::Nop => self.gp0_nop(),
            Gp0Command::ClearCache => self.gp0_clear_cache(),
            Gp0Command::QuadMonoOpaque => self.gp0_quad_mono_opaque(),
            Gp0Command::QuadTextureBlendOpaque => self.gp0_quad_texture_blend_opaque(),
            Gp0Command::TriangleShadedOpaque => self.gp0_triangle_shaded_opaque(),
            Gp0Command::QuadShadedOpaque => self.gp0_quad_shaded_opaque(),
            Gp0Command::ImageLoad => self.gp0_image_load(),
            Gp0Command::ImageStore => self.gp0_image_store(),
            Gp0Command::DrawMode => {
                let res = self.gp0_draw_mode();
                if let Err(e) = res {
                    return Err(e);
                }
            },
            Gp0Command::TextureWindow => self.gp0_texture_window(),
            Gp0Command::DrawingAreaTopLeft => self.gp0_drawing_area_top_left(),
            Gp0Command::DrawingAreaBottomRight => self.gp0_drawing_area_bottom_right(),
            Gp0Command::DrawingOffset => self.gp0_drawing_offset(),
            Gp0Command::MaskBitSetting => self.gp0_mask_bit_setting(),
        }
        Ok(())
    }

    /// Handles a word written to the GP0 command port.  A word whose
    /// opcode is not recognized leaves the GPU exactly as it was; the
    /// one failing handler (a reserved texture depth in a collected
    /// draw-mode command) has consumed its words, so only the FIFO
    /// bookkeeping differs then.
    #[verifier::rlimit(100)]
    #[verifier::spinoff_prover]
    pub fn gp0(&mut self, value: u32) -> (r: Result<(), EmuError>)
        requires
            old(self).wf(),
        ensures
            final(self).wf(),
            match r {
                Ok(()) => gp0_spec(old(self)@, value) == Ok::<GpuState, EmuError>(final(self)@),
                Err(e) => gp0_spec(old(self)@, value) == Err::<GpuState, EmuError>(e),
            },
    {
        let started = self.gp0_start(value);
        if let Err(e) = started {
            return Err(e);
        }

        self.gp0_command_remaining = self.gp0_command_remaining - 1;

        match self.gp0_mode {
            Gp0Mode::Command => {
                self.gp0_command.push_word(value);

                if self.gp0_command_remaining == 0 {
                    let ran = self.gp0_run();
                    if let Err(e) = ran {
                        return Err(e);
                    }
                }
            },
            Gp0Mode::ImageLoad => {
                if self.gp0_command_remaining == 0 {
                    self.gp0_mode = Gp0Mode::Command;
                }
            },
        }

        Ok(())
    }

    /// Handles a word written to the GP1 control port.
    pub fn gp1(&mut self, value: u32) -> (r: Result<(), EmuError>)
        requires
            old(self).wf(),
        ensures
            final(self).wf(),
            match r {
                Ok(()) => gp1_spec(old(self)@, value) == Ok::<GpuState, EmuError>(final(self)@),
                Err(e) => gp1_spec(old(self)@, value) == Err::<GpuState, EmuError>(e)
                    && final(self)@ == old(self)@,
            },
    {
        let opcode = (value >> 24) & 0xff;

        if opcode == 0x00 {
            self.gp1_reset(value);
            Ok(())
        } else if opcode == 0x01 {
            self.gp1_reset_command_buffer();
            Ok(())
        } else if opcode == 0x02 {
            self.gp1_acknowledge_irq();
            Ok(())
        } else if opcode == 0x03 {
            self.gp1_display_enable(value);
            Ok(())
        } else if opcode == 0x04 {
            self.gp1_dma_direction(value);
            Ok(())
        } else if opcode == 0x05 {
            self.gp1_display_vram_start(value);
            Ok(())
        } else if opcode == 0x06 {
            self.gp1_display_horizontal_range(value);
            Ok(())
        } else if opcode == 0x07 {
            self.gp1_display_vertical_range(value);
            Ok(())
        } else if opcode == 0x08 {
            self.gp1_display_mode(value)
        } else {
            Err(EmuError::UnhandledGp1Command(value))
        }
    }

    /// GP0(0x00): no operation.
    pub fn gp0_nop(&mut self)
        ensures
            final(self)@ == old(self)@,
    {
    }

    /// GP0(0x01): clear the texture cache, which is not modeled.
    pub fn gp0_clear_cache(&mut self)
        ensures
            final(self)@ == old(self)@,
    {
    }

    /// GP0(0xC0), image store: the header is consumed; no image data is
    /// sourced here.
    pub fn gp0_image_store(&mut self)
        ensures
            final(self)@ == old(self)@,
    {
    }

    /// GP0(0xA0), image load: decodes the resolution word and switches
    /// the port to image-data mode for the computed word count.
    pub fn gp0_image_load(&mut self)
        requires
            old(self)@.gp0_command.len() >= 3,
        ensures
            final(self)@ == gp0_image_load_spec(old(self)@),
    {
        let res = self.gp0_command.index(2);

        let width = res & 0xffff;
        let height = res >> 16;

        proof {
            let r = res;
            assert((r & 0xffff) < 0x10000 && (r >> 16) < 0x10000) by (bit_vector);
            assert(width * height < 0xffffffffu32) by (nonlinear_arith)
                requires
                    width < 0x10000,
                    height < 0x10000,
            ;
        }
        let image_size = width * height;

        let image_size = (image_size + 1) & 0xfffffffe;

        self.gp0_command_remaining = image_size / 2;
        self.gp0_mode = Gp0Mode::ImageLoad;
    }

    /// GP0(0x28), monochrome opaque quad: drawing is not modeled.
    pub fn gp0_quad_mono_opaque(&mut self)
        ensures
            final(self)@ == old(self)@,
    {
    }

    /// GP0(0x2C), textured blended opaque quad: drawing is not modeled.
    pub fn gp0_quad_texture_blend_opaque(&mut self)
        ensures
            final(self)@ == old(self)@,
    {
    }

    /// GP0(0x30), shaded opaque triangle: drawing is not modeled.
    pub fn gp0_triangle_shaded_opaque(&mut self)
        ensures
            final(self)@ == old(self)@,
    {
    }

    /// GP0(0x38), shaded opaque quad: drawing is not modeled.
    pub fn gp0_quad_shaded_opaque(&mut self)
        ensures
            final(self)@ == old(self)@,
    {
    }

    /// GP0(0xE1), draw mode.
    #[verifier::rlimit(50)]
    pub fn gp0_draw_mode(&mut self) -> (r: Result<(), EmuError>)
        requires
            old(self)@.gp0_command.len() >= 1,
        ensures
            match r {
                Ok(()) => gp0_draw_mode_spec(old(self)@, old(self)@.gp0_command[0]) == Ok::<
                    GpuState,
                    EmuError,
                >(final(self)@),
                Err(e) => gp0_draw_mode_spec(old(self)@, old(self)@.gp0_command[0]) == Err::<
                    GpuState,
                    EmuError,
                >(e) && final(self)@ == old(self)@,
            },
    {
        let value = self.gp0_command.index(0);

        let depth_bits = (value >> 7) & 3;
        proof {
            assert((value >> 7) & 3 <= 3) by (bit_vector);
        }
        let texture_depth = if depth_bits == 0 {
            TextureDepth::T4Bit
        } else if depth_bits == 1 {
            TextureDepth::T8Bit
        } else if depth_bits == 2 {
            TextureDepth::T15Bit
        } else {
            return Err(EmuError::UnhandledTextureDepth(depth_bits));
        };

        self.page_base_x = (value & 0xf) as u8;
        self.page_base_y = ((value >> 4) & 1) as u8;

        self.semi_transparency = ((value >> 5) & 3) as u8;

        self.texture_depth = texture_depth;

        self.dithering = ((value >> 9) & 1) != 0;
        self.draw_to_display = ((value >> 10) & 1) != 0;
        self.texture_disable = ((value >> 11) & 1) != 0;
        self.rectangle_texture_x_flip = ((value >> 12) & 1) != 0;
        self.rectangle_texture_y_flip = ((value >> 13) & 1) != 0;

        Ok(())
    }

    /// GP0(0xE2), texture window.
    pub fn gp0_texture_window(&mut self)
        requires
            old(self)@.gp0_command.len() >= 1,
        ensures
            final(self)@ == gp0_texture_window_spec(old(self)@, old(self)@.gp0_command[0]),
    {
        let value = self.gp0_command.index(0);

        self.texture_window_x_mask = (value & 0x1f) as u8;
        self.texture_window_y_mask = ((value >> 5) & 0x1f) as u8;
        self.texture_window_x_offset = ((value >> 10) & 0x1f) as u8;
        self.texture_window_y_offset = ((value >> 15) & 0x1f) as u8;
    }

    /// GP0(0xE3), drawing area top-left.
    pub fn gp0_drawing_area_top_left(&mut self)
        requires
            old(self)@.gp0_command.len() >= 1,
        ensures
            final(self)@ == gp0_drawing_area_top_left_spec(old(self)@, old(self)@.gp0_command[0]),
    {
        let value = self.gp0_command.index(0);

        self.drawing_area_left = (value & 0x3ff) as u16;
        self.drawing_area_top = ((value >> 10) & 0x3ff) as u16;
    }

    /// GP0(0xE4), drawing area bottom-right.
    pub fn gp0_drawing_area_bottom_right(&mut self)
        requires
            old(self)@.gp0_command.len() >= 1,
        ensures
            final(self)@ == gp0_drawing_area_bottom_right_spec(
                old(self)@,
                old(self)@.gp0_command[0],
            ),
    {
        let value = self.gp0_command.index(0);

        self.drawing_area_right = (value & 0x3ff) as u16;
        self.drawing_area_bottom = ((value >> 10) & 0x3ff) as u16;
    }

    /// GP0(0xE5), drawing offset.
    pub fn gp0_drawing_offset(&mut self)
        requires
            old(self)@.gp0_command.len() >= 1,
        ensures
            final(self)@ == gp0_drawing_offset_spec(old(self)@, old(self)@.gp0_command[0]),
    {
        let value = self.gp0_command.index(0);

        let x = (value & 0x7ff) as u16;
        let y = ((value >> 11) & 0x7ff) as u16;

        self.drawing_x_offset = if x & 0x400 != 0 {
            (x | 0xf800) as i16
        } else {
            x as i16
        };
        self.drawing_y_offset = if y & 0x400 != 0 {
            (y | 0xf800) as i16
        } else {
            y as i16
        };
    }

    /// GP0(0xE6), mask bit settings.
    pub fn gp0_mask_bit_setting(&mut self)
        requires
            old(self)@.gp0_command.len() >= 1,
        ensures
            final(self)@ == gp0_mask_bit_setting_spec(old(self)@, old(self)@.gp0_command[0]),
    {
        let value = self.gp0_command.index(0);

        self.force_set_mask_bit = (value & 1) != 0;
        self.preserve_masked_pixels = (value & 2) != 0;
    }

    /// GP1(0x00), reset.
    pub fn gp1_reset(&mut self, _value: u32)
        ensures
            final(self)@ == gp1_reset_spec(old(self)@),
    {
        self.page_base_x = 0;
        self.page_base_y = 0;

        self.semi_transparency = 0;

        self.texture_depth = TextureDepth::T4Bit;

        self.dithering = false;

        self.draw_to_display = false;

        self.force_set_mask_bit = false;

        self.preserve_masked_pixels = false;

        self.field = Field::Top;

        self.texture_disable = false;

        self.hres = HorisontalRes::from_fields(0, 0);
        self.vres = VerticalRes::Y240Lines;

        self.vmode = VMode::NTSC;

        self.display_depth = DisplayDepth::D15Bits;

        self.interlaced = false;

        self.display_disable = true;

        self.interrupt = false;

        self.dma_direction = DmaDirection::Off;

        self.rectangle_texture_x_flip = false;
        self.rectangle_texture_y_flip = false;

        self.texture_window_x_mask = 0;
        self.texture_window_y_mask = 0;

        self.texture_window_x_offset = 0;
        self.texture_window_y_offset = 0;

        self.drawing_area_left = 0;
        self.drawing_area_top = 0;
        self.drawing_area_right = 0;
        self.drawing_area_bottom = 0;

        self.drawing_x_offset = 0;
        self.drawing_y_offset = 0;

        self.display_vram_x_start = 0;
        self.display_vram_y_start = 0;

        self.display_horizontal_start = 0;
        self.display_horizontal_end = 0;

        self.display_line_start = 0;
        self.display_line_end = 0;

        proof {
            assert((0u8 & 1) | ((0u8 & 3) << 1) == 0u8) by (bit_vector);
        }
    }

    /// GP1(0x01), reset command buffer.
    pub fn gp1_reset_command_buffer(&mut self)
        ensures
            final(self)@ == gp1_reset_command_buffer_spec(old(self)@),
    {
        self.gp0_command.clear();
        self.gp0_command_remaining = 0;
        self.gp0_mode = Gp0Mode::Command;
    }

    /// GP1(0x02), acknowledge the GPU interrupt.
    pub fn gp1_acknowledge_irq(&mut self)
        ensures
            final(self)@ == (GpuState { interrupt: false, ..old(self)@ }),
    {
        self.interrupt = false;
    }

    /// GP1(0x03), display enable: bit 0 set disables the display.
    pub fn gp1_display_enable(&mut self, value: u32)
        ensures
            final(self)@ == (GpuState { display_disable: value & 1 != 0, ..old(self)@ }),
    {
        self.display_disable = value & 1 != 0;
    }

    /// GP1(0x08), display mode.
    pub fn gp1_display_mode(&mut self, value: u32) -> (r: Result<(), EmuError>)
        ensures
            match r {
                Ok(()) => gp1_display_mode_spec(old(self)@, value) == Ok::<GpuState, EmuError>(
                    final(self)@,
                ),
                Err(e) => gp1_display_mode_spec(old(self)@, value) == Err::<GpuState, EmuError>(e)
                    && final(self)@ == old(self)@,
            },
    {
        if value & 0x80 != 0 {
            return Err(EmuError::UnsupportedDisplayMode(value));
        }

        let hr1 = (value & 3) as u8;
        let hr2 = ((value >> 6) & 1) as u8;

        self.hres = HorisontalRes::from_fields(hr1, hr2);

        self.vres = if value & 0x4 != 0 {
            VerticalRes::Y480Lines
        } else {
            VerticalRes::Y240Lines
        };

        self.vmode = if value & 0x8 != 0 {
            VMode::PAL
        } else {
            VMode::NTSC
        };

        self.display_depth = if value & 0x10 != 0 {
            DisplayDepth::D15Bits
        } else {
            DisplayDepth::D24Bits
        };

        self.interlaced = value & 0x20 != 0;

        Ok(())
    }

    /// GP1(0x04), DMA direction.
    pub fn gp1_dma_direction(&mut self, value: u32)
        ensures
            final(self)@ == gp1_dma_direction_spec(old(self)@, value),
    {
        self.dma_direction = if value & 3 == 0 {
            DmaDirection::Off
        } else if value & 3 == 1 {
            DmaDirection::Fifo
        } else if value & 3 == 2 {
            DmaDirection::CpuToGpu0
        } else {
            DmaDirection::VRamToCpu
        };
    }

    /// GP1(0x05), display VRAM start.
    pub fn gp1_display_vram_start(&mut self, value: u32)
        ensures
            final(self)@ == gp1_display_vram_start_spec(old(self)@, value),
    {
        self.display_vram_x_start = (value & 0x3fe) as u16;
        self.display_vram_y_start = ((value >> 10) & 0x1ff) as u16;
    }

    /// GP1(0x06), horizontal display range.
    pub fn gp1_display_horizontal_range(&mut self, value: u32)
        ensures
            final(self)@ == gp1_display_horizontal_range_spec(old(self)@, value),
    {
        self.display_horizontal_start = (value & 0xfff) as u16;
        self.display_horizontal_end = ((value >> 12) & 0xfff) as u16;
    }

    /// GP1(0x07), vertical display range.
    pub fn gp1_display_vertical_range(&mut self, value: u32)
        ensures
            final(self)@ == gp1_display_vertical_range_spec(old(self)@, value),
    {
        self.display_line_start = (value & 0x3ff) as u16;
        self.display_line_end = ((value >> 10) & 0x3ff) as u16;
    }
}

/// The GP0 FIFO invariant: the buffer never holds more than 12 words,
/// and while a command is being collected the collected and owed words
/// add up to the pending command's length.
pub open spec fn gpu_inv(g: GpuState) -> bool {
    &&& g.gp0_command.len() <= 12
    &&& (g.gp0_mode == Gp0Mode::Command && g.gp0_command_remaining > 0 ==> g.gp0_command.len()
        + g.gp0_command_remaining == command_length(g.gp0_command_method) && command_length(
        g.gp0_command_method,
    ) <= 12)
}

} // verus!
