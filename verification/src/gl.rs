//! Numeric values of the graphics API's enumerants that the library hands to
//! the driver.

use vstd::prelude::*;
use crate::float::F32Bits;

verus! {

pub const TEXTURE_1D: u32 = 0x0DE0;

pub const TEXTURE_2D: u32 = 0x0DE1;

pub const TEXTURE_3D: u32 = 0x806F;

pub const TEXTURE_MAG_FILTER: u32 = 0x2800;

pub const TEXTURE_MIN_FILTER: u32 = 0x2801;

pub const NEAREST: u32 = 0x2600;

pub const R8: u32 = 0x8229;

pub const RG8: u32 = 0x822B;

pub const RGB8: u32 = 0x8051;

pub const RGBA8: u32 = 0x8058;

pub const R32F: u32 = 0x822E;

pub const RG32F: u32 = 0x8230;

pub const RGB32F: u32 = 0x8815;

pub const RGBA32F: u32 = 0x8814;

pub const RED: u32 = 0x1903;

pub const RG: u32 = 0x8227;

pub const RGB: u32 = 0x1907;

pub const RGBA: u32 = 0x1908;

pub const UNSIGNED_BYTE: u32 = 0x1401;

pub const FLOAT: u32 = 0x1406;

pub const FRAMEBUFFER: u32 = 0x8D40;

pub const RENDERBUFFER: u32 = 0x8D41;

pub const DEPTH_COMPONENT: u32 = 0x1902;

pub const DEPTH_ATTACHMENT: u32 = 0x8D00;

pub const COLOR_ATTACHMENT0: u32 = 0x8CE0;

pub const PIXEL_PACK_BUFFER: u32 = 0x88EB;

pub const DYNAMIC_READ: u32 = 0x88E9;

pub const SYNC_GPU_COMMANDS_COMPLETE: u32 = 0x9117;

pub const SYNC_FLUSH_COMMANDS_BIT: u32 = 0x0000_0001;

pub const ALREADY_SIGNALED: u32 = 0x911A;

pub const TIMEOUT_EXPIRED: u32 = 0x911B;

pub const CONDITION_SATISFIED: u32 = 0x911C;

pub const WAIT_FAILED: u32 = 0x911D;

pub const MAP_READ_BIT: u32 = 0x0001;

pub const MAP_WRITE_BIT: u32 = 0x0002;

pub const TRIANGLES: u32 = 0x0004;

} // verus!

verus! {

/// A value that a method hands to its shader program.
#[derive(Debug, Clone, Copy, PartialEq, Eq, Structural)]
pub enum Uniform {
    /// Width, height and depth of the image that is drawn into.
    Resolution(u32, u32, u32),
    /// The layer that is drawn.
    Layer(u32),
    AlphaValue(F32Bits),
    GlobalSeed(u32),
    Scale(F32Bits),
    StatsMode(i32),
    StatsLookAt(F32Bits, F32Bits),
    NoiseLookahead(i32),
    KernelCount(i32),
    NoiseProfile(i32),
    NoiseWeights(i32),
    NoisePointDistribution(i32),
    NoiseFrequency(F32Bits),
    NoiseAngle(F32Bits),
    JitterAmount(F32Bits),
    JitterMax(i32),
    /// The image bound to the unit from which the program reads its field
    /// of frequencies and orientations.
    FrequencyOrientationField,
}

/// One call for the caller to make on the graphics driver.  Objects are
/// given by their names; `None` unbinds.
#[derive(Debug, Clone, Copy, PartialEq, Eq, Structural)]
pub enum GlCommand {
    BindFramebuffer { framebuffer: Option<u32> },
    BindRenderbuffer { renderbuffer: Option<u32> },
    /// Gives the bound renderbuffer storage of the given format and size.
    RenderbufferStorage { storage_format: u32, width: usize, height: usize },
    /// Attaches a renderbuffer to the bound framebuffer.
    FramebufferRenderbuffer { attachment: u32, renderbuffer: Option<u32> },
    /// Attaches level 0 of a texture to the bound framebuffer.
    FramebufferTexture { attachment: u32, texture: Option<u32> },
    /// Attaches level 0 of a two-dimensional texture to the bound framebuffer.
    FramebufferTexture2d { attachment: u32, target: u32, texture: Option<u32> },
    /// Attaches one layer of level 0 of a three-dimensional texture to the
    /// bound framebuffer.
    FramebufferTexture3d { attachment: u32, target: u32, texture: Option<u32>, layer: usize },
    /// Sets the viewport, whose origin is (0, 0).
    Viewport { width: usize, height: usize },
    BindVertexArray { vertex_array: Option<u32> },
    BindTexture { target: u32, texture: Option<u32> },
    TexParameter { target: u32, parameter: u32, value: u32 },
    /// Allocates level 0 of the bound texture, without data.  A texture of
    /// one dimension has no height and one of two no depth.
    TexImage {
        target: u32,
        internal_format: i32,
        width: usize,
        height: usize,
        depth: usize,
        format: u32,
        data_type: u32,
    },
    BindBuffer { target: u32, buffer: Option<u32> },
    /// Gives the bound buffer storage of the given size, without data.
    BufferData { target: u32, size: usize, usage: u32 },
    /// Reads level 0 of the bound texture into the bound pixel-transfer
    /// buffer, at offset 0.
    GetTexImage { target: u32, format: u32, data_type: u32 },
    /// Maps the bound buffer from offset 0; the caller reports whether the
    /// driver gave an address.
    MapBufferRange { target: u32, length: usize, access: u32 },
    UnmapBuffer { target: u32 },
    DeleteTexture { texture: u32 },
    DeleteBuffer { buffer: u32 },
    UseProgram { program: u32 },
    SetUniform { program: u32, uniform: Uniform },
    DrawArrays { mode: u32, first: i32, count: i32 },
}

} // verus!
