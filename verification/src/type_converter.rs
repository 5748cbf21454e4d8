//! Conversions between the WebGPU texture formats, alpha modes and usages
//! and their Vulkan counterparts.

use vstd::prelude::*;

verus! {

/// `VkFormat::R8_UNORM`.
pub const FORMAT_R8_UNORM: i32 = 9;

/// `VkFormat::R8_SNORM`.
pub const FORMAT_R8_SNORM: i32 = 10;

/// `VkFormat::R8_UINT`.
pub const FORMAT_R8_UINT: i32 = 13;

/// `VkFormat::R8_SINT`.
pub const FORMAT_R8_SINT: i32 = 14;

/// `VkFormat::R8G8_UNORM`.
pub const FORMAT_R8G8_UNORM: i32 = 16;

/// `VkFormat::R8G8_SNORM`.
pub const FORMAT_R8G8_SNORM: i32 = 17;

/// `VkFormat::R8G8_UINT`.
pub const FORMAT_R8G8_UINT: i32 = 20;

/// `VkFormat::R8G8_SINT`.
pub const FORMAT_R8G8_SINT: i32 = 21;

/// `VkFormat::R8G8B8A8_UNORM`.
pub const FORMAT_R8G8B8A8_UNORM: i32 = 37;

/// `VkFormat::R8G8B8A8_SNORM`.
pub const FORMAT_R8G8B8A8_SNORM: i32 = 38;

/// `VkFormat::R8G8B8A8_UINT`.
pub const FORMAT_R8G8B8A8_UINT: i32 = 41;

/// `VkFormat::R8G8B8A8_SINT`.
pub const FORMAT_R8G8B8A8_SINT: i32 = 42;

/// `VkFormat::R8G8B8A8_SRGB`.
pub const FORMAT_R8G8B8A8_SRGB: i32 = 43;

/// `VkFormat::B8G8R8A8_UNORM`.
pub const FORMAT_B8G8R8A8_UNORM: i32 = 44;

/// `VkFormat::B8G8R8A8_SRGB`.
pub const FORMAT_B8G8R8A8_SRGB: i32 = 50;

/// `VkFormat::R16_UNORM`.
pub const FORMAT_R16_UNORM: i32 = 70;

/// `VkFormat::R16_SNORM`.
pub const FORMAT_R16_SNORM: i32 = 71;

/// `VkFormat::R16_UINT`.
pub const FORMAT_R16_UINT: i32 = 74;

/// `VkFormat::R16_SINT`.
pub const FORMAT_R16_SINT: i32 = 75;

/// `VkFormat::R16_SFLOAT`.
pub const FORMAT_R16_SFLOAT: i32 = 76;

/// `VkFormat::R16G16_UNORM`.
pub const FORMAT_R16G16_UNORM: i32 = 77;

/// `VkFormat::R16G16_SNORM`.
pub const FORMAT_R16G16_SNORM: i32 = 78;

/// `VkFormat::R16G16_UINT`.
pub const FORMAT_R16G16_UINT: i32 = 81;

/// `VkFormat::R16G16_SINT`.
pub const FORMAT_R16G16_SINT: i32 = 82;

/// `VkFormat::R16G16B16A16_UNORM`.
pub const FORMAT_R16G16B16A16_UNORM: i32 = 91;

/// `VkFormat::R16G16B16A16_SNORM`.
pub const FORMAT_R16G16B16A16_SNORM: i32 = 92;

/// `VkFormat::R16G16B16A16_UINT`.
pub const FORMAT_R16G16B16A16_UINT: i32 = 95;

/// `VkFormat::R16G16B16A16_SINT`.
pub const FORMAT_R16G16B16A16_SINT: i32 = 96;

/// `VkFormat::R16G16B16A16_SFLOAT`.
pub const FORMAT_R16G16B16A16_SFLOAT: i32 = 97;

/// `VkFormat::R32_UINT`.
pub const FORMAT_R32_UINT: i32 = 98;

/// `VkFormat::R32_SINT`.
pub const FORMAT_R32_SINT: i32 = 99;

/// `VkFormat::R32_SFLOAT`.
pub const FORMAT_R32_SFLOAT: i32 = 100;

/// `VkFormat::R32G32_UINT`.
pub const FORMAT_R32G32_UINT: i32 = 101;

/// `VkFormat::R32G32_SINT`.
pub const FORMAT_R32G32_SINT: i32 = 102;

/// `VkFormat::R32G32_SFLOAT`.
pub const FORMAT_R32G32_SFLOAT: i32 = 103;

/// `VkFormat::R32G32B32A32_UINT`.
pub const FORMAT_R32G32B32A32_UINT: i32 = 107;

/// `VkFormat::R32G32B32A32_SINT`.
pub const FORMAT_R32G32B32A32_SINT: i32 = 108;

/// `VkFormat::R32G32B32A32_SFLOAT`.
pub const FORMAT_R32G32B32A32_SFLOAT: i32 = 109;

/// `VkFormat::R64_UINT`.
pub const FORMAT_R64_UINT: i32 = 110;

/// `VkFormat::D16_UNORM`.
pub const FORMAT_D16_UNORM: i32 = 124;

/// `VkFormat::D32_SFLOAT`.
pub const FORMAT_D32_SFLOAT: i32 = 126;

/// `VkFormat::S8_UINT`.
pub const FORMAT_S8_UINT: i32 = 127;

/// `VkFormat::D24_UNORM_S8_UINT`.
pub const FORMAT_D24_UNORM_S8_UINT: i32 = 129;

/// `VkFormat::D32_SFLOAT_S8_UINT`.
pub const FORMAT_D32_SFLOAT_S8_UINT: i32 = 130;

/// `VkFormat::BC1_RGBA_UNORM_BLOCK`.
pub const FORMAT_BC1_RGBA_UNORM_BLOCK: i32 = 133;

/// `VkFormat::BC1_RGBA_SRGB_BLOCK`.
pub const FORMAT_BC1_RGBA_SRGB_BLOCK: i32 = 134;

/// `VkFormat::BC2_UNORM_BLOCK`.
pub const FORMAT_BC2_UNORM_BLOCK: i32 = 135;

/// `VkFormat::BC2_SRGB_BLOCK`.
pub const FORMAT_BC2_SRGB_BLOCK: i32 = 136;

/// `VkFormat::BC3_UNORM_BLOCK`.
pub const FORMAT_BC3_UNORM_BLOCK: i32 = 137;

/// `VkFormat::BC3_SRGB_BLOCK`.
pub const FORMAT_BC3_SRGB_BLOCK: i32 = 138;

/// `VkFormat::BC4_UNORM_BLOCK`.
pub const FORMAT_BC4_UNORM_BLOCK: i32 = 139;

/// `VkFormat::BC4_SNORM_BLOCK`.
pub const FORMAT_BC4_SNORM_BLOCK: i32 = 140;

/// `VkFormat::BC5_SNORM_BLOCK`.
pub const FORMAT_BC5_SNORM_BLOCK: i32 = 142;

/// `VkFormat::BC6H_UFLOAT_BLOCK`.
pub const FORMAT_BC6H_UFLOAT_BLOCK: i32 = 143;

/// `VkFormat::BC6H_SFLOAT_BLOCK`.
pub const FORMAT_BC6H_SFLOAT_BLOCK: i32 = 144;

/// `VkFormat::BC7_UNORM_BLOCK`.
pub const FORMAT_BC7_UNORM_BLOCK: i32 = 145;

/// `VkFormat::BC7_SRGB_BLOCK`.
pub const FORMAT_BC7_SRGB_BLOCK: i32 = 146;

/// `VkFormat::ETC2_R8G8B8_UNORM_BLOCK`.
pub const FORMAT_ETC2_R8G8B8_UNORM_BLOCK: i32 = 147;

/// `VkFormat::ETC2_R8G8B8_SRGB_BLOCK`.
pub const FORMAT_ETC2_R8G8B8_SRGB_BLOCK: i32 = 148;

/// `VkFormat::ETC2_R8G8B8A1_UNORM_BLOCK`.
pub const FORMAT_ETC2_R8G8B8A1_UNORM_BLOCK: i32 = 149;

/// `VkFormat::ETC2_R8G8B8A1_SRGB_BLOCK`.
pub const FORMAT_ETC2_R8G8B8A1_SRGB_BLOCK: i32 = 150;

/// `VkFormat::ETC2_R8G8B8A8_UNORM_BLOCK`.
pub const FORMAT_ETC2_R8G8B8A8_UNORM_BLOCK: i32 = 151;

/// `VkFormat::ETC2_R8G8B8A8_SRGB_BLOCK`.
pub const FORMAT_ETC2_R8G8B8A8_SRGB_BLOCK: i32 = 152;

/// `VkFormat::EAC_R11_UNORM_BLOCK`.
pub const FORMAT_EAC_R11_UNORM_BLOCK: i32 = 153;

/// `VkFormat::EAC_R11_SNORM_BLOCK`.
pub const FORMAT_EAC_R11_SNORM_BLOCK: i32 = 154;

/// `VkFormat::EAC_R11G11_UNORM_BLOCK`.
pub const FORMAT_EAC_R11G11_UNORM_BLOCK: i32 = 155;

/// `VkFormat::EAC_R11G11_SNORM_BLOCK`.
pub const FORMAT_EAC_R11G11_SNORM_BLOCK: i32 = 156;

/// `VkFormat::UNDEFINED`.
pub const FORMAT_UNDEFINED: i32 = 0;

/// The block size of an ASTC compressed texture format.
#[derive(Debug, Clone, Copy, PartialEq, Eq, Structural)]
pub enum AstcBlock {
    B4x4,
    B5x4,
    B5x5,
    B6x5,
    B6x6,
    B8x5,
    B8x6,
    B8x8,
    B10x5,
    B10x6,
    B10x8,
    B10x10,
    B12x10,
    B12x12,
}

/// The channel type of an ASTC compressed texture format.
#[derive(Debug, Clone, Copy, PartialEq, Eq, Structural)]
pub enum AstcChannel {
    Unorm,
    UnormSrgb,
    Hdr,
}

/// A WebGPU texture format.
#[derive(Debug, Clone, Copy, PartialEq, Eq, Structural)]
pub enum GpuTextureFormat {
    R8Unorm,
    R8Snorm,
    R8Uint,
    R8Sint,
    R16Uint,
    R16Sint,
    R16Unorm,
    R16Snorm,
    R16Float,
    Rg8Unorm,
    Rg8Snorm,
    Rg8Uint,
    Rg8Sint,
    R32Uint,
    R32Sint,
    R32Float,
    Rg16Uint,
    Rg16Sint,
    Rg16Unorm,
    Rg16Snorm,
    Rg16Float,
    Rgba8Unorm,
    Rgba8UnormSrgb,
    Rgba8Snorm,
    Rgba8Uint,
    Rgba8Sint,
    Bgra8Unorm,
    Bgra8UnormSrgb,
    Rgb9e5Ufloat,
    Rgb10a2Uint,
    Rgb10a2Unorm,
    Rg11b10Ufloat,
    R64Uint,
    Rg32Uint,
    Rg32Sint,
    Rg32Float,
    Rgba16Uint,
    Rgba16Sint,
    Rgba16Unorm,
    Rgba16Snorm,
    Rgba16Float,
    Rgba32Uint,
    Rgba32Sint,
    Rgba32Float,
    Stencil8,
    Depth16Unorm,
    Depth24Plus,
    Depth24PlusStencil8,
    Depth32Float,
    Depth32FloatStencil8,
    NV12,
    Bc1RgbaUnorm,
    Bc1RgbaUnormSrgb,
    Bc2RgbaUnorm,
    Bc2RgbaUnormSrgb,
    Bc3RgbaUnorm,
    Bc3RgbaUnormSrgb,
    Bc4RUnorm,
    Bc4RSnorm,
    Bc5RgUnorm,
    Bc5RgSnorm,
    Bc6hRgbUfloat,
    Bc6hRgbFloat,
    Bc7RgbaUnorm,
    Bc7RgbaUnormSrgb,
    Etc2Rgb8Unorm,
    Etc2Rgb8UnormSrgb,
    Etc2Rgb8A1Unorm,
    Etc2Rgb8A1UnormSrgb,
    Etc2Rgba8Unorm,
    Etc2Rgba8UnormSrgb,
    EacR11Unorm,
    EacR11Snorm,
    EacRg11Unorm,
    EacRg11Snorm,
    Astc { block: AstcBlock, channel: AstcChannel },
}

/// The Vulkan format that a WebGPU format converts to; `None` for the formats
/// that have no conversion.
pub open spec fn vk_format(format: GpuTextureFormat) -> Option<i32> {
    match format {
        GpuTextureFormat::R8Unorm => Some(FORMAT_R8_UNORM),
        GpuTextureFormat::R8Snorm => Some(FORMAT_R8_SNORM),
        GpuTextureFormat::R8Uint => Some(FORMAT_R8_UINT),
        GpuTextureFormat::R8Sint => Some(FORMAT_R8_SINT),
        GpuTextureFormat::R16Uint => Some(FORMAT_R16_UINT),
        GpuTextureFormat::R16Sint => Some(FORMAT_R16_SINT),
        GpuTextureFormat::R16Unorm => Some(FORMAT_R16_UNORM),
        GpuTextureFormat::R16Snorm => Some(FORMAT_R16_SNORM),
        GpuTextureFormat::R16Float => Some(FORMAT_R16_SFLOAT),
        GpuTextureFormat::Rg8Unorm => Some(FORMAT_R8G8_UNORM),
        GpuTextureFormat::Rg8Snorm => Some(FORMAT_R8G8_SNORM),
        GpuTextureFormat::Rg8Uint => Some(FORMAT_R8G8_UINT),
        GpuTextureFormat::Rg8Sint => Some(FORMAT_R8G8_SINT),
        GpuTextureFormat::R32Uint => Some(FORMAT_R32_UINT),
        GpuTextureFormat::R32Sint => Some(FORMAT_R32_SINT),
        GpuTextureFormat::R32Float => Some(FORMAT_R32_SFLOAT),
        GpuTextureFormat::Rg16Uint => Some(FORMAT_R16G16_UINT),
        GpuTextureFormat::Rg16Sint => Some(FORMAT_R16G16_SINT),
        GpuTextureFormat::Rg16Unorm => Some(FORMAT_R16G16_UNORM),
        GpuTextureFormat::Rg16Snorm => Some(FORMAT_R16G16_SNORM),
        GpuTextureFormat::Rg16Float => Some(FORMAT_R16G16_SNORM),
        GpuTextureFormat::Rgba8Unorm => Some(FORMAT_R8G8B8A8_UNORM),
        GpuTextureFormat::Rgba8UnormSrgb => Some(FORMAT_R8G8B8A8_SRGB),
        GpuTextureFormat::Rgba8Snorm => Some(FORMAT_R8G8B8A8_SNORM),
        GpuTextureFormat::Rgba8Uint => Some(FORMAT_R8G8B8A8_UINT),
        GpuTextureFormat::Rgba8Sint => Some(FORMAT_R8G8B8A8_SINT),
        GpuTextureFormat::Bgra8Unorm => Some(FORMAT_B8G8R8A8_UNORM),
        GpuTextureFormat::Bgra8UnormSrgb => Some(FORMAT_B8G8R8A8_SRGB),
        GpuTextureFormat::Rgb9e5Ufloat => None,
        GpuTextureFormat::Rgb10a2Uint => None,
        GpuTextureFormat::Rgb10a2Unorm => None,
        GpuTextureFormat::Rg11b10Ufloat => None,
        GpuTextureFormat::R64Uint => Some(FORMAT_R64_UINT),
        GpuTextureFormat::Rg32Uint => Some(FORMAT_R32G32_UINT),
        GpuTextureFormat::Rg32Sint => Some(FORMAT_R32G32_SINT),
        GpuTextureFormat::Rg32Float => Some(FORMAT_R32G32_SFLOAT),
        GpuTextureFormat::Rgba16Uint => Some(FORMAT_R16G16B16A16_UINT),
        GpuTextureFormat::Rgba16Sint => Some(FORMAT_R16G16B16A16_SINT),
        GpuTextureFormat::Rgba16Unorm => Some(FORMAT_R16G16B16A16_UNORM),
        GpuTextureFormat::Rgba16Snorm => Some(FORMAT_R16G16B16A16_SNORM),
        GpuTextureFormat::Rgba16Float => Some(FORMAT_R16G16B16A16_SFLOAT),
        GpuTextureFormat::Rgba32Uint => Some(FORMAT_R32G32B32A32_UINT),
        GpuTextureFormat::Rgba32Sint => Some(FORMAT_R32G32B32A32_SINT),
        GpuTextureFormat::Rgba32Float => Some(FORMAT_R32G32B32A32_SFLOAT),
        GpuTextureFormat::Stencil8 => Some(FORMAT_S8_UINT),
        GpuTextureFormat::Depth16Unorm => Some(FORMAT_D16_UNORM),
        GpuTextureFormat::Depth24Plus => None,
        GpuTextureFormat::Depth24PlusStencil8 => Some(FORMAT_D24_UNORM_S8_UINT),
        GpuTextureFormat::Depth32Float => Some(FORMAT_D32_SFLOAT),
        GpuTextureFormat::Depth32FloatStencil8 => Some(FORMAT_D32_SFLOAT_S8_UINT),
        GpuTextureFormat::NV12 => None,
        GpuTextureFormat::Bc1RgbaUnorm => Some(FORMAT_BC1_RGBA_UNORM_BLOCK),
        GpuTextureFormat::Bc1RgbaUnormSrgb => Some(FORMAT_BC1_RGBA_SRGB_BLOCK),
        GpuTextureFormat::Bc2RgbaUnorm => Some(FORMAT_BC2_UNORM_BLOCK),
        GpuTextureFormat::Bc2RgbaUnormSrgb => Some(FORMAT_BC2_SRGB_BLOCK),
        GpuTextureFormat::Bc3RgbaUnorm => Some(FORMAT_BC3_UNORM_BLOCK),
        GpuTextureFormat::Bc3RgbaUnormSrgb => Some(FORMAT_BC3_SRGB_BLOCK),
        GpuTextureFormat::Bc4RUnorm => Some(FORMAT_BC4_UNORM_BLOCK),
        GpuTextureFormat::Bc4RSnorm => Some(FORMAT_BC4_SNORM_BLOCK),
        GpuTextureFormat::Bc5RgUnorm => Some(FORMAT_BC5_SNORM_BLOCK),
        GpuTextureFormat::Bc5RgSnorm => Some(FORMAT_BC5_SNORM_BLOCK),
        GpuTextureFormat::Bc6hRgbUfloat => Some(FORMAT_BC6H_UFLOAT_BLOCK),
        GpuTextureFormat::Bc6hRgbFloat => Some(FORMAT_BC6H_SFLOAT_BLOCK),
        GpuTextureFormat::Bc7RgbaUnorm => Some(FORMAT_BC7_UNORM_BLOCK),
        GpuTextureFormat::Bc7RgbaUnormSrgb => Some(FORMAT_BC7_SRGB_BLOCK),
        GpuTextureFormat::Etc2Rgb8Unorm => Some(FORMAT_ETC2_R8G8B8_UNORM_BLOCK),
        GpuTextureFormat::Etc2Rgb8UnormSrgb => Some(FORMAT_ETC2_R8G8B8_SRGB_BLOCK),
        GpuTextureFormat::Etc2Rgb8A1Unorm => Some(FORMAT_ETC2_R8G8B8A1_UNORM_BLOCK),
        GpuTextureFormat::Etc2Rgb8A1UnormSrgb => Some(FORMAT_ETC2_R8G8B8A1_SRGB_BLOCK),
        GpuTextureFormat::Etc2Rgba8Unorm => Some(FORMAT_ETC2_R8G8B8A8_UNORM_BLOCK),
        GpuTextureFormat::Etc2Rgba8UnormSrgb => Some(FORMAT_ETC2_R8G8B8A8_SRGB_BLOCK),
        GpuTextureFormat::EacR11Unorm => Some(FORMAT_EAC_R11_UNORM_BLOCK),
        GpuTextureFormat::EacR11Snorm => Some(FORMAT_EAC_R11_SNORM_BLOCK),
        GpuTextureFormat::EacRg11Unorm => Some(FORMAT_EAC_R11G11_UNORM_BLOCK),
        GpuTextureFormat::EacRg11Snorm => Some(FORMAT_EAC_R11G11_SNORM_BLOCK),
        GpuTextureFormat::Astc { .. } => None,
    }
}

/// How the bits of a texel component are read.
pub enum Numeric {
    Unorm,
    Snorm,
    Uint,
    Sint,
    Ufloat,
    Sfloat,
    Srgb,
}

/// How the texels of a format are stored: one by one, with an exponent
/// shared by the components, or in compressed blocks (BC1 to BC7, ETC2,
/// EAC).
pub enum Encoding {
    Plain,
    SharedExponent,
    Bc(nat),
    Etc2,
    Eac,
}

/// One component of a texel: its channel (`R`, `G`, `B`, `A`, `D` for depth,
/// `S` for stencil), its width in bits (0 where a compressed block gives its
/// components no width of their own), and how its bits are read.
pub struct Component {
    pub channel: char,
    pub bits: nat,
    pub numeric: Numeric,
}

/// What a texel of a format is: how it is stored and its components, in
/// order.
pub struct FormatLayout {
    pub encoding: Encoding,
    pub components: Seq<Component>,
}

pub open spec fn component(channel: char, bits: nat, numeric: Numeric) -> Component {
    Component { channel, bits, numeric }
}

/// A layout whose components all have the same width and reading.
pub open spec fn uniform_layout(
    encoding: Encoding,
    channels: Seq<char>,
    bits: nat,
    numeric: Numeric,
) -> FormatLayout {
    FormatLayout {
        encoding,
        components: Seq::new(channels.len(), |i: int| component(channels[i], bits, numeric)),
    }
}

/// A depth component of `depth_bits` bits (none when 0), then a stencil
/// component of `stencil_bits` unsigned bits (none when 0).
pub open spec fn depth_stencil_layout(depth_bits: nat, depth: Numeric, stencil_bits: nat) -> FormatLayout {
    FormatLayout {
        encoding: Encoding::Plain,
        components: (if depth_bits > 0 {
            seq![component('D', depth_bits, depth)]
        } else {
            seq![]
        }) + (if stencil_bits > 0 {
            seq![component('S', stencil_bits, Numeric::Uint)]
        } else {
            seq![]
        }),
    }
}

pub open spec fn red() -> Seq<char> {
    seq!['R']
}

pub open spec fn red_green() -> Seq<char> {
    seq!['R', 'G']
}

pub open spec fn rgb() -> Seq<char> {
    seq!['R', 'G', 'B']
}

pub open spec fn rgba() -> Seq<char> {
    seq!['R', 'G', 'B', 'A']
}

pub open spec fn bgra() -> Seq<char> {
    seq!['B', 'G', 'R', 'A']
}

/// What a texel of a WebGPU format is, as the WebGPU specification names
/// it (`Float` is a signed float; `Depth24Plus` holds at least 24 bits of
/// depth); `None` for the planar `NV12` and the ASTC formats.
pub open spec fn gpu_layout(format: GpuTextureFormat) -> Option<FormatLayout> {
    match format {
        GpuTextureFormat::R8Unorm => Some(uniform_layout(Encoding::Plain, red(), 8, Numeric::Unorm)),
        GpuTextureFormat::R8Snorm => Some(uniform_layout(Encoding::Plain, red(), 8, Numeric::Snorm)),
        GpuTextureFormat::R8Uint => Some(uniform_layout(Encoding::Plain, red(), 8, Numeric::Uint)),
        GpuTextureFormat::R8Sint => Some(uniform_layout(Encoding::Plain, red(), 8, Numeric::Sint)),
        GpuTextureFormat::R16Uint => Some(uniform_layout(Encoding::Plain, red(), 16, Numeric::Uint)),
        GpuTextureFormat::R16Sint => Some(uniform_layout(Encoding::Plain, red(), 16, Numeric::Sint)),
        GpuTextureFormat::R16Unorm => Some(uniform_layout(Encoding::Plain, red(), 16, Numeric::Unorm)),
        GpuTextureFormat::R16Snorm => Some(uniform_layout(Encoding::Plain, red(), 16, Numeric::Snorm)),
        GpuTextureFormat::R16Float => Some(uniform_layout(Encoding::Plain, red(), 16, Numeric::Sfloat)),
        GpuTextureFormat::Rg8Unorm => Some(uniform_layout(Encoding::Plain, red_green(), 8, Numeric::Unorm)),
        GpuTextureFormat::Rg8Snorm => Some(uniform_layout(Encoding::Plain, red_green(), 8, Numeric::Snorm)),
        GpuTextureFormat::Rg8Uint => Some(uniform_layout(Encoding::Plain, red_green(), 8, Numeric::Uint)),
        GpuTextureFormat::Rg8Sint => Some(uniform_layout(Encoding::Plain, red_green(), 8, Numeric::Sint)),
        GpuTextureFormat::R32Uint => Some(uniform_layout(Encoding::Plain, red(), 32, Numeric::Uint)),
        GpuTextureFormat::R32Sint => Some(uniform_layout(Encoding::Plain, red(), 32, Numeric::Sint)),
        GpuTextureFormat::R32Float => Some(uniform_layout(Encoding::Plain, red(), 32, Numeric::Sfloat)),
        GpuTextureFormat::Rg16Uint => Some(uniform_layout(Encoding::Plain, red_green(), 16, Numeric::Uint)),
        GpuTextureFormat::Rg16Sint => Some(uniform_layout(Encoding::Plain, red_green(), 16, Numeric::Sint)),
        GpuTextureFormat::Rg16Unorm => Some(uniform_layout(Encoding::Plain, red_green(), 16, Numeric::Unorm)),
        GpuTextureFormat::Rg16Snorm => Some(uniform_layout(Encoding::Plain, red_green(), 16, Numeric::Snorm)),
        GpuTextureFormat::Rg16Float => Some(uniform_layout(Encoding::Plain, red_green(), 16, Numeric::Sfloat)),
        GpuTextureFormat::Rgba8Unorm => Some(uniform_layout(Encoding::Plain, rgba(), 8, Numeric::Unorm)),
        GpuTextureFormat::Rgba8UnormSrgb => Some(uniform_layout(Encoding::Plain, rgba(), 8, Numeric::Srgb)),
        GpuTextureFormat::Rgba8Snorm => Some(uniform_layout(Encoding::Plain, rgba(), 8, Numeric::Snorm)),
        GpuTextureFormat::Rgba8Uint => Some(uniform_layout(Encoding::Plain, rgba(), 8, Numeric::Uint)),
        GpuTextureFormat::Rgba8Sint => Some(uniform_layout(Encoding::Plain, rgba(), 8, Numeric::Sint)),
        GpuTextureFormat::Bgra8Unorm => Some(uniform_layout(Encoding::Plain, bgra(), 8, Numeric::Unorm)),
        GpuTextureFormat::Bgra8UnormSrgb => Some(uniform_layout(Encoding::Plain, bgra(), 8, Numeric::Srgb)),
        GpuTextureFormat::Rgb9e5Ufloat => Some(uniform_layout(Encoding::SharedExponent, rgb(), 9, Numeric::Ufloat)),
        GpuTextureFormat::Rgb10a2Uint => Some(FormatLayout {
            encoding: Encoding::Plain,
            components: seq![
                component('R', 10, Numeric::Uint),
                component('G', 10, Numeric::Uint),
                component('B', 10, Numeric::Uint),
                component('A', 2, Numeric::Uint),
            ],
        }),
        GpuTextureFormat::Rgb10a2Unorm => Some(FormatLayout {
            encoding: Encoding::Plain,
            components: seq![
                component('R', 10, Numeric::Unorm),
                component('G', 10, Numeric::Unorm),
                component('B', 10, Numeric::Unorm),
                component('A', 2, Numeric::Unorm),
            ],
        }),
        GpuTextureFormat::Rg11b10Ufloat => Some(FormatLayout {
            encoding: Encoding::Plain,
            components: seq![
                component('R', 11, Numeric::Ufloat),
                component('G', 11, Numeric::Ufloat),
                component('B', 10, Numeric::Ufloat),
            ],
        }),
        GpuTextureFormat::R64Uint => Some(uniform_layout(Encoding::Plain, red(), 64, Numeric::Uint)),
        GpuTextureFormat::Rg32Uint => Some(uniform_layout(Encoding::Plain, red_green(), 32, Numeric::Uint)),
        GpuTextureFormat::Rg32Sint => Some(uniform_layout(Encoding::Plain, red_green(), 32, Numeric::Sint)),
        GpuTextureFormat::Rg32Float => Some(uniform_layout(Encoding::Plain, red_green(), 32, Numeric::Sfloat)),
        GpuTextureFormat::Rgba16Uint => Some(uniform_layout(Encoding::Plain, rgba(), 16, Numeric::Uint)),
        GpuTextureFormat::Rgba16Sint => Some(uniform_layout(Encoding::Plain, rgba(), 16, Numeric::Sint)),
        GpuTextureFormat::Rgba16Unorm => Some(uniform_layout(Encoding::Plain, rgba(), 16, Numeric::Unorm)),
        GpuTextureFormat::Rgba16Snorm => Some(uniform_layout(Encoding::Plain, rgba(), 16, Numeric::Snorm)),
        GpuTextureFormat::Rgba16Float => Some(uniform_layout(Encoding::Plain, rgba(), 16, Numeric::Sfloat)),
        GpuTextureFormat::Rgba32Uint => Some(uniform_layout(Encoding::Plain, rgba(), 32, Numeric::Uint)),
        GpuTextureFormat::Rgba32Sint => Some(uniform_layout(Encoding::Plain, rgba(), 32, Numeric::Sint)),
        GpuTextureFormat::Rgba32Float => Some(uniform_layout(Encoding::Plain, rgba(), 32, Numeric::Sfloat)),
        GpuTextureFormat::Stencil8 => Some(depth_stencil_layout(0, Numeric::Unorm, 8)),
        GpuTextureFormat::Depth16Unorm => Some(depth_stencil_layout(16, Numeric::Unorm, 0)),
        GpuTextureFormat::Depth24Plus => Some(depth_stencil_layout(24, Numeric::Unorm, 0)),
        GpuTextureFormat::Depth24PlusStencil8 => Some(depth_stencil_layout(24, Numeric::Unorm, 8)),
        GpuTextureFormat::Depth32Float => Some(depth_stencil_layout(32, Numeric::Sfloat, 0)),
        GpuTextureFormat::Depth32FloatStencil8 => Some(depth_stencil_layout(32, Numeric::Sfloat, 8)),
        GpuTextureFormat::Bc1RgbaUnorm => Some(uniform_layout(Encoding::Bc(1), rgba(), 0, Numeric::Unorm)),
        GpuTextureFormat::Bc1RgbaUnormSrgb => Some(uniform_layout(Encoding::Bc(1), rgba(), 0, Numeric::Srgb)),
        GpuTextureFormat::Bc2RgbaUnorm => Some(uniform_layout(Encoding::Bc(2), rgba(), 0, Numeric::Unorm)),
        GpuTextureFormat::Bc2RgbaUnormSrgb => Some(uniform_layout(Encoding::Bc(2), rgba(), 0, Numeric::Srgb)),
        GpuTextureFormat::Bc3RgbaUnorm => Some(uniform_layout(Encoding::Bc(3), rgba(), 0, Numeric::Unorm)),
        GpuTextureFormat::Bc3RgbaUnormSrgb => Some(uniform_layout(Encoding::Bc(3), rgba(), 0, Numeric::Srgb)),
        GpuTextureFormat::Bc4RUnorm => Some(uniform_layout(Encoding::Bc(4), red(), 0, Numeric::Unorm)),
        GpuTextureFormat::Bc4RSnorm => Some(uniform_layout(Encoding::Bc(4), red(), 0, Numeric::Snorm)),
        GpuTextureFormat::Bc5RgUnorm => Some(uniform_layout(Encoding::Bc(5), red_green(), 0, Numeric::Unorm)),
        GpuTextureFormat::Bc5RgSnorm => Some(uniform_layout(Encoding::Bc(5), red_green(), 0, Numeric::Snorm)),
        GpuTextureFormat::Bc6hRgbUfloat => Some(uniform_layout(Encoding::Bc(6), rgb(), 0, Numeric::Ufloat)),
        GpuTextureFormat::Bc6hRgbFloat => Some(uniform_layout(Encoding::Bc(6), rgb(), 0, Numeric::Sfloat)),
        GpuTextureFormat::Bc7RgbaUnorm => Some(uniform_layout(Encoding::Bc(7), rgba(), 0, Numeric::Unorm)),
        GpuTextureFormat::Bc7RgbaUnormSrgb => Some(uniform_layout(Encoding::Bc(7), rgba(), 0, Numeric::Srgb)),
        GpuTextureFormat::Etc2Rgb8Unorm => Some(uniform_layout(Encoding::Etc2, rgb(), 8, Numeric::Unorm)),
        GpuTextureFormat::Etc2Rgb8UnormSrgb => Some(uniform_layout(Encoding::Etc2, rgb(), 8, Numeric::Srgb)),
        GpuTextureFormat::Etc2Rgb8A1Unorm => Some(FormatLayout {
            encoding: Encoding::Etc2,
            components: seq![
                component('R', 8, Numeric::Unorm),
                component('G', 8, Numeric::Unorm),
                component('B', 8, Numeric::Unorm),
                component('A', 1, Numeric::Unorm),
            ],
        }),
        GpuTextureFormat::Etc2Rgb8A1UnormSrgb => Some(FormatLayout {
            encoding: Encoding::Etc2,
            components: seq![
                component('R', 8, Numeric::Srgb),
                component('G', 8, Numeric::Srgb),
                component('B', 8, Numeric::Srgb),
                component('A', 1, Numeric::Srgb),
            ],
        }),
        GpuTextureFormat::Etc2Rgba8Unorm => Some(uniform_layout(Encoding::Etc2, rgba(), 8, Numeric::Unorm)),
        GpuTextureFormat::Etc2Rgba8UnormSrgb => Some(uniform_layout(Encoding::Etc2, rgba(), 8, Numeric::Srgb)),
        GpuTextureFormat::EacR11Unorm => Some(uniform_layout(Encoding::Eac, red(), 11, Numeric::Unorm)),
        GpuTextureFormat::EacR11Snorm => Some(uniform_layout(Encoding::Eac, red(), 11, Numeric::Snorm)),
        GpuTextureFormat::EacRg11Unorm => Some(uniform_layout(Encoding::Eac, red_green(), 11, Numeric::Unorm)),
        GpuTextureFormat::EacRg11Snorm => Some(uniform_layout(Encoding::Eac, red_green(), 11, Numeric::Snorm)),
        GpuTextureFormat::NV12 => None,
        GpuTextureFormat::Astc { .. } => None,
    }
}

/// What a texel of a Vulkan format is, as the Vulkan name of the format
/// spells it out; `None` for the codes that name no format here.
pub open spec fn vk_layout(format: i32) -> Option<FormatLayout> {
    if format == FORMAT_R8_UNORM {
        Some(uniform_layout(Encoding::Plain, red(), 8, Numeric::Unorm))
    } else if format == FORMAT_R8_SNORM {
        Some(uniform_layout(Encoding::Plain, red(), 8, Numeric::Snorm))
    } else if format == FORMAT_R8_UINT {
        Some(uniform_layout(Encoding::Plain, red(), 8, Numeric::Uint))
    } else if format == FORMAT_R8_SINT {
        Some(uniform_layout(Encoding::Plain, red(), 8, Numeric::Sint))
    } else if format == FORMAT_R8G8_UNORM {
        Some(uniform_layout(Encoding::Plain, red_green(), 8, Numeric::Unorm))
    } else if format == FORMAT_R8G8_SNORM {
        Some(uniform_layout(Encoding::Plain, red_green(), 8, Numeric::Snorm))
    } else if format == FORMAT_R8G8_UINT {
        Some(uniform_layout(Encoding::Plain, red_green(), 8, Numeric::Uint))
    } else if format == FORMAT_R8G8_SINT {
        Some(uniform_layout(Encoding::Plain, red_green(), 8, Numeric::Sint))
    } else if format == FORMAT_R8G8B8A8_UNORM {
        Some(uniform_layout(Encoding::Plain, rgba(), 8, Numeric::Unorm))
    } else if format == FORMAT_R8G8B8A8_SNORM {
        Some(uniform_layout(Encoding::Plain, rgba(), 8, Numeric::Snorm))
    } else if format == FORMAT_R8G8B8A8_UINT {
        Some(uniform_layout(Encoding::Plain, rgba(), 8, Numeric::Uint))
    } else if format == FORMAT_R8G8B8A8_SINT {
        Some(uniform_layout(Encoding::Plain, rgba(), 8, Numeric::Sint))
    } else if format == FORMAT_R8G8B8A8_SRGB {
        Some(uniform_layout(Encoding::Plain, rgba(), 8, Numeric::Srgb))
    } else if format == FORMAT_B8G8R8A8_UNORM {
        Some(uniform_layout(Encoding::Plain, bgra(), 8, Numeric::Unorm))
    } else if format == FORMAT_B8G8R8A8_SRGB {
        Some(uniform_layout(Encoding::Plain, bgra(), 8, Numeric::Srgb))
    } else if format == FORMAT_R16_UNORM {
        Some(uniform_layout(Encoding::Plain, red(), 16, Numeric::Unorm))
    } else if format == FORMAT_R16_SNORM {
        Some(uniform_layout(Encoding::Plain, red(), 16, Numeric::Snorm))
    } else if format == FORMAT_R16_UINT {
        Some(uniform_layout(Encoding::Plain, red(), 16, Numeric::Uint))
    } else if format == FORMAT_R16_SINT {
        Some(uniform_layout(Encoding::Plain, red(), 16, Numeric::Sint))
    } else if format == FORMAT_R16_SFLOAT {
        Some(uniform_layout(Encoding::Plain, red(), 16, Numeric::Sfloat))
    } else if format == FORMAT_R16G16_UNORM {
        Some(uniform_layout(Encoding::Plain, red_green(), 16, Numeric::Unorm))
    } else if format == FORMAT_R16G16_SNORM {
        Some(uniform_layout(Encoding::Plain, red_green(), 16, Numeric::Snorm))
    } else if format == FORMAT_R16G16_UINT {
        Some(uniform_layout(Encoding::Plain, red_green(), 16, Numeric::Uint))
    } else if format == FORMAT_R16G16_SINT {
        Some(uniform_layout(Encoding::Plain, red_green(), 16, Numeric::Sint))
    } else if format == FORMAT_R16G16B16A16_UNORM {
        Some(uniform_layout(Encoding::Plain, rgba(), 16, Numeric::Unorm))
    } else if format == FORMAT_R16G16B16A16_SNORM {
        Some(uniform_layout(Encoding::Plain, rgba(), 16, Numeric::Snorm))
    } else if format == FORMAT_R16G16B16A16_UINT {
        Some(uniform_layout(Encoding::Plain, rgba(), 16, Numeric::Uint))
    } else if format == FORMAT_R16G16B16A16_SINT {
        Some(uniform_layout(Encoding::Plain, rgba(), 16, Numeric::Sint))
    } else if format == FORMAT_R16G16B16A16_SFLOAT {
        Some(uniform_layout(Encoding::Plain, rgba(), 16, Numeric::Sfloat))
    } else if format == FORMAT_R32_UINT {
        Some(uniform_layout(Encoding::Plain, red(), 32, Numeric::Uint))
    } else if format == FORMAT_R32_SINT {
        Some(uniform_layout(Encoding::Plain, red(), 32, Numeric::Sint))
    } else if format == FORMAT_R32_SFLOAT {
        Some(uniform_layout(Encoding::Plain, red(), 32, Numeric::Sfloat))
    } else if format == FORMAT_R32G32_UINT {
        Some(uniform_layout(Encoding::Plain, red_green(), 32, Numeric::Uint))
    } else if format == FORMAT_R32G32_SINT {
        Some(uniform_layout(Encoding::Plain, red_green(), 32, Numeric::Sint))
    } else if format == FORMAT_R32G32_SFLOAT {
        Some(uniform_layout(Encoding::Plain, red_green(), 32, Numeric::Sfloat))
    } else if format == FORMAT_R32G32B32A32_UINT {
        Some(uniform_layout(Encoding::Plain, rgba(), 32, Numeric::Uint))
    } else if format == FORMAT_R32G32B32A32_SINT {
        Some(uniform_layout(Encoding::Plain, rgba(), 32, Numeric::Sint))
    } else if format == FORMAT_R32G32B32A32_SFLOAT {
        Some(uniform_layout(Encoding::Plain, rgba(), 32, Numeric::Sfloat))
    } else if format == FORMAT_R64_UINT {
        Some(uniform_layout(Encoding::Plain, red(), 64, Numeric::Uint))
    } else if format == FORMAT_D16_UNORM {
        Some(depth_stencil_layout(16, Numeric::Unorm, 0))
    } else if format == FORMAT_D32_SFLOAT {
        Some(depth_stencil_layout(32, Numeric::Sfloat, 0))
    } else if format == FORMAT_S8_UINT {
        Some(depth_stencil_layout(0, Numeric::Unorm, 8))
    } else if format == FORMAT_D24_UNORM_S8_UINT {
        Some(depth_stencil_layout(24, Numeric::Unorm, 8))
    } else if format == FORMAT_D32_SFLOAT_S8_UINT {
        Some(depth_stencil_layout(32, Numeric::Sfloat, 8))
    } else if format == FORMAT_BC1_RGBA_UNORM_BLOCK {
        Some(uniform_layout(Encoding::Bc(1), rgba(), 0, Numeric::Unorm))
    } else if format == FORMAT_BC1_RGBA_SRGB_BLOCK {
        Some(uniform_layout(Encoding::Bc(1), rgba(), 0, Numeric::Srgb))
    } else if format == FORMAT_BC2_UNORM_BLOCK {
        Some(uniform_layout(Encoding::Bc(2), rgba(), 0, Numeric::Unorm))
    } else if format == FORMAT_BC2_SRGB_BLOCK {
        Some(uniform_layout(Encoding::Bc(2), rgba(), 0, Numeric::Srgb))
    } else if format == FORMAT_BC3_UNORM_BLOCK {
        Some(uniform_layout(Encoding::Bc(3), rgba(), 0, Numeric::Unorm))
    } else if format == FORMAT_BC3_SRGB_BLOCK {
        Some(uniform_layout(Encoding::Bc(3), rgba(), 0, Numeric::Srgb))
    } else if format == FORMAT_BC4_UNORM_BLOCK {
        Some(uniform_layout(Encoding::Bc(4), red(), 0, Numeric::Unorm))
    } else if format == FORMAT_BC4_SNORM_BLOCK {
        Some(uniform_layout(Encoding::Bc(4), red(), 0, Numeric::Snorm))
    } else if format == FORMAT_BC5_SNORM_BLOCK {
        Some(uniform_layout(Encoding::Bc(5), red_green(), 0, Numeric::Snorm))
    } else if format == FORMAT_BC6H_UFLOAT_BLOCK {
        Some(uniform_layout(Encoding::Bc(6), rgb(), 0, Numeric::Ufloat))
    } else if format == FORMAT_BC6H_SFLOAT_BLOCK {
        Some(uniform_layout(Encoding::Bc(6), rgb(), 0, Numeric::Sfloat))
    } else if format == FORMAT_BC7_UNORM_BLOCK {
        Some(uniform_layout(Encoding::Bc(7), rgba(), 0, Numeric::Unorm))
    } else if format == FORMAT_BC7_SRGB_BLOCK {
        Some(uniform_layout(Encoding::Bc(7), rgba(), 0, Numeric::Srgb))
    } else if format == FORMAT_ETC2_R8G8B8_UNORM_BLOCK {
        Some(uniform_layout(Encoding::Etc2, rgb(), 8, Numeric::Unorm))
    } else if format == FORMAT_ETC2_R8G8B8_SRGB_BLOCK {
        Some(uniform_layout(Encoding::Etc2, rgb(), 8, Numeric::Srgb))
    } else if format == FORMAT_ETC2_R8G8B8A1_UNORM_BLOCK {
        Some(FormatLayout {
            encoding: Encoding::Etc2,
            components: seq![
                component('R', 8, Numeric::Unorm),
                component('G', 8, Numeric::Unorm),
                component('B', 8, Numeric::Unorm),
                component('A', 1, Numeric::Unorm),
            ],
        })
    } else if format == FORMAT_ETC2_R8G8B8A1_SRGB_BLOCK {
        Some(FormatLayout {
            encoding: Encoding::Etc2,
            components: seq![
                component('R', 8, Numeric::Srgb),
                component('G', 8, Numeric::Srgb),
                component('B', 8, Numeric::Srgb),
                component('A', 1, Numeric::Srgb),
            ],
        })
    } else if format == FORMAT_ETC2_R8G8B8A8_UNORM_BLOCK {
        Some(uniform_layout(Encoding::Etc2, rgba(), 8, Numeric::Unorm))
    } else if format == FORMAT_ETC2_R8G8B8A8_SRGB_BLOCK {
        Some(uniform_layout(Encoding::Etc2, rgba(), 8, Numeric::Srgb))
    } else if format == FORMAT_EAC_R11_UNORM_BLOCK {
        Some(uniform_layout(Encoding::Eac, red(), 11, Numeric::Unorm))
    } else if format == FORMAT_EAC_R11_SNORM_BLOCK {
        Some(uniform_layout(Encoding::Eac, red(), 11, Numeric::Snorm))
    } else if format == FORMAT_EAC_R11G11_UNORM_BLOCK {
        Some(uniform_layout(Encoding::Eac, red_green(), 11, Numeric::Unorm))
    } else if format == FORMAT_EAC_R11G11_SNORM_BLOCK {
        Some(uniform_layout(Encoding::Eac, red_green(), 11, Numeric::Snorm))
    } else {
        None
    }
}

/// A conversion keeps what a texel is: the Vulkan format has the same
/// components in the same order, with the same widths and readings, and the
/// same storage. `Rg16Float` and `Bc5RgUnorm` are left out: they convert to
/// the signed-normalized `R16G16_SNORM` and `BC5_SNORM_BLOCK`.
pub proof fn lemma_conversion_keeps_layout(format: GpuTextureFormat)
    requires
        vk_format(format) is Some,
        format != GpuTextureFormat::Rg16Float,
        format != GpuTextureFormat::Bc5RgUnorm,
    ensures
        gpu_layout(format) is Some,
        vk_layout(vk_format(format)->0) == gpu_layout(format),
{
}

/// The formats without a Vulkan counterpart here are exactly the packed and
/// shared-exponent formats, `Depth24Plus` (whose depth width is left to the
/// device), the planar `NV12` and the ASTC formats; every other format
/// converts.
pub proof fn lemma_formats_without_counterpart(format: GpuTextureFormat)
    ensures
        vk_format(format) is None <==> {
            ||| format is Rgb9e5Ufloat
            ||| format is Rgb10a2Uint
            ||| format is Rgb10a2Unorm
            ||| format is Rg11b10Ufloat
            ||| format is Depth24Plus
            ||| format is NV12
            ||| format is Astc
        },
{
}

/// The WebGPU format that a Vulkan swapchain format converts back to: the
/// sRGB variant of BGRA8 for `B8G8R8A8_SRGB`, the linear one for everything
/// else.
pub open spec fn gpu_format_of_vk(format: i32) -> GpuTextureFormat {
    if format == FORMAT_B8G8R8A8_SRGB {
        GpuTextureFormat::Bgra8UnormSrgb
    } else {
        GpuTextureFormat::Bgra8Unorm
    }
}

/// The two swapchain formats survive a conversion to Vulkan and back, and
/// every other convertible format comes back as linear BGRA8.
pub proof fn lemma_format_round_trip(format: GpuTextureFormat)
    requires
        vk_format(format) is Some,
    ensures
        gpu_format_of_vk(vk_format(format)->0) == if format == GpuTextureFormat::Bgra8UnormSrgb {
            GpuTextureFormat::Bgra8UnormSrgb
        } else {
            GpuTextureFormat::Bgra8Unorm
        },
{
}

/// Unit type that gathers the texture format conversions.
pub struct TextureFormat;

impl TextureFormat {
    /// Whether `format` has a Vulkan counterpart.
    pub fn is_supported(format: GpuTextureFormat) -> (b: bool)
        ensures
            b == (vk_format(format) is Some),
    {
        match format {
            GpuTextureFormat::Rgb9e5Ufloat => false,
            GpuTextureFormat::Rgb10a2Uint => false,
            GpuTextureFormat::Rgb10a2Unorm => false,
            GpuTextureFormat::Rg11b10Ufloat => false,
            GpuTextureFormat::Depth24Plus => false,
            GpuTextureFormat::NV12 => false,
            GpuTextureFormat::Astc { .. } => false,
            _ => true,
        }
    }

    /// The Vulkan format of a WebGPU format.
    pub fn to_vk(format: GpuTextureFormat) -> (vk: i32)
        requires
            vk_format(format) is Some,
        ensures
            vk == vk_format(format)->0,
            format != GpuTextureFormat::Rg16Float && format != GpuTextureFormat::Bc5RgUnorm
                ==> vk_layout(vk) == gpu_layout(format),
    {
        proof {
            if format != GpuTextureFormat::Rg16Float && format != GpuTextureFormat::Bc5RgUnorm {
                lemma_conversion_keeps_layout(format);
            }
        }
        match format {
            GpuTextureFormat::R8Unorm => FORMAT_R8_UNORM,
            GpuTextureFormat::R8Snorm => FORMAT_R8_SNORM,
            GpuTextureFormat::R8Uint => FORMAT_R8_UINT,
            GpuTextureFormat::R8Sint => FORMAT_R8_SINT,
            GpuTextureFormat::R16Uint => FORMAT_R16_UINT,
            GpuTextureFormat::R16Sint => FORMAT_R16_SINT,
            GpuTextureFormat::R16Unorm => FORMAT_R16_UNORM,
            GpuTextureFormat::R16Snorm => FORMAT_R16_SNORM,
            GpuTextureFormat::R16Float => FORMAT_R16_SFLOAT,
            GpuTextureFormat::Rg8Unorm => FORMAT_R8G8_UNORM,
            GpuTextureFormat::Rg8Snorm => FORMAT_R8G8_SNORM,
            GpuTextureFormat::Rg8Uint => FORMAT_R8G8_UINT,
            GpuTextureFormat::Rg8Sint => FORMAT_R8G8_SINT,
            GpuTextureFormat::R32Uint => FORMAT_R32_UINT,
            GpuTextureFormat::R32Sint => FORMAT_R32_SINT,
            GpuTextureFormat::R32Float => FORMAT_R32_SFLOAT,
            GpuTextureFormat::Rg16Uint => FORMAT_R16G16_UINT,
            GpuTextureFormat::Rg16Sint => FORMAT_R16G16_SINT,
            GpuTextureFormat::Rg16Unorm => FORMAT_R16G16_UNORM,
            GpuTextureFormat::Rg16Snorm => FORMAT_R16G16_SNORM,
            GpuTextureFormat::Rg16Float => FORMAT_R16G16_SNORM,
            GpuTextureFormat::Rgba8Unorm => FORMAT_R8G8B8A8_UNORM,
            GpuTextureFormat::Rgba8UnormSrgb => FORMAT_R8G8B8A8_SRGB,
            GpuTextureFormat::Rgba8Snorm => FORMAT_R8G8B8A8_SNORM,
            GpuTextureFormat::Rgba8Uint => FORMAT_R8G8B8A8_UINT,
            GpuTextureFormat::Rgba8Sint => FORMAT_R8G8B8A8_SINT,
            GpuTextureFormat::Bgra8Unorm => FORMAT_B8G8R8A8_UNORM,
            GpuTextureFormat::Bgra8UnormSrgb => FORMAT_B8G8R8A8_SRGB,
            GpuTextureFormat::R64Uint => FORMAT_R64_UINT,
            GpuTextureFormat::Rg32Uint => FORMAT_R32G32_UINT,
            GpuTextureFormat::Rg32Sint => FORMAT_R32G32_SINT,
            GpuTextureFormat::Rg32Float => FORMAT_R32G32_SFLOAT,
            GpuTextureFormat::Rgba16Uint => FORMAT_R16G16B16A16_UINT,
            GpuTextureFormat::Rgba16Sint => FORMAT_R16G16B16A16_SINT,
            GpuTextureFormat::Rgba16Unorm => FORMAT_R16G16B16A16_UNORM,
            GpuTextureFormat::Rgba16Snorm => FORMAT_R16G16B16A16_SNORM,
            GpuTextureFormat::Rgba16Float => FORMAT_R16G16B16A16_SFLOAT,
            GpuTextureFormat::Rgba32Uint => FORMAT_R32G32B32A32_UINT,
            GpuTextureFormat::Rgba32Sint => FORMAT_R32G32B32A32_SINT,
            GpuTextureFormat::Rgba32Float => FORMAT_R32G32B32A32_SFLOAT,
            GpuTextureFormat::Stencil8 => FORMAT_S8_UINT,
            GpuTextureFormat::Depth16Unorm => FORMAT_D16_UNORM,
            GpuTextureFormat::Depth24PlusStencil8 => FORMAT_D24_UNORM_S8_UINT,
            GpuTextureFormat::Depth32Float => FORMAT_D32_SFLOAT,
            GpuTextureFormat::Depth32FloatStencil8 => FORMAT_D32_SFLOAT_S8_UINT,
            GpuTextureFormat::Bc1RgbaUnorm => FORMAT_BC1_RGBA_UNORM_BLOCK,
            GpuTextureFormat::Bc1RgbaUnormSrgb => FORMAT_BC1_RGBA_SRGB_BLOCK,
            GpuTextureFormat::Bc2RgbaUnorm => FORMAT_BC2_UNORM_BLOCK,
            GpuTextureFormat::Bc2RgbaUnormSrgb => FORMAT_BC2_SRGB_BLOCK,
            GpuTextureFormat::Bc3RgbaUnorm => FORMAT_BC3_UNORM_BLOCK,
            GpuTextureFormat::Bc3RgbaUnormSrgb => FORMAT_BC3_SRGB_BLOCK,
            GpuTextureFormat::Bc4RUnorm => FORMAT_BC4_UNORM_BLOCK,
            GpuTextureFormat::Bc4RSnorm => FORMAT_BC4_SNORM_BLOCK,
            GpuTextureFormat::Bc5RgUnorm => FORMAT_BC5_SNORM_BLOCK,
            GpuTextureFormat::Bc5RgSnorm => FORMAT_BC5_SNORM_BLOCK,
            GpuTextureFormat::Bc6hRgbUfloat => FORMAT_BC6H_UFLOAT_BLOCK,
            GpuTextureFormat::Bc6hRgbFloat => FORMAT_BC6H_SFLOAT_BLOCK,
            GpuTextureFormat::Bc7RgbaUnorm => FORMAT_BC7_UNORM_BLOCK,
            GpuTextureFormat::Bc7RgbaUnormSrgb => FORMAT_BC7_SRGB_BLOCK,
            GpuTextureFormat::Etc2Rgb8Unorm => FORMAT_ETC2_R8G8B8_UNORM_BLOCK,
            GpuTextureFormat::Etc2Rgb8UnormSrgb => FORMAT_ETC2_R8G8B8_SRGB_BLOCK,
            GpuTextureFormat::Etc2Rgb8A1Unorm => FORMAT_ETC2_R8G8B8A1_UNORM_BLOCK,
            GpuTextureFormat::Etc2Rgb8A1UnormSrgb => FORMAT_ETC2_R8G8B8A1_SRGB_BLOCK,
            GpuTextureFormat::Etc2Rgba8Unorm => FORMAT_ETC2_R8G8B8A8_UNORM_BLOCK,
            GpuTextureFormat::Etc2Rgba8UnormSrgb => FORMAT_ETC2_R8G8B8A8_SRGB_BLOCK,
            GpuTextureFormat::EacR11Unorm => FORMAT_EAC_R11_UNORM_BLOCK,
            GpuTextureFormat::EacR11Snorm => FORMAT_EAC_R11_SNORM_BLOCK,
            GpuTextureFormat::EacRg11Unorm => FORMAT_EAC_R11G11_UNORM_BLOCK,
            GpuTextureFormat::EacRg11Snorm => FORMAT_EAC_R11G11_SNORM_BLOCK,
            _ => FORMAT_UNDEFINED,
        }
    }

    /// The WebGPU format of a Vulkan swapchain format: the sRGB variant of
    /// BGRA8 for `B8G8R8A8_SRGB`, the linear one for everything else.
    pub fn from_vk(format: i32) -> (gpu: GpuTextureFormat)
        ensures
            gpu == gpu_format_of_vk(format),
    {
        if format == FORMAT_B8G8R8A8_UNORM {
            GpuTextureFormat::Bgra8Unorm
        } else if format == FORMAT_B8G8R8A8_SRGB {
            GpuTextureFormat::Bgra8UnormSrgb
        } else {
            GpuTextureFormat::Bgra8Unorm
        }
    }
}

/// `VkCompositeAlphaFlagsKHR::OPAQUE`.
pub const COMPOSITE_ALPHA_OPAQUE: u32 = 0x1;

/// `VkCompositeAlphaFlagsKHR::PRE_MULTIPLIED`.
pub const COMPOSITE_ALPHA_PRE_MULTIPLIED: u32 = 0x2;

/// `VkCompositeAlphaFlagsKHR::POST_MULTIPLIED`.
pub const COMPOSITE_ALPHA_POST_MULTIPLIED: u32 = 0x4;

/// `VkCompositeAlphaFlagsKHR::INHERIT`.
pub const COMPOSITE_ALPHA_INHERIT: u32 = 0x8;

/// A WebGPU composite alpha mode.
#[derive(Debug, Clone, Copy, PartialEq, Eq, Structural)]
pub enum CompositeAlphaMode {
    Auto,
    Opaque,
    PreMultiplied,
    PostMultiplied,
    Inherit,
}

/// The Vulkan flags that stand for the modes present: one flag per mode,
/// none for `Auto`.
pub open spec fn composite_alpha_flags(modes: Seq<CompositeAlphaMode>) -> u32 {
    (if modes.contains(CompositeAlphaMode::Opaque) { COMPOSITE_ALPHA_OPAQUE } else { 0 })
        | (if modes.contains(CompositeAlphaMode::PreMultiplied) {
        COMPOSITE_ALPHA_PRE_MULTIPLIED
    } else {
        0
    }) | (if modes.contains(CompositeAlphaMode::PostMultiplied) {
        COMPOSITE_ALPHA_POST_MULTIPLIED
    } else {
        0
    }) | (if modes.contains(CompositeAlphaMode::Inherit) { COMPOSITE_ALPHA_INHERIT } else { 0 })
}

proof fn lemma_four_flags(a: bool, b: bool, c: bool, d: bool)
    by (bit_vector)
    ensures
        ({
            let f = (if a { 1u32 } else { 0u32 }) | (if b { 2u32 } else { 0u32 }) | (if c {
                4u32
            } else {
                0u32
            }) | (if d { 8u32 } else { 0u32 });
            &&& (f & 1u32 != 0) == a
            &&& (f & 2u32 != 0) == b
            &&& (f & 4u32 != 0) == c
            &&& (f & 8u32 != 0) == d
            &&& f & !0xfu32 == 0
        }),
{
}

/// Each composite alpha flag is set exactly when its own mode is among the
/// modes, and no other bit is ever set.
pub proof fn lemma_composite_alpha_flag_per_mode(modes: Seq<CompositeAlphaMode>)
    ensures
        (composite_alpha_flags(modes) & COMPOSITE_ALPHA_OPAQUE != 0) == modes.contains(
            CompositeAlphaMode::Opaque,
        ),
        (composite_alpha_flags(modes) & COMPOSITE_ALPHA_PRE_MULTIPLIED != 0) == modes.contains(
            CompositeAlphaMode::PreMultiplied,
        ),
        (composite_alpha_flags(modes) & COMPOSITE_ALPHA_POST_MULTIPLIED != 0) == modes.contains(
            CompositeAlphaMode::PostMultiplied,
        ),
        (composite_alpha_flags(modes) & COMPOSITE_ALPHA_INHERIT != 0) == modes.contains(
            CompositeAlphaMode::Inherit,
        ),
        composite_alpha_flags(modes) & !0xfu32 == 0,
{
    lemma_four_flags(
        modes.contains(CompositeAlphaMode::Opaque),
        modes.contains(CompositeAlphaMode::PreMultiplied),
        modes.contains(CompositeAlphaMode::PostMultiplied),
        modes.contains(CompositeAlphaMode::Inherit),
    );
}

/// Unit type that gathers the alpha mode conversion.
pub struct CompositeAlpha;

impl CompositeAlpha {
    /// The Vulkan composite alpha flags of a list of WebGPU alpha modes.
    pub fn to_vk(alpha_modes: &Vec<CompositeAlphaMode>) -> (flags: u32)
        ensures
            flags == composite_alpha_flags(alpha_modes@),
            (flags & COMPOSITE_ALPHA_OPAQUE != 0) == alpha_modes@.contains(CompositeAlphaMode::Opaque),
            (flags & COMPOSITE_ALPHA_PRE_MULTIPLIED != 0) == alpha_modes@.contains(
                CompositeAlphaMode::PreMultiplied,
            ),
            (flags & COMPOSITE_ALPHA_POST_MULTIPLIED != 0) == alpha_modes@.contains(
                CompositeAlphaMode::PostMultiplied,
            ),
            (flags & COMPOSITE_ALPHA_INHERIT != 0) == alpha_modes@.contains(CompositeAlphaMode::Inherit),
            flags & !0xfu32 == 0,
    {
        proof {
            lemma_composite_alpha_flag_per_mode(alpha_modes@);
        }
        let mut opaque = false;
        let mut pre_multiplied = false;
        let mut post_multiplied = false;
        let mut inherit = false;
        let n = alpha_modes.len();
        let mut i: usize = 0;
        while i < n
            invariant
                n == alpha_modes@.len(),
                0 <= i <= n,
                opaque == alpha_modes@.take(i as int).contains(CompositeAlphaMode::Opaque),
                pre_multiplied == alpha_modes@.take(i as int).contains(
                    CompositeAlphaMode::PreMultiplied,
                ),
                post_multiplied == alpha_modes@.take(i as int).contains(
                    CompositeAlphaMode::PostMultiplied,
                ),
                inherit == alpha_modes@.take(i as int).contains(CompositeAlphaMode::Inherit),
            decreases n - i,
        {
            let ghost before = alpha_modes@.take(i as int);
            assert(alpha_modes@.take(i + 1) =~= before.push(alpha_modes@[i as int]));
            proof {
                broadcast use vstd::seq_lib::lemma_seq_contains_after_push;

            }
            match alpha_modes[i] {
                CompositeAlphaMode::Auto => {},
                CompositeAlphaMode::Opaque => {
                    opaque = true;
                },
                CompositeAlphaMode::PreMultiplied => {
                    pre_multiplied = true;
                },
                CompositeAlphaMode::PostMultiplied => {
                    post_multiplied = true;
                },
                CompositeAlphaMode::Inherit => {
                    inherit = true;
                },
            }
            i = i + 1;
        }
        assert(alpha_modes@.take(n as int) =~= alpha_modes@);
        (if opaque { COMPOSITE_ALPHA_OPAQUE } else { 0 }) | (if pre_multiplied {
            COMPOSITE_ALPHA_PRE_MULTIPLIED
        } else {
            0
        }) | (if post_multiplied {
            COMPOSITE_ALPHA_POST_MULTIPLIED
        } else {
            0
        }) | (if inherit { COMPOSITE_ALPHA_INHERIT } else { 0 })
    }
}

/// `wgpu::TextureUsages::COPY_SRC`.
pub const TEXTURE_USAGE_COPY_SRC: u32 = 0x1;

/// `wgpu::TextureUsages::COPY_DST`.
pub const TEXTURE_USAGE_COPY_DST: u32 = 0x2;

/// `wgpu::TextureUsages::TEXTURE_BINDING`.
pub const TEXTURE_USAGE_TEXTURE_BINDING: u32 = 0x4;

/// `wgpu::TextureUsages::STORAGE_BINDING`.
pub const TEXTURE_USAGE_STORAGE_BINDING: u32 = 0x8;

/// `wgpu::TextureUsages::RENDER_ATTACHMENT`.
pub const TEXTURE_USAGE_RENDER_ATTACHMENT: u32 = 0x10;

/// `wgpu::TextureUsages::STORAGE_ATOMIC`.
pub const TEXTURE_USAGE_STORAGE_ATOMIC: u32 = 0x10000;

/// `VkImageUsageFlags::TRANSFER_SRC`.
pub const IMAGE_USAGE_TRANSFER_SRC: u32 = 0x1;

/// `VkImageUsageFlags::TRANSFER_DST`.
pub const IMAGE_USAGE_TRANSFER_DST: u32 = 0x2;

/// `VkImageUsageFlags::SAMPLED`.
pub const IMAGE_USAGE_SAMPLED: u32 = 0x4;

/// `VkImageUsageFlags::STORAGE`.
pub const IMAGE_USAGE_STORAGE: u32 = 0x8;

/// `VkImageUsageFlags::COLOR_ATTACHMENT`.
pub const IMAGE_USAGE_COLOR_ATTACHMENT: u32 = 0x10;

/// The Vulkan image usage flags of a set of WebGPU texture usages: copy
/// source and destination become transfer source and destination, texture
/// binding becomes sampled, storage binding becomes storage, render
/// attachment becomes color attachment; other usages have no counterpart.
pub open spec fn image_usage_flags(usage: u32) -> u32 {
    (if usage & TEXTURE_USAGE_COPY_SRC == TEXTURE_USAGE_COPY_SRC {
        IMAGE_USAGE_TRANSFER_SRC
    } else {
        0
    }) | (if usage & TEXTURE_USAGE_COPY_DST == TEXTURE_USAGE_COPY_DST {
        IMAGE_USAGE_TRANSFER_DST
    } else {
        0
    }) | (if usage & TEXTURE_USAGE_TEXTURE_BINDING == TEXTURE_USAGE_TEXTURE_BINDING {
        IMAGE_USAGE_SAMPLED
    } else {
        0
    }) | (if usage & TEXTURE_USAGE_STORAGE_BINDING == TEXTURE_USAGE_STORAGE_BINDING {
        IMAGE_USAGE_STORAGE
    } else {
        0
    }) | (if usage & TEXTURE_USAGE_RENDER_ATTACHMENT == TEXTURE_USAGE_RENDER_ATTACHMENT {
        IMAGE_USAGE_COLOR_ATTACHMENT
    } else {
        0
    })
}

/// The conversion keeps the five low bits, which the two APIs number alike,
/// and drops every other bit.
pub proof fn lemma_image_usage_flags_are_low_bits(usage: u32)
    ensures
        image_usage_flags(usage) == usage & 0x1f,
{
    assert(((if usage & 1 == 1 { 1u32 } else { 0u32 }) | (if usage & 2 == 2 {
        2u32
    } else {
        0u32
    }) | (if usage & 4 == 4 { 4u32 } else { 0u32 }) | (if usage & 8 == 8 {
        8u32
    } else {
        0u32
    }) | (if usage & 16 == 16 { 16u32 } else { 0u32 })) == usage & 0x1f) by (bit_vector);
}

/// Unit type that gathers the texture usage conversion.
pub struct TextureUsage;

impl TextureUsage {
    /// The Vulkan image usage flags of WebGPU texture usages.
    pub fn to_vk(usage: u32) -> (flags: u32)
        ensures
            flags == image_usage_flags(usage),
            flags == usage & 0x1f,
    {
        let transfer_src = if usage & TEXTURE_USAGE_COPY_SRC == TEXTURE_USAGE_COPY_SRC {
            IMAGE_USAGE_TRANSFER_SRC
        } else {
            0
        };
        let transfer_dst = if usage & TEXTURE_USAGE_COPY_DST == TEXTURE_USAGE_COPY_DST {
            IMAGE_USAGE_TRANSFER_DST
        } else {
            0
        };
        let sampled = if usage & TEXTURE_USAGE_TEXTURE_BINDING == TEXTURE_USAGE_TEXTURE_BINDING {
            IMAGE_USAGE_SAMPLED
        } else {
            0
        };
        let storage = if usage & TEXTURE_USAGE_STORAGE_BINDING == TEXTURE_USAGE_STORAGE_BINDING {
            IMAGE_USAGE_STORAGE
        } else {
            0
        };
        let color_attachment = if usage & TEXTURE_USAGE_RENDER_ATTACHMENT
            == TEXTURE_USAGE_RENDER_ATTACHMENT {
            IMAGE_USAGE_COLOR_ATTACHMENT
        } else {
            0
        };
        // STORAGE_ATOMIC has no Vulkan image usage counterpart.
        let flag = transfer_src | transfer_dst | sampled | storage | color_attachment;
        proof {
            lemma_image_usage_flags_are_low_bits(usage);
        }
        flag
    }
}

} // verus!
