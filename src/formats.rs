//! The formats of data and images, with their native codes and data classes.
//!
//! Suffixes of the format names:
//!
//! - `Unorm`: unsigned integers read as floating points in `[0.0, 1.0]`.
//! - `Snorm`: signed integers read as floating points in `[-1.0, 1.0]`.
//! - `Uscaled` / `Sscaled`: unsigned / signed integers read as floating points of the same value.
//! - `Uint` / `Sint`: unsigned / signed integers, read unchanged.
//! - `Ufloat` / `Sfloat`: unsigned / signed floating points, read unchanged.
//! - `Srgb`: as `Unorm`, with the colour channels in the sRGB colour space.
//!
//! Each format also has a zero-sized marker type of the same name, which lets a
//! typed buffer or image carry its element format in its static type.
use vstd::prelude::*;

verus! {

/// The largest native code of a format.
pub const MAX_FORMAT_CODE: u32 = 184;

/// The data class of a format: how the values of its texels are read.
#[derive(Debug, Copy, Clone, PartialEq, Eq, Hash, Structural)]
pub enum FormatTy {
    /// Values read as floating points.
    Float,
    /// Unsigned integers.
    Uint,
    /// Signed integers.
    Sint,
    /// A depth value.
    Depth,
    /// A stencil value.
    Stencil,
    /// A depth value and a stencil value.
    DepthStencil,
    /// Block-compressed texels.
    Compressed,
}

/// An enumeration of all the possible formats.
#[derive(Debug, Copy, Clone, PartialEq, Eq, Structural)]
#[allow(non_camel_case_types)]
pub enum Format {
    Undefined,
    R4G4UnormPack8,
    R4G4B4A4UnormPack16,
    B4G4R4A4UnormPack16,
    R5G6B5UnormPack16,
    B5G6R5UnormPack16,
    R5G5B5A1UnormPack16,
    B5G5R5A1UnormPack16,
    A1R5G5B5UnormPack16,
    R8Unorm,
    R8Snorm,
    R8Uscaled,
    R8Sscaled,
    R8Uint,
    R8Sint,
    R8Srgb,
    R8G8Unorm,
    R8G8Snorm,
    R8G8Uscaled,
    R8G8Sscaled,
    R8G8Uint,
    R8G8Sint,
    R8G8Srgb,
    R8G8B8Unorm,
    R8G8B8Snorm,
    R8G8B8Uscaled,
    R8G8B8Sscaled,
    R8G8B8Uint,
    R8G8B8Sint,
    R8G8B8Srgb,
    B8G8R8Unorm,
    B8G8R8Snorm,
    B8G8R8Uscaled,
    B8G8R8Sscaled,
    B8G8R8Uint,
    B8G8R8Sint,
    B8G8R8Srgb,
    R8G8B8A8Unorm,
    R8G8B8A8Snorm,
    R8G8B8A8Uscaled,
    R8G8B8A8Sscaled,
    R8G8B8A8Uint,
    R8G8B8A8Sint,
    R8G8B8A8Srgb,
    B8G8R8A8Unorm,
    B8G8R8A8Snorm,
    B8G8R8A8Uscaled,
    B8G8R8A8Sscaled,
    B8G8R8A8Uint,
    B8G8R8A8Sint,
    B8G8R8A8Srgb,
    A8B8G8R8UnormPack32,
    A8B8G8R8SnormPack32,
    A8B8G8R8UscaledPack32,
    A8B8G8R8SscaledPack32,
    A8B8G8R8UintPack32,
    A8B8G8R8SintPack32,
    A8B8G8R8SrgbPack32,
    A2R10G10B10UnormPack32,
    A2R10G10B10SnormPack32,
    A2R10G10B10UscaledPack32,
    A2R10G10B10SscaledPack32,
    A2R10G10B10UintPack32,
    A2R10G10B10SintPack32,
    A2B10G10R10UnormPack32,
    A2B10G10R10SnormPack32,
    A2B10G10R10UscaledPack32,
    A2B10G10R10SscaledPack32,
    A2B10G10R10UintPack32,
    A2B10G10R10SintPack32,
    R16Unorm,
    R16Snorm,
    R16Uscaled,
    R16Sscaled,
    R16Uint,
    R16Sint,
    R16Sfloat,
    R16G16Unorm,
    R16G16Snorm,
    R16G16Uscaled,
    R16G16Sscaled,
    R16G16Uint,
    R16G16Sint,
    R16G16Sfloat,
    R16G16B16Unorm,
    R16G16B16Snorm,
    R16G16B16Uscaled,
    R16G16B16Sscaled,
    R16G16B16Uint,
    R16G16B16Sint,
    R16G16B16Sfloat,
    R16G16B16A16Unorm,
    R16G16B16A16Snorm,
    R16G16B16A16Uscaled,
    R16G16B16A16Sscaled,
    R16G16B16A16Uint,
    R16G16B16A16Sint,
    R16G16B16A16Sfloat,
    R32Uint,
    R32Sint,
    R32Sfloat,
    R32G32Uint,
    R32G32Sint,
    R32G32Sfloat,
    R32G32B32Uint,
    R32G32B32Sint,
    R32G32B32Sfloat,
    R32G32B32A32Uint,
    R32G32B32A32Sint,
    R32G32B32A32Sfloat,
    R64Uint,
    R64Sint,
    R64Sfloat,
    R64G64Uint,
    R64G64Sint,
    R64G64Sfloat,
    R64G64B64Uint,
    R64G64B64Sint,
    R64G64B64Sfloat,
    R64G64B64A64Uint,
    R64G64B64A64Sint,
    R64G64B64A64Sfloat,
    B10G11R11UfloatPack32,
    E5B9G9R9UfloatPack32,
    D16Unorm,
    X8_D24UnormPack32,
    D32Sfloat,
    S8Uint,
    D16Unorm_S8Uint,
    D24Unorm_S8Uint,
    D32Sfloat_S8Uint,
    BC1_RGBUnormBlock,
    BC1_RGBSrgbBlock,
    BC1_RGBAUnormBlock,
    BC1_RGBASrgbBlock,
    BC2UnormBlock,
    BC2SrgbBlock,
    BC3UnormBlock,
    BC3SrgbBlock,
    BC4UnormBlock,
    BC4SnormBlock,
    BC5UnormBlock,
    BC5SnormBlock,
    BC6HUfloatBlock,
    BC6HSfloatBlock,
    BC7UnormBlock,
    BC7SrgbBlock,
    ETC2_R8G8B8UnormBlock,
    ETC2_R8G8B8SrgbBlock,
    ETC2_R8G8B8A1UnormBlock,
    ETC2_R8G8B8A1SrgbBlock,
    ETC2_R8G8B8A8UnormBlock,
    ETC2_R8G8B8A8SrgbBlock,
    EAC_R11UnormBlock,
    EAC_R11SnormBlock,
    EAC_R11G11UnormBlock,
    EAC_R11G11SnormBlock,
    ASTC_4x4UnormBlock,
    ASTC_4x4SrgbBlock,
    ASTC_5x4UnormBlock,
    ASTC_5x4SrgbBlock,
    ASTC_5x5UnormBlock,
    ASTC_5x5SrgbBlock,
    ASTC_6x5UnormBlock,
    ASTC_6x5SrgbBlock,
    ASTC_6x6UnormBlock,
    ASTC_6x6SrgbBlock,
    ASTC_8x5UnormBlock,
    ASTC_8x5SrgbBlock,
    ASTC_8x6UnormBlock,
    ASTC_8x6SrgbBlock,
    ASTC_8x8UnormBlock,
    ASTC_8x8SrgbBlock,
    ASTC_10x5UnormBlock,
    ASTC_10x5SrgbBlock,
    ASTC_10x6UnormBlock,
    ASTC_10x6SrgbBlock,
    ASTC_10x8UnormBlock,
    ASTC_10x8SrgbBlock,
    ASTC_10x10UnormBlock,
    ASTC_10x10SrgbBlock,
    ASTC_12x10UnormBlock,
    ASTC_12x10SrgbBlock,
    ASTC_12x12UnormBlock,
    ASTC_12x12SrgbBlock,
}

impl Format {
    /// The native code of the format.
    pub open spec fn code(self) -> u32 {
        match self {
            Format::Undefined => 0,
            Format::R4G4UnormPack8 => 1,
            Format::R4G4B4A4UnormPack16 => 2,
            Format::B4G4R4A4UnormPack16 => 3,
            Format::R5G6B5UnormPack16 => 4,
            Format::B5G6R5UnormPack16 => 5,
            Format::R5G5B5A1UnormPack16 => 6,
            Format::B5G5R5A1UnormPack16 => 7,
            Format::A1R5G5B5UnormPack16 => 8,
            Format::R8Unorm => 9,
            Format::R8Snorm => 10,
            Format::R8Uscaled => 11,
            Format::R8Sscaled => 12,
            Format::R8Uint => 13,
            Format::R8Sint => 14,
            Format::R8Srgb => 15,
            Format::R8G8Unorm => 16,
            Format::R8G8Snorm => 17,
            Format::R8G8Uscaled => 18,
            Format::R8G8Sscaled => 19,
            Format::R8G8Uint => 20,
            Format::R8G8Sint => 21,
            Format::R8G8Srgb => 22,
            Format::R8G8B8Unorm => 23,
            Format::R8G8B8Snorm => 24,
            Format::R8G8B8Uscaled => 25,
            Format::R8G8B8Sscaled => 26,
            Format::R8G8B8Uint => 27,
            Format::R8G8B8Sint => 28,
            Format::R8G8B8Srgb => 29,
            Format::B8G8R8Unorm => 30,
            Format::B8G8R8Snorm => 31,
            Format::B8G8R8Uscaled => 32,
            Format::B8G8R8Sscaled => 33,
            Format::B8G8R8Uint => 34,
            Format::B8G8R8Sint => 35,
            Format::B8G8R8Srgb => 36,
            Format::R8G8B8A8Unorm => 37,
            Format::R8G8B8A8Snorm => 38,
            Format::R8G8B8A8Uscaled => 39,
            Format::R8G8B8A8Sscaled => 40,
            Format::R8G8B8A8Uint => 41,
            Format::R8G8B8A8Sint => 42,
            Format::R8G8B8A8Srgb => 43,
            Format::B8G8R8A8Unorm => 44,
            Format::B8G8R8A8Snorm => 45,
            Format::B8G8R8A8Uscaled => 46,
            Format::B8G8R8A8Sscaled => 47,
            Format::B8G8R8A8Uint => 48,
            Format::B8G8R8A8Sint => 49,
            Format::B8G8R8A8Srgb => 50,
            Format::A8B8G8R8UnormPack32 => 51,
            Format::A8B8G8R8SnormPack32 => 52,
            Format::A8B8G8R8UscaledPack32 => 53,
            Format::A8B8G8R8SscaledPack32 => 54,
            Format::A8B8G8R8UintPack32 => 55,
            Format::A8B8G8R8SintPack32 => 56,
            Format::A8B8G8R8SrgbPack32 => 57,
            Format::A2R10G10B10UnormPack32 => 58,
            Format::A2R10G10B10SnormPack32 => 59,
            Format::A2R10G10B10UscaledPack32 => 60,
            Format::A2R10G10B10SscaledPack32 => 61,
            Format::A2R10G10B10UintPack32 => 62,
            Format::A2R10G10B10SintPack32 => 63,
            Format::A2B10G10R10UnormPack32 => 64,
            Format::A2B10G10R10SnormPack32 => 65,
            Format::A2B10G10R10UscaledPack32 => 66,
            Format::A2B10G10R10SscaledPack32 => 67,
            Format::A2B10G10R10UintPack32 => 68,
            Format::A2B10G10R10SintPack32 => 69,
            Format::R16Unorm => 70,
            Format::R16Snorm => 71,
            Format::R16Uscaled => 72,
            Format::R16Sscaled => 73,
            Format::R16Uint => 74,
            Format::R16Sint => 75,
            Format::R16Sfloat => 76,
            Format::R16G16Unorm => 77,
            Format::R16G16Snorm => 78,
            Format::R16G16Uscaled => 79,
            Format::R16G16Sscaled => 80,
            Format::R16G16Uint => 81,
            Format::R16G16Sint => 82,
            Format::R16G16Sfloat => 83,
            Format::R16G16B16Unorm => 84,
            Format::R16G16B16Snorm => 85,
            Format::R16G16B16Uscaled => 86,
            Format::R16G16B16Sscaled => 87,
            Format::R16G16B16Uint => 88,
            Format::R16G16B16Sint => 89,
            Format::R16G16B16Sfloat => 90,
            Format::R16G16B16A16Unorm => 91,
            Format::R16G16B16A16Snorm => 92,
            Format::R16G16B16A16Uscaled => 93,
            Format::R16G16B16A16Sscaled => 94,
            Format::R16G16B16A16Uint => 95,
            Format::R16G16B16A16Sint => 96,
            Format::R16G16B16A16Sfloat => 97,
            Format::R32Uint => 98,
            Format::R32Sint => 99,
            Format::R32Sfloat => 100,
            Format::R32G32Uint => 101,
            Format::R32G32Sint => 102,
            Format::R32G32Sfloat => 103,
            Format::R32G32B32Uint => 104,
            Format::R32G32B32Sint => 105,
            Format::R32G32B32Sfloat => 106,
            Format::R32G32B32A32Uint => 107,
            Format::R32G32B32A32Sint => 108,
            Format::R32G32B32A32Sfloat => 109,
            Format::R64Uint => 110,
            Format::R64Sint => 111,
            Format::R64Sfloat => 112,
            Format::R64G64Uint => 113,
            Format::R64G64Sint => 114,
            Format::R64G64Sfloat => 115,
            Format::R64G64B64Uint => 116,
            Format::R64G64B64Sint => 117,
            Format::R64G64B64Sfloat => 118,
            Format::R64G64B64A64Uint => 119,
            Format::R64G64B64A64Sint => 120,
            Format::R64G64B64A64Sfloat => 121,
            Format::B10G11R11UfloatPack32 => 122,
            Format::E5B9G9R9UfloatPack32 => 123,
            Format::D16Unorm => 124,
            Format::X8_D24UnormPack32 => 125,
            Format::D32Sfloat => 126,
            Format::S8Uint => 127,
            Format::D16Unorm_S8Uint => 128,
            Format::D24Unorm_S8Uint => 129,
            Format::D32Sfloat_S8Uint => 130,
            Format::BC1_RGBUnormBlock => 131,
            Format::BC1_RGBSrgbBlock => 132,
            Format::BC1_RGBAUnormBlock => 133,
            Format::BC1_RGBASrgbBlock => 134,
            Format::BC2UnormBlock => 135,
            Format::BC2SrgbBlock => 136,
            Format::BC3UnormBlock => 137,
            Format::BC3SrgbBlock => 138,
            Format::BC4UnormBlock => 139,
            Format::BC4SnormBlock => 140,
            Format::BC5UnormBlock => 141,
            Format::BC5SnormBlock => 142,
            Format::BC6HUfloatBlock => 143,
            Format::BC6HSfloatBlock => 144,
            Format::BC7UnormBlock => 145,
            Format::BC7SrgbBlock => 146,
            Format::ETC2_R8G8B8UnormBlock => 147,
            Format::ETC2_R8G8B8SrgbBlock => 148,
            Format::ETC2_R8G8B8A1UnormBlock => 149,
            Format::ETC2_R8G8B8A1SrgbBlock => 150,
            Format::ETC2_R8G8B8A8UnormBlock => 151,
            Format::ETC2_R8G8B8A8SrgbBlock => 152,
            Format::EAC_R11UnormBlock => 153,
            Format::EAC_R11SnormBlock => 154,
            Format::EAC_R11G11UnormBlock => 155,
            Format::EAC_R11G11SnormBlock => 156,
            Format::ASTC_4x4UnormBlock => 157,
            Format::ASTC_4x4SrgbBlock => 158,
            Format::ASTC_5x4UnormBlock => 159,
            Format::ASTC_5x4SrgbBlock => 160,
            Format::ASTC_5x5UnormBlock => 161,
            Format::ASTC_5x5SrgbBlock => 162,
            Format::ASTC_6x5UnormBlock => 163,
            Format::ASTC_6x5SrgbBlock => 164,
            Format::ASTC_6x6UnormBlock => 165,
            Format::ASTC_6x6SrgbBlock => 166,
            Format::ASTC_8x5UnormBlock => 167,
            Format::ASTC_8x5SrgbBlock => 168,
            Format::ASTC_8x6UnormBlock => 169,
            Format::ASTC_8x6SrgbBlock => 170,
            Format::ASTC_8x8UnormBlock => 171,
            Format::ASTC_8x8SrgbBlock => 172,
            Format::ASTC_10x5UnormBlock => 173,
            Format::ASTC_10x5SrgbBlock => 174,
            Format::ASTC_10x6UnormBlock => 175,
            Format::ASTC_10x6SrgbBlock => 176,
            Format::ASTC_10x8UnormBlock => 177,
            Format::ASTC_10x8SrgbBlock => 178,
            Format::ASTC_10x10UnormBlock => 179,
            Format::ASTC_10x10SrgbBlock => 180,
            Format::ASTC_12x10UnormBlock => 181,
            Format::ASTC_12x10SrgbBlock => 182,
            Format::ASTC_12x12UnormBlock => 183,
            Format::ASTC_12x12SrgbBlock => 184,
        }
    }

    /// The data class of the format, as fixed for each format.
    pub open spec fn class(self) -> FormatTy {
        match self {
            Format::Undefined => FormatTy::Float,
            Format::R4G4UnormPack8 => FormatTy::Float,
            Format::R4G4B4A4UnormPack16 => FormatTy::Float,
            Format::B4G4R4A4UnormPack16 => FormatTy::Float,
            Format::R5G6B5UnormPack16 => FormatTy::Float,
            Format::B5G6R5UnormPack16 => FormatTy::Float,
            Format::R5G5B5A1UnormPack16 => FormatTy::Float,
            Format::B5G5R5A1UnormPack16 => FormatTy::Float,
            Format::A1R5G5B5UnormPack16 => FormatTy::Float,
            Format::R8Unorm => FormatTy::Float,
            Format::R8Snorm => FormatTy::Float,
            Format::R8Uscaled => FormatTy::Float,
            Format::R8Sscaled => FormatTy::Float,
            Format::R8Uint => FormatTy::Uint,
            Format::R8Sint => FormatTy::Sint,
            Format::R8Srgb => FormatTy::Float,
            Format::R8G8Unorm => FormatTy::Float,
            Format::R8G8Snorm => FormatTy::Float,
            Format::R8G8Uscaled => FormatTy::Float,
            Format::R8G8Sscaled => FormatTy::Float,
            Format::R8G8Uint => FormatTy::Uint,
            Format::R8G8Sint => FormatTy::Sint,
            Format::R8G8Srgb => FormatTy::Float,
            Format::R8G8B8Unorm => FormatTy::Float,
            Format::R8G8B8Snorm => FormatTy::Float,
            Format::R8G8B8Uscaled => FormatTy::Float,
            Format::R8G8B8Sscaled => FormatTy::Float,
            Format::R8G8B8Uint => FormatTy::Uint,
            Format::R8G8B8Sint => FormatTy::Sint,
            Format::R8G8B8Srgb => FormatTy::Float,
            Format::B8G8R8Unorm => FormatTy::Float,
            Format::B8G8R8Snorm => FormatTy::Float,
            Format::B8G8R8Uscaled => FormatTy::Float,
            Format::B8G8R8Sscaled => FormatTy::Float,
            Format::B8G8R8Uint => FormatTy::Uint,
            Format::B8G8R8Sint => FormatTy::Sint,
            Format::B8G8R8Srgb => FormatTy::Float,
            Format::R8G8B8A8Unorm => FormatTy::Float,
            Format::R8G8B8A8Snorm => FormatTy::Float,
            Format::R8G8B8A8Uscaled => FormatTy::Float,
            Format::R8G8B8A8Sscaled => FormatTy::Float,
            Format::R8G8B8A8Uint => FormatTy::Uint,
            Format::R8G8B8A8Sint => FormatTy::Sint,
            Format::R8G8B8A8Srgb => FormatTy::Float,
            Format::B8G8R8A8Unorm => FormatTy::Float,
            Format::B8G8R8A8Snorm => FormatTy::Float,
            Format::B8G8R8A8Uscaled => FormatTy::Float,
            Format::B8G8R8A8Sscaled => FormatTy::Float,
            Format::B8G8R8A8Uint => FormatTy::Uint,
            Format::B8G8R8A8Sint => FormatTy::Sint,
            Format::B8G8R8A8Srgb => FormatTy::Float,
            Format::A8B8G8R8UnormPack32 => FormatTy::Float,
            Format::A8B8G8R8SnormPack32 => FormatTy::Float,
            Format::A8B8G8R8UscaledPack32 => FormatTy::Float,
            Format::A8B8G8R8SscaledPack32 => FormatTy::Float,
            Format::A8B8G8R8UintPack32 => FormatTy::Uint,
            Format::A8B8G8R8SintPack32 => FormatTy::Sint,
            Format::A8B8G8R8SrgbPack32 => FormatTy::Float,
            Format::A2R10G10B10UnormPack32 => FormatTy::Float,
            Format::A2R10G10B10SnormPack32 => FormatTy::Float,
            Format::A2R10G10B10UscaledPack32 => FormatTy::Float,
            Format::A2R10G10B10SscaledPack32 => FormatTy::Float,
            Format::A2R10G10B10UintPack32 => FormatTy::Uint,
            Format::A2R10G10B10SintPack32 => FormatTy::Sint,
            Format::A2B10G10R10UnormPack32 => FormatTy::Float,
            Format::A2B10G10R10SnormPack32 => FormatTy::Float,
            Format::A2B10G10R10UscaledPack32 => FormatTy::Float,
            Format::A2B10G10R10SscaledPack32 => FormatTy::Float,
            Format::A2B10G10R10UintPack32 => FormatTy::Uint,
            Format::A2B10G10R10SintPack32 => FormatTy::Sint,
            Format::R16Unorm => FormatTy::Float,
            Format::R16Snorm => FormatTy::Float,
            Format::R16Uscaled => FormatTy::Float,
            Format::R16Sscaled => FormatTy::Float,
            Format::R16Uint => FormatTy::Uint,
            Format::R16Sint => FormatTy::Sint,
            Format::R16Sfloat => FormatTy::Float,
            Format::R16G16Unorm => FormatTy::Float,
            Format::R16G16Snorm => FormatTy::Float,
            Format::R16G16Uscaled => FormatTy::Float,
            Format::R16G16Sscaled => FormatTy::Float,
            Format::R16G16Uint => FormatTy::Uint,
            Format::R16G16Sint => FormatTy::Sint,
            Format::R16G16Sfloat => FormatTy::Float,
            Format::R16G16B16Unorm => FormatTy::Float,
            Format::R16G16B16Snorm => FormatTy::Float,
            Format::R16G16B16Uscaled => FormatTy::Float,
            Format::R16G16B16Sscaled => FormatTy::Float,
            Format::R16G16B16Uint => FormatTy::Uint,
            Format::R16G16B16Sint => FormatTy::Sint,
            Format::R16G16B16Sfloat => FormatTy::Float,
            Format::R16G16B16A16Unorm => FormatTy::Float,
            Format::R16G16B16A16Snorm => FormatTy::Float,
            Format::R16G16B16A16Uscaled => FormatTy::Float,
            Format::R16G16B16A16Sscaled => FormatTy::Float,
            Format::R16G16B16A16Uint => FormatTy::Uint,
            Format::R16G16B16A16Sint => FormatTy::Sint,
            Format::R16G16B16A16Sfloat => FormatTy::Float,
            Format::R32Uint => FormatTy::Uint,
            Format::R32Sint => FormatTy::Sint,
            Format::R32Sfloat => FormatTy::Float,
            Format::R32G32Uint => FormatTy::Uint,
            Format::R32G32Sint => FormatTy::Sint,
            Format::R32G32Sfloat => FormatTy::Float,
            Format::R32G32B32Uint => FormatTy::Uint,
            Format::R32G32B32Sint => FormatTy::Sint,
            Format::R32G32B32Sfloat => FormatTy::Float,
            Format::R32G32B32A32Uint => FormatTy::Uint,
            Format::R32G32B32A32Sint => FormatTy::Sint,
            Format::R32G32B32A32Sfloat => FormatTy::Float,
            Format::R64Uint => FormatTy::Uint,
            Format::R64Sint => FormatTy::Sint,
            Format::R64Sfloat => FormatTy::Float,
            Format::R64G64Uint => FormatTy::Uint,
            Format::R64G64Sint => FormatTy::Sint,
            Format::R64G64Sfloat => FormatTy::Float,
            Format::R64G64B64Uint => FormatTy::Uint,
            Format::R64G64B64Sint => FormatTy::Sint,
            Format::R64G64B64Sfloat => FormatTy::Float,
            Format::R64G64B64A64Uint => FormatTy::Uint,
            Format::R64G64B64A64Sint => FormatTy::Sint,
            Format::R64G64B64A64Sfloat => FormatTy::Float,
            Format::B10G11R11UfloatPack32 => FormatTy::Float,
            Format::E5B9G9R9UfloatPack32 => FormatTy::Float,
            Format::D16Unorm => FormatTy::Depth,
            Format::X8_D24UnormPack32 => FormatTy::Depth,
            Format::D32Sfloat => FormatTy::Depth,
            Format::S8Uint => FormatTy::Stencil,
            Format::D16Unorm_S8Uint => FormatTy::DepthStencil,
            Format::D24Unorm_S8Uint => FormatTy::DepthStencil,
            Format::D32Sfloat_S8Uint => FormatTy::DepthStencil,
            Format::BC1_RGBUnormBlock => FormatTy::Compressed,
            Format::BC1_RGBSrgbBlock => FormatTy::Compressed,
            Format::BC1_RGBAUnormBlock => FormatTy::Compressed,
            Format::BC1_RGBASrgbBlock => FormatTy::Compressed,
            Format::BC2UnormBlock => FormatTy::Compressed,
            Format::BC2SrgbBlock => FormatTy::Compressed,
            Format::BC3UnormBlock => FormatTy::Compressed,
            Format::BC3SrgbBlock => FormatTy::Compressed,
            Format::BC4UnormBlock => FormatTy::Compressed,
            Format::BC4SnormBlock => FormatTy::Compressed,
            Format::BC5UnormBlock => FormatTy::Compressed,
            Format::BC5SnormBlock => FormatTy::Compressed,
            Format::BC6HUfloatBlock => FormatTy::Compressed,
            Format::BC6HSfloatBlock => FormatTy::Compressed,
            Format::BC7UnormBlock => FormatTy::Compressed,
            Format::BC7SrgbBlock => FormatTy::Compressed,
            Format::ETC2_R8G8B8UnormBlock => FormatTy::Compressed,
            Format::ETC2_R8G8B8SrgbBlock => FormatTy::Compressed,
            Format::ETC2_R8G8B8A1UnormBlock => FormatTy::Compressed,
            Format::ETC2_R8G8B8A1SrgbBlock => FormatTy::Compressed,
            Format::ETC2_R8G8B8A8UnormBlock => FormatTy::Compressed,
            Format::ETC2_R8G8B8A8SrgbBlock => FormatTy::Compressed,
            Format::EAC_R11UnormBlock => FormatTy::Compressed,
            Format::EAC_R11SnormBlock => FormatTy::Compressed,
            Format::EAC_R11G11UnormBlock => FormatTy::Compressed,
            Format::EAC_R11G11SnormBlock => FormatTy::Compressed,
            Format::ASTC_4x4UnormBlock => FormatTy::Compressed,
            Format::ASTC_4x4SrgbBlock => FormatTy::Compressed,
            Format::ASTC_5x4UnormBlock => FormatTy::Compressed,
            Format::ASTC_5x4SrgbBlock => FormatTy::Compressed,
            Format::ASTC_5x5UnormBlock => FormatTy::Compressed,
            Format::ASTC_5x5SrgbBlock => FormatTy::Compressed,
            Format::ASTC_6x5UnormBlock => FormatTy::Compressed,
            Format::ASTC_6x5SrgbBlock => FormatTy::Compressed,
            Format::ASTC_6x6UnormBlock => FormatTy::Compressed,
            Format::ASTC_6x6SrgbBlock => FormatTy::Compressed,
            Format::ASTC_8x5UnormBlock => FormatTy::Compressed,
            Format::ASTC_8x5SrgbBlock => FormatTy::Compressed,
            Format::ASTC_8x6UnormBlock => FormatTy::Compressed,
            Format::ASTC_8x6SrgbBlock => FormatTy::Compressed,
            Format::ASTC_8x8UnormBlock => FormatTy::Compressed,
            Format::ASTC_8x8SrgbBlock => FormatTy::Compressed,
            Format::ASTC_10x5UnormBlock => FormatTy::Compressed,
            Format::ASTC_10x5SrgbBlock => FormatTy::Compressed,
            Format::ASTC_10x6UnormBlock => FormatTy::Compressed,
            Format::ASTC_10x6SrgbBlock => FormatTy::Compressed,
            Format::ASTC_10x8UnormBlock => FormatTy::Compressed,
            Format::ASTC_10x8SrgbBlock => FormatTy::Compressed,
            Format::ASTC_10x10UnormBlock => FormatTy::Compressed,
            Format::ASTC_10x10SrgbBlock => FormatTy::Compressed,
            Format::ASTC_12x10UnormBlock => FormatTy::Compressed,
            Format::ASTC_12x10SrgbBlock => FormatTy::Compressed,
            Format::ASTC_12x12UnormBlock => FormatTy::Compressed,
            Format::ASTC_12x12SrgbBlock => FormatTy::Compressed,
        }
    }

    /// Returns the native code of the format.
    pub fn to_num(&self) -> (r: u32)
        ensures
            r == self.code(),
    {
        match *self {
            Format::Undefined => 0,
            Format::R4G4UnormPack8 => 1,
            Format::R4G4B4A4UnormPack16 => 2,
            Format::B4G4R4A4UnormPack16 => 3,
            Format::R5G6B5UnormPack16 => 4,
            Format::B5G6R5UnormPack16 => 5,
            Format::R5G5B5A1UnormPack16 => 6,
            Format::B5G5R5A1UnormPack16 => 7,
            Format::A1R5G5B5UnormPack16 => 8,
            Format::R8Unorm => 9,
            Format::R8Snorm => 10,
            Format::R8Uscaled => 11,
            Format::R8Sscaled => 12,
            Format::R8Uint => 13,
            Format::R8Sint => 14,
            Format::R8Srgb => 15,
            Format::R8G8Unorm => 16,
            Format::R8G8Snorm => 17,
            Format::R8G8Uscaled => 18,
            Format::R8G8Sscaled => 19,
            Format::R8G8Uint => 20,
            Format::R8G8Sint => 21,
            Format::R8G8Srgb => 22,
            Format::R8G8B8Unorm => 23,
            Format::R8G8B8Snorm => 24,
            Format::R8G8B8Uscaled => 25,
            Format::R8G8B8Sscaled => 26,
            Format::R8G8B8Uint => 27,
            Format::R8G8B8Sint => 28,
            Format::R8G8B8Srgb => 29,
            Format::B8G8R8Unorm => 30,
            Format::B8G8R8Snorm => 31,
            Format::B8G8R8Uscaled => 32,
            Format::B8G8R8Sscaled => 33,
            Format::B8G8R8Uint => 34,
            Format::B8G8R8Sint => 35,
            Format::B8G8R8Srgb => 36,
            Format::R8G8B8A8Unorm => 37,
            Format::R8G8B8A8Snorm => 38,
            Format::R8G8B8A8Uscaled => 39,
            Format::R8G8B8A8Sscaled => 40,
            Format::R8G8B8A8Uint => 41,
            Format::R8G8B8A8Sint => 42,
            Format::R8G8B8A8Srgb => 43,
            Format::B8G8R8A8Unorm => 44,
            Format::B8G8R8A8Snorm => 45,
            Format::B8G8R8A8Uscaled => 46,
            Format::B8G8R8A8Sscaled => 47,
            Format::B8G8R8A8Uint => 48,
            Format::B8G8R8A8Sint => 49,
            Format::B8G8R8A8Srgb => 50,
            Format::A8B8G8R8UnormPack32 => 51,
            Format::A8B8G8R8SnormPack32 => 52,
            Format::A8B8G8R8UscaledPack32 => 53,
            Format::A8B8G8R8SscaledPack32 => 54,
            Format::A8B8G8R8UintPack32 => 55,
            Format::A8B8G8R8SintPack32 => 56,
            Format::A8B8G8R8SrgbPack32 => 57,
            Format::A2R10G10B10UnormPack32 => 58,
            Format::A2R10G10B10SnormPack32 => 59,
            Format::A2R10G10B10UscaledPack32 => 60,
            Format::A2R10G10B10SscaledPack32 => 61,
            Format::A2R10G10B10UintPack32 => 62,
            Format::A2R10G10B10SintPack32 => 63,
            Format::A2B10G10R10UnormPack32 => 64,
            Format::A2B10G10R10SnormPack32 => 65,
            Format::A2B10G10R10UscaledPack32 => 66,
            Format::A2B10G10R10SscaledPack32 => 67,
            Format::A2B10G10R10UintPack32 => 68,
            Format::A2B10G10R10SintPack32 => 69,
            Format::R16Unorm => 70,
            Format::R16Snorm => 71,
            Format::R16Uscaled => 72,
            Format::R16Sscaled => 73,
            Format::R16Uint => 74,
            Format::R16Sint => 75,
            Format::R16Sfloat => 76,
            Format::R16G16Unorm => 77,
            Format::R16G16Snorm => 78,
            Format::R16G16Uscaled => 79,
            Format::R16G16Sscaled => 80,
            Format::R16G16Uint => 81,
            Format::R16G16Sint => 82,
            Format::R16G16Sfloat => 83,
            Format::R16G16B16Unorm => 84,
            Format::R16G16B16Snorm => 85,
            Format::R16G16B16Uscaled => 86,
            Format::R16G16B16Sscaled => 87,
            Format::R16G16B16Uint => 88,
            Format::R16G16B16Sint => 89,
            Format::R16G16B16Sfloat => 90,
            Format::R16G16B16A16Unorm => 91,
            Format::R16G16B16A16Snorm => 92,
            Format::R16G16B16A16Uscaled => 93,
            Format::R16G16B16A16Sscaled => 94,
            Format::R16G16B16A16Uint => 95,
            Format::R16G16B16A16Sint => 96,
            Format::R16G16B16A16Sfloat => 97,
            Format::R32Uint => 98,
            Format::R32Sint => 99,
            Format::R32Sfloat => 100,
            Format::R32G32Uint => 101,
            Format::R32G32Sint => 102,
            Format::R32G32Sfloat => 103,
            Format::R32G32B32Uint => 104,
            Format::R32G32B32Sint => 105,
            Format::R32G32B32Sfloat => 106,
            Format::R32G32B32A32Uint => 107,
            Format::R32G32B32A32Sint => 108,
            Format::R32G32B32A32Sfloat => 109,
            Format::R64Uint => 110,
            Format::R64Sint => 111,
            Format::R64Sfloat => 112,
            Format::R64G64Uint => 113,
            Format::R64G64Sint => 114,
            Format::R64G64Sfloat => 115,
            Format::R64G64B64Uint => 116,
            Format::R64G64B64Sint => 117,
            Format::R64G64B64Sfloat => 118,
            Format::R64G64B64A64Uint => 119,
            Format::R64G64B64A64Sint => 120,
            Format::R64G64B64A64Sfloat => 121,
            Format::B10G11R11UfloatPack32 => 122,
            Format::E5B9G9R9UfloatPack32 => 123,
            Format::D16Unorm => 124,
            Format::X8_D24UnormPack32 => 125,
            Format::D32Sfloat => 126,
            Format::S8Uint => 127,
            Format::D16Unorm_S8Uint => 128,
            Format::D24Unorm_S8Uint => 129,
            Format::D32Sfloat_S8Uint => 130,
            Format::BC1_RGBUnormBlock => 131,
            Format::BC1_RGBSrgbBlock => 132,
            Format::BC1_RGBAUnormBlock => 133,
            Format::BC1_RGBASrgbBlock => 134,
            Format::BC2UnormBlock => 135,
            Format::BC2SrgbBlock => 136,
            Format::BC3UnormBlock => 137,
            Format::BC3SrgbBlock => 138,
            Format::BC4UnormBlock => 139,
            Format::BC4SnormBlock => 140,
            Format::BC5UnormBlock => 141,
            Format::BC5SnormBlock => 142,
            Format::BC6HUfloatBlock => 143,
            Format::BC6HSfloatBlock => 144,
            Format::BC7UnormBlock => 145,
            Format::BC7SrgbBlock => 146,
            Format::ETC2_R8G8B8UnormBlock => 147,
            Format::ETC2_R8G8B8SrgbBlock => 148,
            Format::ETC2_R8G8B8A1UnormBlock => 149,
            Format::ETC2_R8G8B8A1SrgbBlock => 150,
            Format::ETC2_R8G8B8A8UnormBlock => 151,
            Format::ETC2_R8G8B8A8SrgbBlock => 152,
            Format::EAC_R11UnormBlock => 153,
            Format::EAC_R11SnormBlock => 154,
            Format::EAC_R11G11UnormBlock => 155,
            Format::EAC_R11G11SnormBlock => 156,
            Format::ASTC_4x4UnormBlock => 157,
            Format::ASTC_4x4SrgbBlock => 158,
            Format::ASTC_5x4UnormBlock => 159,
            Format::ASTC_5x4SrgbBlock => 160,
            Format::ASTC_5x5UnormBlock => 161,
            Format::ASTC_5x5SrgbBlock => 162,
            Format::ASTC_6x5UnormBlock => 163,
            Format::ASTC_6x5SrgbBlock => 164,
            Format::ASTC_6x6UnormBlock => 165,
            Format::ASTC_6x6SrgbBlock => 166,
            Format::ASTC_8x5UnormBlock => 167,
            Format::ASTC_8x5SrgbBlock => 168,
            Format::ASTC_8x6UnormBlock => 169,
            Format::ASTC_8x6SrgbBlock => 170,
            Format::ASTC_8x8UnormBlock => 171,
            Format::ASTC_8x8SrgbBlock => 172,
            Format::ASTC_10x5UnormBlock => 173,
            Format::ASTC_10x5SrgbBlock => 174,
            Format::ASTC_10x6UnormBlock => 175,
            Format::ASTC_10x6SrgbBlock => 176,
            Format::ASTC_10x8UnormBlock => 177,
            Format::ASTC_10x8SrgbBlock => 178,
            Format::ASTC_10x10UnormBlock => 179,
            Format::ASTC_10x10SrgbBlock => 180,
            Format::ASTC_12x10UnormBlock => 181,
            Format::ASTC_12x10SrgbBlock => 182,
            Format::ASTC_12x12UnormBlock => 183,
            Format::ASTC_12x12SrgbBlock => 184,
        }
    }

    /// Returns the `Format` whose native code is `val`, or `None` where no format has that code.
    pub fn from_num(val: u32) -> (r: Option<Format>)
        ensures
            r == format_of_code(val),
    {
        match val {
            0 => Some(Format::Undefined),
            1 => Some(Format::R4G4UnormPack8),
            2 => Some(Format::R4G4B4A4UnormPack16),
            3 => Some(Format::B4G4R4A4UnormPack16),
            4 => Some(Format::R5G6B5UnormPack16),
            5 => Some(Format::B5G6R5UnormPack16),
            6 => Some(Format::R5G5B5A1UnormPack16),
            7 => Some(Format::B5G5R5A1UnormPack16),
            8 => Some(Format::A1R5G5B5UnormPack16),
            9 => Some(Format::R8Unorm),
            10 => Some(Format::R8Snorm),
            11 => Some(Format::R8Uscaled),
            12 => Some(Format::R8Sscaled),
            13 => Some(Format::R8Uint),
            14 => Some(Format::R8Sint),
            15 => Some(Format::R8Srgb),
            16 => Some(Format::R8G8Unorm),
            17 => Some(Format::R8G8Snorm),
            18 => Some(Format::R8G8Uscaled),
            19 => Some(Format::R8G8Sscaled),
            20 => Some(Format::R8G8Uint),
            21 => Some(Format::R8G8Sint),
            22 => Some(Format::R8G8Srgb),
            23 => Some(Format::R8G8B8Unorm),
            24 => Some(Format::R8G8B8Snorm),
            25 => Some(Format::R8G8B8Uscaled),
            26 => Some(Format::R8G8B8Sscaled),
            27 => Some(Format::R8G8B8Uint),
            28 => Some(Format::R8G8B8Sint),
            29 => Some(Format::R8G8B8Srgb),
            30 => Some(Format::B8G8R8Unorm),
            31 => Some(Format::B8G8R8Snorm),
            32 => Some(Format::B8G8R8Uscaled),
            33 => Some(Format::B8G8R8Sscaled),
            34 => Some(Format::B8G8R8Uint),
            35 => Some(Format::B8G8R8Sint),
            36 => Some(Format::B8G8R8Srgb),
            37 => Some(Format::R8G8B8A8Unorm),
            38 => Some(Format::R8G8B8A8Snorm),
            39 => Some(Format::R8G8B8A8Uscaled),
            40 => Some(Format::R8G8B8A8Sscaled),
            41 => Some(Format::R8G8B8A8Uint),
            42 => Some(Format::R8G8B8A8Sint),
            43 => Some(Format::R8G8B8A8Srgb),
            44 => Some(Format::B8G8R8A8Unorm),
            45 => Some(Format::B8G8R8A8Snorm),
            46 => Some(Format::B8G8R8A8Uscaled),
            47 => Some(Format::B8G8R8A8Sscaled),
            48 => Some(Format::B8G8R8A8Uint),
            49 => Some(Format::B8G8R8A8Sint),
            50 => Some(Format::B8G8R8A8Srgb),
            51 => Some(Format::A8B8G8R8UnormPack32),
            52 => Some(Format::A8B8G8R8SnormPack32),
            53 => Some(Format::A8B8G8R8UscaledPack32),
            54 => Some(Format::A8B8G8R8SscaledPack32),
            55 => Some(Format::A8B8G8R8UintPack32),
            56 => Some(Format::A8B8G8R8SintPack32),
            57 => Some(Format::A8B8G8R8SrgbPack32),
            58 => Some(Format::A2R10G10B10UnormPack32),
            59 => Some(Format::A2R10G10B10SnormPack32),
            60 => Some(Format::A2R10G10B10UscaledPack32),
            61 => Some(Format::A2R10G10B10SscaledPack32),
            62 => Some(Format::A2R10G10B10UintPack32),
            63 => Some(Format::A2R10G10B10SintPack32),
            64 => Some(Format::A2B10G10R10UnormPack32),
            65 => Some(Format::A2B10G10R10SnormPack32),
            66 => Some(Format::A2B10G10R10UscaledPack32),
            67 => Some(Format::A2B10G10R10SscaledPack32),
            68 => Some(Format::A2B10G10R10UintPack32),
            69 => Some(Format::A2B10G10R10SintPack32),
            70 => Some(Format::R16Unorm),
            71 => Some(Format::R16Snorm),
            72 => Some(Format::R16Uscaled),
            73 => Some(Format::R16Sscaled),
            74 => Some(Format::R16Uint),
            75 => Some(Format::R16Sint),
            76 => Some(Format::R16Sfloat),
            77 => Some(Format::R16G16Unorm),
            78 => Some(Format::R16G16Snorm),
            79 => Some(Format::R16G16Uscaled),
            80 => Some(Format::R16G16Sscaled),
            81 => Some(Format::R16G16Uint),
            82 => Some(Format::R16G16Sint),
            83 => Some(Format::R16G16Sfloat),
            84 => Some(Format::R16G16B16Unorm),
            85 => Some(Format::R16G16B16Snorm),
            86 => Some(Format::R16G16B16Uscaled),
            87 => Some(Format::R16G16B16Sscaled),
            88 => Some(Format::R16G16B16Uint),
            89 => Some(Format::R16G16B16Sint),
            90 => Some(Format::R16G16B16Sfloat),
            91 => Some(Format::R16G16B16A16Unorm),
            92 => Some(Format::R16G16B16A16Snorm),
            93 => Some(Format::R16G16B16A16Uscaled),
            94 => Some(Format::R16G16B16A16Sscaled),
            95 => Some(Format::R16G16B16A16Uint),
            96 => Some(Format::R16G16B16A16Sint),
            97 => Some(Format::R16G16B16A16Sfloat),
            98 => Some(Format::R32Uint),
            99 => Some(Format::R32Sint),
            100 => Some(Format::R32Sfloat),
            101 => Some(Format::R32G32Uint),
            102 => Some(Format::R32G32Sint),
            103 => Some(Format::R32G32Sfloat),
            104 => Some(Format::R32G32B32Uint),
            105 => Some(Format::R32G32B32Sint),
            106 => Some(Format::R32G32B32Sfloat),
            107 => Some(Format::R32G32B32A32Uint),
            108 => Some(Format::R32G32B32A32Sint),
            109 => Some(Format::R32G32B32A32Sfloat),
            110 => Some(Format::R64Uint),
            111 => Some(Format::R64Sint),
            112 => Some(Format::R64Sfloat),
            113 => Some(Format::R64G64Uint),
            114 => Some(Format::R64G64Sint),
            115 => Some(Format::R64G64Sfloat),
            116 => Some(Format::R64G64B64Uint),
            117 => Some(Format::R64G64B64Sint),
            118 => Some(Format::R64G64B64Sfloat),
            119 => Some(Format::R64G64B64A64Uint),
            120 => Some(Format::R64G64B64A64Sint),
            121 => Some(Format::R64G64B64A64Sfloat),
            122 => Some(Format::B10G11R11UfloatPack32),
            123 => Some(Format::E5B9G9R9UfloatPack32),
            124 => Some(Format::D16Unorm),
            125 => Some(Format::X8_D24UnormPack32),
            126 => Some(Format::D32Sfloat),
            127 => Some(Format::S8Uint),
            128 => Some(Format::D16Unorm_S8Uint),
            129 => Some(Format::D24Unorm_S8Uint),
            130 => Some(Format::D32Sfloat_S8Uint),
            131 => Some(Format::BC1_RGBUnormBlock),
            132 => Some(Format::BC1_RGBSrgbBlock),
            133 => Some(Format::BC1_RGBAUnormBlock),
            134 => Some(Format::BC1_RGBASrgbBlock),
            135 => Some(Format::BC2UnormBlock),
            136 => Some(Format::BC2SrgbBlock),
            137 => Some(Format::BC3UnormBlock),
            138 => Some(Format::BC3SrgbBlock),
            139 => Some(Format::BC4UnormBlock),
            140 => Some(Format::BC4SnormBlock),
            141 => Some(Format::BC5UnormBlock),
            142 => Some(Format::BC5SnormBlock),
            143 => Some(Format::BC6HUfloatBlock),
            144 => Some(Format::BC6HSfloatBlock),
            145 => Some(Format::BC7UnormBlock),
            146 => Some(Format::BC7SrgbBlock),
            147 => Some(Format::ETC2_R8G8B8UnormBlock),
            148 => Some(Format::ETC2_R8G8B8SrgbBlock),
            149 => Some(Format::ETC2_R8G8B8A1UnormBlock),
            150 => Some(Format::ETC2_R8G8B8A1SrgbBlock),
            151 => Some(Format::ETC2_R8G8B8A8UnormBlock),
            152 => Some(Format::ETC2_R8G8B8A8SrgbBlock),
            153 => Some(Format::EAC_R11UnormBlock),
            154 => Some(Format::EAC_R11SnormBlock),
            155 => Some(Format::EAC_R11G11UnormBlock),
            156 => Some(Format::EAC_R11G11SnormBlock),
            157 => Some(Format::ASTC_4x4UnormBlock),
            158 => Some(Format::ASTC_4x4SrgbBlock),
            159 => Some(Format::ASTC_5x4UnormBlock),
            160 => Some(Format::ASTC_5x4SrgbBlock),
            161 => Some(Format::ASTC_5x5UnormBlock),
            162 => Some(Format::ASTC_5x5SrgbBlock),
            163 => Some(Format::ASTC_6x5UnormBlock),
            164 => Some(Format::ASTC_6x5SrgbBlock),
            165 => Some(Format::ASTC_6x6UnormBlock),
            166 => Some(Format::ASTC_6x6SrgbBlock),
            167 => Some(Format::ASTC_8x5UnormBlock),
            168 => Some(Format::ASTC_8x5SrgbBlock),
            169 => Some(Format::ASTC_8x6UnormBlock),
            170 => Some(Format::ASTC_8x6SrgbBlock),
            171 => Some(Format::ASTC_8x8UnormBlock),
            172 => Some(Format::ASTC_8x8SrgbBlock),
            173 => Some(Format::ASTC_10x5UnormBlock),
            174 => Some(Format::ASTC_10x5SrgbBlock),
            175 => Some(Format::ASTC_10x6UnormBlock),
            176 => Some(Format::ASTC_10x6SrgbBlock),
            177 => Some(Format::ASTC_10x8UnormBlock),
            178 => Some(Format::ASTC_10x8SrgbBlock),
            179 => Some(Format::ASTC_10x10UnormBlock),
            180 => Some(Format::ASTC_10x10SrgbBlock),
            181 => Some(Format::ASTC_12x10UnormBlock),
            182 => Some(Format::ASTC_12x10SrgbBlock),
            183 => Some(Format::ASTC_12x12UnormBlock),
            184 => Some(Format::ASTC_12x12SrgbBlock),
            _ => None,
        }
    }

    /// Returns the data class of the format.
    pub fn ty(&self) -> (r: FormatTy)
        ensures
            r == self.class(),
    {
        match *self {
            Format::Undefined => FormatTy::Float,
            Format::R4G4UnormPack8 => FormatTy::Float,
            Format::R4G4B4A4UnormPack16 => FormatTy::Float,
            Format::B4G4R4A4UnormPack16 => FormatTy::Float,
            Format::R5G6B5UnormPack16 => FormatTy::Float,
            Format::B5G6R5UnormPack16 => FormatTy::Float,
            Format::R5G5B5A1UnormPack16 => FormatTy::Float,
            Format::B5G5R5A1UnormPack16 => FormatTy::Float,
            Format::A1R5G5B5UnormPack16 => FormatTy::Float,
            Format::R8Unorm => FormatTy::Float,
            Format::R8Snorm => FormatTy::Float,
            Format::R8Uscaled => FormatTy::Float,
            Format::R8Sscaled => FormatTy::Float,
            Format::R8Uint => FormatTy::Uint,
            Format::R8Sint => FormatTy::Sint,
            Format::R8Srgb => FormatTy::Float,
            Format::R8G8Unorm => FormatTy::Float,
            Format::R8G8Snorm => FormatTy::Float,
            Format::R8G8Uscaled => FormatTy::Float,
            Format::R8G8Sscaled => FormatTy::Float,
            Format::R8G8Uint => FormatTy::Uint,
            Format::R8G8Sint => FormatTy::Sint,
            Format::R8G8Srgb => FormatTy::Float,
            Format::R8G8B8Unorm => FormatTy::Float,
            Format::R8G8B8Snorm => FormatTy::Float,
            Format::R8G8B8Uscaled => FormatTy::Float,
            Format::R8G8B8Sscaled => FormatTy::Float,
            Format::R8G8B8Uint => FormatTy::Uint,
            Format::R8G8B8Sint => FormatTy::Sint,
            Format::R8G8B8Srgb => FormatTy::Float,
            Format::B8G8R8Unorm => FormatTy::Float,
            Format::B8G8R8Snorm => FormatTy::Float,
            Format::B8G8R8Uscaled => FormatTy::Float,
            Format::B8G8R8Sscaled => FormatTy::Float,
            Format::B8G8R8Uint => FormatTy::Uint,
            Format::B8G8R8Sint => FormatTy::Sint,
            Format::B8G8R8Srgb => FormatTy::Float,
            Format::R8G8B8A8Unorm => FormatTy::Float,
            Format::R8G8B8A8Snorm => FormatTy::Float,
            Format::R8G8B8A8Uscaled => FormatTy::Float,
            Format::R8G8B8A8Sscaled => FormatTy::Float,
            Format::R8G8B8A8Uint => FormatTy::Uint,
            Format::R8G8B8A8Sint => FormatTy::Sint,
            Format::R8G8B8A8Srgb => FormatTy::Float,
            Format::B8G8R8A8Unorm => FormatTy::Float,
            Format::B8G8R8A8Snorm => FormatTy::Float,
            Format::B8G8R8A8Uscaled => FormatTy::Float,
            Format::B8G8R8A8Sscaled => FormatTy::Float,
            Format::B8G8R8A8Uint => FormatTy::Uint,
            Format::B8G8R8A8Sint => FormatTy::Sint,
            Format::B8G8R8A8Srgb => FormatTy::Float,
            Format::A8B8G8R8UnormPack32 => FormatTy::Float,
            Format::A8B8G8R8SnormPack32 => FormatTy::Float,
            Format::A8B8G8R8UscaledPack32 => FormatTy::Float,
            Format::A8B8G8R8SscaledPack32 => FormatTy::Float,
            Format::A8B8G8R8UintPack32 => FormatTy::Uint,
            Format::A8B8G8R8SintPack32 => FormatTy::Sint,
            Format::A8B8G8R8SrgbPack32 => FormatTy::Float,
            Format::A2R10G10B10UnormPack32 => FormatTy::Float,
            Format::A2R10G10B10SnormPack32 => FormatTy::Float,
            Format::A2R10G10B10UscaledPack32 => FormatTy::Float,
            Format::A2R10G10B10SscaledPack32 => FormatTy::Float,
            Format::A2R10G10B10UintPack32 => FormatTy::Uint,
            Format::A2R10G10B10SintPack32 => FormatTy::Sint,
            Format::A2B10G10R10UnormPack32 => FormatTy::Float,
            Format::A2B10G10R10SnormPack32 => FormatTy::Float,
            Format::A2B10G10R10UscaledPack32 => FormatTy::Float,
            Format::A2B10G10R10SscaledPack32 => FormatTy::Float,
            Format::A2B10G10R10UintPack32 => FormatTy::Uint,
            Format::A2B10G10R10SintPack32 => FormatTy::Sint,
            Format::R16Unorm => FormatTy::Float,
            Format::R16Snorm => FormatTy::Float,
            Format::R16Uscaled => FormatTy::Float,
            Format::R16Sscaled => FormatTy::Float,
            Format::R16Uint => FormatTy::Uint,
            Format::R16Sint => FormatTy::Sint,
            Format::R16Sfloat => FormatTy::Float,
            Format::R16G16Unorm => FormatTy::Float,
            Format::R16G16Snorm => FormatTy::Float,
            Format::R16G16Uscaled => FormatTy::Float,
            Format::R16G16Sscaled => FormatTy::Float,
            Format::R16G16Uint => FormatTy::Uint,
            Format::R16G16Sint => FormatTy::Sint,
            Format::R16G16Sfloat => FormatTy::Float,
            Format::R16G16B16Unorm => FormatTy::Float,
            Format::R16G16B16Snorm => FormatTy::Float,
            Format::R16G16B16Uscaled => FormatTy::Float,
            Format::R16G16B16Sscaled => FormatTy::Float,
            Format::R16G16B16Uint => FormatTy::Uint,
            Format::R16G16B16Sint => FormatTy::Sint,
            Format::R16G16B16Sfloat => FormatTy::Float,
            Format::R16G16B16A16Unorm => FormatTy::Float,
            Format::R16G16B16A16Snorm => FormatTy::Float,
            Format::R16G16B16A16Uscaled => FormatTy::Float,
            Format::R16G16B16A16Sscaled => FormatTy::Float,
            Format::R16G16B16A16Uint => FormatTy::Uint,
            Format::R16G16B16A16Sint => FormatTy::Sint,
            Format::R16G16B16A16Sfloat => FormatTy::Float,
            Format::R32Uint => FormatTy::Uint,
            Format::R32Sint => FormatTy::Sint,
            Format::R32Sfloat => FormatTy::Float,
            Format::R32G32Uint => FormatTy::Uint,
            Format::R32G32Sint => FormatTy::Sint,
            Format::R32G32Sfloat => FormatTy::Float,
            Format::R32G32B32Uint => FormatTy::Uint,
            Format::R32G32B32Sint => FormatTy::Sint,
            Format::R32G32B32Sfloat => FormatTy::Float,
            Format::R32G32B32A32Uint => FormatTy::Uint,
            Format::R32G32B32A32Sint => FormatTy::Sint,
            Format::R32G32B32A32Sfloat => FormatTy::Float,
            Format::R64Uint => FormatTy::Uint,
            Format::R64Sint => FormatTy::Sint,
            Format::R64Sfloat => FormatTy::Float,
            Format::R64G64Uint => FormatTy::Uint,
            Format::R64G64Sint => FormatTy::Sint,
            Format::R64G64Sfloat => FormatTy::Float,
            Format::R64G64B64Uint => FormatTy::Uint,
            Format::R64G64B64Sint => FormatTy::Sint,
            Format::R64G64B64Sfloat => FormatTy::Float,
            Format::R64G64B64A64Uint => FormatTy::Uint,
            Format::R64G64B64A64Sint => FormatTy::Sint,
            Format::R64G64B64A64Sfloat => FormatTy::Float,
            Format::B10G11R11UfloatPack32 => FormatTy::Float,
            Format::E5B9G9R9UfloatPack32 => FormatTy::Float,
            Format::D16Unorm => FormatTy::Depth,
            Format::X8_D24UnormPack32 => FormatTy::Depth,
            Format::D32Sfloat => FormatTy::Depth,
            Format::S8Uint => FormatTy::Stencil,
            Format::D16Unorm_S8Uint => FormatTy::DepthStencil,
            Format::D24Unorm_S8Uint => FormatTy::DepthStencil,
            Format::D32Sfloat_S8Uint => FormatTy::DepthStencil,
            Format::BC1_RGBUnormBlock => FormatTy::Compressed,
            Format::BC1_RGBSrgbBlock => FormatTy::Compressed,
            Format::BC1_RGBAUnormBlock => FormatTy::Compressed,
            Format::BC1_RGBASrgbBlock => FormatTy::Compressed,
            Format::BC2UnormBlock => FormatTy::Compressed,
            Format::BC2SrgbBlock => FormatTy::Compressed,
            Format::BC3UnormBlock => FormatTy::Compressed,
            Format::BC3SrgbBlock => FormatTy::Compressed,
            Format::BC4UnormBlock => FormatTy::Compressed,
            Format::BC4SnormBlock => FormatTy::Compressed,
            Format::BC5UnormBlock => FormatTy::Compressed,
            Format::BC5SnormBlock => FormatTy::Compressed,
            Format::BC6HUfloatBlock => FormatTy::Compressed,
            Format::BC6HSfloatBlock => FormatTy::Compressed,
            Format::BC7UnormBlock => FormatTy::Compressed,
            Format::BC7SrgbBlock => FormatTy::Compressed,
            Format::ETC2_R8G8B8UnormBlock => FormatTy::Compressed,
            Format::ETC2_R8G8B8SrgbBlock => FormatTy::Compressed,
            Format::ETC2_R8G8B8A1UnormBlock => FormatTy::Compressed,
            Format::ETC2_R8G8B8A1SrgbBlock => FormatTy::Compressed,
            Format::ETC2_R8G8B8A8UnormBlock => FormatTy::Compressed,
            Format::ETC2_R8G8B8A8SrgbBlock => FormatTy::Compressed,
            Format::EAC_R11UnormBlock => FormatTy::Compressed,
            Format::EAC_R11SnormBlock => FormatTy::Compressed,
            Format::EAC_R11G11UnormBlock => FormatTy::Compressed,
            Format::EAC_R11G11SnormBlock => FormatTy::Compressed,
            Format::ASTC_4x4UnormBlock => FormatTy::Compressed,
            Format::ASTC_4x4SrgbBlock => FormatTy::Compressed,
            Format::ASTC_5x4UnormBlock => FormatTy::Compressed,
            Format::ASTC_5x4SrgbBlock => FormatTy::Compressed,
            Format::ASTC_5x5UnormBlock => FormatTy::Compressed,
            Format::ASTC_5x5SrgbBlock => FormatTy::Compressed,
            Format::ASTC_6x5UnormBlock => FormatTy::Compressed,
            Format::ASTC_6x5SrgbBlock => FormatTy::Compressed,
            Format::ASTC_6x6UnormBlock => FormatTy::Compressed,
            Format::ASTC_6x6SrgbBlock => FormatTy::Compressed,
            Format::ASTC_8x5UnormBlock => FormatTy::Compressed,
            Format::ASTC_8x5SrgbBlock => FormatTy::Compressed,
            Format::ASTC_8x6UnormBlock => FormatTy::Compressed,
            Format::ASTC_8x6SrgbBlock => FormatTy::Compressed,
            Format::ASTC_8x8UnormBlock => FormatTy::Compressed,
            Format::ASTC_8x8SrgbBlock => FormatTy::Compressed,
            Format::ASTC_10x5UnormBlock => FormatTy::Compressed,
            Format::ASTC_10x5SrgbBlock => FormatTy::Compressed,
            Format::ASTC_10x6UnormBlock => FormatTy::Compressed,
            Format::ASTC_10x6SrgbBlock => FormatTy::Compressed,
            Format::ASTC_10x8UnormBlock => FormatTy::Compressed,
            Format::ASTC_10x8SrgbBlock => FormatTy::Compressed,
            Format::ASTC_10x10UnormBlock => FormatTy::Compressed,
            Format::ASTC_10x10SrgbBlock => FormatTy::Compressed,
            Format::ASTC_12x10UnormBlock => FormatTy::Compressed,
            Format::ASTC_12x10SrgbBlock => FormatTy::Compressed,
            Format::ASTC_12x12UnormBlock => FormatTy::Compressed,
            Format::ASTC_12x12SrgbBlock => FormatTy::Compressed,
        }
    }
}

/// The format that has the native code `c`, if there is one.
pub open spec fn format_of_code(c: u32) -> Option<Format> {
    match c {
        0 => Some(Format::Undefined),
        1 => Some(Format::R4G4UnormPack8),
        2 => Some(Format::R4G4B4A4UnormPack16),
        3 => Some(Format::B4G4R4A4UnormPack16),
        4 => Some(Format::R5G6B5UnormPack16),
        5 => Some(Format::B5G6R5UnormPack16),
        6 => Some(Format::R5G5B5A1UnormPack16),
        7 => Some(Format::B5G5R5A1UnormPack16),
        8 => Some(Format::A1R5G5B5UnormPack16),
        9 => Some(Format::R8Unorm),
        10 => Some(Format::R8Snorm),
        11 => Some(Format::R8Uscaled),
        12 => Some(Format::R8Sscaled),
        13 => Some(Format::R8Uint),
        14 => Some(Format::R8Sint),
        15 => Some(Format::R8Srgb),
        16 => Some(Format::R8G8Unorm),
        17 => Some(Format::R8G8Snorm),
        18 => Some(Format::R8G8Uscaled),
        19 => Some(Format::R8G8Sscaled),
        20 => Some(Format::R8G8Uint),
        21 => Some(Format::R8G8Sint),
        22 => Some(Format::R8G8Srgb),
        23 => Some(Format::R8G8B8Unorm),
        24 => Some(Format::R8G8B8Snorm),
        25 => Some(Format::R8G8B8Uscaled),
        26 => Some(Format::R8G8B8Sscaled),
        27 => Some(Format::R8G8B8Uint),
        28 => Some(Format::R8G8B8Sint),
        29 => Some(Format::R8G8B8Srgb),
        30 => Some(Format::B8G8R8Unorm),
        31 => Some(Format::B8G8R8Snorm),
        32 => Some(Format::B8G8R8Uscaled),
        33 => Some(Format::B8G8R8Sscaled),
        34 => Some(Format::B8G8R8Uint),
        35 => Some(Format::B8G8R8Sint),
        36 => Some(Format::B8G8R8Srgb),
        37 => Some(Format::R8G8B8A8Unorm),
        38 => Some(Format::R8G8B8A8Snorm),
        39 => Some(Format::R8G8B8A8Uscaled),
        40 => Some(Format::R8G8B8A8Sscaled),
        41 => Some(Format::R8G8B8A8Uint),
        42 => Some(Format::R8G8B8A8Sint),
        43 => Some(Format::R8G8B8A8Srgb),
        44 => Some(Format::B8G8R8A8Unorm),
        45 => Some(Format::B8G8R8A8Snorm),
        46 => Some(Format::B8G8R8A8Uscaled),
        47 => Some(Format::B8G8R8A8Sscaled),
        48 => Some(Format::B8G8R8A8Uint),
        49 => Some(Format::B8G8R8A8Sint),
        50 => Some(Format::B8G8R8A8Srgb),
        51 => Some(Format::A8B8G8R8UnormPack32),
        52 => Some(Format::A8B8G8R8SnormPack32),
        53 => Some(Format::A8B8G8R8UscaledPack32),
        54 => Some(Format::A8B8G8R8SscaledPack32),
        55 => Some(Format::A8B8G8R8UintPack32),
        56 => Some(Format::A8B8G8R8SintPack32),
        57 => Some(Format::A8B8G8R8SrgbPack32),
        58 => Some(Format::A2R10G10B10UnormPack32),
        59 => Some(Format::A2R10G10B10SnormPack32),
        60 => Some(Format::A2R10G10B10UscaledPack32),
        61 => Some(Format::A2R10G10B10SscaledPack32),
        62 => Some(Format::A2R10G10B10UintPack32),
        63 => Some(Format::A2R10G10B10SintPack32),
        64 => Some(Format::A2B10G10R10UnormPack32),
        65 => Some(Format::A2B10G10R10SnormPack32),
        66 => Some(Format::A2B10G10R10UscaledPack32),
        67 => Some(Format::A2B10G10R10SscaledPack32),
        68 => Some(Format::A2B10G10R10UintPack32),
        69 => Some(Format::A2B10G10R10SintPack32),
        70 => Some(Format::R16Unorm),
        71 => Some(Format::R16Snorm),
        72 => Some(Format::R16Uscaled),
        73 => Some(Format::R16Sscaled),
        74 => Some(Format::R16Uint),
        75 => Some(Format::R16Sint),
        76 => Some(Format::R16Sfloat),
        77 => Some(Format::R16G16Unorm),
        78 => Some(Format::R16G16Snorm),
        79 => Some(Format::R16G16Uscaled),
        80 => Some(Format::R16G16Sscaled),
        81 => Some(Format::R16G16Uint),
        82 => Some(Format::R16G16Sint),
        83 => Some(Format::R16G16Sfloat),
        84 => Some(Format::R16G16B16Unorm),
        85 => Some(Format::R16G16B16Snorm),
        86 => Some(Format::R16G16B16Uscaled),
        87 => Some(Format::R16G16B16Sscaled),
        88 => Some(Format::R16G16B16Uint),
        89 => Some(Format::R16G16B16Sint),
        90 => Some(Format::R16G16B16Sfloat),
        91 => Some(Format::R16G16B16A16Unorm),
        92 => Some(Format::R16G16B16A16Snorm),
        93 => Some(Format::R16G16B16A16Uscaled),
        94 => Some(Format::R16G16B16A16Sscaled),
        95 => Some(Format::R16G16B16A16Uint),
        96 => Some(Format::R16G16B16A16Sint),
        97 => Some(Format::R16G16B16A16Sfloat),
        98 => Some(Format::R32Uint),
        99 => Some(Format::R32Sint),
        100 => Some(Format::R32Sfloat),
        101 => Some(Format::R32G32Uint),
        102 => Some(Format::R32G32Sint),
        103 => Some(Format::R32G32Sfloat),
        104 => Some(Format::R32G32B32Uint),
        105 => Some(Format::R32G32B32Sint),
        106 => Some(Format::R32G32B32Sfloat),
        107 => Some(Format::R32G32B32A32Uint),
        108 => Some(Format::R32G32B32A32Sint),
        109 => Some(Format::R32G32B32A32Sfloat),
        110 => Some(Format::R64Uint),
        111 => Some(Format::R64Sint),
        112 => Some(Format::R64Sfloat),
        113 => Some(Format::R64G64Uint),
        114 => Some(Format::R64G64Sint),
        115 => Some(Format::R64G64Sfloat),
        116 => Some(Format::R64G64B64Uint),
        117 => Some(Format::R64G64B64Sint),
        118 => Some(Format::R64G64B64Sfloat),
        119 => Some(Format::R64G64B64A64Uint),
        120 => Some(Format::R64G64B64A64Sint),
        121 => Some(Format::R64G64B64A64Sfloat),
        122 => Some(Format::B10G11R11UfloatPack32),
        123 => Some(Format::E5B9G9R9UfloatPack32),
        124 => Some(Format::D16Unorm),
        125 => Some(Format::X8_D24UnormPack32),
        126 => Some(Format::D32Sfloat),
        127 => Some(Format::S8Uint),
        128 => Some(Format::D16Unorm_S8Uint),
        129 => Some(Format::D24Unorm_S8Uint),
        130 => Some(Format::D32Sfloat_S8Uint),
        131 => Some(Format::BC1_RGBUnormBlock),
        132 => Some(Format::BC1_RGBSrgbBlock),
        133 => Some(Format::BC1_RGBAUnormBlock),
        134 => Some(Format::BC1_RGBASrgbBlock),
        135 => Some(Format::BC2UnormBlock),
        136 => Some(Format::BC2SrgbBlock),
        137 => Some(Format::BC3UnormBlock),
        138 => Some(Format::BC3SrgbBlock),
        139 => Some(Format::BC4UnormBlock),
        140 => Some(Format::BC4SnormBlock),
        141 => Some(Format::BC5UnormBlock),
        142 => Some(Format::BC5SnormBlock),
        143 => Some(Format::BC6HUfloatBlock),
        144 => Some(Format::BC6HSfloatBlock),
        145 => Some(Format::BC7UnormBlock),
        146 => Some(Format::BC7SrgbBlock),
        147 => Some(Format::ETC2_R8G8B8UnormBlock),
        148 => Some(Format::ETC2_R8G8B8SrgbBlock),
        149 => Some(Format::ETC2_R8G8B8A1UnormBlock),
        150 => Some(Format::ETC2_R8G8B8A1SrgbBlock),
        151 => Some(Format::ETC2_R8G8B8A8UnormBlock),
        152 => Some(Format::ETC2_R8G8B8A8SrgbBlock),
        153 => Some(Format::EAC_R11UnormBlock),
        154 => Some(Format::EAC_R11SnormBlock),
        155 => Some(Format::EAC_R11G11UnormBlock),
        156 => Some(Format::EAC_R11G11SnormBlock),
        157 => Some(Format::ASTC_4x4UnormBlock),
        158 => Some(Format::ASTC_4x4SrgbBlock),
        159 => Some(Format::ASTC_5x4UnormBlock),
        160 => Some(Format::ASTC_5x4SrgbBlock),
        161 => Some(Format::ASTC_5x5UnormBlock),
        162 => Some(Format::ASTC_5x5SrgbBlock),
        163 => Some(Format::ASTC_6x5UnormBlock),
        164 => Some(Format::ASTC_6x5SrgbBlock),
        165 => Some(Format::ASTC_6x6UnormBlock),
        166 => Some(Format::ASTC_6x6SrgbBlock),
        167 => Some(Format::ASTC_8x5UnormBlock),
        168 => Some(Format::ASTC_8x5SrgbBlock),
        169 => Some(Format::ASTC_8x6UnormBlock),
        170 => Some(Format::ASTC_8x6SrgbBlock),
        171 => Some(Format::ASTC_8x8UnormBlock),
        172 => Some(Format::ASTC_8x8SrgbBlock),
        173 => Some(Format::ASTC_10x5UnormBlock),
        174 => Some(Format::ASTC_10x5SrgbBlock),
        175 => Some(Format::ASTC_10x6UnormBlock),
        176 => Some(Format::ASTC_10x6SrgbBlock),
        177 => Some(Format::ASTC_10x8UnormBlock),
        178 => Some(Format::ASTC_10x8SrgbBlock),
        179 => Some(Format::ASTC_10x10UnormBlock),
        180 => Some(Format::ASTC_10x10SrgbBlock),
        181 => Some(Format::ASTC_12x10UnormBlock),
        182 => Some(Format::ASTC_12x10SrgbBlock),
        183 => Some(Format::ASTC_12x12UnormBlock),
        184 => Some(Format::ASTC_12x12SrgbBlock),
        _ => None,
    }
}

/// Every code that a format has lies in `0..=MAX_FORMAT_CODE`.
pub proof fn lemma_code_bound(f: Format)
    ensures
        f.code() <= MAX_FORMAT_CODE,
{
}

/// Reading back the code of a format gives that format.
pub proof fn lemma_from_to_code(f: Format)
    ensures
        format_of_code(f.code()) == Some(f),
{
}

/// A code that is read as a format is that format's code.
pub proof fn lemma_to_from_code(c: u32)
    ensures
        format_of_code(c) matches Some(f) ==> f.code() == c,
{
}

/// Two formats with one code are the same format.
pub proof fn lemma_code_injective(f: Format, g: Format)
    ensures
        f.code() == g.code() <==> f == g,
{
    lemma_from_to_code(f);
    lemma_from_to_code(g);
}

/// A code that no format has is read as no format.
pub proof fn lemma_unknown_code(c: u32)
    requires
        forall|f: Format| f.code() != c,
    ensures
        format_of_code(c) is None,
{
    lemma_to_from_code(c);
    if let Some(f) = format_of_code(c) {
        assert(f.code() == c);
    }
}

/// Codes above the table's last one are read as no format.
pub proof fn lemma_code_out_of_table(c: u32)
    requires
        c > MAX_FORMAT_CODE,
    ensures
        format_of_code(c) is None,
        forall|f: Format| f.code() != c,
{
    assert forall|f: Format| f.code() != c by {
        lemma_code_bound(f);
    }
}

/// Some data whose format must be known by the library.
///
/// The format is stated by each impl and checked by nothing: an impl may name a format that
/// does not describe its data, and what the library derives from `ty` then holds of the named
/// format only. The library's own impls name the format that matches the type (`u8` is
/// `R8Uint`). Typed buffers and images that must not depend on that promise carry a
/// `FormatMarker` instead, whose class is proved for every marker.
pub trait Data {
    /// The format of the data.
    spec fn data_format() -> Format;

    /// Returns the format of the data.
    fn ty() -> (r: Format)
        ensures
            r == Self::data_format(),
    ;
}

impl Data for u8 {
    open spec fn data_format() -> Format {
        Format::R8Uint
    }

    fn ty() -> (r: Format) {
        Format::R8Uint
    }
}

/// A zero-sized type that stands for exactly one format.
pub trait FormatMarker {
    /// The format that the type stands for.
    spec fn marked() -> Format;

    /// Returns the format that the type stands for.
    fn format() -> (r: Format)
        ensures
            r == Self::marked(),
    ;
}

/// A marker of a format of the Float class.
pub trait FloatFormatMarker: FormatMarker {
    /// The marked format is of the Float class.
    proof fn lemma_class()
        ensures
            Self::marked().class() == FormatTy::Float,
    ;
}

/// A marker of a format of the Uint class.
pub trait UintFormatMarker: FormatMarker {
    /// The marked format is of the Uint class.
    proof fn lemma_class()
        ensures
            Self::marked().class() == FormatTy::Uint,
    ;
}

/// A marker of a format of the Sint class.
pub trait SintFormatMarker: FormatMarker {
    /// The marked format is of the Sint class.
    proof fn lemma_class()
        ensures
            Self::marked().class() == FormatTy::Sint,
    ;
}

/// A marker of a format of the Depth class.
pub trait DepthFormatMarker: FormatMarker {
    /// The marked format is of the Depth class.
    proof fn lemma_class()
        ensures
            Self::marked().class() == FormatTy::Depth,
    ;
}

/// A marker of a format of the Stencil class.
pub trait StencilFormatMarker: FormatMarker {
    /// The marked format is of the Stencil class.
    proof fn lemma_class()
        ensures
            Self::marked().class() == FormatTy::Stencil,
    ;
}

/// A marker of a format of the DepthStencil class.
pub trait DepthStencilFormatMarker: FormatMarker {
    /// The marked format is of the DepthStencil class.
    proof fn lemma_class()
        ensures
            Self::marked().class() == FormatTy::DepthStencil,
    ;
}

/// A marker of a format of the Compressed class.
pub trait CompressedFormatMarker: FormatMarker {
    /// The marked format is of the Compressed class.
    proof fn lemma_class()
        ensures
            Self::marked().class() == FormatTy::Compressed,
    ;
}

/// Marker of `Format::Undefined`.
#[derive(Debug, Copy, Clone)]
#[allow(non_camel_case_types)]
pub struct Undefined;

impl FormatMarker for Undefined {
    open spec fn marked() -> Format {
        Format::Undefined
    }

    fn format() -> (r: Format) {
        Format::Undefined
    }
}

impl FloatFormatMarker for Undefined {
    proof fn lemma_class() {
    }
}

/// Marker of `Format::R4G4UnormPack8`.
#[derive(Debug, Copy, Clone)]
#[allow(non_camel_case_types)]
pub struct R4G4UnormPack8;

impl FormatMarker for R4G4UnormPack8 {
    open spec fn marked() -> Format {
        Format::R4G4UnormPack8
    }

    fn format() -> (r: Format) {
        Format::R4G4UnormPack8
    }
}

impl FloatFormatMarker for R4G4UnormPack8 {
    proof fn lemma_class() {
    }
}

/// Marker of `Format::R4G4B4A4UnormPack16`.
#[derive(Debug, Copy, Clone)]
#[allow(non_camel_case_types)]
pub struct R4G4B4A4UnormPack16;

impl FormatMarker for R4G4B4A4UnormPack16 {
    open spec fn marked() -> Format {
        Format::R4G4B4A4UnormPack16
    }

    fn format() -> (r: Format) {
        Format::R4G4B4A4UnormPack16
    }
}

impl FloatFormatMarker for R4G4B4A4UnormPack16 {
    proof fn lemma_class() {
    }
}

/// Marker of `Format::B4G4R4A4UnormPack16`.
#[derive(Debug, Copy, Clone)]
#[allow(non_camel_case_types)]
pub struct B4G4R4A4UnormPack16;

impl FormatMarker for B4G4R4A4UnormPack16 {
    open spec fn marked() -> Format {
        Format::B4G4R4A4UnormPack16
    }

    fn format() -> (r: Format) {
        Format::B4G4R4A4UnormPack16
    }
}

impl FloatFormatMarker for B4G4R4A4UnormPack16 {
    proof fn lemma_class() {
    }
}

/// Marker of `Format::R5G6B5UnormPack16`.
#[derive(Debug, Copy, Clone)]
#[allow(non_camel_case_types)]
pub struct R5G6B5UnormPack16;

impl FormatMarker for R5G6B5UnormPack16 {
    open spec fn marked() -> Format {
        Format::R5G6B5UnormPack16
    }

    fn format() -> (r: Format) {
        Format::R5G6B5UnormPack16
    }
}

impl FloatFormatMarker for R5G6B5UnormPack16 {
    proof fn lemma_class() {
    }
}

/// Marker of `Format::B5G6R5UnormPack16`.
#[derive(Debug, Copy, Clone)]
#[allow(non_camel_case_types)]
pub struct B5G6R5UnormPack16;

impl FormatMarker for B5G6R5UnormPack16 {
    open spec fn marked() -> Format {
        Format::B5G6R5UnormPack16
    }

    fn format() -> (r: Format) {
        Format::B5G6R5UnormPack16
    }
}

impl FloatFormatMarker for B5G6R5UnormPack16 {
    proof fn lemma_class() {
    }
}

/// Marker of `Format::R5G5B5A1UnormPack16`.
#[derive(Debug, Copy, Clone)]
#[allow(non_camel_case_types)]
pub struct R5G5B5A1UnormPack16;

impl FormatMarker for R5G5B5A1UnormPack16 {
    open spec fn marked() -> Format {
        Format::R5G5B5A1UnormPack16
    }

    fn format() -> (r: Format) {
        Format::R5G5B5A1UnormPack16
    }
}

impl FloatFormatMarker for R5G5B5A1UnormPack16 {
    proof fn lemma_class() {
    }
}

/// Marker of `Format::B5G5R5A1UnormPack16`.
#[derive(Debug, Copy, Clone)]
#[allow(non_camel_case_types)]
pub struct B5G5R5A1UnormPack16;

impl FormatMarker for B5G5R5A1UnormPack16 {
    open spec fn marked() -> Format {
        Format::B5G5R5A1UnormPack16
    }

    fn format() -> (r: Format) {
        Format::B5G5R5A1UnormPack16
    }
}

impl FloatFormatMarker for B5G5R5A1UnormPack16 {
    proof fn lemma_class() {
    }
}

/// Marker of `Format::A1R5G5B5UnormPack16`.
#[derive(Debug, Copy, Clone)]
#[allow(non_camel_case_types)]
pub struct A1R5G5B5UnormPack16;

impl FormatMarker for A1R5G5B5UnormPack16 {
    open spec fn marked() -> Format {
        Format::A1R5G5B5UnormPack16
    }

    fn format() -> (r: Format) {
        Format::A1R5G5B5UnormPack16
    }
}

impl FloatFormatMarker for A1R5G5B5UnormPack16 {
    proof fn lemma_class() {
    }
}

/// Marker of `Format::R8Unorm`.
#[derive(Debug, Copy, Clone)]
#[allow(non_camel_case_types)]
pub struct R8Unorm;

impl FormatMarker for R8Unorm {
    open spec fn marked() -> Format {
        Format::R8Unorm
    }

    fn format() -> (r: Format) {
        Format::R8Unorm
    }
}

impl FloatFormatMarker for R8Unorm {
    proof fn lemma_class() {
    }
}

/// Marker of `Format::R8Snorm`.
#[derive(Debug, Copy, Clone)]
#[allow(non_camel_case_types)]
pub struct R8Snorm;

impl FormatMarker for R8Snorm {
    open spec fn marked() -> Format {
        Format::R8Snorm
    }

    fn format() -> (r: Format) {
        Format::R8Snorm
    }
}

impl FloatFormatMarker for R8Snorm {
    proof fn lemma_class() {
    }
}

/// Marker of `Format::R8Uscaled`.
#[derive(Debug, Copy, Clone)]
#[allow(non_camel_case_types)]
pub struct R8Uscaled;

impl FormatMarker for R8Uscaled {
    open spec fn marked() -> Format {
        Format::R8Uscaled
    }

    fn format() -> (r: Format) {
        Format::R8Uscaled
    }
}

impl FloatFormatMarker for R8Uscaled {
    proof fn lemma_class() {
    }
}

/// Marker of `Format::R8Sscaled`.
#[derive(Debug, Copy, Clone)]
#[allow(non_camel_case_types)]
pub struct R8Sscaled;

impl FormatMarker for R8Sscaled {
    open spec fn marked() -> Format {
        Format::R8Sscaled
    }

    fn format() -> (r: Format) {
        Format::R8Sscaled
    }
}

impl FloatFormatMarker for R8Sscaled {
    proof fn lemma_class() {
    }
}

/// Marker of `Format::R8Uint`.
#[derive(Debug, Copy, Clone)]
#[allow(non_camel_case_types)]
pub struct R8Uint;

impl FormatMarker for R8Uint {
    open spec fn marked() -> Format {
        Format::R8Uint
    }

    fn format() -> (r: Format) {
        Format::R8Uint
    }
}

impl UintFormatMarker for R8Uint {
    proof fn lemma_class() {
    }
}

/// Marker of `Format::R8Sint`.
#[derive(Debug, Copy, Clone)]
#[allow(non_camel_case_types)]
pub struct R8Sint;

impl FormatMarker for R8Sint {
    open spec fn marked() -> Format {
        Format::R8Sint
    }

    fn format() -> (r: Format) {
        Format::R8Sint
    }
}

impl SintFormatMarker for R8Sint {
    proof fn lemma_class() {
    }
}

/// Marker of `Format::R8Srgb`.
#[derive(Debug, Copy, Clone)]
#[allow(non_camel_case_types)]
pub struct R8Srgb;

impl FormatMarker for R8Srgb {
    open spec fn marked() -> Format {
        Format::R8Srgb
    }

    fn format() -> (r: Format) {
        Format::R8Srgb
    }
}

impl FloatFormatMarker for R8Srgb {
    proof fn lemma_class() {
    }
}

/// Marker of `Format::R8G8Unorm`.
#[derive(Debug, Copy, Clone)]
#[allow(non_camel_case_types)]
pub struct R8G8Unorm;

impl FormatMarker for R8G8Unorm {
    open spec fn marked() -> Format {
        Format::R8G8Unorm
    }

    fn format() -> (r: Format) {
        Format::R8G8Unorm
    }
}

impl FloatFormatMarker for R8G8Unorm {
    proof fn lemma_class() {
    }
}

/// Marker of `Format::R8G8Snorm`.
#[derive(Debug, Copy, Clone)]
#[allow(non_camel_case_types)]
pub struct R8G8Snorm;

impl FormatMarker for R8G8Snorm {
    open spec fn marked() -> Format {
        Format::R8G8Snorm
    }

    fn format() -> (r: Format) {
        Format::R8G8Snorm
    }
}

impl FloatFormatMarker for R8G8Snorm {
    proof fn lemma_class() {
    }
}

/// Marker of `Format::R8G8Uscaled`.
#[derive(Debug, Copy, Clone)]
#[allow(non_camel_case_types)]
pub struct R8G8Uscaled;

impl FormatMarker for R8G8Uscaled {
    open spec fn marked() -> Format {
        Format::R8G8Uscaled
    }

    fn format() -> (r: Format) {
        Format::R8G8Uscaled
    }
}

impl FloatFormatMarker for R8G8Uscaled {
    proof fn lemma_class() {
    }
}

/// Marker of `Format::R8G8Sscaled`.
#[derive(Debug, Copy, Clone)]
#[allow(non_camel_case_types)]
pub struct R8G8Sscaled;

impl FormatMarker for R8G8Sscaled {
    open spec fn marked() -> Format {
        Format::R8G8Sscaled
    }

    fn format() -> (r: Format) {
        Format::R8G8Sscaled
    }
}

impl FloatFormatMarker for R8G8Sscaled {
    proof fn lemma_class() {
    }
}

/// Marker of `Format::R8G8Uint`.
#[derive(Debug, Copy, Clone)]
#[allow(non_camel_case_types)]
pub struct R8G8Uint;

impl FormatMarker for R8G8Uint {
    open spec fn marked() -> Format {
        Format::R8G8Uint
    }

    fn format() -> (r: Format) {
        Format::R8G8Uint
    }
}

impl UintFormatMarker for R8G8Uint {
    proof fn lemma_class() {
    }
}

/// Marker of `Format::R8G8Sint`.
#[derive(Debug, Copy, Clone)]
#[allow(non_camel_case_types)]
pub struct R8G8Sint;

impl FormatMarker for R8G8Sint {
    open spec fn marked() -> Format {
        Format::R8G8Sint
    }

    fn format() -> (r: Format) {
        Format::R8G8Sint
    }
}

impl SintFormatMarker for R8G8Sint {
    proof fn lemma_class() {
    }
}

/// Marker of `Format::R8G8Srgb`.
#[derive(Debug, Copy, Clone)]
#[allow(non_camel_case_types)]
pub struct R8G8Srgb;

impl FormatMarker for R8G8Srgb {
    open spec fn marked() -> Format {
        Format::R8G8Srgb
    }

    fn format() -> (r: Format) {
        Format::R8G8Srgb
    }
}

impl FloatFormatMarker for R8G8Srgb {
    proof fn lemma_class() {
    }
}

/// Marker of `Format::R8G8B8Unorm`.
#[derive(Debug, Copy, Clone)]
#[allow(non_camel_case_types)]
pub struct R8G8B8Unorm;

impl FormatMarker for R8G8B8Unorm {
    open spec fn marked() -> Format {
        Format::R8G8B8Unorm
    }

    fn format() -> (r: Format) {
        Format::R8G8B8Unorm
    }
}

impl FloatFormatMarker for R8G8B8Unorm {
    proof fn lemma_class() {
    }
}

/// Marker of `Format::R8G8B8Snorm`.
#[derive(Debug, Copy, Clone)]
#[allow(non_camel_case_types)]
pub struct R8G8B8Snorm;

impl FormatMarker for R8G8B8Snorm {
    open spec fn marked() -> Format {
        Format::R8G8B8Snorm
    }

    fn format() -> (r: Format) {
        Format::R8G8B8Snorm
    }
}

impl FloatFormatMarker for R8G8B8Snorm {
    proof fn lemma_class() {
    }
}

/// Marker of `Format::R8G8B8Uscaled`.
#[derive(Debug, Copy, Clone)]
#[allow(non_camel_case_types)]
pub struct R8G8B8Uscaled;

impl FormatMarker for R8G8B8Uscaled {
    open spec fn marked() -> Format {
        Format::R8G8B8Uscaled
    }

    fn format() -> (r: Format) {
        Format::R8G8B8Uscaled
    }
}

impl FloatFormatMarker for R8G8B8Uscaled {
    proof fn lemma_class() {
    }
}

/// Marker of `Format::R8G8B8Sscaled`.
#[derive(Debug, Copy, Clone)]
#[allow(non_camel_case_types)]
pub struct R8G8B8Sscaled;

impl FormatMarker for R8G8B8Sscaled {
    open spec fn marked() -> Format {
        Format::R8G8B8Sscaled
    }

    fn format() -> (r: Format) {
        Format::R8G8B8Sscaled
    }
}

impl FloatFormatMarker for R8G8B8Sscaled {
    proof fn lemma_class() {
    }
}

/// Marker of `Format::R8G8B8Uint`.
#[derive(Debug, Copy, Clone)]
#[allow(non_camel_case_types)]
pub struct R8G8B8Uint;

impl FormatMarker for R8G8B8Uint {
    open spec fn marked() -> Format {
        Format::R8G8B8Uint
    }

    fn format() -> (r: Format) {
        Format::R8G8B8Uint
    }
}

impl UintFormatMarker for R8G8B8Uint {
    proof fn lemma_class() {
    }
}

/// Marker of `Format::R8G8B8Sint`.
#[derive(Debug, Copy, Clone)]
#[allow(non_camel_case_types)]
pub struct R8G8B8Sint;

impl FormatMarker for R8G8B8Sint {
    open spec fn marked() -> Format {
        Format::R8G8B8Sint
    }

    fn format() -> (r: Format) {
        Format::R8G8B8Sint
    }
}

impl SintFormatMarker for R8G8B8Sint {
    proof fn lemma_class() {
    }
}

/// Marker of `Format::R8G8B8Srgb`.
#[derive(Debug, Copy, Clone)]
#[allow(non_camel_case_types)]
pub struct R8G8B8Srgb;

impl FormatMarker for R8G8B8Srgb {
    open spec fn marked() -> Format {
        Format::R8G8B8Srgb
    }

    fn format() -> (r: Format) {
        Format::R8G8B8Srgb
    }
}

impl FloatFormatMarker for R8G8B8Srgb {
    proof fn lemma_class() {
    }
}

/// Marker of `Format::B8G8R8Unorm`.
#[derive(Debug, Copy, Clone)]
#[allow(non_camel_case_types)]
pub struct B8G8R8Unorm;

impl FormatMarker for B8G8R8Unorm {
    open spec fn marked() -> Format {
        Format::B8G8R8Unorm
    }

    fn format() -> (r: Format) {
        Format::B8G8R8Unorm
    }
}

impl FloatFormatMarker for B8G8R8Unorm {
    proof fn lemma_class() {
    }
}

/// Marker of `Format::B8G8R8Snorm`.
#[derive(Debug, Copy, Clone)]
#[allow(non_camel_case_types)]
pub struct B8G8R8Snorm;

impl FormatMarker for B8G8R8Snorm {
    open spec fn marked() -> Format {
        Format::B8G8R8Snorm
    }

    fn format() -> (r: Format) {
        Format::B8G8R8Snorm
    }
}

impl FloatFormatMarker for B8G8R8Snorm {
    proof fn lemma_class() {
    }
}

/// Marker of `Format::B8G8R8Uscaled`.
#[derive(Debug, Copy, Clone)]
#[allow(non_camel_case_types)]
pub struct B8G8R8Uscaled;

impl FormatMarker for B8G8R8Uscaled {
    open spec fn marked() -> Format {
        Format::B8G8R8Uscaled
    }

    fn format() -> (r: Format) {
        Format::B8G8R8Uscaled
    }
}

impl FloatFormatMarker for B8G8R8Uscaled {
    proof fn lemma_class() {
    }
}

/// Marker of `Format::B8G8R8Sscaled`.
#[derive(Debug, Copy, Clone)]
#[allow(non_camel_case_types)]
pub struct B8G8R8Sscaled;

impl FormatMarker for B8G8R8Sscaled {
    open spec fn marked() -> Format {
        Format::B8G8R8Sscaled
    }

    fn format() -> (r: Format) {
        Format::B8G8R8Sscaled
    }
}

impl FloatFormatMarker for B8G8R8Sscaled {
    proof fn lemma_class() {
    }
}

/// Marker of `Format::B8G8R8Uint`.
#[derive(Debug, Copy, Clone)]
#[allow(non_camel_case_types)]
pub struct B8G8R8Uint;

impl FormatMarker for B8G8R8Uint {
    open spec fn marked() -> Format {
        Format::B8G8R8Uint
    }

    fn format() -> (r: Format) {
        Format::B8G8R8Uint
    }
}

impl UintFormatMarker for B8G8R8Uint {
    proof fn lemma_class() {
    }
}

/// Marker of `Format::B8G8R8Sint`.
#[derive(Debug, Copy, Clone)]
#[allow(non_camel_case_types)]
pub struct B8G8R8Sint;

impl FormatMarker for B8G8R8Sint {
    open spec fn marked() -> Format {
        Format::B8G8R8Sint
    }

    fn format() -> (r: Format) {
        Format::B8G8R8Sint
    }
}

impl SintFormatMarker for B8G8R8Sint {
    proof fn lemma_class() {
    }
}

/// Marker of `Format::B8G8R8Srgb`.
#[derive(Debug, Copy, Clone)]
#[allow(non_camel_case_types)]
pub struct B8G8R8Srgb;

impl FormatMarker for B8G8R8Srgb {
    open spec fn marked() -> Format {
        Format::B8G8R8Srgb
    }

    fn format() -> (r: Format) {
        Format::B8G8R8Srgb
    }
}

impl FloatFormatMarker for B8G8R8Srgb {
    proof fn lemma_class() {
    }
}

/// Marker of `Format::R8G8B8A8Unorm`.
#[derive(Debug, Copy, Clone)]
#[allow(non_camel_case_types)]
pub struct R8G8B8A8Unorm;

impl FormatMarker for R8G8B8A8Unorm {
    open spec fn marked() -> Format {
        Format::R8G8B8A8Unorm
    }

    fn format() -> (r: Format) {
        Format::R8G8B8A8Unorm
    }
}

impl FloatFormatMarker for R8G8B8A8Unorm {
    proof fn lemma_class() {
    }
}

/// Marker of `Format::R8G8B8A8Snorm`.
#[derive(Debug, Copy, Clone)]
#[allow(non_camel_case_types)]
pub struct R8G8B8A8Snorm;

impl FormatMarker for R8G8B8A8Snorm {
    open spec fn marked() -> Format {
        Format::R8G8B8A8Snorm
    }

    fn format() -> (r: Format) {
        Format::R8G8B8A8Snorm
    }
}

impl FloatFormatMarker for R8G8B8A8Snorm {
    proof fn lemma_class() {
    }
}

/// Marker of `Format::R8G8B8A8Uscaled`.
#[derive(Debug, Copy, Clone)]
#[allow(non_camel_case_types)]
pub struct R8G8B8A8Uscaled;

impl FormatMarker for R8G8B8A8Uscaled {
    open spec fn marked() -> Format {
        Format::R8G8B8A8Uscaled
    }

    fn format() -> (r: Format) {
        Format::R8G8B8A8Uscaled
    }
}

impl FloatFormatMarker for R8G8B8A8Uscaled {
    proof fn lemma_class() {
    }
}

/// Marker of `Format::R8G8B8A8Sscaled`.
#[derive(Debug, Copy, Clone)]
#[allow(non_camel_case_types)]
pub struct R8G8B8A8Sscaled;

impl FormatMarker for R8G8B8A8Sscaled {
    open spec fn marked() -> Format {
        Format::R8G8B8A8Sscaled
    }

    fn format() -> (r: Format) {
        Format::R8G8B8A8Sscaled
    }
}

impl FloatFormatMarker for R8G8B8A8Sscaled {
    proof fn lemma_class() {
    }
}

/// Marker of `Format::R8G8B8A8Uint`.
#[derive(Debug, Copy, Clone)]
#[allow(non_camel_case_types)]
pub struct R8G8B8A8Uint;

impl FormatMarker for R8G8B8A8Uint {
    open spec fn marked() -> Format {
        Format::R8G8B8A8Uint
    }

    fn format() -> (r: Format) {
        Format::R8G8B8A8Uint
    }
}

impl UintFormatMarker for R8G8B8A8Uint {
    proof fn lemma_class() {
    }
}

/// Marker of `Format::R8G8B8A8Sint`.
#[derive(Debug, Copy, Clone)]
#[allow(non_camel_case_types)]
pub struct R8G8B8A8Sint;

impl FormatMarker for R8G8B8A8Sint {
    open spec fn marked() -> Format {
        Format::R8G8B8A8Sint
    }

    fn format() -> (r: Format) {
        Format::R8G8B8A8Sint
    }
}

impl SintFormatMarker for R8G8B8A8Sint {
    proof fn lemma_class() {
    }
}

/// Marker of `Format::R8G8B8A8Srgb`.
#[derive(Debug, Copy, Clone)]
#[allow(non_camel_case_types)]
pub struct R8G8B8A8Srgb;

impl FormatMarker for R8G8B8A8Srgb {
    open spec fn marked() -> Format {
        Format::R8G8B8A8Srgb
    }

    fn format() -> (r: Format) {
        Format::R8G8B8A8Srgb
    }
}

impl FloatFormatMarker for R8G8B8A8Srgb {
    proof fn lemma_class() {
    }
}

/// Marker of `Format::B8G8R8A8Unorm`.
#[derive(Debug, Copy, Clone)]
#[allow(non_camel_case_types)]
pub struct B8G8R8A8Unorm;

impl FormatMarker for B8G8R8A8Unorm {
    open spec fn marked() -> Format {
        Format::B8G8R8A8Unorm
    }

    fn format() -> (r: Format) {
        Format::B8G8R8A8Unorm
    }
}

impl FloatFormatMarker for B8G8R8A8Unorm {
    proof fn lemma_class() {
    }
}

/// Marker of `Format::B8G8R8A8Snorm`.
#[derive(Debug, Copy, Clone)]
#[allow(non_camel_case_types)]
pub struct B8G8R8A8Snorm;

impl FormatMarker for B8G8R8A8Snorm {
    open spec fn marked() -> Format {
        Format::B8G8R8A8Snorm
    }

    fn format() -> (r: Format) {
        Format::B8G8R8A8Snorm
    }
}

impl FloatFormatMarker for B8G8R8A8Snorm {
    proof fn lemma_class() {
    }
}

/// Marker of `Format::B8G8R8A8Uscaled`.
#[derive(Debug, Copy, Clone)]
#[allow(non_camel_case_types)]
pub struct B8G8R8A8Uscaled;

impl FormatMarker for B8G8R8A8Uscaled {
    open spec fn marked() -> Format {
        Format::B8G8R8A8Uscaled
    }

    fn format() -> (r: Format) {
        Format::B8G8R8A8Uscaled
    }
}

impl FloatFormatMarker for B8G8R8A8Uscaled {
    proof fn lemma_class() {
    }
}

/// Marker of `Format::B8G8R8A8Sscaled`.
#[derive(Debug, Copy, Clone)]
#[allow(non_camel_case_types)]
pub struct B8G8R8A8Sscaled;

impl FormatMarker for B8G8R8A8Sscaled {
    open spec fn marked() -> Format {
        Format::B8G8R8A8Sscaled
    }

    fn format() -> (r: Format) {
        Format::B8G8R8A8Sscaled
    }
}

impl FloatFormatMarker for B8G8R8A8Sscaled {
    proof fn lemma_class() {
    }
}

/// Marker of `Format::B8G8R8A8Uint`.
#[derive(Debug, Copy, Clone)]
#[allow(non_camel_case_types)]
pub struct B8G8R8A8Uint;

impl FormatMarker for B8G8R8A8Uint {
    open spec fn marked() -> Format {
        Format::B8G8R8A8Uint
    }

    fn format() -> (r: Format) {
        Format::B8G8R8A8Uint
    }
}

impl UintFormatMarker for B8G8R8A8Uint {
    proof fn lemma_class() {
    }
}

/// Marker of `Format::B8G8R8A8Sint`.
#[derive(Debug, Copy, Clone)]
#[allow(non_camel_case_types)]
pub struct B8G8R8A8Sint;

impl FormatMarker for B8G8R8A8Sint {
    open spec fn marked() -> Format {
        Format::B8G8R8A8Sint
    }

    fn format() -> (r: Format) {
        Format::B8G8R8A8Sint
    }
}

impl SintFormatMarker for B8G8R8A8Sint {
    proof fn lemma_class() {
    }
}

/// Marker of `Format::B8G8R8A8Srgb`.
#[derive(Debug, Copy, Clone)]
#[allow(non_camel_case_types)]
pub struct B8G8R8A8Srgb;

impl FormatMarker for B8G8R8A8Srgb {
    open spec fn marked() -> Format {
        Format::B8G8R8A8Srgb
    }

    fn format() -> (r: Format) {
        Format::B8G8R8A8Srgb
    }
}

impl FloatFormatMarker for B8G8R8A8Srgb {
    proof fn lemma_class() {
    }
}

/// Marker of `Format::A8B8G8R8UnormPack32`.
#[derive(Debug, Copy, Clone)]
#[allow(non_camel_case_types)]
pub struct A8B8G8R8UnormPack32;

impl FormatMarker for A8B8G8R8UnormPack32 {
    open spec fn marked() -> Format {
        Format::A8B8G8R8UnormPack32
    }

    fn format() -> (r: Format) {
        Format::A8B8G8R8UnormPack32
    }
}

impl FloatFormatMarker for A8B8G8R8UnormPack32 {
    proof fn lemma_class() {
    }
}

/// Marker of `Format::A8B8G8R8SnormPack32`.
#[derive(Debug, Copy, Clone)]
#[allow(non_camel_case_types)]
pub struct A8B8G8R8SnormPack32;

impl FormatMarker for A8B8G8R8SnormPack32 {
    open spec fn marked() -> Format {
        Format::A8B8G8R8SnormPack32
    }

    fn format() -> (r: Format) {
        Format::A8B8G8R8SnormPack32
    }
}

impl FloatFormatMarker for A8B8G8R8SnormPack32 {
    proof fn lemma_class() {
    }
}

/// Marker of `Format::A8B8G8R8UscaledPack32`.
#[derive(Debug, Copy, Clone)]
#[allow(non_camel_case_types)]
pub struct A8B8G8R8UscaledPack32;

impl FormatMarker for A8B8G8R8UscaledPack32 {
    open spec fn marked() -> Format {
        Format::A8B8G8R8UscaledPack32
    }

    fn format() -> (r: Format) {
        Format::A8B8G8R8UscaledPack32
    }
}

impl FloatFormatMarker for A8B8G8R8UscaledPack32 {
    proof fn lemma_class() {
    }
}

/// Marker of `Format::A8B8G8R8SscaledPack32`.
#[derive(Debug, Copy, Clone)]
#[allow(non_camel_case_types)]
pub struct A8B8G8R8SscaledPack32;

impl FormatMarker for A8B8G8R8SscaledPack32 {
    open spec fn marked() -> Format {
        Format::A8B8G8R8SscaledPack32
    }

    fn format() -> (r: Format) {
        Format::A8B8G8R8SscaledPack32
    }
}

impl FloatFormatMarker for A8B8G8R8SscaledPack32 {
    proof fn lemma_class() {
    }
}

/// Marker of `Format::A8B8G8R8UintPack32`.
#[derive(Debug, Copy, Clone)]
#[allow(non_camel_case_types)]
pub struct A8B8G8R8UintPack32;

impl FormatMarker for A8B8G8R8UintPack32 {
    open spec fn marked() -> Format {
        Format::A8B8G8R8UintPack32
    }

    fn format() -> (r: Format) {
        Format::A8B8G8R8UintPack32
    }
}

impl UintFormatMarker for A8B8G8R8UintPack32 {
    proof fn lemma_class() {
    }
}

/// Marker of `Format::A8B8G8R8SintPack32`.
#[derive(Debug, Copy, Clone)]
#[allow(non_camel_case_types)]
pub struct A8B8G8R8SintPack32;

impl FormatMarker for A8B8G8R8SintPack32 {
    open spec fn marked() -> Format {
        Format::A8B8G8R8SintPack32
    }

    fn format() -> (r: Format) {
        Format::A8B8G8R8SintPack32
    }
}

impl SintFormatMarker for A8B8G8R8SintPack32 {
    proof fn lemma_class() {
    }
}

/// Marker of `Format::A8B8G8R8SrgbPack32`.
#[derive(Debug, Copy, Clone)]
#[allow(non_camel_case_types)]
pub struct A8B8G8R8SrgbPack32;

impl FormatMarker for A8B8G8R8SrgbPack32 {
    open spec fn marked() -> Format {
        Format::A8B8G8R8SrgbPack32
    }

    fn format() -> (r: Format) {
        Format::A8B8G8R8SrgbPack32
    }
}

impl FloatFormatMarker for A8B8G8R8SrgbPack32 {
    proof fn lemma_class() {
    }
}

/// Marker of `Format::A2R10G10B10UnormPack32`.
#[derive(Debug, Copy, Clone)]
#[allow(non_camel_case_types)]
pub struct A2R10G10B10UnormPack32;

impl FormatMarker for A2R10G10B10UnormPack32 {
    open spec fn marked() -> Format {
        Format::A2R10G10B10UnormPack32
    }

    fn format() -> (r: Format) {
        Format::A2R10G10B10UnormPack32
    }
}

impl FloatFormatMarker for A2R10G10B10UnormPack32 {
    proof fn lemma_class() {
    }
}

/// Marker of `Format::A2R10G10B10SnormPack32`.
#[derive(Debug, Copy, Clone)]
#[allow(non_camel_case_types)]
pub struct A2R10G10B10SnormPack32;

impl FormatMarker for A2R10G10B10SnormPack32 {
    open spec fn marked() -> Format {
        Format::A2R10G10B10SnormPack32
    }

    fn format() -> (r: Format) {
        Format::A2R10G10B10SnormPack32
    }
}

impl FloatFormatMarker for A2R10G10B10SnormPack32 {
    proof fn lemma_class() {
    }
}

/// Marker of `Format::A2R10G10B10UscaledPack32`.
#[derive(Debug, Copy, Clone)]
#[allow(non_camel_case_types)]
pub struct A2R10G10B10UscaledPack32;

impl FormatMarker for A2R10G10B10UscaledPack32 {
    open spec fn marked() -> Format {
        Format::A2R10G10B10UscaledPack32
    }

    fn format() -> (r: Format) {
        Format::A2R10G10B10UscaledPack32
    }
}

impl FloatFormatMarker for A2R10G10B10UscaledPack32 {
    proof fn lemma_class() {
    }
}

/// Marker of `Format::A2R10G10B10SscaledPack32`.
#[derive(Debug, Copy, Clone)]
#[allow(non_camel_case_types)]
pub struct A2R10G10B10SscaledPack32;

impl FormatMarker for A2R10G10B10SscaledPack32 {
    open spec fn marked() -> Format {
        Format::A2R10G10B10SscaledPack32
    }

    fn format() -> (r: Format) {
        Format::A2R10G10B10SscaledPack32
    }
}

impl FloatFormatMarker for A2R10G10B10SscaledPack32 {
    proof fn lemma_class() {
    }
}

/// Marker of `Format::A2R10G10B10UintPack32`.
#[derive(Debug, Copy, Clone)]
#[allow(non_camel_case_types)]
pub struct A2R10G10B10UintPack32;

impl FormatMarker for A2R10G10B10UintPack32 {
    open spec fn marked() -> Format {
        Format::A2R10G10B10UintPack32
    }

    fn format() -> (r: Format) {
        Format::A2R10G10B10UintPack32
    }
}

impl UintFormatMarker for A2R10G10B10UintPack32 {
    proof fn lemma_class() {
    }
}

/// Marker of `Format::A2R10G10B10SintPack32`.
#[derive(Debug, Copy, Clone)]
#[allow(non_camel_case_types)]
pub struct A2R10G10B10SintPack32;

impl FormatMarker for A2R10G10B10SintPack32 {
    open spec fn marked() -> Format {
        Format::A2R10G10B10SintPack32
    }

    fn format() -> (r: Format) {
        Format::A2R10G10B10SintPack32
    }
}

impl SintFormatMarker for A2R10G10B10SintPack32 {
    proof fn lemma_class() {
    }
}

/// Marker of `Format::A2B10G10R10UnormPack32`.
#[derive(Debug, Copy, Clone)]
#[allow(non_camel_case_types)]
pub struct A2B10G10R10UnormPack32;

impl FormatMarker for A2B10G10R10UnormPack32 {
    open spec fn marked() -> Format {
        Format::A2B10G10R10UnormPack32
    }

    fn format() -> (r: Format) {
        Format::A2B10G10R10UnormPack32
    }
}

impl FloatFormatMarker for A2B10G10R10UnormPack32 {
    proof fn lemma_class() {
    }
}

/// Marker of `Format::A2B10G10R10SnormPack32`.
#[derive(Debug, Copy, Clone)]
#[allow(non_camel_case_types)]
pub struct A2B10G10R10SnormPack32;

impl FormatMarker for A2B10G10R10SnormPack32 {
    open spec fn marked() -> Format {
        Format::A2B10G10R10SnormPack32
    }

    fn format() -> (r: Format) {
        Format::A2B10G10R10SnormPack32
    }
}

impl FloatFormatMarker for A2B10G10R10SnormPack32 {
    proof fn lemma_class() {
    }
}

/// Marker of `Format::A2B10G10R10UscaledPack32`.
#[derive(Debug, Copy, Clone)]
#[allow(non_camel_case_types)]
pub struct A2B10G10R10UscaledPack32;

impl FormatMarker for A2B10G10R10UscaledPack32 {
    open spec fn marked() -> Format {
        Format::A2B10G10R10UscaledPack32
    }

    fn format() -> (r: Format) {
        Format::A2B10G10R10UscaledPack32
    }
}

impl FloatFormatMarker for A2B10G10R10UscaledPack32 {
    proof fn lemma_class() {
    }
}

/// Marker of `Format::A2B10G10R10SscaledPack32`.
#[derive(Debug, Copy, Clone)]
#[allow(non_camel_case_types)]
pub struct A2B10G10R10SscaledPack32;

impl FormatMarker for A2B10G10R10SscaledPack32 {
    open spec fn marked() -> Format {
        Format::A2B10G10R10SscaledPack32
    }

    fn format() -> (r: Format) {
        Format::A2B10G10R10SscaledPack32
    }
}

impl FloatFormatMarker for A2B10G10R10SscaledPack32 {
    proof fn lemma_class() {
    }
}

/// Marker of `Format::A2B10G10R10UintPack32`.
#[derive(Debug, Copy, Clone)]
#[allow(non_camel_case_types)]
pub struct A2B10G10R10UintPack32;

impl FormatMarker for A2B10G10R10UintPack32 {
    open spec fn marked() -> Format {
        Format::A2B10G10R10UintPack32
    }

    fn format() -> (r: Format) {
        Format::A2B10G10R10UintPack32
    }
}

impl UintFormatMarker for A2B10G10R10UintPack32 {
    proof fn lemma_class() {
    }
}

/// Marker of `Format::A2B10G10R10SintPack32`.
#[derive(Debug, Copy, Clone)]
#[allow(non_camel_case_types)]
pub struct A2B10G10R10SintPack32;

impl FormatMarker for A2B10G10R10SintPack32 {
    open spec fn marked() -> Format {
        Format::A2B10G10R10SintPack32
    }

    fn format() -> (r: Format) {
        Format::A2B10G10R10SintPack32
    }
}

impl SintFormatMarker for A2B10G10R10SintPack32 {
    proof fn lemma_class() {
    }
}

/// Marker of `Format::R16Unorm`.
#[derive(Debug, Copy, Clone)]
#[allow(non_camel_case_types)]
pub struct R16Unorm;

impl FormatMarker for R16Unorm {
    open spec fn marked() -> Format {
        Format::R16Unorm
    }

    fn format() -> (r: Format) {
        Format::R16Unorm
    }
}

impl FloatFormatMarker for R16Unorm {
    proof fn lemma_class() {
    }
}

/// Marker of `Format::R16Snorm`.
#[derive(Debug, Copy, Clone)]
#[allow(non_camel_case_types)]
pub struct R16Snorm;

impl FormatMarker for R16Snorm {
    open spec fn marked() -> Format {
        Format::R16Snorm
    }

    fn format() -> (r: Format) {
        Format::R16Snorm
    }
}

impl FloatFormatMarker for R16Snorm {
    proof fn lemma_class() {
    }
}

/// Marker of `Format::R16Uscaled`.
#[derive(Debug, Copy, Clone)]
#[allow(non_camel_case_types)]
pub struct R16Uscaled;

impl FormatMarker for R16Uscaled {
    open spec fn marked() -> Format {
        Format::R16Uscaled
    }

    fn format() -> (r: Format) {
        Format::R16Uscaled
    }
}

impl FloatFormatMarker for R16Uscaled {
    proof fn lemma_class() {
    }
}

/// Marker of `Format::R16Sscaled`.
#[derive(Debug, Copy, Clone)]
#[allow(non_camel_case_types)]
pub struct R16Sscaled;

impl FormatMarker for R16Sscaled {
    open spec fn marked() -> Format {
        Format::R16Sscaled
    }

    fn format() -> (r: Format) {
        Format::R16Sscaled
    }
}

impl FloatFormatMarker for R16Sscaled {
    proof fn lemma_class() {
    }
}

/// Marker of `Format::R16Uint`.
#[derive(Debug, Copy, Clone)]
#[allow(non_camel_case_types)]
pub struct R16Uint;

impl FormatMarker for R16Uint {
    open spec fn marked() -> Format {
        Format::R16Uint
    }

    fn format() -> (r: Format) {
        Format::R16Uint
    }
}

impl UintFormatMarker for R16Uint {
    proof fn lemma_class() {
    }
}

/// Marker of `Format::R16Sint`.
#[derive(Debug, Copy, Clone)]
#[allow(non_camel_case_types)]
pub struct R16Sint;

impl FormatMarker for R16Sint {
    open spec fn marked() -> Format {
        Format::R16Sint
    }

    fn format() -> (r: Format) {
        Format::R16Sint
    }
}

impl SintFormatMarker for R16Sint {
    proof fn lemma_class() {
    }
}

/// Marker of `Format::R16Sfloat`.
#[derive(Debug, Copy, Clone)]
#[allow(non_camel_case_types)]
pub struct R16Sfloat;

impl FormatMarker for R16Sfloat {
    open spec fn marked() -> Format {
        Format::R16Sfloat
    }

    fn format() -> (r: Format) {
        Format::R16Sfloat
    }
}

impl FloatFormatMarker for R16Sfloat {
    proof fn lemma_class() {
    }
}

/// Marker of `Format::R16G16Unorm`.
#[derive(Debug, Copy, Clone)]
#[allow(non_camel_case_types)]
pub struct R16G16Unorm;

impl FormatMarker for R16G16Unorm {
    open spec fn marked() -> Format {
        Format::R16G16Unorm
    }

    fn format() -> (r: Format) {
        Format::R16G16Unorm
    }
}

impl FloatFormatMarker for R16G16Unorm {
    proof fn lemma_class() {
    }
}

/// Marker of `Format::R16G16Snorm`.
#[derive(Debug, Copy, Clone)]
#[allow(non_camel_case_types)]
pub struct R16G16Snorm;

impl FormatMarker for R16G16Snorm {
    open spec fn marked() -> Format {
        Format::R16G16Snorm
    }

    fn format() -> (r: Format) {
        Format::R16G16Snorm
    }
}

impl FloatFormatMarker for R16G16Snorm {
    proof fn lemma_class() {
    }
}

/// Marker of `Format::R16G16Uscaled`.
#[derive(Debug, Copy, Clone)]
#[allow(non_camel_case_types)]
pub struct R16G16Uscaled;

impl FormatMarker for R16G16Uscaled {
    open spec fn marked() -> Format {
        Format::R16G16Uscaled
    }

    fn format() -> (r: Format) {
        Format::R16G16Uscaled
    }
}

impl FloatFormatMarker for R16G16Uscaled {
    proof fn lemma_class() {
    }
}

/// Marker of `Format::R16G16Sscaled`.
#[derive(Debug, Copy, Clone)]
#[allow(non_camel_case_types)]
pub struct R16G16Sscaled;

impl FormatMarker for R16G16Sscaled {
    open spec fn marked() -> Format {
        Format::R16G16Sscaled
    }

    fn format() -> (r: Format) {
        Format::R16G16Sscaled
    }
}

impl FloatFormatMarker for R16G16Sscaled {
    proof fn lemma_class() {
    }
}

/// Marker of `Format::R16G16Uint`.
#[derive(Debug, Copy, Clone)]
#[allow(non_camel_case_types)]
pub struct R16G16Uint;

impl FormatMarker for R16G16Uint {
    open spec fn marked() -> Format {
        Format::R16G16Uint
    }

    fn format() -> (r: Format) {
        Format::R16G16Uint
    }
}

impl UintFormatMarker for R16G16Uint {
    proof fn lemma_class() {
    }
}

/// Marker of `Format::R16G16Sint`.
#[derive(Debug, Copy, Clone)]
#[allow(non_camel_case_types)]
pub struct R16G16Sint;

impl FormatMarker for R16G16Sint {
    open spec fn marked() -> Format {
        Format::R16G16Sint
    }

    fn format() -> (r: Format) {
        Format::R16G16Sint
    }
}

impl SintFormatMarker for R16G16Sint {
    proof fn lemma_class() {
    }
}

/// Marker of `Format::R16G16Sfloat`.
#[derive(Debug, Copy, Clone)]
#[allow(non_camel_case_types)]
pub struct R16G16Sfloat;

impl FormatMarker for R16G16Sfloat {
    open spec fn marked() -> Format {
        Format::R16G16Sfloat
    }

    fn format() -> (r: Format) {
        Format::R16G16Sfloat
    }
}

impl FloatFormatMarker for R16G16Sfloat {
    proof fn lemma_class() {
    }
}

/// Marker of `Format::R16G16B16Unorm`.
#[derive(Debug, Copy, Clone)]
#[allow(non_camel_case_types)]
pub struct R16G16B16Unorm;

impl FormatMarker for R16G16B16Unorm {
    open spec fn marked() -> Format {
        Format::R16G16B16Unorm
    }

    fn format() -> (r: Format) {
        Format::R16G16B16Unorm
    }
}

impl FloatFormatMarker for R16G16B16Unorm {
    proof fn lemma_class() {
    }
}

/// Marker of `Format::R16G16B16Snorm`.
#[derive(Debug, Copy, Clone)]
#[allow(non_camel_case_types)]
pub struct R16G16B16Snorm;

impl FormatMarker for R16G16B16Snorm {
    open spec fn marked() -> Format {
        Format::R16G16B16Snorm
    }

    fn format() -> (r: Format) {
        Format::R16G16B16Snorm
    }
}

impl FloatFormatMarker for R16G16B16Snorm {
    proof fn lemma_class() {
    }
}

/// Marker of `Format::R16G16B16Uscaled`.
#[derive(Debug, Copy, Clone)]
#[allow(non_camel_case_types)]
pub struct R16G16B16Uscaled;

impl FormatMarker for R16G16B16Uscaled {
    open spec fn marked() -> Format {
        Format::R16G16B16Uscaled
    }

    fn format() -> (r: Format) {
        Format::R16G16B16Uscaled
    }
}

impl FloatFormatMarker for R16G16B16Uscaled {
    proof fn lemma_class() {
    }
}

/// Marker of `Format::R16G16B16Sscaled`.
#[derive(Debug, Copy, Clone)]
#[allow(non_camel_case_types)]
pub struct R16G16B16Sscaled;

impl FormatMarker for R16G16B16Sscaled {
    open spec fn marked() -> Format {
        Format::R16G16B16Sscaled
    }

    fn format() -> (r: Format) {
        Format::R16G16B16Sscaled
    }
}

impl FloatFormatMarker for R16G16B16Sscaled {
    proof fn lemma_class() {
    }
}

/// Marker of `Format::R16G16B16Uint`.
#[derive(Debug, Copy, Clone)]
#[allow(non_camel_case_types)]
pub struct R16G16B16Uint;

impl FormatMarker for R16G16B16Uint {
    open spec fn marked() -> Format {
        Format::R16G16B16Uint
    }

    fn format() -> (r: Format) {
        Format::R16G16B16Uint
    }
}

impl UintFormatMarker for R16G16B16Uint {
    proof fn lemma_class() {
    }
}

/// Marker of `Format::R16G16B16Sint`.
#[derive(Debug, Copy, Clone)]
#[allow(non_camel_case_types)]
pub struct R16G16B16Sint;

impl FormatMarker for R16G16B16Sint {
    open spec fn marked() -> Format {
        Format::R16G16B16Sint
    }

    fn format() -> (r: Format) {
        Format::R16G16B16Sint
    }
}

impl SintFormatMarker for R16G16B16Sint {
    proof fn lemma_class() {
    }
}

/// Marker of `Format::R16G16B16Sfloat`.
#[derive(Debug, Copy, Clone)]
#[allow(non_camel_case_types)]
pub struct R16G16B16Sfloat;

impl FormatMarker for R16G16B16Sfloat {
    open spec fn marked() -> Format {
        Format::R16G16B16Sfloat
    }

    fn format() -> (r: Format) {
        Format::R16G16B16Sfloat
    }
}

impl FloatFormatMarker for R16G16B16Sfloat {
    proof fn lemma_class() {
    }
}

/// Marker of `Format::R16G16B16A16Unorm`.
#[derive(Debug, Copy, Clone)]
#[allow(non_camel_case_types)]
pub struct R16G16B16A16Unorm;

impl FormatMarker for R16G16B16A16Unorm {
    open spec fn marked() -> Format {
        Format::R16G16B16A16Unorm
    }

    fn format() -> (r: Format) {
        Format::R16G16B16A16Unorm
    }
}

impl FloatFormatMarker for R16G16B16A16Unorm {
    proof fn lemma_class() {
    }
}

/// Marker of `Format::R16G16B16A16Snorm`.
#[derive(Debug, Copy, Clone)]
#[allow(non_camel_case_types)]
pub struct R16G16B16A16Snorm;

impl FormatMarker for R16G16B16A16Snorm {
    open spec fn marked() -> Format {
        Format::R16G16B16A16Snorm
    }

    fn format() -> (r: Format) {
        Format::R16G16B16A16Snorm
    }
}

impl FloatFormatMarker for R16G16B16A16Snorm {
    proof fn lemma_class() {
    }
}

/// Marker of `Format::R16G16B16A16Uscaled`.
#[derive(Debug, Copy, Clone)]
#[allow(non_camel_case_types)]
pub struct R16G16B16A16Uscaled;

impl FormatMarker for R16G16B16A16Uscaled {
    open spec fn marked() -> Format {
        Format::R16G16B16A16Uscaled
    }

    fn format() -> (r: Format) {
        Format::R16G16B16A16Uscaled
    }
}

impl FloatFormatMarker for R16G16B16A16Uscaled {
    proof fn lemma_class() {
    }
}

/// Marker of `Format::R16G16B16A16Sscaled`.
#[derive(Debug, Copy, Clone)]
#[allow(non_camel_case_types)]
pub struct R16G16B16A16Sscaled;

impl FormatMarker for R16G16B16A16Sscaled {
    open spec fn marked() -> Format {
        Format::R16G16B16A16Sscaled
    }

    fn format() -> (r: Format) {
        Format::R16G16B16A16Sscaled
    }
}

impl FloatFormatMarker for R16G16B16A16Sscaled {
    proof fn lemma_class() {
    }
}

/// Marker of `Format::R16G16B16A16Uint`.
#[derive(Debug, Copy, Clone)]
#[allow(non_camel_case_types)]
pub struct R16G16B16A16Uint;

impl FormatMarker for R16G16B16A16Uint {
    open spec fn marked() -> Format {
        Format::R16G16B16A16Uint
    }

    fn format() -> (r: Format) {
        Format::R16G16B16A16Uint
    }
}

impl UintFormatMarker for R16G16B16A16Uint {
    proof fn lemma_class() {
    }
}

/// Marker of `Format::R16G16B16A16Sint`.
#[derive(Debug, Copy, Clone)]
#[allow(non_camel_case_types)]
pub struct R16G16B16A16Sint;

impl FormatMarker for R16G16B16A16Sint {
    open spec fn marked() -> Format {
        Format::R16G16B16A16Sint
    }

    fn format() -> (r: Format) {
        Format::R16G16B16A16Sint
    }
}

impl SintFormatMarker for R16G16B16A16Sint {
    proof fn lemma_class() {
    }
}

/// Marker of `Format::R16G16B16A16Sfloat`.
#[derive(Debug, Copy, Clone)]
#[allow(non_camel_case_types)]
pub struct R16G16B16A16Sfloat;

impl FormatMarker for R16G16B16A16Sfloat {
    open spec fn marked() -> Format {
        Format::R16G16B16A16Sfloat
    }

    fn format() -> (r: Format) {
        Format::R16G16B16A16Sfloat
    }
}

impl FloatFormatMarker for R16G16B16A16Sfloat {
    proof fn lemma_class() {
    }
}

/// Marker of `Format::R32Uint`.
#[derive(Debug, Copy, Clone)]
#[allow(non_camel_case_types)]
pub struct R32Uint;

impl FormatMarker for R32Uint {
    open spec fn marked() -> Format {
        Format::R32Uint
    }

    fn format() -> (r: Format) {
        Format::R32Uint
    }
}

impl UintFormatMarker for R32Uint {
    proof fn lemma_class() {
    }
}

/// Marker of `Format::R32Sint`.
#[derive(Debug, Copy, Clone)]
#[allow(non_camel_case_types)]
pub struct R32Sint;

impl FormatMarker for R32Sint {
    open spec fn marked() -> Format {
        Format::R32Sint
    }

    fn format() -> (r: Format) {
        Format::R32Sint
    }
}

impl SintFormatMarker for R32Sint {
    proof fn lemma_class() {
    }
}

/// Marker of `Format::R32Sfloat`.
#[derive(Debug, Copy, Clone)]
#[allow(non_camel_case_types)]
pub struct R32Sfloat;

impl FormatMarker for R32Sfloat {
    open spec fn marked() -> Format {
        Format::R32Sfloat
    }

    fn format() -> (r: Format) {
        Format::R32Sfloat
    }
}

impl FloatFormatMarker for R32Sfloat {
    proof fn lemma_class() {
    }
}

/// Marker of `Format::R32G32Uint`.
#[derive(Debug, Copy, Clone)]
#[allow(non_camel_case_types)]
pub struct R32G32Uint;

impl FormatMarker for R32G32Uint {
    open spec fn marked() -> Format {
        Format::R32G32Uint
    }

    fn format() -> (r: Format) {
        Format::R32G32Uint
    }
}

impl UintFormatMarker for R32G32Uint {
    proof fn lemma_class() {
    }
}

/// Marker of `Format::R32G32Sint`.
#[derive(Debug, Copy, Clone)]
#[allow(non_camel_case_types)]
pub struct R32G32Sint;

impl FormatMarker for R32G32Sint {
    open spec fn marked() -> Format {
        Format::R32G32Sint
    }

    fn format() -> (r: Format) {
        Format::R32G32Sint
    }
}

impl SintFormatMarker for R32G32Sint {
    proof fn lemma_class() {
    }
}

/// Marker of `Format::R32G32Sfloat`.
#[derive(Debug, Copy, Clone)]
#[allow(non_camel_case_types)]
pub struct R32G32Sfloat;

impl FormatMarker for R32G32Sfloat {
    open spec fn marked() -> Format {
        Format::R32G32Sfloat
    }

    fn format() -> (r: Format) {
        Format::R32G32Sfloat
    }
}

impl FloatFormatMarker for R32G32Sfloat {
    proof fn lemma_class() {
    }
}

/// Marker of `Format::R32G32B32Uint`.
#[derive(Debug, Copy, Clone)]
#[allow(non_camel_case_types)]
pub struct R32G32B32Uint;

impl FormatMarker for R32G32B32Uint {
    open spec fn marked() -> Format {
        Format::R32G32B32Uint
    }

    fn format() -> (r: Format) {
        Format::R32G32B32Uint
    }
}

impl UintFormatMarker for R32G32B32Uint {
    proof fn lemma_class() {
    }
}

/// Marker of `Format::R32G32B32Sint`.
#[derive(Debug, Copy, Clone)]
#[allow(non_camel_case_types)]
pub struct R32G32B32Sint;

impl FormatMarker for R32G32B32Sint {
    open spec fn marked() -> Format {
        Format::R32G32B32Sint
    }

    fn format() -> (r: Format) {
        Format::R32G32B32Sint
    }
}

impl SintFormatMarker for R32G32B32Sint {
    proof fn lemma_class() {
    }
}

/// Marker of `Format::R32G32B32Sfloat`.
#[derive(Debug, Copy, Clone)]
#[allow(non_camel_case_types)]
pub struct R32G32B32Sfloat;

impl FormatMarker for R32G32B32Sfloat {
    open spec fn marked() -> Format {
        Format::R32G32B32Sfloat
    }

    fn format() -> (r: Format) {
        Format::R32G32B32Sfloat
    }
}

impl FloatFormatMarker for R32G32B32Sfloat {
    proof fn lemma_class() {
    }
}

/// Marker of `Format::R32G32B32A32Uint`.
#[derive(Debug, Copy, Clone)]
#[allow(non_camel_case_types)]
pub struct R32G32B32A32Uint;

impl FormatMarker for R32G32B32A32Uint {
    open spec fn marked() -> Format {
        Format::R32G32B32A32Uint
    }

    fn format() -> (r: Format) {
        Format::R32G32B32A32Uint
    }
}

impl UintFormatMarker for R32G32B32A32Uint {
    proof fn lemma_class() {
    }
}

/// Marker of `Format::R32G32B32A32Sint`.
#[derive(Debug, Copy, Clone)]
#[allow(non_camel_case_types)]
pub struct R32G32B32A32Sint;

impl FormatMarker for R32G32B32A32Sint {
    open spec fn marked() -> Format {
        Format::R32G32B32A32Sint
    }

    fn format() -> (r: Format) {
        Format::R32G32B32A32Sint
    }
}

impl SintFormatMarker for R32G32B32A32Sint {
    proof fn lemma_class() {
    }
}

/// Marker of `Format::R32G32B32A32Sfloat`.
#[derive(Debug, Copy, Clone)]
#[allow(non_camel_case_types)]
pub struct R32G32B32A32Sfloat;

impl FormatMarker for R32G32B32A32Sfloat {
    open spec fn marked() -> Format {
        Format::R32G32B32A32Sfloat
    }

    fn format() -> (r: Format) {
        Format::R32G32B32A32Sfloat
    }
}

impl FloatFormatMarker for R32G32B32A32Sfloat {
    proof fn lemma_class() {
    }
}

/// Marker of `Format::R64Uint`.
#[derive(Debug, Copy, Clone)]
#[allow(non_camel_case_types)]
pub struct R64Uint;

impl FormatMarker for R64Uint {
    open spec fn marked() -> Format {
        Format::R64Uint
    }

    fn format() -> (r: Format) {
        Format::R64Uint
    }
}

impl UintFormatMarker for R64Uint {
    proof fn lemma_class() {
    }
}

/// Marker of `Format::R64Sint`.
#[derive(Debug, Copy, Clone)]
#[allow(non_camel_case_types)]
pub struct R64Sint;

impl FormatMarker for R64Sint {
    open spec fn marked() -> Format {
        Format::R64Sint
    }

    fn format() -> (r: Format) {
        Format::R64Sint
    }
}

impl SintFormatMarker for R64Sint {
    proof fn lemma_class() {
    }
}

/// Marker of `Format::R64Sfloat`.
#[derive(Debug, Copy, Clone)]
#[allow(non_camel_case_types)]
pub struct R64Sfloat;

impl FormatMarker for R64Sfloat {
    open spec fn marked() -> Format {
        Format::R64Sfloat
    }

    fn format() -> (r: Format) {
        Format::R64Sfloat
    }
}

impl FloatFormatMarker for R64Sfloat {
    proof fn lemma_class() {
    }
}

/// Marker of `Format::R64G64Uint`.
#[derive(Debug, Copy, Clone)]
#[allow(non_camel_case_types)]
pub struct R64G64Uint;

impl FormatMarker for R64G64Uint {
    open spec fn marked() -> Format {
        Format::R64G64Uint
    }

    fn format() -> (r: Format) {
        Format::R64G64Uint
    }
}

impl UintFormatMarker for R64G64Uint {
    proof fn lemma_class() {
    }
}

/// Marker of `Format::R64G64Sint`.
#[derive(Debug, Copy, Clone)]
#[allow(non_camel_case_types)]
pub struct R64G64Sint;

impl FormatMarker for R64G64Sint {
    open spec fn marked() -> Format {
        Format::R64G64Sint
    }

    fn format() -> (r: Format) {
        Format::R64G64Sint
    }
}

impl SintFormatMarker for R64G64Sint {
    proof fn lemma_class() {
    }
}

/// Marker of `Format::R64G64Sfloat`.
#[derive(Debug, Copy, Clone)]
#[allow(non_camel_case_types)]
pub struct R64G64Sfloat;

impl FormatMarker for R64G64Sfloat {
    open spec fn marked() -> Format {
        Format::R64G64Sfloat
    }

    fn format() -> (r: Format) {
        Format::R64G64Sfloat
    }
}

impl FloatFormatMarker for R64G64Sfloat {
    proof fn lemma_class() {
    }
}

/// Marker of `Format::R64G64B64Uint`.
#[derive(Debug, Copy, Clone)]
#[allow(non_camel_case_types)]
pub struct R64G64B64Uint;

impl FormatMarker for R64G64B64Uint {
    open spec fn marked() -> Format {
        Format::R64G64B64Uint
    }

    fn format() -> (r: Format) {
        Format::R64G64B64Uint
    }
}

impl UintFormatMarker for R64G64B64Uint {
    proof fn lemma_class() {
    }
}

/// Marker of `Format::R64G64B64Sint`.
#[derive(Debug, Copy, Clone)]
#[allow(non_camel_case_types)]
pub struct R64G64B64Sint;

impl FormatMarker for R64G64B64Sint {
    open spec fn marked() -> Format {
        Format::R64G64B64Sint
    }

    fn format() -> (r: Format) {
        Format::R64G64B64Sint
    }
}

impl SintFormatMarker for R64G64B64Sint {
    proof fn lemma_class() {
    }
}

/// Marker of `Format::R64G64B64Sfloat`.
#[derive(Debug, Copy, Clone)]
#[allow(non_camel_case_types)]
pub struct R64G64B64Sfloat;

impl FormatMarker for R64G64B64Sfloat {
    open spec fn marked() -> Format {
        Format::R64G64B64Sfloat
    }

    fn format() -> (r: Format) {
        Format::R64G64B64Sfloat
    }
}

impl FloatFormatMarker for R64G64B64Sfloat {
    proof fn lemma_class() {
    }
}

/// Marker of `Format::R64G64B64A64Uint`.
#[derive(Debug, Copy, Clone)]
#[allow(non_camel_case_types)]
pub struct R64G64B64A64Uint;

impl FormatMarker for R64G64B64A64Uint {
    open spec fn marked() -> Format {
        Format::R64G64B64A64Uint
    }

    fn format() -> (r: Format) {
        Format::R64G64B64A64Uint
    }
}

impl UintFormatMarker for R64G64B64A64Uint {
    proof fn lemma_class() {
    }
}

/// Marker of `Format::R64G64B64A64Sint`.
#[derive(Debug, Copy, Clone)]
#[allow(non_camel_case_types)]
pub struct R64G64B64A64Sint;

impl FormatMarker for R64G64B64A64Sint {
    open spec fn marked() -> Format {
        Format::R64G64B64A64Sint
    }

    fn format() -> (r: Format) {
        Format::R64G64B64A64Sint
    }
}

impl SintFormatMarker for R64G64B64A64Sint {
    proof fn lemma_class() {
    }
}

/// Marker of `Format::R64G64B64A64Sfloat`.
#[derive(Debug, Copy, Clone)]
#[allow(non_camel_case_types)]
pub struct R64G64B64A64Sfloat;

impl FormatMarker for R64G64B64A64Sfloat {
    open spec fn marked() -> Format {
        Format::R64G64B64A64Sfloat
    }

    fn format() -> (r: Format) {
        Format::R64G64B64A64Sfloat
    }
}

impl FloatFormatMarker for R64G64B64A64Sfloat {
    proof fn lemma_class() {
    }
}

/// Marker of `Format::B10G11R11UfloatPack32`.
#[derive(Debug, Copy, Clone)]
#[allow(non_camel_case_types)]
pub struct B10G11R11UfloatPack32;

impl FormatMarker for B10G11R11UfloatPack32 {
    open spec fn marked() -> Format {
        Format::B10G11R11UfloatPack32
    }

    fn format() -> (r: Format) {
        Format::B10G11R11UfloatPack32
    }
}

impl FloatFormatMarker for B10G11R11UfloatPack32 {
    proof fn lemma_class() {
    }
}

/// Marker of `Format::E5B9G9R9UfloatPack32`.
#[derive(Debug, Copy, Clone)]
#[allow(non_camel_case_types)]
pub struct E5B9G9R9UfloatPack32;

impl FormatMarker for E5B9G9R9UfloatPack32 {
    open spec fn marked() -> Format {
        Format::E5B9G9R9UfloatPack32
    }

    fn format() -> (r: Format) {
        Format::E5B9G9R9UfloatPack32
    }
}

impl FloatFormatMarker for E5B9G9R9UfloatPack32 {
    proof fn lemma_class() {
    }
}

/// Marker of `Format::D16Unorm`.
#[derive(Debug, Copy, Clone)]
#[allow(non_camel_case_types)]
pub struct D16Unorm;

impl FormatMarker for D16Unorm {
    open spec fn marked() -> Format {
        Format::D16Unorm
    }

    fn format() -> (r: Format) {
        Format::D16Unorm
    }
}

impl DepthFormatMarker for D16Unorm {
    proof fn lemma_class() {
    }
}

/// Marker of `Format::X8_D24UnormPack32`.
#[derive(Debug, Copy, Clone)]
#[allow(non_camel_case_types)]
pub struct X8_D24UnormPack32;

impl FormatMarker for X8_D24UnormPack32 {
    open spec fn marked() -> Format {
        Format::X8_D24UnormPack32
    }

    fn format() -> (r: Format) {
        Format::X8_D24UnormPack32
    }
}

impl DepthFormatMarker for X8_D24UnormPack32 {
    proof fn lemma_class() {
    }
}

/// Marker of `Format::D32Sfloat`.
#[derive(Debug, Copy, Clone)]
#[allow(non_camel_case_types)]
pub struct D32Sfloat;

impl FormatMarker for D32Sfloat {
    open spec fn marked() -> Format {
        Format::D32Sfloat
    }

    fn format() -> (r: Format) {
        Format::D32Sfloat
    }
}

impl DepthFormatMarker for D32Sfloat {
    proof fn lemma_class() {
    }
}

/// Marker of `Format::S8Uint`.
#[derive(Debug, Copy, Clone)]
#[allow(non_camel_case_types)]
pub struct S8Uint;

impl FormatMarker for S8Uint {
    open spec fn marked() -> Format {
        Format::S8Uint
    }

    fn format() -> (r: Format) {
        Format::S8Uint
    }
}

impl StencilFormatMarker for S8Uint {
    proof fn lemma_class() {
    }
}

/// Marker of `Format::D16Unorm_S8Uint`.
#[derive(Debug, Copy, Clone)]
#[allow(non_camel_case_types)]
pub struct D16Unorm_S8Uint;

impl FormatMarker for D16Unorm_S8Uint {
    open spec fn marked() -> Format {
        Format::D16Unorm_S8Uint
    }

    fn format() -> (r: Format) {
        Format::D16Unorm_S8Uint
    }
}

impl DepthStencilFormatMarker for D16Unorm_S8Uint {
    proof fn lemma_class() {
    }
}

/// Marker of `Format::D24Unorm_S8Uint`.
#[derive(Debug, Copy, Clone)]
#[allow(non_camel_case_types)]
pub struct D24Unorm_S8Uint;

impl FormatMarker for D24Unorm_S8Uint {
    open spec fn marked() -> Format {
        Format::D24Unorm_S8Uint
    }

    fn format() -> (r: Format) {
        Format::D24Unorm_S8Uint
    }
}

impl DepthStencilFormatMarker for D24Unorm_S8Uint {
    proof fn lemma_class() {
    }
}

/// Marker of `Format::D32Sfloat_S8Uint`.
#[derive(Debug, Copy, Clone)]
#[allow(non_camel_case_types)]
pub struct D32Sfloat_S8Uint;

impl FormatMarker for D32Sfloat_S8Uint {
    open spec fn marked() -> Format {
        Format::D32Sfloat_S8Uint
    }

    fn format() -> (r: Format) {
        Format::D32Sfloat_S8Uint
    }
}

impl DepthStencilFormatMarker for D32Sfloat_S8Uint {
    proof fn lemma_class() {
    }
}

/// Marker of `Format::BC1_RGBUnormBlock`.
#[derive(Debug, Copy, Clone)]
#[allow(non_camel_case_types)]
pub struct BC1_RGBUnormBlock;

impl FormatMarker for BC1_RGBUnormBlock {
    open spec fn marked() -> Format {
        Format::BC1_RGBUnormBlock
    }

    fn format() -> (r: Format) {
        Format::BC1_RGBUnormBlock
    }
}

impl CompressedFormatMarker for BC1_RGBUnormBlock {
    proof fn lemma_class() {
    }
}

/// Marker of `Format::BC1_RGBSrgbBlock`.
#[derive(Debug, Copy, Clone)]
#[allow(non_camel_case_types)]
pub struct BC1_RGBSrgbBlock;

impl FormatMarker for BC1_RGBSrgbBlock {
    open spec fn marked() -> Format {
        Format::BC1_RGBSrgbBlock
    }

    fn format() -> (r: Format) {
        Format::BC1_RGBSrgbBlock
    }
}

impl CompressedFormatMarker for BC1_RGBSrgbBlock {
    proof fn lemma_class() {
    }
}

/// Marker of `Format::BC1_RGBAUnormBlock`.
#[derive(Debug, Copy, Clone)]
#[allow(non_camel_case_types)]
pub struct BC1_RGBAUnormBlock;

impl FormatMarker for BC1_RGBAUnormBlock {
    open spec fn marked() -> Format {
        Format::BC1_RGBAUnormBlock
    }

    fn format() -> (r: Format) {
        Format::BC1_RGBAUnormBlock
    }
}

impl CompressedFormatMarker for BC1_RGBAUnormBlock {
    proof fn lemma_class() {
    }
}

/// Marker of `Format::BC1_RGBASrgbBlock`.
#[derive(Debug, Copy, Clone)]
#[allow(non_camel_case_types)]
pub struct BC1_RGBASrgbBlock;

impl FormatMarker for BC1_RGBASrgbBlock {
    open spec fn marked() -> Format {
        Format::BC1_RGBASrgbBlock
    }

    fn format() -> (r: Format) {
        Format::BC1_RGBASrgbBlock
    }
}

impl CompressedFormatMarker for BC1_RGBASrgbBlock {
    proof fn lemma_class() {
    }
}

/// Marker of `Format::BC2UnormBlock`.
#[derive(Debug, Copy, Clone)]
#[allow(non_camel_case_types)]
pub struct BC2UnormBlock;

impl FormatMarker for BC2UnormBlock {
    open spec fn marked() -> Format {
        Format::BC2UnormBlock
    }

    fn format() -> (r: Format) {
        Format::BC2UnormBlock
    }
}

impl CompressedFormatMarker for BC2UnormBlock {
    proof fn lemma_class() {
    }
}

/// Marker of `Format::BC2SrgbBlock`.
#[derive(Debug, Copy, Clone)]
#[allow(non_camel_case_types)]
pub struct BC2SrgbBlock;

impl FormatMarker for BC2SrgbBlock {
    open spec fn marked() -> Format {
        Format::BC2SrgbBlock
    }

    fn format() -> (r: Format) {
        Format::BC2SrgbBlock
    }
}

impl CompressedFormatMarker for BC2SrgbBlock {
    proof fn lemma_class() {
    }
}

/// Marker of `Format::BC3UnormBlock`.
#[derive(Debug, Copy, Clone)]
#[allow(non_camel_case_types)]
pub struct BC3UnormBlock;

impl FormatMarker for BC3UnormBlock {
    open spec fn marked() -> Format {
        Format::BC3UnormBlock
    }

    fn format() -> (r: Format) {
        Format::BC3UnormBlock
    }
}

impl CompressedFormatMarker for BC3UnormBlock {
    proof fn lemma_class() {
    }
}

/// Marker of `Format::BC3SrgbBlock`.
#[derive(Debug, Copy, Clone)]
#[allow(non_camel_case_types)]
pub struct BC3SrgbBlock;

impl FormatMarker for BC3SrgbBlock {
    open spec fn marked() -> Format {
        Format::BC3SrgbBlock
    }

    fn format() -> (r: Format) {
        Format::BC3SrgbBlock
    }
}

impl CompressedFormatMarker for BC3SrgbBlock {
    proof fn lemma_class() {
    }
}

/// Marker of `Format::BC4UnormBlock`.
#[derive(Debug, Copy, Clone)]
#[allow(non_camel_case_types)]
pub struct BC4UnormBlock;

impl FormatMarker for BC4UnormBlock {
    open spec fn marked() -> Format {
        Format::BC4UnormBlock
    }

    fn format() -> (r: Format) {
        Format::BC4UnormBlock
    }
}

impl CompressedFormatMarker for BC4UnormBlock {
    proof fn lemma_class() {
    }
}

/// Marker of `Format::BC4SnormBlock`.
#[derive(Debug, Copy, Clone)]
#[allow(non_camel_case_types)]
pub struct BC4SnormBlock;

impl FormatMarker for BC4SnormBlock {
    open spec fn marked() -> Format {
        Format::BC4SnormBlock
    }

    fn format() -> (r: Format) {
        Format::BC4SnormBlock
    }
}

impl CompressedFormatMarker for BC4SnormBlock {
    proof fn lemma_class() {
    }
}

/// Marker of `Format::BC5UnormBlock`.
#[derive(Debug, Copy, Clone)]
#[allow(non_camel_case_types)]
pub struct BC5UnormBlock;

impl FormatMarker for BC5UnormBlock {
    open spec fn marked() -> Format {
        Format::BC5UnormBlock
    }

    fn format() -> (r: Format) {
        Format::BC5UnormBlock
    }
}

impl CompressedFormatMarker for BC5UnormBlock {
    proof fn lemma_class() {
    }
}

/// Marker of `Format::BC5SnormBlock`.
#[derive(Debug, Copy, Clone)]
#[allow(non_camel_case_types)]
pub struct BC5SnormBlock;

impl FormatMarker for BC5SnormBlock {
    open spec fn marked() -> Format {
        Format::BC5SnormBlock
    }

    fn format() -> (r: Format) {
        Format::BC5SnormBlock
    }
}

impl CompressedFormatMarker for BC5SnormBlock {
    proof fn lemma_class() {
    }
}

/// Marker of `Format::BC6HUfloatBlock`.
#[derive(Debug, Copy, Clone)]
#[allow(non_camel_case_types)]
pub struct BC6HUfloatBlock;

impl FormatMarker for BC6HUfloatBlock {
    open spec fn marked() -> Format {
        Format::BC6HUfloatBlock
    }

    fn format() -> (r: Format) {
        Format::BC6HUfloatBlock
    }
}

impl CompressedFormatMarker for BC6HUfloatBlock {
    proof fn lemma_class() {
    }
}

/// Marker of `Format::BC6HSfloatBlock`.
#[derive(Debug, Copy, Clone)]
#[allow(non_camel_case_types)]
pub struct BC6HSfloatBlock;

impl FormatMarker for BC6HSfloatBlock {
    open spec fn marked() -> Format {
        Format::BC6HSfloatBlock
    }

    fn format() -> (r: Format) {
        Format::BC6HSfloatBlock
    }
}

impl CompressedFormatMarker for BC6HSfloatBlock {
    proof fn lemma_class() {
    }
}

/// Marker of `Format::BC7UnormBlock`.
#[derive(Debug, Copy, Clone)]
#[allow(non_camel_case_types)]
pub struct BC7UnormBlock;

impl FormatMarker for BC7UnormBlock {
    open spec fn marked() -> Format {
        Format::BC7UnormBlock
    }

    fn format() -> (r: Format) {
        Format::BC7UnormBlock
    }
}

impl CompressedFormatMarker for BC7UnormBlock {
    proof fn lemma_class() {
    }
}

/// Marker of `Format::BC7SrgbBlock`.
#[derive(Debug, Copy, Clone)]
#[allow(non_camel_case_types)]
pub struct BC7SrgbBlock;

impl FormatMarker for BC7SrgbBlock {
    open spec fn marked() -> Format {
        Format::BC7SrgbBlock
    }

    fn format() -> (r: Format) {
        Format::BC7SrgbBlock
    }
}

impl CompressedFormatMarker for BC7SrgbBlock {
    proof fn lemma_class() {
    }
}

/// Marker of `Format::ETC2_R8G8B8UnormBlock`.
#[derive(Debug, Copy, Clone)]
#[allow(non_camel_case_types)]
pub struct ETC2_R8G8B8UnormBlock;

impl FormatMarker for ETC2_R8G8B8UnormBlock {
    open spec fn marked() -> Format {
        Format::ETC2_R8G8B8UnormBlock
    }

    fn format() -> (r: Format) {
        Format::ETC2_R8G8B8UnormBlock
    }
}

impl CompressedFormatMarker for ETC2_R8G8B8UnormBlock {
    proof fn lemma_class() {
    }
}

/// Marker of `Format::ETC2_R8G8B8SrgbBlock`.
#[derive(Debug, Copy, Clone)]
#[allow(non_camel_case_types)]
pub struct ETC2_R8G8B8SrgbBlock;

impl FormatMarker for ETC2_R8G8B8SrgbBlock {
    open spec fn marked() -> Format {
        Format::ETC2_R8G8B8SrgbBlock
    }

    fn format() -> (r: Format) {
        Format::ETC2_R8G8B8SrgbBlock
    }
}

impl CompressedFormatMarker for ETC2_R8G8B8SrgbBlock {
    proof fn lemma_class() {
    }
}

/// Marker of `Format::ETC2_R8G8B8A1UnormBlock`.
#[derive(Debug, Copy, Clone)]
#[allow(non_camel_case_types)]
pub struct ETC2_R8G8B8A1UnormBlock;

impl FormatMarker for ETC2_R8G8B8A1UnormBlock {
    open spec fn marked() -> Format {
        Format::ETC2_R8G8B8A1UnormBlock
    }

    fn format() -> (r: Format) {
        Format::ETC2_R8G8B8A1UnormBlock
    }
}

impl CompressedFormatMarker for ETC2_R8G8B8A1UnormBlock {
    proof fn lemma_class() {
    }
}

/// Marker of `Format::ETC2_R8G8B8A1SrgbBlock`.
#[derive(Debug, Copy, Clone)]
#[allow(non_camel_case_types)]
pub struct ETC2_R8G8B8A1SrgbBlock;

impl FormatMarker for ETC2_R8G8B8A1SrgbBlock {
    open spec fn marked() -> Format {
        Format::ETC2_R8G8B8A1SrgbBlock
    }

    fn format() -> (r: Format) {
        Format::ETC2_R8G8B8A1SrgbBlock
    }
}

impl CompressedFormatMarker for ETC2_R8G8B8A1SrgbBlock {
    proof fn lemma_class() {
    }
}

/// Marker of `Format::ETC2_R8G8B8A8UnormBlock`.
#[derive(Debug, Copy, Clone)]
#[allow(non_camel_case_types)]
pub struct ETC2_R8G8B8A8UnormBlock;

impl FormatMarker for ETC2_R8G8B8A8UnormBlock {
    open spec fn marked() -> Format {
        Format::ETC2_R8G8B8A8UnormBlock
    }

    fn format() -> (r: Format) {
        Format::ETC2_R8G8B8A8UnormBlock
    }
}

impl CompressedFormatMarker for ETC2_R8G8B8A8UnormBlock {
    proof fn lemma_class() {
    }
}

/// Marker of `Format::ETC2_R8G8B8A8SrgbBlock`.
#[derive(Debug, Copy, Clone)]
#[allow(non_camel_case_types)]
pub struct ETC2_R8G8B8A8SrgbBlock;

impl FormatMarker for ETC2_R8G8B8A8SrgbBlock {
    open spec fn marked() -> Format {
        Format::ETC2_R8G8B8A8SrgbBlock
    }

    fn format() -> (r: Format) {
        Format::ETC2_R8G8B8A8SrgbBlock
    }
}

impl CompressedFormatMarker for ETC2_R8G8B8A8SrgbBlock {
    proof fn lemma_class() {
    }
}

/// Marker of `Format::EAC_R11UnormBlock`.
#[derive(Debug, Copy, Clone)]
#[allow(non_camel_case_types)]
pub struct EAC_R11UnormBlock;

impl FormatMarker for EAC_R11UnormBlock {
    open spec fn marked() -> Format {
        Format::EAC_R11UnormBlock
    }

    fn format() -> (r: Format) {
        Format::EAC_R11UnormBlock
    }
}

impl CompressedFormatMarker for EAC_R11UnormBlock {
    proof fn lemma_class() {
    }
}

/// Marker of `Format::EAC_R11SnormBlock`.
#[derive(Debug, Copy, Clone)]
#[allow(non_camel_case_types)]
pub struct EAC_R11SnormBlock;

impl FormatMarker for EAC_R11SnormBlock {
    open spec fn marked() -> Format {
        Format::EAC_R11SnormBlock
    }

    fn format() -> (r: Format) {
        Format::EAC_R11SnormBlock
    }
}

impl CompressedFormatMarker for EAC_R11SnormBlock {
    proof fn lemma_class() {
    }
}

/// Marker of `Format::EAC_R11G11UnormBlock`.
#[derive(Debug, Copy, Clone)]
#[allow(non_camel_case_types)]
pub struct EAC_R11G11UnormBlock;

impl FormatMarker for EAC_R11G11UnormBlock {
    open spec fn marked() -> Format {
        Format::EAC_R11G11UnormBlock
    }

    fn format() -> (r: Format) {
        Format::EAC_R11G11UnormBlock
    }
}

impl CompressedFormatMarker for EAC_R11G11UnormBlock {
    proof fn lemma_class() {
    }
}

/// Marker of `Format::EAC_R11G11SnormBlock`.
#[derive(Debug, Copy, Clone)]
#[allow(non_camel_case_types)]
pub struct EAC_R11G11SnormBlock;

impl FormatMarker for EAC_R11G11SnormBlock {
    open spec fn marked() -> Format {
        Format::EAC_R11G11SnormBlock
    }

    fn format() -> (r: Format) {
        Format::EAC_R11G11SnormBlock
    }
}

impl CompressedFormatMarker for EAC_R11G11SnormBlock {
    proof fn lemma_class() {
    }
}

/// Marker of `Format::ASTC_4x4UnormBlock`.
#[derive(Debug, Copy, Clone)]
#[allow(non_camel_case_types)]
pub struct ASTC_4x4UnormBlock;

impl FormatMarker for ASTC_4x4UnormBlock {
    open spec fn marked() -> Format {
        Format::ASTC_4x4UnormBlock
    }

    fn format() -> (r: Format) {
        Format::ASTC_4x4UnormBlock
    }
}

impl CompressedFormatMarker for ASTC_4x4UnormBlock {
    proof fn lemma_class() {
    }
}

/// Marker of `Format::ASTC_4x4SrgbBlock`.
#[derive(Debug, Copy, Clone)]
#[allow(non_camel_case_types)]
pub struct ASTC_4x4SrgbBlock;

impl FormatMarker for ASTC_4x4SrgbBlock {
    open spec fn marked() -> Format {
        Format::ASTC_4x4SrgbBlock
    }

    fn format() -> (r: Format) {
        Format::ASTC_4x4SrgbBlock
    }
}

impl CompressedFormatMarker for ASTC_4x4SrgbBlock {
    proof fn lemma_class() {
    }
}

/// Marker of `Format::ASTC_5x4UnormBlock`.
#[derive(Debug, Copy, Clone)]
#[allow(non_camel_case_types)]
pub struct ASTC_5x4UnormBlock;

impl FormatMarker for ASTC_5x4UnormBlock {
    open spec fn marked() -> Format {
        Format::ASTC_5x4UnormBlock
    }

    fn format() -> (r: Format) {
        Format::ASTC_5x4UnormBlock
    }
}

impl CompressedFormatMarker for ASTC_5x4UnormBlock {
    proof fn lemma_class() {
    }
}

/// Marker of `Format::ASTC_5x4SrgbBlock`.
#[derive(Debug, Copy, Clone)]
#[allow(non_camel_case_types)]
pub struct ASTC_5x4SrgbBlock;

impl FormatMarker for ASTC_5x4SrgbBlock {
    open spec fn marked() -> Format {
        Format::ASTC_5x4SrgbBlock
    }

    fn format() -> (r: Format) {
        Format::ASTC_5x4SrgbBlock
    }
}

impl CompressedFormatMarker for ASTC_5x4SrgbBlock {
    proof fn lemma_class() {
    }
}

/// Marker of `Format::ASTC_5x5UnormBlock`.
#[derive(Debug, Copy, Clone)]
#[allow(non_camel_case_types)]
pub struct ASTC_5x5UnormBlock;

impl FormatMarker for ASTC_5x5UnormBlock {
    open spec fn marked() -> Format {
        Format::ASTC_5x5UnormBlock
    }

    fn format() -> (r: Format) {
        Format::ASTC_5x5UnormBlock
    }
}

impl CompressedFormatMarker for ASTC_5x5UnormBlock {
    proof fn lemma_class() {
    }
}

/// Marker of `Format::ASTC_5x5SrgbBlock`.
#[derive(Debug, Copy, Clone)]
#[allow(non_camel_case_types)]
pub struct ASTC_5x5SrgbBlock;

impl FormatMarker for ASTC_5x5SrgbBlock {
    open spec fn marked() -> Format {
        Format::ASTC_5x5SrgbBlock
    }

    fn format() -> (r: Format) {
        Format::ASTC_5x5SrgbBlock
    }
}

impl CompressedFormatMarker for ASTC_5x5SrgbBlock {
    proof fn lemma_class() {
    }
}

/// Marker of `Format::ASTC_6x5UnormBlock`.
#[derive(Debug, Copy, Clone)]
#[allow(non_camel_case_types)]
pub struct ASTC_6x5UnormBlock;

impl FormatMarker for ASTC_6x5UnormBlock {
    open spec fn marked() -> Format {
        Format::ASTC_6x5UnormBlock
    }

    fn format() -> (r: Format) {
        Format::ASTC_6x5UnormBlock
    }
}

impl CompressedFormatMarker for ASTC_6x5UnormBlock {
    proof fn lemma_class() {
    }
}

/// Marker of `Format::ASTC_6x5SrgbBlock`.
#[derive(Debug, Copy, Clone)]
#[allow(non_camel_case_types)]
pub struct ASTC_6x5SrgbBlock;

impl FormatMarker for ASTC_6x5SrgbBlock {
    open spec fn marked() -> Format {
        Format::ASTC_6x5SrgbBlock
    }

    fn format() -> (r: Format) {
        Format::ASTC_6x5SrgbBlock
    }
}

impl CompressedFormatMarker for ASTC_6x5SrgbBlock {
    proof fn lemma_class() {
    }
}

/// Marker of `Format::ASTC_6x6UnormBlock`.
#[derive(Debug, Copy, Clone)]
#[allow(non_camel_case_types)]
pub struct ASTC_6x6UnormBlock;

impl FormatMarker for ASTC_6x6UnormBlock {
    open spec fn marked() -> Format {
        Format::ASTC_6x6UnormBlock
    }

    fn format() -> (r: Format) {
        Format::ASTC_6x6UnormBlock
    }
}

impl CompressedFormatMarker for ASTC_6x6UnormBlock {
    proof fn lemma_class() {
    }
}

/// Marker of `Format::ASTC_6x6SrgbBlock`.
#[derive(Debug, Copy, Clone)]
#[allow(non_camel_case_types)]
pub struct ASTC_6x6SrgbBlock;

impl FormatMarker for ASTC_6x6SrgbBlock {
    open spec fn marked() -> Format {
        Format::ASTC_6x6SrgbBlock
    }

    fn format() -> (r: Format) {
        Format::ASTC_6x6SrgbBlock
    }
}

impl CompressedFormatMarker for ASTC_6x6SrgbBlock {
    proof fn lemma_class() {
    }
}

/// Marker of `Format::ASTC_8x5UnormBlock`.
#[derive(Debug, Copy, Clone)]
#[allow(non_camel_case_types)]
pub struct ASTC_8x5UnormBlock;

impl FormatMarker for ASTC_8x5UnormBlock {
    open spec fn marked() -> Format {
        Format::ASTC_8x5UnormBlock
    }

    fn format() -> (r: Format) {
        Format::ASTC_8x5UnormBlock
    }
}

impl CompressedFormatMarker for ASTC_8x5UnormBlock {
    proof fn lemma_class() {
    }
}

/// Marker of `Format::ASTC_8x5SrgbBlock`.
#[derive(Debug, Copy, Clone)]
#[allow(non_camel_case_types)]
pub struct ASTC_8x5SrgbBlock;

impl FormatMarker for ASTC_8x5SrgbBlock {
    open spec fn marked() -> Format {
        Format::ASTC_8x5SrgbBlock
    }

    fn format() -> (r: Format) {
        Format::ASTC_8x5SrgbBlock
    }
}

impl CompressedFormatMarker for ASTC_8x5SrgbBlock {
    proof fn lemma_class() {
    }
}

/// Marker of `Format::ASTC_8x6UnormBlock`.
#[derive(Debug, Copy, Clone)]
#[allow(non_camel_case_types)]
pub struct ASTC_8x6UnormBlock;

impl FormatMarker for ASTC_8x6UnormBlock {
    open spec fn marked() -> Format {
        Format::ASTC_8x6UnormBlock
    }

    fn format() -> (r: Format) {
        Format::ASTC_8x6UnormBlock
    }
}

impl CompressedFormatMarker for ASTC_8x6UnormBlock {
    proof fn lemma_class() {
    }
}

/// Marker of `Format::ASTC_8x6SrgbBlock`.
#[derive(Debug, Copy, Clone)]
#[allow(non_camel_case_types)]
pub struct ASTC_8x6SrgbBlock;

impl FormatMarker for ASTC_8x6SrgbBlock {
    open spec fn marked() -> Format {
        Format::ASTC_8x6SrgbBlock
    }

    fn format() -> (r: Format) {
        Format::ASTC_8x6SrgbBlock
    }
}

impl CompressedFormatMarker for ASTC_8x6SrgbBlock {
    proof fn lemma_class() {
    }
}

/// Marker of `Format::ASTC_8x8UnormBlock`.
#[derive(Debug, Copy, Clone)]
#[allow(non_camel_case_types)]
pub struct ASTC_8x8UnormBlock;

impl FormatMarker for ASTC_8x8UnormBlock {
    open spec fn marked() -> Format {
        Format::ASTC_8x8UnormBlock
    }

    fn format() -> (r: Format) {
        Format::ASTC_8x8UnormBlock
    }
}

impl CompressedFormatMarker for ASTC_8x8UnormBlock {
    proof fn lemma_class() {
    }
}

/// Marker of `Format::ASTC_8x8SrgbBlock`.
#[derive(Debug, Copy, Clone)]
#[allow(non_camel_case_types)]
pub struct ASTC_8x8SrgbBlock;

impl FormatMarker for ASTC_8x8SrgbBlock {
    open spec fn marked() -> Format {
        Format::ASTC_8x8SrgbBlock
    }

    fn format() -> (r: Format) {
        Format::ASTC_8x8SrgbBlock
    }
}

impl CompressedFormatMarker for ASTC_8x8SrgbBlock {
    proof fn lemma_class() {
    }
}

/// Marker of `Format::ASTC_10x5UnormBlock`.
#[derive(Debug, Copy, Clone)]
#[allow(non_camel_case_types)]
pub struct ASTC_10x5UnormBlock;

impl FormatMarker for ASTC_10x5UnormBlock {
    open spec fn marked() -> Format {
        Format::ASTC_10x5UnormBlock
    }

    fn format() -> (r: Format) {
        Format::ASTC_10x5UnormBlock
    }
}

impl CompressedFormatMarker for ASTC_10x5UnormBlock {
    proof fn lemma_class() {
    }
}

/// Marker of `Format::ASTC_10x5SrgbBlock`.
#[derive(Debug, Copy, Clone)]
#[allow(non_camel_case_types)]
pub struct ASTC_10x5SrgbBlock;

impl FormatMarker for ASTC_10x5SrgbBlock {
    open spec fn marked() -> Format {
        Format::ASTC_10x5SrgbBlock
    }

    fn format() -> (r: Format) {
        Format::ASTC_10x5SrgbBlock
    }
}

impl CompressedFormatMarker for ASTC_10x5SrgbBlock {
    proof fn lemma_class() {
    }
}

/// Marker of `Format::ASTC_10x6UnormBlock`.
#[derive(Debug, Copy, Clone)]
#[allow(non_camel_case_types)]
pub struct ASTC_10x6UnormBlock;

impl FormatMarker for ASTC_10x6UnormBlock {
    open spec fn marked() -> Format {
        Format::ASTC_10x6UnormBlock
    }

    fn format() -> (r: Format) {
        Format::ASTC_10x6UnormBlock
    }
}

impl CompressedFormatMarker for ASTC_10x6UnormBlock {
    proof fn lemma_class() {
    }
}

/// Marker of `Format::ASTC_10x6SrgbBlock`.
#[derive(Debug, Copy, Clone)]
#[allow(non_camel_case_types)]
pub struct ASTC_10x6SrgbBlock;

impl FormatMarker for ASTC_10x6SrgbBlock {
    open spec fn marked() -> Format {
        Format::ASTC_10x6SrgbBlock
    }

    fn format() -> (r: Format) {
        Format::ASTC_10x6SrgbBlock
    }
}

impl CompressedFormatMarker for ASTC_10x6SrgbBlock {
    proof fn lemma_class() {
    }
}

/// Marker of `Format::ASTC_10x8UnormBlock`.
#[derive(Debug, Copy, Clone)]
#[allow(non_camel_case_types)]
pub struct ASTC_10x8UnormBlock;

impl FormatMarker for ASTC_10x8UnormBlock {
    open spec fn marked() -> Format {
        Format::ASTC_10x8UnormBlock
    }

    fn format() -> (r: Format) {
        Format::ASTC_10x8UnormBlock
    }
}

impl CompressedFormatMarker for ASTC_10x8UnormBlock {
    proof fn lemma_class() {
    }
}

/// Marker of `Format::ASTC_10x8SrgbBlock`.
#[derive(Debug, Copy, Clone)]
#[allow(non_camel_case_types)]
pub struct ASTC_10x8SrgbBlock;

impl FormatMarker for ASTC_10x8SrgbBlock {
    open spec fn marked() -> Format {
        Format::ASTC_10x8SrgbBlock
    }

    fn format() -> (r: Format) {
        Format::ASTC_10x8SrgbBlock
    }
}

impl CompressedFormatMarker for ASTC_10x8SrgbBlock {
    proof fn lemma_class() {
    }
}

/// Marker of `Format::ASTC_10x10UnormBlock`.
#[derive(Debug, Copy, Clone)]
#[allow(non_camel_case_types)]
pub struct ASTC_10x10UnormBlock;

impl FormatMarker for ASTC_10x10UnormBlock {
    open spec fn marked() -> Format {
        Format::ASTC_10x10UnormBlock
    }

    fn format() -> (r: Format) {
        Format::ASTC_10x10UnormBlock
    }
}

impl CompressedFormatMarker for ASTC_10x10UnormBlock {
    proof fn lemma_class() {
    }
}

/// Marker of `Format::ASTC_10x10SrgbBlock`.
#[derive(Debug, Copy, Clone)]
#[allow(non_camel_case_types)]
pub struct ASTC_10x10SrgbBlock;

impl FormatMarker for ASTC_10x10SrgbBlock {
    open spec fn marked() -> Format {
        Format::ASTC_10x10SrgbBlock
    }

    fn format() -> (r: Format) {
        Format::ASTC_10x10SrgbBlock
    }
}

impl CompressedFormatMarker for ASTC_10x10SrgbBlock {
    proof fn lemma_class() {
    }
}

/// Marker of `Format::ASTC_12x10UnormBlock`.
#[derive(Debug, Copy, Clone)]
#[allow(non_camel_case_types)]
pub struct ASTC_12x10UnormBlock;

impl FormatMarker for ASTC_12x10UnormBlock {
    open spec fn marked() -> Format {
        Format::ASTC_12x10UnormBlock
    }

    fn format() -> (r: Format) {
        Format::ASTC_12x10UnormBlock
    }
}

impl CompressedFormatMarker for ASTC_12x10UnormBlock {
    proof fn lemma_class() {
    }
}

/// Marker of `Format::ASTC_12x10SrgbBlock`.
#[derive(Debug, Copy, Clone)]
#[allow(non_camel_case_types)]
pub struct ASTC_12x10SrgbBlock;

impl FormatMarker for ASTC_12x10SrgbBlock {
    open spec fn marked() -> Format {
        Format::ASTC_12x10SrgbBlock
    }

    fn format() -> (r: Format) {
        Format::ASTC_12x10SrgbBlock
    }
}

impl CompressedFormatMarker for ASTC_12x10SrgbBlock {
    proof fn lemma_class() {
    }
}

/// Marker of `Format::ASTC_12x12UnormBlock`.
#[derive(Debug, Copy, Clone)]
#[allow(non_camel_case_types)]
pub struct ASTC_12x12UnormBlock;

impl FormatMarker for ASTC_12x12UnormBlock {
    open spec fn marked() -> Format {
        Format::ASTC_12x12UnormBlock
    }

    fn format() -> (r: Format) {
        Format::ASTC_12x12UnormBlock
    }
}

impl CompressedFormatMarker for ASTC_12x12UnormBlock {
    proof fn lemma_class() {
    }
}

/// Marker of `Format::ASTC_12x12SrgbBlock`.
#[derive(Debug, Copy, Clone)]
#[allow(non_camel_case_types)]
pub struct ASTC_12x12SrgbBlock;

impl FormatMarker for ASTC_12x12SrgbBlock {
    open spec fn marked() -> Format {
        Format::ASTC_12x12SrgbBlock
    }

    fn format() -> (r: Format) {
        Format::ASTC_12x12SrgbBlock
    }
}

impl CompressedFormatMarker for ASTC_12x12SrgbBlock {
    proof fn lemma_class() {
    }
}

} // verus!
