//! Texture handles, texel formats and sampling options.
use core::marker::PhantomData;
use vstd::prelude::*;

use crate::call::Float;
use crate::gl;
use crate::gl::types::GLenum;
use crate::sealed::{Named, Sealed};
use crate::{GLEnum, NonZeroName, ThinGLObject};

verus! {

/// The binding targets of textures, one per dimensionality.
pub trait Dimensionality: Sealed {
    const TARGET: GLenum;
}

/// Marker for `GL_TEXTURE_2D`.
#[derive(Debug)]
pub struct D2;

impl Sealed for D2 {

}

impl Dimensionality for D2 {
    const TARGET: GLenum = gl::TEXTURE_2D;
}

/// Marker for `GL_TEXTURE_3D`.
#[derive(Debug)]
pub struct D3;

impl Sealed for D3 {

}

impl Dimensionality for D3 {
    const TARGET: GLenum = gl::TEXTURE_3D;
}

/// Marker for `GL_TEXTURE_2D_ARRAY`.
#[derive(Debug)]
pub struct D2Array;

impl Sealed for D2Array {

}

impl Dimensionality for D2Array {
    const TARGET: GLenum = gl::TEXTURE_2D_ARRAY;
}

/// Marker for `GL_TEXTURE_CUBE_MAP`.
#[derive(Debug)]
pub struct Cube;

impl Sealed for Cube {

}

impl Dimensionality for Cube {
    const TARGET: GLenum = gl::TEXTURE_CUBE_MAP;
}

/// Every marker of a dimensionality stands for the texture target of its
/// name.
pub proof fn lemma_targets()
    ensures
        D2::TARGET == gl::TEXTURE_2D,
        D3::TARGET == gl::TEXTURE_3D,
        D2Array::TARGET == gl::TEXTURE_2D_ARRAY,
        Cube::TARGET == gl::TEXTURE_CUBE_MAP,
{
}

/// The layout in which the driver stores the texels of a texture.
#[derive(Clone, Copy, Debug, PartialEq, Eq, Structural)]
pub enum InternalFormat {
    RGB,
    RGBA,
    LuminanceAlpha,
    Luminance,
    Alpha,
    R8,
    R8Snorm,
    R16f,
    R32f,
    R8ui,
    R8i,
    R16ui,
    R16i,
    R32ui,
    R32i,
    Rg8,
    Rg8Snorm,
    Rg16f,
    Rg32f,
    Rg8ui,
    Rg8i,
    Rg16ui,
    Rg16i,
    Rg32ui,
    Rg32i,
    Rgb8,
    Srgb8,
    Rgb565,
    Rgb8Snorm,
    R11fG11fB10f,
    Rgb9E5,
    Rgb16f,
    Rgb32f,
    Rgb8ui,
    Rgb8i,
    Rgb16ui,
    Rgb16i,
    Rgb32ui,
    Rgb32i,
    Rgba8,
    Srgb8Alpha8,
    Rgba8Snorm,
    Rgb5A1,
    Rgba4,
    Rgb10A2,
    Rgba16f,
    Rgba32f,
    Rgba8ui,
    Rgba8i,
    Rgb10A2ui,
    Rgba16ui,
    Rgba16i,
    Rgba32i,
    Rgba32ui,
    DepthComponent16,
    DepthComponent24,
    DepthComponent32f,
    Depth24Stencil8,
    Depth32fStencil8,
}

impl GLEnum for InternalFormat {
    open spec fn constant(&self) -> GLenum {
        match self {
            InternalFormat::RGB => gl::RGB,
            InternalFormat::RGBA => gl::RGBA,
            InternalFormat::LuminanceAlpha => gl::LUMINANCE_ALPHA,
            InternalFormat::Luminance => gl::LUMINANCE,
            InternalFormat::Alpha => gl::ALPHA,
            InternalFormat::R8 => gl::R8,
            InternalFormat::R8Snorm => gl::R8_SNORM,
            InternalFormat::R16f => gl::R16F,
            InternalFormat::R32f => gl::R32F,
            InternalFormat::R8ui => gl::R8UI,
            InternalFormat::R8i => gl::R8I,
            InternalFormat::R16ui => gl::R16UI,
            InternalFormat::R16i => gl::R16I,
            InternalFormat::R32ui => gl::R32UI,
            InternalFormat::R32i => gl::R32I,
            InternalFormat::Rg8 => gl::RG8,
            InternalFormat::Rg8Snorm => gl::RG8_SNORM,
            InternalFormat::Rg16f => gl::RG16F,
            InternalFormat::Rg32f => gl::RG32F,
            InternalFormat::Rg8ui => gl::RG8UI,
            InternalFormat::Rg8i => gl::RG8I,
            InternalFormat::Rg16ui => gl::RG16UI,
            InternalFormat::Rg16i => gl::RG16I,
            InternalFormat::Rg32ui => gl::RG32UI,
            InternalFormat::Rg32i => gl::RG32I,
            InternalFormat::Rgb8 => gl::RGB8,
            InternalFormat::Srgb8 => gl::SRGB8,
            InternalFormat::Rgb565 => gl::RGB565,
            InternalFormat::Rgb8Snorm => gl::RGB8_SNORM,
            InternalFormat::R11fG11fB10f => gl::R11F_G11F_B10F,
            InternalFormat::Rgb9E5 => gl::RGB9_E5,
            InternalFormat::Rgb16f => gl::RGB16F,
            InternalFormat::Rgb32f => gl::RGB32F,
            InternalFormat::Rgb8ui => gl::RGB8UI,
            InternalFormat::Rgb8i => gl::RGB8I,
            InternalFormat::Rgb16ui => gl::RGB16UI,
            InternalFormat::Rgb16i => gl::RGB16I,
            InternalFormat::Rgb32ui => gl::RGB32UI,
            InternalFormat::Rgb32i => gl::RGB32I,
            InternalFormat::Rgba8 => gl::RGBA8,
            InternalFormat::Srgb8Alpha8 => gl::SRGB8_ALPHA8,
            InternalFormat::Rgba8Snorm => gl::RGBA8_SNORM,
            InternalFormat::Rgb5A1 => gl::RGB5_A1,
            InternalFormat::Rgba4 => gl::RGBA4,
            InternalFormat::Rgb10A2 => gl::RGB10_A2,
            InternalFormat::Rgba16f => gl::RGBA16F,
            InternalFormat::Rgba32f => gl::RGBA32F,
            InternalFormat::Rgba8ui => gl::RGBA8UI,
            InternalFormat::Rgba8i => gl::RGBA8I,
            InternalFormat::Rgb10A2ui => gl::RGB10_A2UI,
            InternalFormat::Rgba16ui => gl::RGBA16UI,
            InternalFormat::Rgba16i => gl::RGBA16I,
            InternalFormat::Rgba32i => gl::RGBA32I,
            InternalFormat::Rgba32ui => gl::RGBA32UI,
            InternalFormat::DepthComponent16 => gl::DEPTH_COMPONENT16,
            InternalFormat::DepthComponent24 => gl::DEPTH_COMPONENT24,
            InternalFormat::DepthComponent32f => gl::DEPTH_COMPONENT32F,
            InternalFormat::Depth24Stencil8 => gl::DEPTH24_STENCIL8,
            InternalFormat::Depth32fStencil8 => gl::DEPTH32F_STENCIL8,
        }
    }

    fn as_gl(&self) -> (raw: GLenum) {
        match self {
            InternalFormat::RGB => gl::RGB,
            InternalFormat::RGBA => gl::RGBA,
            InternalFormat::LuminanceAlpha => gl::LUMINANCE_ALPHA,
            InternalFormat::Luminance => gl::LUMINANCE,
            InternalFormat::Alpha => gl::ALPHA,
            InternalFormat::R8 => gl::R8,
            InternalFormat::R8Snorm => gl::R8_SNORM,
            InternalFormat::R16f => gl::R16F,
            InternalFormat::R32f => gl::R32F,
            InternalFormat::R8ui => gl::R8UI,
            InternalFormat::R8i => gl::R8I,
            InternalFormat::R16ui => gl::R16UI,
            InternalFormat::R16i => gl::R16I,
            InternalFormat::R32ui => gl::R32UI,
            InternalFormat::R32i => gl::R32I,
            InternalFormat::Rg8 => gl::RG8,
            InternalFormat::Rg8Snorm => gl::RG8_SNORM,
            InternalFormat::Rg16f => gl::RG16F,
            InternalFormat::Rg32f => gl::RG32F,
            InternalFormat::Rg8ui => gl::RG8UI,
            InternalFormat::Rg8i => gl::RG8I,
            InternalFormat::Rg16ui => gl::RG16UI,
            InternalFormat::Rg16i => gl::RG16I,
            InternalFormat::Rg32ui => gl::RG32UI,
            InternalFormat::Rg32i => gl::RG32I,
            InternalFormat::Rgb8 => gl::RGB8,
            InternalFormat::Srgb8 => gl::SRGB8,
            InternalFormat::Rgb565 => gl::RGB565,
            InternalFormat::Rgb8Snorm => gl::RGB8_SNORM,
            InternalFormat::R11fG11fB10f => gl::R11F_G11F_B10F,
            InternalFormat::Rgb9E5 => gl::RGB9_E5,
            InternalFormat::Rgb16f => gl::RGB16F,
            InternalFormat::Rgb32f => gl::RGB32F,
            InternalFormat::Rgb8ui => gl::RGB8UI,
            InternalFormat::Rgb8i => gl::RGB8I,
            InternalFormat::Rgb16ui => gl::RGB16UI,
            InternalFormat::Rgb16i => gl::RGB16I,
            InternalFormat::Rgb32ui => gl::RGB32UI,
            InternalFormat::Rgb32i => gl::RGB32I,
            InternalFormat::Rgba8 => gl::RGBA8,
            InternalFormat::Srgb8Alpha8 => gl::SRGB8_ALPHA8,
            InternalFormat::Rgba8Snorm => gl::RGBA8_SNORM,
            InternalFormat::Rgb5A1 => gl::RGB5_A1,
            InternalFormat::Rgba4 => gl::RGBA4,
            InternalFormat::Rgb10A2 => gl::RGB10_A2,
            InternalFormat::Rgba16f => gl::RGBA16F,
            InternalFormat::Rgba32f => gl::RGBA32F,
            InternalFormat::Rgba8ui => gl::RGBA8UI,
            InternalFormat::Rgba8i => gl::RGBA8I,
            InternalFormat::Rgb10A2ui => gl::RGB10_A2UI,
            InternalFormat::Rgba16ui => gl::RGBA16UI,
            InternalFormat::Rgba16i => gl::RGBA16I,
            InternalFormat::Rgba32i => gl::RGBA32I,
            InternalFormat::Rgba32ui => gl::RGBA32UI,
            InternalFormat::DepthComponent16 => gl::DEPTH_COMPONENT16,
            InternalFormat::DepthComponent24 => gl::DEPTH_COMPONENT24,
            InternalFormat::DepthComponent32f => gl::DEPTH_COMPONENT32F,
            InternalFormat::Depth24Stencil8 => gl::DEPTH24_STENCIL8,
            InternalFormat::Depth32fStencil8 => gl::DEPTH32F_STENCIL8,
        }
    }
}

impl InternalFormat {
    /// No two variants share a constant.
    pub proof fn lemma_constant_injective(a: Self, b: Self)
        ensures
            a.constant() == b.constant() <==> a == b,
    {
    }
}

impl InternalFormat {
    /// The pixel format that belongs to the internal format: its channels, and
    /// whether they hold integers.
    pub open spec fn layout(&self) -> Format {
        match self {
            InternalFormat::Alpha => Format::Alpha,
            InternalFormat::Luminance => Format::Luminance,
            InternalFormat::LuminanceAlpha => Format::LuminanceAlpha,
            InternalFormat::R8
            | InternalFormat::R8Snorm
            | InternalFormat::R16f
            | InternalFormat::R32f => Format::Red,
            InternalFormat::R8ui
            | InternalFormat::R8i
            | InternalFormat::R16ui
            | InternalFormat::R16i
            | InternalFormat::R32ui
            | InternalFormat::R32i => Format::RedInteger,
            InternalFormat::Rg8
            | InternalFormat::Rg8Snorm
            | InternalFormat::Rg16f
            | InternalFormat::Rg32f => Format::RG,
            InternalFormat::Rg8ui
            | InternalFormat::Rg8i
            | InternalFormat::Rg16ui
            | InternalFormat::Rg16i
            | InternalFormat::Rg32ui
            | InternalFormat::Rg32i => Format::RGInteger,
            InternalFormat::RGB
            | InternalFormat::Rgb8
            | InternalFormat::Srgb8
            | InternalFormat::Rgb565
            | InternalFormat::Rgb8Snorm
            | InternalFormat::R11fG11fB10f
            | InternalFormat::Rgb9E5
            | InternalFormat::Rgb16f
            | InternalFormat::Rgb32f => Format::RGB,
            InternalFormat::Rgb8ui
            | InternalFormat::Rgb8i
            | InternalFormat::Rgb16ui
            | InternalFormat::Rgb16i
            | InternalFormat::Rgb32ui
            | InternalFormat::Rgb32i => Format::RGBInteger,
            InternalFormat::RGBA
            | InternalFormat::Rgba8
            | InternalFormat::Srgb8Alpha8
            | InternalFormat::Rgba8Snorm
            | InternalFormat::Rgb5A1
            | InternalFormat::Rgba4
            | InternalFormat::Rgb10A2
            | InternalFormat::Rgba16f
            | InternalFormat::Rgba32f => Format::RGBA,
            InternalFormat::Rgba8ui
            | InternalFormat::Rgba8i
            | InternalFormat::Rgb10A2ui
            | InternalFormat::Rgba16ui
            | InternalFormat::Rgba16i
            | InternalFormat::Rgba32i
            | InternalFormat::Rgba32ui => Format::RGBAInteger,
            InternalFormat::DepthComponent16
            | InternalFormat::DepthComponent24
            | InternalFormat::DepthComponent32f => Format::DepthComponent,
            InternalFormat::Depth24Stencil8 | InternalFormat::Depth32fStencil8 => {
                Format::DepthStencil
            },
        }
    }

    /// The pixel format that belongs to this internal format. It describes
    /// pixel data in a buffer, and is not the constant of `as_gl`.
    pub fn format(&self) -> (format: Format)
        ensures
            format == self.layout(),
    {
        match self {
            Self::RGB => Format::RGB,
            Self::RGBA => Format::RGBA,
            Self::LuminanceAlpha => Format::LuminanceAlpha,
            Self::Luminance => Format::Luminance,
            Self::Alpha => Format::Alpha,
            Self::R8 => Format::Red,
            Self::R8Snorm => Format::Red,
            Self::R16f => Format::Red,
            Self::R32f => Format::Red,
            Self::R8ui => Format::RedInteger,
            Self::R8i => Format::RedInteger,
            Self::R16ui => Format::RedInteger,
            Self::R16i => Format::RedInteger,
            Self::R32ui => Format::RedInteger,
            Self::R32i => Format::RedInteger,
            Self::Rg8 => Format::RG,
            Self::Rg8Snorm => Format::RG,
            Self::Rg16f => Format::RG,
            Self::Rg32f => Format::RG,
            Self::Rg8ui => Format::RGInteger,
            Self::Rg8i => Format::RGInteger,
            Self::Rg16ui => Format::RGInteger,
            Self::Rg16i => Format::RGInteger,
            Self::Rg32ui => Format::RGInteger,
            Self::Rg32i => Format::RGInteger,
            Self::Rgb8 => Format::RGB,
            Self::Srgb8 => Format::RGB,
            Self::Rgb565 => Format::RGB,
            Self::Rgb8Snorm => Format::RGB,
            Self::R11fG11fB10f => Format::RGB,
            Self::Rgb9E5 => Format::RGB,
            Self::Rgb16f => Format::RGB,
            Self::Rgb32f => Format::RGB,
            Self::Rgb8ui => Format::RGBInteger,
            Self::Rgb8i => Format::RGBInteger,
            Self::Rgb16ui => Format::RGBInteger,
            Self::Rgb16i => Format::RGBInteger,
            Self::Rgb32ui => Format::RGBInteger,
            Self::Rgb32i => Format::RGBInteger,
            Self::Rgba8 => Format::RGBA,
            Self::Srgb8Alpha8 => Format::RGBA,
            Self::Rgba8Snorm => Format::RGBA,
            Self::Rgb5A1 => Format::RGBA,
            Self::Rgba4 => Format::RGBA,
            Self::Rgb10A2 => Format::RGBA,
            Self::Rgba16f => Format::RGBA,
            Self::Rgba32f => Format::RGBA,
            Self::Rgba8ui => Format::RGBAInteger,
            Self::Rgba8i => Format::RGBAInteger,
            Self::Rgb10A2ui => Format::RGBAInteger,
            Self::Rgba16ui => Format::RGBAInteger,
            Self::Rgba16i => Format::RGBAInteger,
            Self::Rgba32i => Format::RGBAInteger,
            Self::Rgba32ui => Format::RGBAInteger,
            Self::DepthComponent16 => Format::DepthComponent,
            Self::DepthComponent24 => Format::DepthComponent,
            Self::DepthComponent32f => Format::DepthComponent,
            Self::Depth24Stencil8 => Format::DepthStencil,
            Self::Depth32fStencil8 => Format::DepthStencil,
        }
    }
}

/// The channels of pixel data in a buffer, and whether they are integers.
#[derive(Clone, Copy, Debug, PartialEq, Eq, Structural)]
pub enum Format {
    Alpha,
    Luminance,
    LuminanceAlpha,
    Red,
    RedInteger,
    RG,
    RGInteger,
    RGB,
    RGBInteger,
    RGBA,
    RGBAInteger,
    DepthComponent,
    DepthStencil,
    Stencil,
}

impl GLEnum for Format {
    open spec fn constant(&self) -> GLenum {
        match self {
            Format::Alpha => gl::ALPHA,
            Format::Luminance => gl::LUMINANCE,
            Format::LuminanceAlpha => gl::LUMINANCE_ALPHA,
            Format::Red => gl::RED,
            Format::RedInteger => gl::RED_INTEGER,
            Format::RG => gl::RG,
            Format::RGInteger => gl::RG_INTEGER,
            Format::RGB => gl::RGB,
            Format::RGBInteger => gl::RGB_INTEGER,
            Format::RGBA => gl::RGBA,
            Format::RGBAInteger => gl::RGBA_INTEGER,
            Format::DepthComponent => gl::DEPTH_COMPONENT,
            Format::DepthStencil => gl::DEPTH_STENCIL,
            Format::Stencil => gl::STENCIL_INDEX,
        }
    }

    fn as_gl(&self) -> (raw: GLenum) {
        match self {
            Format::Alpha => gl::ALPHA,
            Format::Luminance => gl::LUMINANCE,
            Format::LuminanceAlpha => gl::LUMINANCE_ALPHA,
            Format::Red => gl::RED,
            Format::RedInteger => gl::RED_INTEGER,
            Format::RG => gl::RG,
            Format::RGInteger => gl::RG_INTEGER,
            Format::RGB => gl::RGB,
            Format::RGBInteger => gl::RGB_INTEGER,
            Format::RGBA => gl::RGBA,
            Format::RGBAInteger => gl::RGBA_INTEGER,
            Format::DepthComponent => gl::DEPTH_COMPONENT,
            Format::DepthStencil => gl::DEPTH_STENCIL,
            Format::Stencil => gl::STENCIL_INDEX,
        }
    }
}

impl Format {
    /// No two variants share a constant.
    pub proof fn lemma_constant_injective(a: Self, b: Self)
        ensures
            a.constant() == b.constant() <==> a == b,
    {
    }
}

/// One depth value as a real number and, beside it, eight bits of stencil.
/// The driver reads the two as separate values, so this is not one 64-bit
/// integer.
#[derive(Clone, Copy, Debug, PartialEq, Eq, Structural)]
pub struct F32Reverse24_8 {
    /// The depth.
    pub float: Float,
    /// The stencil in the lowest eight bits; the rest is not read.
    pub int: u32,
}

/// Pixel data for an upload, by the type of its elements.
#[derive(Clone, Copy, Debug)]
pub enum ImageData<'data> {
    U8(&'data [u8]),
    I8(&'data [i8]),
    U16(&'data [u16]),
    I16(&'data [i16]),
    U32(&'data [u32]),
    I32(&'data [i32]),
    F16(&'data [u16]),
    F32(&'data [Float]),
    Packed5_6_5(&'data [u16]),
    Packed4_4_4_4(&'data [u16]),
    Packed5_5_5_1(&'data [u16]),
    Reverse2_10_10_10(&'data [u32]),
    Reverse10F11F11F(&'data [u32]),
    Reverse5_9_9_9(&'data [u32]),
    Packed24_8(&'data [u32]),
    F32Reverse24_8(&'data [F32Reverse24_8]),
}

impl GLEnum for ImageData<'_> {
    open spec fn constant(&self) -> GLenum {
        match self {
            ImageData::U8(_) => gl::UNSIGNED_BYTE,
            ImageData::I8(_) => gl::BYTE,
            ImageData::U16(_) => gl::UNSIGNED_SHORT,
            ImageData::I16(_) => gl::SHORT,
            ImageData::U32(_) => gl::UNSIGNED_INT,
            ImageData::I32(_) => gl::INT,
            ImageData::F16(_) => gl::HALF_FLOAT,
            ImageData::F32(_) => gl::FLOAT,
            ImageData::Packed5_6_5(_) => gl::UNSIGNED_SHORT_5_6_5,
            ImageData::Packed4_4_4_4(_) => gl::UNSIGNED_SHORT_4_4_4_4,
            ImageData::Packed5_5_5_1(_) => gl::UNSIGNED_SHORT_5_5_5_1,
            ImageData::Reverse2_10_10_10(_) => gl::UNSIGNED_INT_2_10_10_10_REV,
            ImageData::Reverse10F11F11F(_) => gl::UNSIGNED_INT_10F_11F_11F_REV,
            ImageData::Reverse5_9_9_9(_) => gl::UNSIGNED_INT_5_9_9_9_REV,
            ImageData::Packed24_8(_) => gl::UNSIGNED_INT_24_8,
            ImageData::F32Reverse24_8(_) => gl::FLOAT_32_UNSIGNED_INT_24_8_REV,
        }
    }

    fn as_gl(&self) -> (raw: GLenum) {
        match self {
            ImageData::U8(_) => gl::UNSIGNED_BYTE,
            ImageData::I8(_) => gl::BYTE,
            ImageData::U16(_) => gl::UNSIGNED_SHORT,
            ImageData::I16(_) => gl::SHORT,
            ImageData::U32(_) => gl::UNSIGNED_INT,
            ImageData::I32(_) => gl::INT,
            ImageData::F16(_) => gl::HALF_FLOAT,
            ImageData::F32(_) => gl::FLOAT,
            ImageData::Packed5_6_5(_) => gl::UNSIGNED_SHORT_5_6_5,
            ImageData::Packed4_4_4_4(_) => gl::UNSIGNED_SHORT_4_4_4_4,
            ImageData::Packed5_5_5_1(_) => gl::UNSIGNED_SHORT_5_5_5_1,
            ImageData::Reverse2_10_10_10(_) => gl::UNSIGNED_INT_2_10_10_10_REV,
            ImageData::Reverse10F11F11F(_) => gl::UNSIGNED_INT_10F_11F_11F_REV,
            ImageData::Reverse5_9_9_9(_) => gl::UNSIGNED_INT_5_9_9_9_REV,
            ImageData::Packed24_8(_) => gl::UNSIGNED_INT_24_8,
            ImageData::F32Reverse24_8(_) => gl::FLOAT_32_UNSIGNED_INT_24_8_REV,
        }
    }
}

impl ImageData<'_> {
    /// Whether the driver takes data of this element type for a texture of
    /// the internal format `format`: the formats are listed per element type.
    pub open spec fn uploads_to(&self, format: InternalFormat) -> bool {
        match self {
            ImageData::U8(_) => {
                ||| format is RGB
                ||| format is RGBA
                ||| format is LuminanceAlpha
                ||| format is Luminance
                ||| format is Alpha
                ||| format is R8
                ||| format is R8ui
                ||| format is Rg8
                ||| format is Rg8ui
                ||| format is Rgb8
                ||| format is Srgb8
                ||| format is Rgb565
                ||| format is Rgb8ui
                ||| format is Rgba8
                ||| format is Srgb8Alpha8
                ||| format is Rgb5A1
                ||| format is Rgba4
                ||| format is Rgba8ui
            },
            ImageData::I8(_) => {
                ||| format is R8Snorm
                ||| format is R8i
                ||| format is Rg8Snorm
                ||| format is Rg8i
                ||| format is Rgb8Snorm
                ||| format is Rgb8i
                ||| format is Rgba8Snorm
                ||| format is Rgba8i
            },
            ImageData::U16(_) => {
                ||| format is R16ui
                ||| format is Rg16ui
                ||| format is Rgb16ui
                ||| format is Rgba16ui
                ||| format is DepthComponent16
            },
            ImageData::I16(_) => {
                ||| format is R16i
                ||| format is Rg16i
                ||| format is Rgb16i
                ||| format is Rgba16i
            },
            ImageData::U32(_) => {
                ||| format is R32ui
                ||| format is Rg32ui
                ||| format is Rgb32ui
                ||| format is Rgba32ui
                ||| format is DepthComponent16
                ||| format is DepthComponent24
            },
            ImageData::I32(_) => {
                ||| format is R32i
                ||| format is Rg32i
                ||| format is Rgb32i
                ||| format is Rgba32i
            },
            ImageData::F16(_) => {
                ||| format is R16f
                ||| format is Rg16f
                ||| format is R11fG11fB10f
                ||| format is Rgb9E5
                ||| format is Rgb16f
                ||| format is Rgba16f
            },
            ImageData::F32(_) => {
                ||| format is R16f
                ||| format is R32f
                ||| format is Rg16f
                ||| format is Rg32f
                ||| format is R11fG11fB10f
                ||| format is Rgb9E5
                ||| format is Rgb16f
                ||| format is Rgb32f
                ||| format is Rgba16f
                ||| format is Rgba32f
                ||| format is DepthComponent32f
            },
            ImageData::Packed5_6_5(_) => format is RGB || format is Rgb565,
            ImageData::Packed4_4_4_4(_) => format is RGBA || format is Rgba4,
            ImageData::Packed5_5_5_1(_) => format is RGBA || format is Rgb5A1,
            ImageData::Reverse2_10_10_10(_) => {
                ||| format is Rgb5A1
                ||| format is Rgb10A2
                ||| format is Rgb10A2ui
            },
            ImageData::Reverse10F11F11F(_) => format is R11fG11fB10f,
            ImageData::Reverse5_9_9_9(_) => format is Rgb9E5,
            ImageData::Packed24_8(_) => format is Depth24Stencil8,
            ImageData::F32Reverse24_8(_) => format is Depth32fStencil8,
        }
    }

    /// Whether this data can be uploaded to a texture of the internal format
    /// `format`.
    pub fn compatible_with_internal_format(&self, format: InternalFormat) -> (compatible: bool)
        ensures
            compatible == self.uploads_to(format),
    {
        match format {
            InternalFormat::RGB => matches!(self, Self::U8(_) | Self::Packed5_6_5(_)),
            InternalFormat::RGBA => matches!(
                self,
                Self::U8(_) | Self::Packed4_4_4_4(_) | Self::Packed5_5_5_1(_)
            ),
            InternalFormat::LuminanceAlpha => matches!(self, Self::U8(_)),
            InternalFormat::Luminance => matches!(self, Self::U8(_)),
            InternalFormat::Alpha => matches!(self, Self::U8(_)),
            InternalFormat::R8 => matches!(self, Self::U8(_)),
            InternalFormat::R8Snorm => matches!(self, Self::I8(_)),
            InternalFormat::R16f => matches!(self, Self::F16(_) | Self::F32(_)),
            InternalFormat::R32f => matches!(self, Self::F32(_)),
            InternalFormat::R8ui => matches!(self, Self::U8(_)),
            InternalFormat::R8i => matches!(self, Self::I8(_)),
            InternalFormat::R16ui => matches!(self, Self::U16(_)),
            InternalFormat::R16i => matches!(self, Self::I16(_)),
            InternalFormat::R32ui => matches!(self, Self::U32(_)),
            InternalFormat::R32i => matches!(self, Self::I32(_)),
            InternalFormat::Rg8 => matches!(self, Self::U8(_)),
            InternalFormat::Rg8Snorm => matches!(self, Self::I8(_)),
            InternalFormat::Rg16f => matches!(self, Self::F16(_) | Self::F32(_)),
            InternalFormat::Rg32f => matches!(self, Self::F32(_)),
            InternalFormat::Rg8ui => matches!(self, Self::U8(_)),
            InternalFormat::Rg8i => matches!(self, Self::I8(_)),
            InternalFormat::Rg16ui => matches!(self, Self::U16(_)),
            InternalFormat::Rg16i => matches!(self, Self::I16(_)),
            InternalFormat::Rg32ui => matches!(self, Self::U32(_)),
            InternalFormat::Rg32i => matches!(self, Self::I32(_)),
            InternalFormat::Rgb8 => matches!(self, Self::U8(_)),
            InternalFormat::Srgb8 => matches!(self, Self::U8(_)),
            InternalFormat::Rgb565 => matches!(self, Self::U8(_) | Self::Packed5_6_5(_)),
            InternalFormat::Rgb8Snorm => matches!(self, Self::I8(_)),
            InternalFormat::R11fG11fB10f => matches!(
                self,
                Self::F16(_) | Self::F32(_) | Self::Reverse10F11F11F(_)
            ),
            InternalFormat::Rgb9E5 => matches!(
                self,
                Self::F16(_) | Self::F32(_) | Self::Reverse5_9_9_9(_)
            ),
            InternalFormat::Rgb16f => matches!(self, Self::F16(_) | Self::F32(_)),
            InternalFormat::Rgb32f => matches!(self, Self::F32(_)),
            InternalFormat::Rgb8ui => matches!(self, Self::U8(_)),
            InternalFormat::Rgb8i => matches!(self, Self::I8(_)),
            InternalFormat::Rgb16ui => matches!(self, Self::U16(_)),
            InternalFormat::Rgb16i => matches!(self, Self::I16(_)),
            InternalFormat::Rgb32ui => matches!(self, Self::U32(_)),
            InternalFormat::Rgb32i => matches!(self, Self::I32(_)),
            InternalFormat::Rgba8 => matches!(self, Self::U8(_)),
            InternalFormat::Srgb8Alpha8 => matches!(self, Self::U8(_)),
            InternalFormat::Rgba8Snorm => matches!(self, Self::I8(_)),
            InternalFormat::Rgb5A1 => matches!(
                self,
                Self::U8(_) | Self::Packed5_5_5_1(_) | Self::Reverse2_10_10_10(_)
            ),
            InternalFormat::Rgba4 => matches!(self, Self::U8(_) | Self::Packed4_4_4_4(_)),
            InternalFormat::Rgb10A2 => matches!(self, Self::Reverse2_10_10_10(_)),
            InternalFormat::Rgba16f => matches!(self, Self::F16(_) | Self::F32(_)),
            InternalFormat::Rgba32f => matches!(self, Self::F32(_)),
            InternalFormat::Rgba8ui => matches!(self, Self::U8(_)),
            InternalFormat::Rgba8i => matches!(self, Self::I8(_)),
            InternalFormat::Rgb10A2ui => matches!(self, Self::Reverse2_10_10_10(_)),
            InternalFormat::Rgba16ui => matches!(self, Self::U16(_)),
            InternalFormat::Rgba16i => matches!(self, Self::I16(_)),
            InternalFormat::Rgba32i => matches!(self, Self::I32(_)),
            InternalFormat::Rgba32ui => matches!(self, Self::U32(_)),
            InternalFormat::DepthComponent16 => matches!(self, Self::U16(_) | Self::U32(_)),
            InternalFormat::DepthComponent24 => matches!(self, Self::U32(_)),
            InternalFormat::DepthComponent32f => matches!(self, Self::F32(_)),
            InternalFormat::Depth24Stencil8 => matches!(self, Self::Packed24_8(_)),
            InternalFormat::Depth32fStencil8 => matches!(self, Self::F32Reverse24_8(_)),
        }
    }
}

/// The source of one channel of a sampled texel.
#[derive(Clone, Copy, Debug, PartialEq, Eq, Structural)]
pub enum Swizzle {
    Red,
    Green,
    Blue,
    Alpha,
    Zero,
    One,
}

impl GLEnum for Swizzle {
    open spec fn constant(&self) -> GLenum {
        match self {
            Swizzle::Red => gl::RED,
            Swizzle::Green => gl::GREEN,
            Swizzle::Blue => gl::BLUE,
            Swizzle::Alpha => gl::ALPHA,
            Swizzle::Zero => gl::ZERO,
            Swizzle::One => gl::ONE,
        }
    }

    fn as_gl(&self) -> (raw: GLenum) {
        match self {
            Swizzle::Red => gl::RED,
            Swizzle::Green => gl::GREEN,
            Swizzle::Blue => gl::BLUE,
            Swizzle::Alpha => gl::ALPHA,
            Swizzle::Zero => gl::ZERO,
            Swizzle::One => gl::ONE,
        }
    }
}

impl Swizzle {
    /// No two variants share a constant.
    pub proof fn lemma_constant_injective(a: Self, b: Self)
        ensures
            a.constant() == b.constant() <==> a == b,
    {
    }
}

/// How a texel is chosen between the centres of its neighbours.
#[derive(Clone, Copy, Debug, PartialEq, Eq, Structural)]
pub enum Filter {
    Nearest,
    /// Linear filtering for color images; percentage-closer filtering for
    /// depth images.
    Linear,
}

/// What a texture coordinate outside the image refers to.
#[derive(Clone, Copy, Debug, PartialEq, Eq, Structural)]
pub enum Wrap {
    ClampToEdge,
    MirroredRepeat,
    Repeat,
}

impl GLEnum for Wrap {
    open spec fn constant(&self) -> GLenum {
        match self {
            Wrap::ClampToEdge => gl::CLAMP_TO_EDGE,
            Wrap::MirroredRepeat => gl::MIRRORED_REPEAT,
            Wrap::Repeat => gl::REPEAT,
        }
    }

    fn as_gl(&self) -> (raw: GLenum) {
        match self {
            Wrap::ClampToEdge => gl::CLAMP_TO_EDGE,
            Wrap::MirroredRepeat => gl::MIRRORED_REPEAT,
            Wrap::Repeat => gl::REPEAT,
        }
    }
}

impl Wrap {
    /// No two variants share a constant.
    pub proof fn lemma_constant_injective(a: Self, b: Self)
        ensures
            a.constant() == b.constant() <==> a == b,
    {
    }
}

/// The component that sampling a combined depth-stencil texture returns.
#[derive(Clone, Copy, Debug, PartialEq, Eq, Structural)]
pub enum DepthStencilMode {
    Depth,
    Stencil,
}

impl GLEnum for DepthStencilMode {
    open spec fn constant(&self) -> GLenum {
        match self {
            DepthStencilMode::Depth => gl::DEPTH_COMPONENT,
            DepthStencilMode::Stencil => gl::STENCIL_INDEX,
        }
    }

    fn as_gl(&self) -> (raw: GLenum) {
        match self {
            DepthStencilMode::Depth => gl::DEPTH_COMPONENT,
            DepthStencilMode::Stencil => gl::STENCIL_INDEX,
        }
    }
}

impl DepthStencilMode {
    /// No two variants share a constant.
    pub proof fn lemma_constant_injective(a: Self, b: Self)
        ensures
            a.constant() == b.constant() <==> a == b,
    {
    }
}

/// A texture that the application owns, never the default texture.
///
/// `Dim` tells as what the texture was first bound: a [`Stateless`] texture
/// bound to the two-dimensional slot becomes a `Texture<D2>`.
#[must_use]
#[derive(Debug)]
pub struct Texture<Dim: Dimensionality>(pub(crate) NonZeroName, pub(crate) PhantomData<Dim>);

impl<Dim: Dimensionality> Sealed for Texture<Dim> {

}

impl<Dim: Dimensionality> Named for Texture<Dim> {
    closed spec fn named(&self) -> u32 {
        self.0@
    }

    fn adopt(name: NonZeroName) -> (handle: Self) {
        Texture(name, PhantomData)
    }
}

impl<Dim: Dimensionality> ThinGLObject for Texture<Dim> {
    fn name(&self) -> (name: NonZeroName) {
        self.0
    }

    fn into_name(self) -> (name: NonZeroName) {
        self.0
    }
}

pub type Texture2D = Texture<D2>;

pub type Texture2DArray = Texture<D2Array>;

pub type Texture3D = Texture<D3>;

pub type TextureCube = Texture<Cube>;

/// A texture that has no dimensionality, properties or storage yet. The first
/// bind to a slot gives it those of the slot.
#[must_use]
#[derive(Debug)]
pub struct Stateless(pub(crate) NonZeroName);

impl Sealed for Stateless {

}

impl Named for Stateless {
    closed spec fn named(&self) -> u32 {
        self.0@
    }

    fn adopt(name: NonZeroName) -> (handle: Self) {
        Stateless(name)
    }
}

impl ThinGLObject for Stateless {
    fn name(&self) -> (name: NonZeroName) {
        self.0
    }

    fn into_name(self) -> (name: NonZeroName) {
        self.0
    }
}

/// A texture of any dimensionality, kept only to be deleted.
#[must_use]
#[derive(Debug)]
pub struct DeletionToken(pub(crate) NonZeroName);

impl Sealed for DeletionToken {

}

impl Named for DeletionToken {
    closed spec fn named(&self) -> u32 {
        self.0@
    }

    fn adopt(name: NonZeroName) -> (handle: Self) {
        DeletionToken(name)
    }
}

impl ThinGLObject for DeletionToken {
    fn name(&self) -> (name: NonZeroName) {
        self.0
    }

    fn into_name(self) -> (name: NonZeroName) {
        self.0
    }
}

/// Keeps the texture only to delete it.
impl<Dim: Dimensionality> From<Texture<Dim>> for DeletionToken {
    fn from(texture: Texture<Dim>) -> (token: Self)
        ensures
            token.named() == texture.named(),
    {
        DeletionToken(texture.0)
    }
}

impl<Dim: Dimensionality> vstd::std_specs::convert::FromSpecImpl<Texture<Dim>> for DeletionToken {
    open spec fn obeys_from_spec() -> bool {
        true
    }

    open spec fn from_spec(texture: Texture<Dim>) -> Self {
        doomed(texture)
    }
}

/// Keeps the texture only to delete it.
impl From<Stateless> for DeletionToken {
    fn from(texture: Stateless) -> (token: Self)
        ensures
            token.named() == texture.named(),
    {
        DeletionToken(texture.0)
    }
}

impl vstd::std_specs::convert::FromSpecImpl<Stateless> for DeletionToken {
    open spec fn obeys_from_spec() -> bool {
        true
    }

    open spec fn from_spec(texture: Stateless) -> Self {
        doomed_stateless(texture)
    }
}

/// The deletion token of the same name.
pub closed spec fn doomed<Dim: Dimensionality>(texture: Texture<Dim>) -> DeletionToken {
    DeletionToken(texture.0)
}

/// The deletion token of the same name.
pub closed spec fn doomed_stateless(texture: Stateless) -> DeletionToken {
    DeletionToken(texture.0)
}

/// A deletion token keeps the name.
pub proof fn lemma_doomed_name<Dim: Dimensionality>(texture: Texture<Dim>, stateless: Stateless)
    ensures
        doomed(texture).named() == texture.named(),
        doomed_stateless(stateless).named() == stateless.named(),
{
}

} // verus!
