//! Renderbuffer handles and their storage formats.
use vstd::prelude::*;

use crate::gl;
use crate::gl::types::GLenum;
use crate::sealed::{Named, Sealed};
use crate::texture::Format;
use crate::{GLEnum, NonZeroName, ThinGLObject};

verus! {

/// The layout in which the driver stores the pixels of a renderbuffer.
#[derive(Clone, Copy, Debug, PartialEq, Eq, Structural)]
pub enum InternalFormat {
    R8,
    R8ui,
    R8i,
    R16ui,
    R16i,
    R32ui,
    R32i,
    Rg8,
    Rg8ui,
    Rg8i,
    Rg16ui,
    Rg16i,
    Rg32ui,
    Rg32i,
    Rgb8,
    Rgb565,
    Rgba8,
    Srgb8Alpha8,
    Rgb5A1,
    Rgba4,
    Rgb10A2,
    Rgba8ui,
    Rgba8i,
    Rgb10A2ui,
    Rgba16ui,
    Rgba16i,
    Rgba32i,
    Rgba32ui,
    DepthComponent16,
    DepthComponent24,
    DepthComponent32f,
    Depth24Stencil8,
    Depth32fStencil8,
    StencilIndex8,
}

impl GLEnum for InternalFormat {
    open spec fn constant(&self) -> GLenum {
        match self {
            InternalFormat::R8 => gl::R8,
            InternalFormat::R8ui => gl::R8UI,
            InternalFormat::R8i => gl::R8I,
            InternalFormat::R16ui => gl::R16UI,
            InternalFormat::R16i => gl::R16I,
            InternalFormat::R32ui => gl::R32UI,
            InternalFormat::R32i => gl::R32I,
            InternalFormat::Rg8 => gl::RG8,
            InternalFormat::Rg8ui => gl::RG8UI,
            InternalFormat::Rg8i => gl::RG8I,
            InternalFormat::Rg16ui => gl::RG16UI,
            InternalFormat::Rg16i => gl::RG16I,
            InternalFormat::Rg32ui => gl::RG32UI,
            InternalFormat::Rg32i => gl::RG32I,
            InternalFormat::Rgb8 => gl::RGB8,
            InternalFormat::Rgb565 => gl::RGB565,
            InternalFormat::Rgba8 => gl::RGBA8,
            InternalFormat::Srgb8Alpha8 => gl::SRGB8_ALPHA8,
            InternalFormat::Rgb5A1 => gl::RGB5_A1,
            InternalFormat::Rgba4 => gl::RGBA4,
            InternalFormat::Rgb10A2 => gl::RGB10_A2,
            InternalFormat::Rgba8ui => gl::RGBA8UI,
            InternalFormat::Rgba8i => gl::RGBA8I,
            InternalFormat::Rgb10A2ui => gl::RGB10_A2UI,
            InternalFormat::Rgba16ui => gl::RGBA16UI,
            InternalFormat::Rgba16i => gl::RGBA16I,
            InternalFormat::Rgba32i => gl::RGBA32I,
            InternalFormat::Rgba32ui => gl::RGBA32UI,
            InternalFormat::DepthComponent16 => gl::DEPTH_COMPONENT16,
            InternalFormat::DepthComponent24 => gl::DEPTH_COMPONENT24,
            InternalFormat::DepthComponent32f => gl::DEPTH_COMPONENT32F,
            InternalFormat::Depth24Stencil8 => gl::DEPTH24_STENCIL8,
            InternalFormat::Depth32fStencil8 => gl::DEPTH32F_STENCIL8,
            InternalFormat::StencilIndex8 => gl::STENCIL_INDEX8,
        }
    }

    fn as_gl(&self) -> (raw: GLenum) {
        match self {
            InternalFormat::R8 => gl::R8,
            InternalFormat::R8ui => gl::R8UI,
            InternalFormat::R8i => gl::R8I,
            InternalFormat::R16ui => gl::R16UI,
            InternalFormat::R16i => gl::R16I,
            InternalFormat::R32ui => gl::R32UI,
            InternalFormat::R32i => gl::R32I,
            InternalFormat::Rg8 => gl::RG8,
            InternalFormat::Rg8ui => gl::RG8UI,
            InternalFormat::Rg8i => gl::RG8I,
            InternalFormat::Rg16ui => gl::RG16UI,
            InternalFormat::Rg16i => gl::RG16I,
            InternalFormat::Rg32ui => gl::RG32UI,
            InternalFormat::Rg32i => gl::RG32I,
            InternalFormat::Rgb8 => gl::RGB8,
            InternalFormat::Rgb565 => gl::RGB565,
            InternalFormat::Rgba8 => gl::RGBA8,
            InternalFormat::Srgb8Alpha8 => gl::SRGB8_ALPHA8,
            InternalFormat::Rgb5A1 => gl::RGB5_A1,
            InternalFormat::Rgba4 => gl::RGBA4,
            InternalFormat::Rgb10A2 => gl::RGB10_A2,
            InternalFormat::Rgba8ui => gl::RGBA8UI,
            InternalFormat::Rgba8i => gl::RGBA8I,
            InternalFormat::Rgb10A2ui => gl::RGB10_A2UI,
            InternalFormat::Rgba16ui => gl::RGBA16UI,
            InternalFormat::Rgba16i => gl::RGBA16I,
            InternalFormat::Rgba32i => gl::RGBA32I,
            InternalFormat::Rgba32ui => gl::RGBA32UI,
            InternalFormat::DepthComponent16 => gl::DEPTH_COMPONENT16,
            InternalFormat::DepthComponent24 => gl::DEPTH_COMPONENT24,
            InternalFormat::DepthComponent32f => gl::DEPTH_COMPONENT32F,
            InternalFormat::Depth24Stencil8 => gl::DEPTH24_STENCIL8,
            InternalFormat::Depth32fStencil8 => gl::DEPTH32F_STENCIL8,
            InternalFormat::StencilIndex8 => gl::STENCIL_INDEX8,
        }
    }
}

impl InternalFormat {
    /// No two variants share a constant.
    pub proof fn lemma_constant_injective(a: Self, b: Self)
        ensures
            a.constant() == b.constant() <==> a == b,
    {
    }
}

impl InternalFormat {
    /// The pixel format that belongs to the internal format: its channels, and
    /// whether they hold integers.
    pub open spec fn layout(&self) -> Format {
        match self {
            InternalFormat::R8 => Format::Red,
            InternalFormat::R8ui
            | InternalFormat::R8i
            | InternalFormat::R16ui
            | InternalFormat::R16i
            | InternalFormat::R32ui
            | InternalFormat::R32i => Format::RedInteger,
            InternalFormat::Rg8 => Format::RG,
            InternalFormat::Rg8ui
            | InternalFormat::Rg8i
            | InternalFormat::Rg16ui
            | InternalFormat::Rg16i
            | InternalFormat::Rg32ui
            | InternalFormat::Rg32i => Format::RGInteger,
            InternalFormat::Rgb8 | InternalFormat::Rgb565 => Format::RGB,
            InternalFormat::Rgba8
            | InternalFormat::Srgb8Alpha8
            | InternalFormat::Rgb5A1
            | InternalFormat::Rgba4
            | InternalFormat::Rgb10A2 => Format::RGBA,
            InternalFormat::Rgba8ui
            | InternalFormat::Rgba8i
            | InternalFormat::Rgb10A2ui
            | InternalFormat::Rgba16ui
            | InternalFormat::Rgba16i
            | InternalFormat::Rgba32i
            | InternalFormat::Rgba32ui => Format::RGBAInteger,
            InternalFormat::DepthComponent16
            | InternalFormat::DepthComponent24
            | InternalFormat::DepthComponent32f => Format::DepthComponent,
            InternalFormat::Depth24Stencil8 | InternalFormat::Depth32fStencil8 => {
                Format::DepthStencil
            },
            InternalFormat::StencilIndex8 => Format::Stencil,
        }
    }

    /// The pixel format that belongs to this internal format. It describes
    /// pixel data in a buffer, and is not the constant of `as_gl`.
    #[must_use]
    pub fn format(&self) -> (format: Format)
        ensures
            format == self.layout(),
    {
        match self {
            Self::R8 => Format::Red,
            Self::R8ui => Format::RedInteger,
            Self::R8i => Format::RedInteger,
            Self::R16ui => Format::RedInteger,
            Self::R16i => Format::RedInteger,
            Self::R32ui => Format::RedInteger,
            Self::R32i => Format::RedInteger,
            Self::Rg8 => Format::RG,
            Self::Rg8ui => Format::RGInteger,
            Self::Rg8i => Format::RGInteger,
            Self::Rg16ui => Format::RGInteger,
            Self::Rg16i => Format::RGInteger,
            Self::Rg32ui => Format::RGInteger,
            Self::Rg32i => Format::RGInteger,
            Self::Rgb8 => Format::RGB,
            Self::Rgb565 => Format::RGB,
            Self::Rgba8 => Format::RGBA,
            Self::Srgb8Alpha8 => Format::RGBA,
            Self::Rgb5A1 => Format::RGBA,
            Self::Rgba4 => Format::RGBA,
            Self::Rgb10A2 => Format::RGBA,
            Self::Rgba8ui => Format::RGBAInteger,
            Self::Rgba8i => Format::RGBAInteger,
            Self::Rgb10A2ui => Format::RGBAInteger,
            Self::Rgba16ui => Format::RGBAInteger,
            Self::Rgba16i => Format::RGBAInteger,
            Self::Rgba32i => Format::RGBAInteger,
            Self::Rgba32ui => Format::RGBAInteger,
            Self::DepthComponent16 => Format::DepthComponent,
            Self::DepthComponent24 => Format::DepthComponent,
            Self::DepthComponent32f => Format::DepthComponent,
            Self::Depth24Stencil8 => Format::DepthStencil,
            Self::Depth32fStencil8 => Format::DepthStencil,
            Self::StencilIndex8 => Format::Stencil,
        }
    }
}

/// The layouts that a multisampled renderbuffer can have.
#[derive(Clone, Copy, Debug, PartialEq, Eq, Structural)]
pub enum InternalFormatMultisample {
    R8,
    Rg8,
    Rgb8,
    Rgb565,
    Rgba8,
    Srgb8Alpha8,
    Rgb5A1,
    Rgba4,
    Rgb10A2,
    DepthComponent16,
    DepthComponent24,
    DepthComponent32f,
    Depth24Stencil8,
    Depth32fStencil8,
    StencilIndex8,
}

impl GLEnum for InternalFormatMultisample {
    open spec fn constant(&self) -> GLenum {
        match self {
            InternalFormatMultisample::R8 => gl::R8,
            InternalFormatMultisample::Rg8 => gl::RG8,
            InternalFormatMultisample::Rgb8 => gl::RGB8,
            InternalFormatMultisample::Rgb565 => gl::RGB565,
            InternalFormatMultisample::Rgba8 => gl::RGBA8,
            InternalFormatMultisample::Srgb8Alpha8 => gl::SRGB8_ALPHA8,
            InternalFormatMultisample::Rgb5A1 => gl::RGB5_A1,
            InternalFormatMultisample::Rgba4 => gl::RGBA4,
            InternalFormatMultisample::Rgb10A2 => gl::RGB10_A2,
            InternalFormatMultisample::DepthComponent16 => gl::DEPTH_COMPONENT16,
            InternalFormatMultisample::DepthComponent24 => gl::DEPTH_COMPONENT24,
            InternalFormatMultisample::DepthComponent32f => gl::DEPTH_COMPONENT32F,
            InternalFormatMultisample::Depth24Stencil8 => gl::DEPTH24_STENCIL8,
            InternalFormatMultisample::Depth32fStencil8 => gl::DEPTH32F_STENCIL8,
            InternalFormatMultisample::StencilIndex8 => gl::STENCIL_INDEX8,
        }
    }

    fn as_gl(&self) -> (raw: GLenum) {
        match self {
            InternalFormatMultisample::R8 => gl::R8,
            InternalFormatMultisample::Rg8 => gl::RG8,
            InternalFormatMultisample::Rgb8 => gl::RGB8,
            InternalFormatMultisample::Rgb565 => gl::RGB565,
            InternalFormatMultisample::Rgba8 => gl::RGBA8,
            InternalFormatMultisample::Srgb8Alpha8 => gl::SRGB8_ALPHA8,
            InternalFormatMultisample::Rgb5A1 => gl::RGB5_A1,
            InternalFormatMultisample::Rgba4 => gl::RGBA4,
            InternalFormatMultisample::Rgb10A2 => gl::RGB10_A2,
            InternalFormatMultisample::DepthComponent16 => gl::DEPTH_COMPONENT16,
            InternalFormatMultisample::DepthComponent24 => gl::DEPTH_COMPONENT24,
            InternalFormatMultisample::DepthComponent32f => gl::DEPTH_COMPONENT32F,
            InternalFormatMultisample::Depth24Stencil8 => gl::DEPTH24_STENCIL8,
            InternalFormatMultisample::Depth32fStencil8 => gl::DEPTH32F_STENCIL8,
            InternalFormatMultisample::StencilIndex8 => gl::STENCIL_INDEX8,
        }
    }
}

impl InternalFormatMultisample {
    /// No two variants share a constant.
    pub proof fn lemma_constant_injective(a: Self, b: Self)
        ensures
            a.constant() == b.constant() <==> a == b,
    {
    }
}

impl InternalFormatMultisample {
    /// The format of the same name among those of a renderbuffer without
    /// multisampling.
    pub open spec fn single(&self) -> InternalFormat {
        match self {
            InternalFormatMultisample::R8 => InternalFormat::R8,
            InternalFormatMultisample::Rg8 => InternalFormat::Rg8,
            InternalFormatMultisample::Rgb8 => InternalFormat::Rgb8,
            InternalFormatMultisample::Rgb565 => InternalFormat::Rgb565,
            InternalFormatMultisample::Rgba8 => InternalFormat::Rgba8,
            InternalFormatMultisample::Srgb8Alpha8 => InternalFormat::Srgb8Alpha8,
            InternalFormatMultisample::Rgb5A1 => InternalFormat::Rgb5A1,
            InternalFormatMultisample::Rgba4 => InternalFormat::Rgba4,
            InternalFormatMultisample::Rgb10A2 => InternalFormat::Rgb10A2,
            InternalFormatMultisample::DepthComponent16 => InternalFormat::DepthComponent16,
            InternalFormatMultisample::DepthComponent24 => InternalFormat::DepthComponent24,
            InternalFormatMultisample::DepthComponent32f => InternalFormat::DepthComponent32f,
            InternalFormatMultisample::Depth24Stencil8 => InternalFormat::Depth24Stencil8,
            InternalFormatMultisample::Depth32fStencil8 => InternalFormat::Depth32fStencil8,
            InternalFormatMultisample::StencilIndex8 => InternalFormat::StencilIndex8,
        }
    }

    /// A multisampled format has the constant of the format of the same name.
    pub proof fn lemma_constant_of_single(format: Self)
        ensures
            format.constant() == format.single().constant(),
    {
    }

    /// The pixel format that belongs to this internal format: that of the
    /// format of the same name without multisampling.
    #[must_use]
    pub fn format(&self) -> (format: Format)
        ensures
            format == self.single().layout(),
    {
        match self {
            Self::R8 => Format::Red,
            Self::Rg8 => Format::RG,
            Self::Rgb8 => Format::RGB,
            Self::Rgb565 => Format::RGB,
            Self::Rgba8 => Format::RGBA,
            Self::Srgb8Alpha8 => Format::RGBA,
            Self::Rgb5A1 => Format::RGBA,
            Self::Rgba4 => Format::RGBA,
            Self::Rgb10A2 => Format::RGBA,
            Self::DepthComponent16 => Format::DepthComponent,
            Self::DepthComponent24 => Format::DepthComponent,
            Self::DepthComponent32f => Format::DepthComponent,
            Self::Depth24Stencil8 => Format::DepthStencil,
            Self::Depth32fStencil8 => Format::DepthStencil,
            Self::StencilIndex8 => Format::Stencil,
        }
    }
}

/// A renderbuffer that the application owns.
#[must_use]
#[derive(Debug)]
pub struct Renderbuffer(pub(crate) NonZeroName);

impl Sealed for Renderbuffer {

}

impl Named for Renderbuffer {
    closed spec fn named(&self) -> u32 {
        self.0@
    }

    fn adopt(name: NonZeroName) -> (handle: Self) {
        Renderbuffer(name)
    }
}

impl ThinGLObject for Renderbuffer {
    fn name(&self) -> (name: NonZeroName) {
        self.0
    }

    fn into_name(self) -> (name: NonZeroName) {
        self.0
    }
}

impl Renderbuffer {
    pub const TARGET: GLenum = gl::RENDERBUFFER;
}

/// The target of renderbuffers is the constant of that name.
pub proof fn lemma_target()
    ensures
        Renderbuffer::TARGET == gl::RENDERBUFFER,
{
}

} // verus!
