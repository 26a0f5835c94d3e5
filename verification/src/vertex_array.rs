//! Vertex array handles and the description of vertex attributes.
use vstd::prelude::*;

use crate::gl;
use crate::gl::types::GLenum;
use crate::nonzero::NonZeroUsize;
use crate::sealed::{Named, Sealed};
use crate::{GLEnum, NonZeroName, ThinGLObject};

verus! {

/// The number of components to fetch; as a rule that of the vertex shader's
/// input.
///
/// For a packed type it must be [`Components::Vec4`]; for any other it is the
/// number of elements read.
#[derive(Clone, Copy, Debug, PartialEq, Eq, Structural)]
pub enum Components {
    Scalar,
    Vec2,
    Vec3,
    Vec4,
}

impl Components {
    /// The number of components.
    pub open spec fn count(&self) -> i32 {
        match self {
            Components::Scalar => 1,
            Components::Vec2 => 2,
            Components::Vec3 => 3,
            Components::Vec4 => 4,
        }
    }
}

impl From<Components> for i32 {
    fn from(value: Components) -> (count: i32) {
        match value {
            Components::Scalar => 1,
            Components::Vec2 => 2,
            Components::Vec3 => 3,
            Components::Vec4 => 4,
        }
    }
}

impl vstd::std_specs::convert::FromSpecImpl<Components> for i32 {
    open spec fn obeys_from_spec() -> bool {
        true
    }

    open spec fn from_spec(value: Components) -> i32 {
        value.count()
    }
}

/// One integer per component.
#[derive(Clone, Copy, Debug, PartialEq, Eq, Structural)]
pub enum IntegerAttribute {
    U8,
    I8,
    U16,
    I16,
    U32,
    I32,
}

impl GLEnum for IntegerAttribute {
    open spec fn constant(&self) -> GLenum {
        match self {
            IntegerAttribute::U8 => gl::UNSIGNED_BYTE,
            IntegerAttribute::I8 => gl::BYTE,
            IntegerAttribute::U16 => gl::UNSIGNED_SHORT,
            IntegerAttribute::I16 => gl::SHORT,
            IntegerAttribute::U32 => gl::UNSIGNED_INT,
            IntegerAttribute::I32 => gl::INT,
        }
    }

    fn as_gl(&self) -> (raw: GLenum) {
        match self {
            IntegerAttribute::U8 => gl::UNSIGNED_BYTE,
            IntegerAttribute::I8 => gl::BYTE,
            IntegerAttribute::U16 => gl::UNSIGNED_SHORT,
            IntegerAttribute::I16 => gl::SHORT,
            IntegerAttribute::U32 => gl::UNSIGNED_INT,
            IntegerAttribute::I32 => gl::INT,
        }
    }
}

impl IntegerAttribute {
    /// No two variants share a constant.
    pub proof fn lemma_constant_injective(a: Self, b: Self)
        ensures
            a.constant() == b.constant() <==> a == b,
    {
    }
}

impl IntegerAttribute {
    /// The alignment of one element: its size in bytes.
    pub open spec fn alignment(&self) -> usize {
        match self {
            IntegerAttribute::U8 | IntegerAttribute::I8 => 1,
            IntegerAttribute::U16 | IntegerAttribute::I16 => 2,
            IntegerAttribute::U32 | IntegerAttribute::I32 => 4,
        }
    }

    /// The alignment that fetching this attribute asks of an offset.
    pub fn align_of(&self) -> (align: usize)
        ensures
            align == self.alignment(),
    {
        match self {
            Self::U8 => 1,
            Self::I8 => 1,
            Self::U16 => 2,
            Self::I16 => 2,
            Self::U32 => 4,
            Self::I32 => 4,
        }
    }
}

/// One real number per component.
#[derive(Clone, Copy, Debug, PartialEq, Eq, Structural)]
pub enum FloatingAttribute {
    F16,
    F32,
    /// Fixed point, sixteen bits either side of the point.
    Fixed16_16,
}

impl GLEnum for FloatingAttribute {
    open spec fn constant(&self) -> GLenum {
        match self {
            FloatingAttribute::F16 => gl::HALF_FLOAT,
            FloatingAttribute::F32 => gl::FLOAT,
            FloatingAttribute::Fixed16_16 => gl::FIXED,
        }
    }

    fn as_gl(&self) -> (raw: GLenum) {
        match self {
            FloatingAttribute::F16 => gl::HALF_FLOAT,
            FloatingAttribute::F32 => gl::FLOAT,
            FloatingAttribute::Fixed16_16 => gl::FIXED,
        }
    }
}

impl FloatingAttribute {
    /// No two variants share a constant.
    pub proof fn lemma_constant_injective(a: Self, b: Self)
        ensures
            a.constant() == b.constant() <==> a == b,
    {
    }
}

impl FloatingAttribute {
    /// The alignment of one element: its size in bytes.
    pub open spec fn alignment(&self) -> usize {
        match self {
            FloatingAttribute::F16 => 2,
            FloatingAttribute::F32 | FloatingAttribute::Fixed16_16 => 4,
        }
    }

    /// The alignment that fetching this attribute asks of an offset.
    pub fn align_of(&self) -> (align: usize)
        ensures
            align == self.alignment(),
    {
        match self {
            Self::F16 => 2,
            Self::F32 => 4,
            Self::Fixed16_16 => 4,
        }
    }
}

/// One 32-bit element that packs four components.
#[derive(Clone, Copy, Debug, PartialEq, Eq, Structural)]
pub enum PackedIntegerAttribute {
    /// From the lowest bit up: three signed 10-bit integers, then a signed
    /// 2-bit one.
    IReverse2_10_10_10,
    /// From the lowest bit up: three unsigned 10-bit integers, then an
    /// unsigned 2-bit one.
    UReverse2_10_10_10,
}

impl GLEnum for PackedIntegerAttribute {
    open spec fn constant(&self) -> GLenum {
        match self {
            PackedIntegerAttribute::IReverse2_10_10_10 => gl::INT_2_10_10_10_REV,
            PackedIntegerAttribute::UReverse2_10_10_10 => gl::UNSIGNED_INT_2_10_10_10_REV,
        }
    }

    fn as_gl(&self) -> (raw: GLenum) {
        match self {
            PackedIntegerAttribute::IReverse2_10_10_10 => gl::INT_2_10_10_10_REV,
            PackedIntegerAttribute::UReverse2_10_10_10 => gl::UNSIGNED_INT_2_10_10_10_REV,
        }
    }
}

impl PackedIntegerAttribute {
    /// No two variants share a constant.
    pub proof fn lemma_constant_injective(a: Self, b: Self)
        ensures
            a.constant() == b.constant() <==> a == b,
    {
    }
}

impl PackedIntegerAttribute {
    /// The alignment of one element: that of the 32-bit word it is packed in.
    pub open spec fn alignment(&self) -> usize {
        4
    }

    /// The alignment that fetching this attribute asks of an offset.
    pub fn align_of(&self) -> (align: usize)
        ensures
            align == self.alignment(),
    {
        match self {
            Self::IReverse2_10_10_10 | Self::UReverse2_10_10_10 => 4,
        }
    }
}

/// The type of the component data, and how the shader sees it.
#[derive(Clone, Copy, Debug, PartialEq, Eq, Structural)]
pub enum AttributeType {
    /// Fetched as integers, seen as integers.
    Integer(IntegerAttribute),
    /// Fetched as integers, seen as the real numbers of the same value: `3`
    /// becomes `3.0`.
    Scaled(IntegerAttribute),
    /// Fetched as packed integers, seen as the real numbers of the same value.
    PackedScaled(PackedIntegerAttribute),
    /// Fetched as integers, seen as real numbers from zero to one for an
    /// unsigned type, and from minus one to one for a signed type.
    Normalized(IntegerAttribute),
    /// Fetched as packed integers, seen as real numbers from zero to one for
    /// an unsigned type, and from minus one to one for a signed type.
    PackedNormalized(PackedIntegerAttribute),
    /// Fetched as real numbers, seen as real numbers.
    Float(FloatingAttribute),
}

impl AttributeType {
    /// The alignment of one element, whatever the shader makes of it.
    pub open spec fn alignment(&self) -> usize {
        match self {
            AttributeType::Integer(ty) => ty.alignment(),
            AttributeType::Scaled(ty) => ty.alignment(),
            AttributeType::Normalized(ty) => ty.alignment(),
            AttributeType::PackedScaled(ty) => ty.alignment(),
            AttributeType::PackedNormalized(ty) => ty.alignment(),
            AttributeType::Float(ty) => ty.alignment(),
        }
    }

    /// The constant of the element type.
    pub open spec fn constant(&self) -> GLenum {
        match self {
            AttributeType::Integer(ty) => ty.constant(),
            AttributeType::Scaled(ty) => ty.constant(),
            AttributeType::Normalized(ty) => ty.constant(),
            AttributeType::PackedScaled(ty) => ty.constant(),
            AttributeType::PackedNormalized(ty) => ty.constant(),
            AttributeType::Float(ty) => ty.constant(),
        }
    }

    /// The alignment that fetching this attribute asks of an offset.
    pub fn align_of(&self) -> (align: usize)
        ensures
            align == self.alignment(),
            align == 1 || align == 2 || align == 4,
    {
        match self {
            AttributeType::Float(ty) => ty.align_of(),
            AttributeType::Scaled(ty)
            | AttributeType::Integer(ty)
            | AttributeType::Normalized(ty) => ty.align_of(),
            AttributeType::PackedScaled(ty) | AttributeType::PackedNormalized(ty) => ty.align_of(),
        }
    }
}

/// What describes one vertex attribute to the driver.
#[derive(Clone, Copy, Debug)]
pub struct Attribute {
    /// The type of the data in the array, and how the shader sees it.
    pub ty: AttributeType,
    /// The number of components of the scalar or vector.
    pub components: Components,
    /// The distance in bytes from one value to the next. `None` lets the
    /// driver take it from `ty` and `components`.
    pub stride: Option<NonZeroUsize>,
    /// The offset in bytes of the first value from the start of the buffer. It
    /// must be a multiple of [`AttributeType::align_of`].
    pub offset: usize,
}

/// A vertex array. It remembers the buffers bound beside it, and the offset,
/// size and type of every attribute that the vertex shader fetches.
#[must_use]
#[derive(Debug)]
pub struct VertexArray(pub(crate) NonZeroName);

impl Sealed for VertexArray {

}

impl Named for VertexArray {
    closed spec fn named(&self) -> u32 {
        self.0@
    }

    fn adopt(name: NonZeroName) -> (handle: Self) {
        VertexArray(name)
    }
}

impl ThinGLObject for VertexArray {
    fn name(&self) -> (name: NonZeroName) {
        self.0
    }

    fn into_name(self) -> (name: NonZeroName) {
        self.0
    }
}

} // verus!
