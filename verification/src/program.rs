//! Shader and program handles, and the values of uniform variables.
use core::marker::PhantomData;
use vstd::prelude::*;

use crate::gl;
use crate::gl::types::GLenum;
use crate::sealed::{Named, Sealed};
use crate::{NonZeroName, ThinGLObject};

pub mod uniform;

verus! {

/// The kinds of shader.
pub trait Type: Sealed {
    const TYPE: GLenum;
}

/// Marker for `GL_VERTEX_SHADER`.
#[derive(Debug)]
pub struct Vertex;

impl Sealed for Vertex {

}

impl Type for Vertex {
    const TYPE: GLenum = gl::VERTEX_SHADER;
}

/// Marker for `GL_FRAGMENT_SHADER`.
#[derive(Debug)]
pub struct Fragment;

impl Sealed for Fragment {

}

impl Type for Fragment {
    const TYPE: GLenum = gl::FRAGMENT_SHADER;
}

/// Each marker of a kind of shader stands for the constant of its name.
pub proof fn lemma_types()
    ensures
        Vertex::TYPE == gl::VERTEX_SHADER,
        Fragment::TYPE == gl::FRAGMENT_SHADER,
{
}

/// The shaders that make up a program.
pub enum ProgramShaders<'a> {
    Graphics {
        vertex: &'a CompiledShader<Vertex>,
        /// A program of OpenGL ES cannot do without a fragment shader.
        fragment: &'a CompiledShader<Fragment>,
    },
}

/// A shader without source text.
#[must_use]
#[derive(Debug)]
pub struct EmptyShader<Ty: Type>(pub(crate) NonZeroName, pub(crate) PhantomData<Ty>);

impl<Ty: Type> Sealed for EmptyShader<Ty> {

}

impl<Ty: Type> Named for EmptyShader<Ty> {
    closed spec fn named(&self) -> u32 {
        self.0@
    }

    fn adopt(name: NonZeroName) -> (handle: Self) {
        EmptyShader(name, PhantomData)
    }
}

impl<Ty: Type> ThinGLObject for EmptyShader<Ty> {
    fn name(&self) -> (name: NonZeroName) {
        self.0
    }

    fn into_name(self) -> (name: NonZeroName) {
        self.0
    }
}

impl<Ty: Type> EmptyShader<Ty> {
    /// Takes the shader for compiled without asking the driver.
    ///
    /// The caller answers for it: a query for the compile status of this
    /// shader would have to report success.
    pub fn into_compiled_unchecked(self) -> (compiled: CompiledShader<Ty>)
        ensures
            compiled.named() == self.named(),
    {
        CompiledShader(self.0, PhantomData)
    }
}

/// A shader that has been compiled.
#[must_use]
#[derive(Debug)]
pub struct CompiledShader<Ty: Type>(pub(crate) NonZeroName, pub(crate) PhantomData<Ty>);

impl<Ty: Type> Sealed for CompiledShader<Ty> {

}

impl<Ty: Type> Named for CompiledShader<Ty> {
    closed spec fn named(&self) -> u32 {
        self.0@
    }

    fn adopt(name: NonZeroName) -> (handle: Self) {
        CompiledShader(name, PhantomData)
    }
}

impl<Ty: Type> ThinGLObject for CompiledShader<Ty> {
    fn name(&self) -> (name: NonZeroName) {
        self.0
    }

    fn into_name(self) -> (name: NonZeroName) {
        self.0
    }
}

/// Forgets that the shader has source text and is compiled.
impl<Ty: Type> From<CompiledShader<Ty>> for EmptyShader<Ty> {
    fn from(value: CompiledShader<Ty>) -> (shader: Self)
        ensures
            shader.named() == value.named(),
    {
        EmptyShader(value.0, PhantomData)
    }
}

impl<Ty: Type> vstd::std_specs::convert::FromSpecImpl<CompiledShader<Ty>> for EmptyShader<Ty> {
    open spec fn obeys_from_spec() -> bool {
        true
    }

    open spec fn from_spec(value: CompiledShader<Ty>) -> Self {
        uncompiled(value)
    }
}

/// The shader of the same name, of which no more is known than that it
/// exists.
pub closed spec fn uncompiled<Ty: Type>(compiled: CompiledShader<Ty>) -> EmptyShader<Ty> {
    EmptyShader(compiled.0, PhantomData)
}

/// A program that has not been linked.
#[must_use]
#[derive(Debug)]
pub struct Program(pub(crate) NonZeroName);

impl Sealed for Program {

}

impl Named for Program {
    closed spec fn named(&self) -> u32 {
        self.0@
    }

    fn adopt(name: NonZeroName) -> (handle: Self) {
        Program(name)
    }
}

impl ThinGLObject for Program {
    fn name(&self) -> (name: NonZeroName) {
        self.0
    }

    fn into_name(self) -> (name: NonZeroName) {
        self.0
    }
}

impl Program {
    /// Takes the program for linked without asking the driver.
    ///
    /// The caller answers for it: a query for the link status of this program
    /// would have to report success.
    pub fn into_linked_unchecked(self) -> (linked: LinkedProgram)
        ensures
            linked.named() == self.named(),
    {
        LinkedProgram(self.0)
    }
}

/// A program that has been linked.
#[must_use]
#[derive(Debug)]
pub struct LinkedProgram(pub(crate) NonZeroName);

impl Sealed for LinkedProgram {

}

impl Named for LinkedProgram {
    closed spec fn named(&self) -> u32 {
        self.0@
    }

    fn adopt(name: NonZeroName) -> (handle: Self) {
        LinkedProgram(name)
    }
}

impl ThinGLObject for LinkedProgram {
    fn name(&self) -> (name: NonZeroName) {
        self.0
    }

    fn into_name(self) -> (name: NonZeroName) {
        self.0
    }
}

/// Forgets that the program is linked.
impl From<LinkedProgram> for Program {
    fn from(value: LinkedProgram) -> (program: Self)
        ensures
            program.named() == value.named(),
    {
        Program(value.0)
    }
}

impl vstd::std_specs::convert::FromSpecImpl<LinkedProgram> for Program {
    open spec fn obeys_from_spec() -> bool {
        true
    }

    open spec fn from_spec(value: LinkedProgram) -> Self {
        unlinked(value)
    }
}

/// The program of the same name, of which no more is known than that it
/// exists.
pub closed spec fn unlinked(linked: LinkedProgram) -> Program {
    Program(linked.0)
}

/// To forget what is known of a shader or a program keeps its name.
pub proof fn lemma_forgetting_keeps_name<Ty: Type>(
    compiled: CompiledShader<Ty>,
    linked: LinkedProgram,
)
    ensures
        uncompiled(compiled).named() == compiled.named(),
        unlinked(linked).named() == linked.named(),
{
}

} // verus!
