//! Using programs, and compiling and linking them.
use core::marker::PhantomData;
use vstd::prelude::*;
use vstd::string::StringSliceAdditionalSpecFns;

use crate::call::{copy_bytes, plain, Call, Data, Payload, Queue};
use crate::gl;
use crate::gl::types::{GLint, GLsizei, GLuint};
use crate::program::uniform::{pack, Matrix, Ty, Value, Vector};
use crate::program::{
    CompiledShader, EmptyShader, LinkedProgram, Program, ProgramShaders, Type,
};
use crate::sealed::Named;
use crate::slot::marker::{IsDefault, NotDefault, Unknown};
use crate::ThinGLObject;

verus! {

/// A shader that did not compile.
#[derive(Debug)]
#[must_use]
pub struct CompileError<Ty: Type> {
    /// The shader, given back.
    pub shader: EmptyShader<Ty>,
}

/// A program that did not link.
#[derive(Debug)]
#[must_use]
pub struct LinkError {
    /// The program, given back.
    pub program: Program,
}

impl Active<NotDefault> {
    /// Sets the uniform at `base_location` to a scalar or vector, or the
    /// uniforms from there on to an array of them; an array only where the
    /// shader declares one. The value takes `value.locations()` locations.
    ///
    /// Nothing is queued for a value that is empty.
    pub fn uniform<T: Value>(
        &mut self,
        queue: &mut Queue,
        base_location: u32,
        value: Vector<'_, T>,
    ) -> (this: &mut Self)
        requires
            value.count() != 0 ==> base_location <= GLint::MAX && value.count() <= GLsizei::MAX,
        ensures
            final(queue)@ == if value.count() == 0 {
                old(queue)@
            } else {
                old(queue)@.push((value.call(base_location as GLint), Data::Words(value.words())))
            },
    {
        if value.is_empty() {
            return self;
        }
        let location = base_location as GLint;
        match value {
            Vector::Scalar(s) => {
                let count = s.len() as GLsizei;
                let call = match T::TYPE {
                    Ty::F32 => Call::Uniform1fv { location, count },
                    Ty::I32 => Call::Uniform1iv { location, count },
                    Ty::U32 => Call::Uniform1uiv { location, count },
                };
                queue.push_with(call, Payload::Words(pack(s)));
            },
            Vector::Vec2(s) => {
                let count = s.len() as GLsizei;
                let call = match T::TYPE {
                    Ty::F32 => Call::Uniform2fv { location, count },
                    Ty::I32 => Call::Uniform2iv { location, count },
                    Ty::U32 => Call::Uniform2uiv { location, count },
                };
                queue.push_with(call, Payload::Words(pack(s)));
            },
            Vector::Vec3(s) => {
                let count = s.len() as GLsizei;
                let call = match T::TYPE {
                    Ty::F32 => Call::Uniform3fv { location, count },
                    Ty::I32 => Call::Uniform3iv { location, count },
                    Ty::U32 => Call::Uniform3uiv { location, count },
                };
                queue.push_with(call, Payload::Words(pack(s)));
            },
            Vector::Vec4(s) => {
                let count = s.len() as GLsizei;
                let call = match T::TYPE {
                    Ty::F32 => Call::Uniform4fv { location, count },
                    Ty::I32 => Call::Uniform4iv { location, count },
                    Ty::U32 => Call::Uniform4uiv { location, count },
                };
                queue.push_with(call, Payload::Words(pack(s)));
            },
        }
        self
    }

    /// Sets the uniform at `base_location` to a matrix, or the uniforms from
    /// there on to an array of them; an array only where the shader declares
    /// one. The value takes `value.locations()` locations.
    ///
    /// Nothing is queued for a value that is empty.
    pub fn uniform_matrix(&mut self, queue: &mut Queue, base_location: u32, value: Matrix<'_>) -> (this:
        &mut Self)
        requires
            value.count() != 0 ==> base_location <= GLint::MAX && value.count() <= GLsizei::MAX,
        ensures
            final(queue)@ == if value.count() == 0 {
                old(queue)@
            } else {
                old(queue)@.push((value.call(base_location as GLint), Data::Words(value.words())))
            },
    {
        if value.is_empty() {
            return self;
        }
        let location = base_location as GLint;
        match value {
            Matrix::Mat2(s) => {
                queue.push_with(
                    Call::UniformMatrix2fv {
                        location,
                        count: s.len() as GLsizei,
                        transpose: false,
                    },
                    Payload::Words(pack(s)),
                );
            },
            Matrix::Mat3(s) => {
                queue.push_with(
                    Call::UniformMatrix3fv {
                        location,
                        count: s.len() as GLsizei,
                        transpose: false,
                    },
                    Payload::Words(pack(s)),
                );
            },
            Matrix::Mat4(s) => {
                queue.push_with(
                    Call::UniformMatrix4fv {
                        location,
                        count: s.len() as GLsizei,
                        transpose: false,
                    },
                    Payload::Words(pack(s)),
                );
            },
            Matrix::Mat2x3(s) => {
                queue.push_with(
                    Call::UniformMatrix2x3fv {
                        location,
                        count: s.len() as GLsizei,
                        transpose: false,
                    },
                    Payload::Words(pack(s)),
                );
            },
            Matrix::Mat2x4(s) => {
                queue.push_with(
                    Call::UniformMatrix2x4fv {
                        location,
                        count: s.len() as GLsizei,
                        transpose: false,
                    },
                    Payload::Words(pack(s)),
                );
            },
            Matrix::Mat3x2(s) => {
                queue.push_with(
                    Call::UniformMatrix3x2fv {
                        location,
                        count: s.len() as GLsizei,
                        transpose: false,
                    },
                    Payload::Words(pack(s)),
                );
            },
            Matrix::Mat3x4(s) => {
                queue.push_with(
                    Call::UniformMatrix3x4fv {
                        location,
                        count: s.len() as GLsizei,
                        transpose: false,
                    },
                    Payload::Words(pack(s)),
                );
            },
            Matrix::Mat4x2(s) => {
                queue.push_with(
                    Call::UniformMatrix4x2fv {
                        location,
                        count: s.len() as GLsizei,
                        transpose: false,
                    },
                    Payload::Words(pack(s)),
                );
            },
            Matrix::Mat4x3(s) => {
                queue.push_with(
                    Call::UniformMatrix4x3fv {
                        location,
                        count: s.len() as GLsizei,
                        transpose: false,
                    },
                    Payload::Words(pack(s)),
                );
            },
        }
        self
    }
}

/// The token of the program in use: the entry points that work on it.
pub struct Active<Kind>(pub(crate) PhantomData<Kind>);

/// A compilation that waits for the driver's status.
#[must_use]
pub struct Compiling<Ty: Type> {
    shader: EmptyShader<Ty>,
}

impl<Ty: Type> Compiling<Ty> {
    /// The name of the shader that is compiled.
    pub closed spec fn named(&self) -> u32 {
        self.shader.named()
    }

    /// Completes the compilation with the status that the driver wrote: the
    /// shader as a compiled one where the status is true, and else the shader
    /// as it was.
    pub fn answer(self, status: GLint) -> (result: Result<CompiledShader<Ty>, CompileError<Ty>>)
        ensures
            result is Ok <==> status == gl::TRUE,
            result matches Ok(compiled) ==> compiled.named() == self.named(),
            result matches Err(error) ==> error.shader.named() == self.named(),
    {
        if status == gl::TRUE as GLint {
            Ok(self.shader.into_compiled_unchecked())
        } else {
            Err(CompileError { shader: self.shader })
        }
    }
}

/// A linking that waits for the driver's status.
#[must_use]
pub struct Linking {
    program: Program,
}

impl Linking {
    /// The name of the program that is linked.
    pub closed spec fn named(&self) -> u32 {
        self.program.named()
    }

    /// Completes the linking with the status that the driver wrote: the
    /// program as a linked one where the status is true, and else the program
    /// as it was.
    pub fn answer(self, status: GLint) -> (result: Result<LinkedProgram, LinkError>)
        ensures
            result is Ok <==> status == gl::TRUE,
            result matches Ok(linked) ==> linked.named() == self.named(),
            result matches Err(error) ==> error.program.named() == self.named(),
    {
        if status == gl::TRUE as GLint {
            Ok(self.program.into_linked_unchecked())
        } else {
            Err(LinkError { program: self.program })
        }
    }
}

/// What the driver has to say of a shader or a program.
#[derive(Clone, Copy, Debug, PartialEq, Eq, Structural)]
pub enum LogSource {
    Shader(GLuint),
    Program(GLuint),
}

impl LogSource {
    /// The call that asks for the length of the log, terminator included.
    pub open spec fn length_call(&self) -> Call {
        match self {
            LogSource::Shader(shader) => Call::GetShaderiv {
                shader: *shader,
                pname: gl::INFO_LOG_LENGTH,
            },
            LogSource::Program(program) => Call::GetProgramiv {
                program: *program,
                pname: gl::INFO_LOG_LENGTH,
            },
        }
    }

    /// The call that asks for the log, into a buffer of `buf_size` bytes.
    pub open spec fn text_call(&self, buf_size: GLsizei) -> Call {
        match self {
            LogSource::Shader(shader) => Call::GetShaderInfoLog { shader: *shader, buf_size },
            LogSource::Program(program) => Call::GetProgramInfoLog { program: *program, buf_size },
        }
    }
}

/// A question for a log that waits for the length of the log.
#[must_use]
pub struct LogLength {
    source: LogSource,
}

impl LogLength {
    /// What the log is of.
    pub closed spec fn source(&self) -> LogSource {
        self.source
    }

    /// Asks for the text of the log, now that the driver has written its
    /// length; `None`, and nothing queued, where the log is empty.
    pub fn answer(self, queue: &mut Queue, length: GLint) -> (text: Option<LogText>)
        requires
            0 <= length,
        ensures
            text is None <==> length == 0,
            text matches Some(text) ==> text.capacity() == length,
            final(queue)@ == if length == 0 {
                old(queue)@
            } else {
                old(queue)@.push(plain(self.source().text_call(length)))
            },
    {
        if length == 0 {
            return None;
        }
        match self.source {
            LogSource::Shader(shader) => {
                queue.push(Call::GetShaderInfoLog { shader, buf_size: length });
            },
            LogSource::Program(program) => {
                queue.push(Call::GetProgramInfoLog { program, buf_size: length });
            },
        }
        Some(LogText { capacity: length as usize })
    }
}

/// Whether `bytes` is a text that ends with the one zero byte that it holds.
pub open spec fn is_terminated(bytes: Seq<u8>) -> bool {
    &&& bytes.len() > 0
    &&& bytes.last() == 0
    &&& forall|i: int| 0 <= i < bytes.len() - 1 ==> bytes[i] != 0
}

/// A question for a log that waits for the text of the log.
#[must_use]
pub struct LogText {
    capacity: usize,
}

impl LogText {
    /// The size of the buffer that the driver writes the log to.
    pub closed spec fn capacity(&self) -> usize {
        self.capacity
    }

    /// The log with its terminator, from the buffer that the driver filled
    /// and the number of bytes that it wrote, the terminator not counted.
    pub fn answer(self, written: GLsizei, buffer: Vec<u8>) -> (log: Vec<u8>)
        requires
            0 <= written < buffer@.len(),
            buffer@.len() == self.capacity(),
            is_terminated(buffer@.subrange(0, written + 1)),
        ensures
            log@ == buffer@.subrange(0, written + 1),
    {
        let mut log = buffer;
        log.truncate(written as usize + 1);
        log
    }
}

/// The calls that link `program` out of two shaders: attach both, link, ask
/// for the status, detach both.
pub open spec fn link_calls(program: GLuint, vertex: GLuint, fragment: GLuint) -> Seq<
    (Call, Data),
> {
    seq![
        plain(Call::AttachShader { program, shader: vertex }),
        plain(Call::AttachShader { program, shader: fragment }),
        plain(Call::LinkProgram { program }),
        plain(Call::GetProgramiv { program, pname: gl::LINK_STATUS }),
        plain(Call::DetachShader { program, shader: vertex }),
        plain(Call::DetachShader { program, shader: fragment }),
    ]
}

/// The slot of the program in use.
pub struct Slot {
    pub(crate) bound: Active<NotDefault>,
    pub(crate) empty: Active<IsDefault>,
    pub(crate) inherited: Active<Unknown>,
}

impl Slot {
    pub(crate) fn new() -> Self {
        Slot {
            bound: Active(PhantomData),
            empty: Active(PhantomData),
            inherited: Active(PhantomData),
        }
    }

    /// Puts a linked program in use.
    pub fn bind(&mut self, queue: &mut Queue, program: &LinkedProgram) -> (active: &mut Active<
        NotDefault,
    >)
        ensures
            final(queue)@ == old(queue)@.push(
                plain(Call::UseProgram { program: program.named() }),
            ),
    {
        queue.push(Call::UseProgram { program: program.name().get() });
        &mut self.bound
    }

    /// Leaves no program in use.
    pub fn unbind(&mut self, queue: &mut Queue) -> (active: &mut Active<IsDefault>)
        ensures
            final(queue)@ == old(queue)@.push(plain(Call::UseProgram { program: 0 })),
    {
        queue.push(Call::UseProgram { program: 0 });
        &mut self.empty
    }

    /// Gives a shader its source text and asks the driver to compile it. The
    /// status decides: see [`Compiling::answer`].
    pub fn compile<Ty: Type>(&self, queue: &mut Queue, shader: EmptyShader<Ty>, source: &str) -> (compiling:
        Compiling<Ty>)
        requires
            source.spec_bytes().len() <= GLint::MAX,
        ensures
            compiling.named() == shader.named(),
            final(queue)@ == old(queue)@.push(
                (
                    Call::ShaderSource {
                        shader: shader.named(),
                        length: source.spec_bytes().len() as GLint,
                    },
                    Data::Bytes(source.spec_bytes()),
                ),
            ).push(plain(Call::CompileShader { shader: shader.named() })).push(
                plain(Call::GetShaderiv { shader: shader.named(), pname: gl::COMPILE_STATUS }),
            ),
    {
        let name = shader.name().get();
        queue.push_with(
            Call::ShaderSource { shader: name, length: source.len() as GLint },
            Payload::Bytes(copy_bytes(source.as_bytes())),
        );
        queue.push(Call::CompileShader { shader: name });
        queue.push(Call::GetShaderiv { shader: name, pname: gl::COMPILE_STATUS });
        Compiling { shader }
    }

    /// Asks the driver to link compiled shaders into a program. The status
    /// decides: see [`Linking::answer`].
    pub fn link(&self, queue: &mut Queue, program: Program, shaders: ProgramShaders<'_>) -> (linking:
        Linking)
        ensures
            linking.named() == program.named(),
            final(queue)@ == old(queue)@ + link_calls(
                program.named(),
                shaders->vertex.named(),
                shaders->fragment.named(),
            ),
    {
        let ProgramShaders::Graphics { vertex, fragment } = shaders;
        let name = program.name().get();
        let vertex = vertex.name().get();
        let fragment = fragment.name().get();
        let ghost before = queue@;
        queue.push(Call::AttachShader { program: name, shader: vertex });
        queue.push(Call::AttachShader { program: name, shader: fragment });
        queue.push(Call::LinkProgram { program: name });
        queue.push(Call::GetProgramiv { program: name, pname: gl::LINK_STATUS });
        queue.push(Call::DetachShader { program: name, shader: vertex });
        queue.push(Call::DetachShader { program: name, shader: fragment });
        assert(queue@ =~= before + link_calls(name, vertex, fragment));
        Linking { program }
    }

    /// Asks for what the driver has to say of a shader, as after a
    /// compilation that failed.
    pub fn shader_log<Ty: Type>(&self, queue: &mut Queue, shader: &EmptyShader<Ty>) -> (log:
        LogLength)
        ensures
            log.source() == LogSource::Shader(shader.named()),
            final(queue)@ == old(queue)@.push(plain(log.source().length_call())),
    {
        let name = shader.name().get();
        queue.push(Call::GetShaderiv { shader: name, pname: gl::INFO_LOG_LENGTH });
        LogLength { source: LogSource::Shader(name) }
    }

    /// Asks for what the driver has to say of a program, as after a linking
    /// that failed.
    pub fn program_log(&self, queue: &mut Queue, program: &Program) -> (log: LogLength)
        ensures
            log.source() == LogSource::Program(program.named()),
            final(queue)@ == old(queue)@.push(plain(log.source().length_call())),
    {
        let name = program.name().get();
        queue.push(Call::GetProgramiv { program: name, pname: gl::INFO_LOG_LENGTH });
        LogLength { source: LogSource::Program(name) }
    }

    /// Takes over whatever is in use, which may be nothing. Little can be
    /// done with a binding of which it is not known whether it holds a
    /// program.
    #[must_use]
    pub fn inherit(&self) -> &Active<Unknown> {
        &self.inherited
    }

    /// Takes over whatever is in use, which may be nothing. Little can be
    /// done with a binding of which it is not known whether it holds a
    /// program.
    #[must_use]
    pub fn inherit_mut(&mut self) -> &mut Active<Unknown> {
        &mut self.inherited
    }

    /// Deletes a program. One that is in use stays in use, and is deleted
    /// when it no longer is; so no token loses its meaning.
    ///
    /// A [`LinkedProgram`] is deleted as the program that `Program::from`
    /// makes of it.
    pub fn delete(&self, queue: &mut Queue, program: Program)
        ensures
            final(queue)@ == old(queue)@.push(
                plain(Call::DeleteProgram { program: program.named() }),
            ),
    {
        queue.push(Call::DeleteProgram { program: program.into_name().get() });
    }

    /// Deletes a shader. One that is attached to a program stays attached,
    /// and is deleted when it no longer is.
    ///
    /// A [`CompiledShader`] is deleted as the shader that `EmptyShader::from`
    /// makes of it.
    pub fn delete_shader<Ty: Type>(&self, queue: &mut Queue, shader: EmptyShader<Ty>)
        ensures
            final(queue)@ == old(queue)@.push(
                plain(Call::DeleteShader { shader: shader.named() }),
            ),
    {
        queue.push(Call::DeleteShader { shader: shader.into_name().get() });
    }
}

} // verus!
