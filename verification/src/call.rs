//! The raw calls that the typed surface decides on, and the queue that holds
//! them until the program issues them against the current context.
//!
//! Nothing in this crate reaches the driver. Every operation appends the raw
//! entry points it stands for, arguments included, to a [`Queue`]; the program
//! that owns the context takes them out in order and performs them. Where an
//! operation needs an answer from the driver, it hands back a value that is
//! completed with that answer once the queue has been flushed.
use vstd::prelude::*;

use crate::gl::types::{GLbitfield, GLenum, GLint, GLintptr, GLsizei, GLsizeiptr, GLuint};

verus! {

/// An IEEE-754 single carried as its bit pattern. This crate never computes
/// with one; it only hands them on to the driver.
#[derive(Clone, Copy, Debug, PartialEq, Eq, Structural)]
pub struct Float(pub u32);

/// One raw entry point with its scalar arguments. Arguments that the raw
/// interface takes by pointer travel beside the call as its [`Payload`].
#[allow(inconsistent_fields)]
#[derive(Clone, Copy, Debug, PartialEq, Eq, Structural)]
pub enum Call {
    /// Answered with `n` names.
    GenTextures { n: GLsizei },
    /// Answered with `n` names.
    GenFramebuffers { n: GLsizei },
    /// Answered with `n` names.
    GenVertexArrays { n: GLsizei },
    /// Answered with `n` names.
    GenBuffers { n: GLsizei },
    /// Answered with `n` names.
    GenRenderbuffers { n: GLsizei },
    /// Answered with one name.
    CreateShader { ty: GLenum },
    /// Answered with one name.
    CreateProgram,
    /// The payload holds the `n` names.
    DeleteTextures { n: GLsizei },
    /// The payload holds the `n` names.
    DeleteFramebuffers { n: GLsizei },
    /// The payload holds the `n` names.
    DeleteVertexArrays { n: GLsizei },
    /// The payload holds the `n` names.
    DeleteBuffers { n: GLsizei },
    /// The payload holds the `n` names.
    DeleteRenderbuffers { n: GLsizei },
    DeleteProgram { program: GLuint },
    DeleteShader { shader: GLuint },
    BindBuffer { target: GLenum, buffer: GLuint },
    /// The payload holds the `size` bytes, or is empty for a null pointer.
    BufferData { target: GLenum, size: GLsizeiptr, usage: GLenum },
    /// The payload holds the `size` bytes.
    BufferSubData { target: GLenum, offset: GLintptr, size: GLsizeiptr },
    CopyBufferSubData {
        read_target: GLenum,
        write_target: GLenum,
        read_offset: GLintptr,
        write_offset: GLintptr,
        size: GLsizeiptr,
    },
    /// Answered with the mapped bytes.
    MapBufferRange { target: GLenum, offset: GLintptr, length: GLsizeiptr, access: GLbitfield },
    /// A payload holds the bytes to store through the mapping before it ends.
    /// Answered with the driver's flag.
    UnmapBuffer { target: GLenum },
    /// Answered with one 64-bit integer.
    GetBufferParameteri64v { target: GLenum, pname: GLenum },
    /// Answered with one integer.
    GetBufferParameteriv { target: GLenum, pname: GLenum },
    BindTexture { target: GLenum, texture: GLuint },
    ActiveTexture { texture: GLenum },
    TexParameteri { target: GLenum, pname: GLenum, param: GLint },
    TexParameterf { target: GLenum, pname: GLenum, param: Float },
    TexStorage2D {
        target: GLenum,
        levels: GLsizei,
        internalformat: GLenum,
        width: GLsizei,
        height: GLsizei,
    },
    BindFramebuffer { target: GLenum, framebuffer: GLuint },
    FramebufferTexture2D {
        target: GLenum,
        attachment: GLenum,
        textarget: GLenum,
        texture: GLuint,
        level: GLint,
    },
    /// Answered with the status.
    CheckFramebufferStatus { target: GLenum },
    BlitFramebuffer {
        src_x0: GLint,
        src_y0: GLint,
        src_x1: GLint,
        src_y1: GLint,
        dst_x0: GLint,
        dst_y0: GLint,
        dst_x1: GLint,
        dst_y1: GLint,
        mask: GLbitfield,
        filter: GLenum,
    },
    Clear { mask: GLbitfield },
    CopyTexSubImage2D {
        target: GLenum,
        level: GLint,
        xoffset: GLint,
        yoffset: GLint,
        x: GLint,
        y: GLint,
        width: GLsizei,
        height: GLsizei,
    },
    CopyTexImage2D {
        target: GLenum,
        level: GLint,
        internalformat: GLenum,
        x: GLint,
        y: GLint,
        width: GLsizei,
        height: GLsizei,
        border: GLint,
    },
    /// The payload holds the `n` buffers.
    DrawBuffers { n: GLsizei },
    ReadBuffer { src: GLenum },
    BindRenderbuffer { target: GLenum, renderbuffer: GLuint },
    RenderbufferStorage { target: GLenum, internalformat: GLenum, width: GLsizei, height: GLsizei },
    RenderbufferStorageMultisample {
        target: GLenum,
        samples: GLsizei,
        internalformat: GLenum,
        width: GLsizei,
        height: GLsizei,
    },
    BindVertexArray { array: GLuint },
    VertexAttribIPointer { index: GLuint, size: GLint, ty: GLenum, stride: GLsizei, offset: usize },
    VertexAttribPointer {
        index: GLuint,
        size: GLint,
        ty: GLenum,
        normalized: bool,
        stride: GLsizei,
        offset: usize,
    },
    EnableVertexAttribArray { index: GLuint },
    DisableVertexAttribArray { index: GLuint },
    UseProgram { program: GLuint },
    /// One string; the payload holds its bytes.
    ShaderSource { shader: GLuint, length: GLint },
    CompileShader { shader: GLuint },
    /// Answered with one integer.
    GetShaderiv { shader: GLuint, pname: GLenum },
    /// Answered with the number of bytes written, the terminator not counted,
    /// and the buffer.
    GetShaderInfoLog { shader: GLuint, buf_size: GLsizei },
    AttachShader { program: GLuint, shader: GLuint },
    DetachShader { program: GLuint, shader: GLuint },
    LinkProgram { program: GLuint },
    /// Answered with one integer.
    GetProgramiv { program: GLuint, pname: GLenum },
    /// Answered with the number of bytes written, the terminator not counted,
    /// and the buffer.
    GetProgramInfoLog { program: GLuint, buf_size: GLsizei },
    /// The payload holds `count` values, one word each.
    Uniform1fv { location: GLint, count: GLsizei },
    /// The payload holds `count` values, two words each.
    Uniform2fv { location: GLint, count: GLsizei },
    /// The payload holds `count` values, three words each.
    Uniform3fv { location: GLint, count: GLsizei },
    /// The payload holds `count` values, four words each.
    Uniform4fv { location: GLint, count: GLsizei },
    /// The payload holds `count` values, one word each.
    Uniform1iv { location: GLint, count: GLsizei },
    /// The payload holds `count` values, two words each.
    Uniform2iv { location: GLint, count: GLsizei },
    /// The payload holds `count` values, three words each.
    Uniform3iv { location: GLint, count: GLsizei },
    /// The payload holds `count` values, four words each.
    Uniform4iv { location: GLint, count: GLsizei },
    /// The payload holds `count` values, one word each.
    Uniform1uiv { location: GLint, count: GLsizei },
    /// The payload holds `count` values, two words each.
    Uniform2uiv { location: GLint, count: GLsizei },
    /// The payload holds `count` values, three words each.
    Uniform3uiv { location: GLint, count: GLsizei },
    /// The payload holds `count` values, four words each.
    Uniform4uiv { location: GLint, count: GLsizei },
    /// The payload holds `count` matrices, column by column.
    UniformMatrix2fv { location: GLint, count: GLsizei, transpose: bool },
    /// The payload holds `count` matrices, column by column.
    UniformMatrix3fv { location: GLint, count: GLsizei, transpose: bool },
    /// The payload holds `count` matrices, column by column.
    UniformMatrix4fv { location: GLint, count: GLsizei, transpose: bool },
    /// The payload holds `count` matrices, column by column.
    UniformMatrix2x3fv { location: GLint, count: GLsizei, transpose: bool },
    /// The payload holds `count` matrices, column by column.
    UniformMatrix2x4fv { location: GLint, count: GLsizei, transpose: bool },
    /// The payload holds `count` matrices, column by column.
    UniformMatrix3x2fv { location: GLint, count: GLsizei, transpose: bool },
    /// The payload holds `count` matrices, column by column.
    UniformMatrix3x4fv { location: GLint, count: GLsizei, transpose: bool },
    /// The payload holds `count` matrices, column by column.
    UniformMatrix4x2fv { location: GLint, count: GLsizei, transpose: bool },
    /// The payload holds `count` matrices, column by column.
    UniformMatrix4x3fv { location: GLint, count: GLsizei, transpose: bool },
    DrawArrays { mode: GLenum, first: GLint, count: GLsizei },
    DrawArraysInstanced { mode: GLenum, first: GLint, count: GLsizei, instancecount: GLsizei },
    DrawElements { mode: GLenum, count: GLsizei, ty: GLenum, offset: usize },
    DrawElementsInstanced {
        mode: GLenum,
        count: GLsizei,
        ty: GLenum,
        offset: usize,
        instancecount: GLsizei,
    },
    DrawRangeElements {
        mode: GLenum,
        start: GLuint,
        end: GLuint,
        count: GLsizei,
        ty: GLenum,
        offset: usize,
    },
    BlendColor { red: Float, green: Float, blue: Float, alpha: Float },
    BlendEquation { mode: GLenum },
    BlendEquationSeparate { mode_rgb: GLenum, mode_alpha: GLenum },
    BlendFunc { sfactor: GLenum, dfactor: GLenum },
    BlendFuncSeparate {
        sfactor_rgb: GLenum,
        dfactor_rgb: GLenum,
        sfactor_alpha: GLenum,
        dfactor_alpha: GLenum,
    },
    ClearColor { red: Float, green: Float, blue: Float, alpha: Float },
    ClearDepthf { d: Float },
    ClearStencil { s: GLint },
    ColorMask { red: bool, green: bool, blue: bool, alpha: bool },
    CullFace { mode: GLenum },
    DepthFunc { func: GLenum },
    DepthMask { flag: bool },
    DepthRangef { n: Float, f: Float },
    Disable { cap: GLenum },
    Enable { cap: GLenum },
    FrontFace { mode: GLenum },
    LineWidth { width: Float },
    PolygonOffset { factor: Float, units: Float },
    SampleCoverage { value: Float, invert: bool },
    Scissor { x: GLint, y: GLint, width: GLsizei, height: GLsizei },
    StencilFunc { func: GLenum, reference: GLint, mask: GLuint },
    StencilMask { mask: GLuint },
    StencilOp { fail: GLenum, zfail: GLenum, zpass: GLenum },
    Viewport { x: GLint, y: GLint, width: GLsizei, height: GLsizei },
}

/// What a call takes by pointer.
#[derive(Debug, PartialEq, Eq)]
pub enum Payload {
    /// Nothing; where the call has a pointer argument, a null pointer.
    Empty,
    Bytes(Vec<u8>),
    /// 32-bit words: names, constants, or the bit patterns of values.
    Words(Vec<u32>),
}

/// A [`Payload`] as contracts see it.
pub enum Data {
    Empty,
    Bytes(Seq<u8>),
    Words(Seq<u32>),
}

impl View for Payload {
    type V = Data;

    open spec fn view(&self) -> Data {
        match self {
            Payload::Empty => Data::Empty,
            Payload::Bytes(bytes) => Data::Bytes(bytes@),
            Payload::Words(words) => Data::Words(words@),
        }
    }
}

/// A call together with its payload, as it waits in the queue.
#[derive(Debug, PartialEq, Eq)]
pub struct Command {
    pub call: Call,
    pub payload: Payload,
}

impl View for Command {
    type V = (Call, Data);

    open spec fn view(&self) -> (Call, Data) {
        (self.call, self.payload@)
    }
}

/// A call without a payload, as contracts see it.
pub open spec fn plain(call: Call) -> (Call, Data) {
    (call, Data::Empty)
}

/// The commands of a vector, each by its view.
pub open spec fn views(commands: Seq<Command>) -> Seq<(Call, Data)> {
    commands.map_values(|command: Command| command@)
}

/// The calls decided on and not yet issued, oldest first.
pub struct Queue {
    commands: Vec<Command>,
}

impl View for Queue {
    type V = Seq<(Call, Data)>;

    closed spec fn view(&self) -> Seq<(Call, Data)> {
        views(self.commands@)
    }
}

impl Queue {
    /// A queue with nothing in it.
    pub fn new() -> (queue: Self)
        ensures
            queue@ == Seq::<(Call, Data)>::empty(),
    {
        Queue { commands: Vec::new() }
    }

    /// The number of calls that wait.
    pub fn len(&self) -> (len: usize)
        ensures
            len == self@.len(),
    {
        self.commands.len()
    }

    /// Whether no call waits.
    pub fn is_empty(&self) -> (empty: bool)
        ensures
            empty == (self@.len() == 0),
    {
        self.commands.len() == 0
    }

    /// The call at `index`, counted from the oldest.
    pub fn call(&self, index: usize) -> (call: Call)
        requires
            index < self@.len(),
        ensures
            call == self@[index as int].0,
    {
        self.commands[index].call
    }

    /// The payload of the call at `index`, counted from the oldest.
    pub fn payload(&self, index: usize) -> (payload: &Payload)
        requires
            index < self@.len(),
        ensures
            payload@ == self@[index as int].1,
    {
        &self.commands[index].payload
    }

    /// Takes every waiting call out, oldest first, and leaves the queue empty.
    pub fn take(&mut self) -> (commands: Vec<Command>)
        ensures
            views(commands@) == old(self)@,
            final(self)@ == Seq::<(Call, Data)>::empty(),
    {
        let mut commands: Vec<Command> = Vec::new();
        core::mem::swap(&mut self.commands, &mut commands);
        commands
    }

    /// Appends a call that has no payload.
    pub(crate) fn push(&mut self, call: Call)
        ensures
            final(self)@ == old(self)@.push(plain(call)),
    {
        self.push_with(call, Payload::Empty);
    }

    /// Appends a call and its payload.
    pub(crate) fn push_with(&mut self, call: Call, payload: Payload)
        ensures
            final(self)@ == old(self)@.push((call, payload@)),
    {
        let ghost before = self@;
        let ghost data = payload@;
        self.commands.push(Command { call, payload });
        assert(self@ =~= before.push((call, data)));
    }
}

/// A copy of `bytes` that a queued call can own.
pub(crate) fn copy_bytes(bytes: &[u8]) -> (copy: Vec<u8>)
    ensures
        copy@ == bytes@,
{
    let mut copy: Vec<u8> = Vec::new();
    let mut i: usize = 0;
    while i < bytes.len()
        invariant
            i <= bytes.len(),
            copy@ == bytes@.subrange(0, i as int),
        decreases bytes.len() - i,
    {
        copy.push(bytes[i]);
        i += 1;
    }
    assert(bytes@.subrange(0, bytes.len() as int) =~= bytes@);
    copy
}

} // verus!
