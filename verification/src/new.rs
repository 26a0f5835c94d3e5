//! Creating objects, and deleting those that no slot knows.
use core::marker::PhantomData;
use vstd::prelude::*;

use crate::buffer::Buffer;
use crate::call::{plain, Call, Data, Queue};
use crate::framebuffer::Incomplete;
use crate::gl::types::GLsizei;
use crate::program::{EmptyShader, Program, Type};
use crate::renderbuffer::Renderbuffer;
use crate::sealed::Named;
use crate::texture::Stateless;
use crate::vertex_array::VertexArray;
use crate::{adopt_all, names_of, NonZeroName, ThinGLObject};

verus! {

/// `N` objects that were asked for and wait for the names that the driver
/// gives them.
#[must_use]
pub struct Fresh<T: ThinGLObject, const N: usize>(PhantomData<T>);

impl<T: ThinGLObject, const N: usize> Fresh<T, N> {
    /// The handles of the objects, from the names that the driver wrote, in
    /// their order. A driver that writes zero for a name has failed beyond
    /// repair, and there is nothing to answer with.
    pub fn adopt(self, names: [NonZeroName; N]) -> (objects: [T; N])
        ensures
            forall|i: int| 0 <= i < N ==> (#[trigger] objects@[i]).named() == names@[i]@,
    {
        adopt_all(names)
    }
}

/// One object that was asked for and waits for the name that the driver
/// gives it.
#[must_use]
pub struct Created<T: ThinGLObject>(PhantomData<T>);

impl<T: ThinGLObject> Created<T> {
    /// The handle of the object, from the name that the driver returned. A
    /// driver that returns zero has failed beyond repair, and there is
    /// nothing to answer with.
    pub fn adopt(self, name: NonZeroName) -> (object: T)
        ensures
            object.named() == name@,
    {
        T::adopt(name)
    }
}

/// The entry points that create objects.
///
/// It costs less to ask for many objects at once than for one at a time.
///
/// Objects without state can be deleted here too. Objects with state, such as
/// a texture that has been bound, are deleted through their slot.
pub struct New(pub(crate) PhantomData<()>);

impl New {
    /// Asks for `N` new textures.
    pub fn textures<const N: usize>(&self, queue: &mut Queue) -> (fresh: Fresh<Stateless, N>)
        requires
            N <= GLsizei::MAX,
        ensures
            final(queue)@ == old(queue)@.push(plain(Call::GenTextures { n: N as GLsizei })),
    {
        queue.push(Call::GenTextures { n: N as GLsizei });
        Fresh(PhantomData)
    }

    /// Deletes textures that were never bound. Textures with state are
    /// deleted through their slot.
    pub fn delete_textures<const N: usize>(&self, queue: &mut Queue, textures: [Stateless; N])
        requires
            N <= GLsizei::MAX,
        ensures
            final(queue)@ == old(queue)@.push(
                (Call::DeleteTextures { n: N as GLsizei }, Data::Words(names_of(textures@))),
            ),
    {
        crate::gl_delete_with(queue, Call::DeleteTextures { n: N as GLsizei }, textures)
    }

    /// Asks for `N` new framebuffers.
    pub fn framebuffers<const N: usize>(&self, queue: &mut Queue) -> (fresh: Fresh<Incomplete, N>)
        requires
            N <= GLsizei::MAX,
        ensures
            final(queue)@ == old(queue)@.push(plain(Call::GenFramebuffers { n: N as GLsizei })),
    {
        queue.push(Call::GenFramebuffers { n: N as GLsizei });
        Fresh(PhantomData)
    }

    /// Asks for `N` new vertex arrays.
    pub fn vertex_arrays<const N: usize>(&self, queue: &mut Queue) -> (fresh: Fresh<
        VertexArray,
        N,
    >)
        requires
            N <= GLsizei::MAX,
        ensures
            final(queue)@ == old(queue)@.push(plain(Call::GenVertexArrays { n: N as GLsizei })),
    {
        queue.push(Call::GenVertexArrays { n: N as GLsizei });
        Fresh(PhantomData)
    }

    /// Asks for `N` new buffers.
    pub fn buffers<const N: usize>(&self, queue: &mut Queue) -> (fresh: Fresh<Buffer, N>)
        requires
            N <= GLsizei::MAX,
        ensures
            final(queue)@ == old(queue)@.push(plain(Call::GenBuffers { n: N as GLsizei })),
    {
        queue.push(Call::GenBuffers { n: N as GLsizei });
        Fresh(PhantomData)
    }

    /// Asks for `N` new renderbuffers.
    pub fn render_buffers<const N: usize>(&self, queue: &mut Queue) -> (fresh: Fresh<
        Renderbuffer,
        N,
    >)
        requires
            N <= GLsizei::MAX,
        ensures
            final(queue)@ == old(queue)@.push(plain(Call::GenRenderbuffers { n: N as GLsizei })),
    {
        queue.push(Call::GenRenderbuffers { n: N as GLsizei });
        Fresh(PhantomData)
    }

    /// Asks for a new shader of the kind `Ty`.
    pub fn shader<Ty: Type>(&self, queue: &mut Queue) -> (created: Created<EmptyShader<Ty>>)
        ensures
            final(queue)@ == old(queue)@.push(plain(Call::CreateShader { ty: Ty::TYPE })),
    {
        queue.push(Call::CreateShader { ty: Ty::TYPE });
        Created(PhantomData)
    }

    /// Asks for a new program.
    pub fn program(&self, queue: &mut Queue) -> (created: Created<Program>)
        ensures
            final(queue)@ == old(queue)@.push(plain(Call::CreateProgram)),
    {
        queue.push(Call::CreateProgram);
        Created(PhantomData)
    }
}

} // verus!
