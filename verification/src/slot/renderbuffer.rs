//! Binding renderbuffers, and working on the renderbuffer that is bound.
use core::marker::PhantomData;
use vstd::prelude::*;

use crate::call::{plain, Call, Data, Queue};
use crate::gl::types::GLsizei;
use crate::names_of;
use crate::nonzero::{NonZeroU32, NonZeroU8};
use crate::renderbuffer::{InternalFormat, InternalFormatMultisample, Renderbuffer};
use crate::sealed::Named;
use crate::slot::marker::{IsDefault, NotDefault, Unknown};
use crate::{GLEnum, ThinGLObject};

verus! {

/// The token of a renderbuffer binding.
pub struct Active<Kind>(pub(crate) PhantomData<Kind>);

impl Active<NotDefault> {
    /// Gives the renderbuffer its format and size.
    ///
    /// The contents are undefined afterwards, also where format and size are
    /// what they were.
    pub fn storage(
        &mut self,
        queue: &mut Queue,
        internal_format: InternalFormat,
        width: NonZeroU32,
        height: NonZeroU32,
    ) -> (this: &mut Self)
        requires
            width@ <= GLsizei::MAX,
            height@ <= GLsizei::MAX,
        ensures
            final(queue)@ == old(queue)@.push(
                plain(
                    Call::RenderbufferStorage {
                        target: Renderbuffer::TARGET,
                        internalformat: internal_format.constant(),
                        width: width@ as GLsizei,
                        height: height@ as GLsizei,
                    },
                ),
            ),
    {
        queue.push(
            Call::RenderbufferStorage {
                target: Renderbuffer::TARGET,
                internalformat: internal_format.as_gl(),
                width: width.get() as GLsizei,
                height: height.get() as GLsizei,
            },
        );
        self
    }

    /// Gives the renderbuffer its format, size and number of samples. The
    /// driver may take the next number of samples that it supports. One
    /// sample is not the same as no multisampling.
    ///
    /// The contents are undefined afterwards, also where format and size are
    /// what they were.
    pub fn storage_multisample(
        &mut self,
        queue: &mut Queue,
        internal_format: InternalFormatMultisample,
        width: NonZeroU32,
        height: NonZeroU32,
        samples: NonZeroU8,
    ) -> (this: &mut Self)
        requires
            width@ <= GLsizei::MAX,
            height@ <= GLsizei::MAX,
        ensures
            final(queue)@ == old(queue)@.push(
                plain(
                    Call::RenderbufferStorageMultisample {
                        target: Renderbuffer::TARGET,
                        samples: samples@ as GLsizei,
                        internalformat: internal_format.constant(),
                        width: width@ as GLsizei,
                        height: height@ as GLsizei,
                    },
                ),
            ),
    {
        queue.push(
            Call::RenderbufferStorageMultisample {
                target: Renderbuffer::TARGET,
                samples: samples.get() as GLsizei,
                internalformat: internal_format.as_gl(),
                width: width.get() as GLsizei,
                height: height.get() as GLsizei,
            },
        );
        self
    }
}

/// The binding target of renderbuffers.
pub struct Slot {
    pub(crate) bound: Active<NotDefault>,
    pub(crate) empty: Active<IsDefault>,
    pub(crate) inherited: Active<Unknown>,
}

impl Slot {
    pub(crate) fn new() -> Self {
        Slot {
            bound: Active(PhantomData),
            empty: Active(PhantomData),
            inherited: Active(PhantomData),
        }
    }

    /// Binds a renderbuffer to this slot.
    pub fn bind(&mut self, queue: &mut Queue, buffer: &Renderbuffer) -> (active: &mut Active<
        NotDefault,
    >)
        ensures
            final(queue)@ == old(queue)@.push(
                plain(
                    Call::BindRenderbuffer {
                        target: Renderbuffer::TARGET,
                        renderbuffer: buffer.named(),
                    },
                ),
            ),
    {
        queue.push(
            Call::BindRenderbuffer {
                target: Renderbuffer::TARGET,
                renderbuffer: buffer.name().get(),
            },
        );
        &mut self.bound
    }

    /// Leaves the slot with no renderbuffer in it.
    pub fn unbind(&mut self, queue: &mut Queue) -> (active: &mut Active<IsDefault>)
        ensures
            final(queue)@ == old(queue)@.push(
                plain(Call::BindRenderbuffer { target: Renderbuffer::TARGET, renderbuffer: 0 }),
            ),
    {
        queue.push(Call::BindRenderbuffer { target: Renderbuffer::TARGET, renderbuffer: 0 });
        &mut self.empty
    }

    /// Takes over whatever is bound, which may be nothing. Little can be done
    /// with a binding of which it is not known whether it holds a
    /// renderbuffer.
    #[must_use]
    pub fn inherit(&self) -> &Active<Unknown> {
        &self.inherited
    }

    /// Takes over whatever is bound, which may be nothing. Little can be done
    /// with a binding of which it is not known whether it holds a
    /// renderbuffer.
    #[must_use]
    pub fn inherit_mut(&mut self) -> &mut Active<Unknown> {
        &mut self.inherited
    }

    /// Deletes renderbuffers. Where one of them was bound to this slot, the
    /// slot holds none afterwards.
    pub fn delete<const N: usize>(&mut self, queue: &mut Queue, textures: [Renderbuffer; N])
        requires
            N <= GLsizei::MAX,
        ensures
            final(queue)@ == old(queue)@.push(
                (Call::DeleteRenderbuffers { n: N as GLsizei }, Data::Words(names_of(textures@))),
            ),
    {
        crate::gl_delete_with(queue, Call::DeleteRenderbuffers { n: N as GLsizei }, textures)
    }
}

} // verus!
