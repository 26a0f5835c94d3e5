//! Framebuffer handles and the option sets of framebuffer operations.
use vstd::prelude::*;

use crate::gl;
use crate::gl::types::GLenum;
use crate::sealed::{Named, Sealed};
use crate::{GLEnum, NonZeroName, ThinGLObject};

verus! {

/// The buffers of a user-created framebuffer that can be read or drawn to.
#[derive(Clone, Copy, Debug, PartialEq, Eq, Structural)]
pub enum Buffer {
    NoBuffer,
    ColorAttachment0,
    ColorAttachment1,
    ColorAttachment2,
    ColorAttachment3,
}

impl GLEnum for Buffer {
    open spec fn constant(&self) -> GLenum {
        match self {
            Buffer::NoBuffer => gl::NONE,
            Buffer::ColorAttachment0 => gl::COLOR_ATTACHMENT0,
            Buffer::ColorAttachment1 => gl::COLOR_ATTACHMENT1,
            Buffer::ColorAttachment2 => gl::COLOR_ATTACHMENT2,
            Buffer::ColorAttachment3 => gl::COLOR_ATTACHMENT3,
        }
    }

    fn as_gl(&self) -> (raw: GLenum) {
        match self {
            Buffer::NoBuffer => gl::NONE,
            Buffer::ColorAttachment0 => gl::COLOR_ATTACHMENT0,
            Buffer::ColorAttachment1 => gl::COLOR_ATTACHMENT1,
            Buffer::ColorAttachment2 => gl::COLOR_ATTACHMENT2,
            Buffer::ColorAttachment3 => gl::COLOR_ATTACHMENT3,
        }
    }
}

impl Buffer {
    /// No two variants share a constant.
    pub proof fn lemma_constant_injective(a: Self, b: Self)
        ensures
            a.constant() == b.constant() <==> a == b,
    {
    }
}

/// A point of a framebuffer to which an image can be attached.
#[derive(Clone, Copy, Debug, PartialEq, Eq, Structural)]
pub enum Attachment {
    Color0,
    Color1,
    Color2,
    Color3,
    Depth,
    Stencil,
    DepthStencil,
}

impl GLEnum for Attachment {
    open spec fn constant(&self) -> GLenum {
        match self {
            Attachment::Color0 => gl::COLOR_ATTACHMENT0,
            Attachment::Color1 => gl::COLOR_ATTACHMENT1,
            Attachment::Color2 => gl::COLOR_ATTACHMENT2,
            Attachment::Color3 => gl::COLOR_ATTACHMENT3,
            Attachment::Depth => gl::DEPTH_ATTACHMENT,
            Attachment::Stencil => gl::STENCIL_ATTACHMENT,
            Attachment::DepthStencil => gl::DEPTH_STENCIL_ATTACHMENT,
        }
    }

    fn as_gl(&self) -> (raw: GLenum) {
        match self {
            Attachment::Color0 => gl::COLOR_ATTACHMENT0,
            Attachment::Color1 => gl::COLOR_ATTACHMENT1,
            Attachment::Color2 => gl::COLOR_ATTACHMENT2,
            Attachment::Color3 => gl::COLOR_ATTACHMENT3,
            Attachment::Depth => gl::DEPTH_ATTACHMENT,
            Attachment::Stencil => gl::STENCIL_ATTACHMENT,
            Attachment::DepthStencil => gl::DEPTH_STENCIL_ATTACHMENT,
        }
    }
}

impl Attachment {
    /// No two variants share a constant.
    pub proof fn lemma_constant_injective(a: Self, b: Self)
        ensures
            a.constant() == b.constant() <==> a == b,
    {
    }
}

/// The buffers of the default framebuffer that can be read or drawn to.
#[derive(Clone, Copy, Debug, PartialEq, Eq, Structural)]
pub enum DefaultBuffer {
    NoBuffer,
    Back,
}

impl GLEnum for DefaultBuffer {
    open spec fn constant(&self) -> GLenum {
        match self {
            DefaultBuffer::NoBuffer => gl::NONE,
            DefaultBuffer::Back => gl::BACK,
        }
    }

    fn as_gl(&self) -> (raw: GLenum) {
        match self {
            DefaultBuffer::NoBuffer => gl::NONE,
            DefaultBuffer::Back => gl::BACK,
        }
    }
}

impl DefaultBuffer {
    /// No two variants share a constant.
    pub proof fn lemma_constant_injective(a: Self, b: Self)
        ensures
            a.constant() == b.constant() <==> a == b,
    {
    }
}

/// A framebuffer whose completeness has not been checked since its
/// attachments were last open to change.
///
/// The completeness check of a framebuffer slot turns it into a [`Complete`]
/// one.
#[must_use]
#[derive(Debug)]
pub struct Incomplete(pub(crate) NonZeroName);

impl Sealed for Incomplete {

}

impl Named for Incomplete {
    closed spec fn named(&self) -> u32 {
        self.0@
    }

    fn adopt(name: NonZeroName) -> (handle: Self) {
        Incomplete(name)
    }
}

impl ThinGLObject for Incomplete {
    fn name(&self) -> (name: NonZeroName) {
        self.0
    }

    fn into_name(self) -> (name: NonZeroName) {
        self.0
    }
}

/// A framebuffer that the driver has reported complete.
#[must_use]
#[derive(Debug)]
pub struct Complete(pub(crate) NonZeroName);

impl Sealed for Complete {

}

impl Named for Complete {
    closed spec fn named(&self) -> u32 {
        self.0@
    }

    fn adopt(name: NonZeroName) -> (handle: Self) {
        Complete(name)
    }
}

impl ThinGLObject for Complete {
    fn name(&self) -> (name: NonZeroName) {
        self.0
    }

    fn into_name(self) -> (name: NonZeroName) {
        self.0
    }
}

impl Incomplete {
    /// Takes the framebuffer for complete without asking the driver.
    ///
    /// The caller answers for it: a status query on this framebuffer would have
    /// to report it complete. After `Incomplete::from(complete)` that holds.
    pub fn into_complete_unchecked(self) -> (complete: Complete)
        ensures
            complete.named() == self.named(),
    {
        Complete(self.0)
    }
}

/// Forgets that the framebuffer is complete.
impl From<Complete> for Incomplete {
    fn from(complete: Complete) -> (incomplete: Self)
        ensures
            incomplete.named() == complete.named(),
    {
        Incomplete(complete.0)
    }
}

impl vstd::std_specs::convert::FromSpecImpl<Complete> for Incomplete {
    open spec fn obeys_from_spec() -> bool {
        true
    }

    open spec fn from_spec(complete: Complete) -> Self {
        downgraded(complete)
    }
}

/// The incomplete framebuffer of the same name.
pub closed spec fn downgraded(complete: Complete) -> Incomplete {
    Incomplete(complete.0)
}

/// A downgrade keeps the name.
pub proof fn lemma_downgraded_name(complete: Complete)
    ensures
        downgraded(complete).named() == complete.named(),
{
}

} // verus!
