//! Type-state bindings for OpenGL ES 3.
//!
//! The hidden binding state of the context is projected onto values: a slot
//! for every binding target, and for every bind a token that borrows its
//! slot, so that the borrow checker refuses a call sequence that the state
//! does not allow. Handles are never released implicitly.
use core::marker::PhantomData;
use vstd::prelude::*;

use crate::call::{Call, Data, Payload, Queue};
use crate::gl::types::GLenum;
use crate::nonzero::NonZeroU32;
use crate::sealed::{Named, Sealed};

pub use crate::slot::marker;

pub mod bound;
pub mod buffer;
pub mod call;
pub mod draw;
pub mod framebuffer;
pub mod gl;
pub mod model;
pub mod new;
pub mod nonzero;
pub mod program;
pub mod renderbuffer;
pub mod slot;
pub mod state;
pub mod texture;
pub mod vertex_array;
mod sealed;

verus! {

/// The entry point: every slot of the context, the entry points that belong
/// to no slot, and the queue that takes the calls.
pub struct GLHF {
    /// `glBindTexture`
    pub texture: slot::texture::Slots,
    /// `glBindFramebuffer`
    pub framebuffer: slot::framebuffer::Slots,
    /// `glBindBuffer`
    pub buffer: slot::buffer::Slots,
    /// `glBindRenderbuffer`
    pub renderbuffer: slot::renderbuffer::Slot,
    /// `glBindVertexArray`
    pub vertex_array: slot::vertex_array::Slot,
    /// `glGen*`
    pub new: new::New,
    /// `glUseProgram`
    pub program: slot::program::Slot,
    /// `glDraw*`
    pub draw: draw::Draw,
    /// Clear values, blend modes and other state that belongs to no object.
    pub state: state::State,
    /// The calls decided on and not yet issued.
    pub queue: Queue,
}

impl GLHF {
    /// The entry point for the context that is current, with an empty queue.
    /// It costs nothing to make, and can be made anew for every frame.
    ///
    /// The caller sees to what nothing here can know:
    /// * The calls of the queue are issued, in their order, on a thread on
    ///   which a context of OpenGL ES 3 is current, and every answer that is
    ///   given comes from that context.
    /// * No other value of this type stands for the same context.
    /// * No object made with one value of this type is handed to another.
    #[must_use]
    pub fn current() -> (entry: Self)
        ensures
            entry.queue@ == Seq::<(Call, Data)>::empty(),
    {
        GLHF {
            texture: slot::texture::Slots {
                d2: slot::texture::Slot::new(),
                d3: slot::texture::Slot::new(),
                d2_array: slot::texture::Slot::new(),
                cube: slot::texture::Slot::new(),
            },
            framebuffer: slot::framebuffer::Slots {
                draw: slot::framebuffer::Slot(PhantomData),
                read: slot::framebuffer::Slot(PhantomData),
            },
            buffer: slot::buffer::Slots {
                array: slot::buffer::Slot::new(),
                copy_read: slot::buffer::Slot::new(),
                copy_write: slot::buffer::Slot::new(),
                element_array: slot::buffer::Slot::new(),
                pixel_pack: slot::buffer::Slot::new(),
                pixel_unpack: slot::buffer::Slot::new(),
                transform_feedback: slot::buffer::Slot::new(),
                uniform: slot::buffer::Slot::new(),
            },
            renderbuffer: slot::renderbuffer::Slot::new(),
            vertex_array: slot::vertex_array::Slot::new(),
            new: new::New(PhantomData),
            program: slot::program::Slot::new(),
            draw: draw::Draw(PhantomData),
            state: state::State(PhantomData),
            queue: Queue::new(),
        }
    }
}

/// The name of an object: the integer by which the driver knows it.
pub type NonZeroName = NonZeroU32;

/// A handle that is its object's name and nothing more.
pub trait ThinGLObject: Sealed + Named {
    /// The name of the object. To use it in a raw call is to leave the
    /// protection of the type state.
    fn name(&self) -> (name: NonZeroName)
        ensures
            name@ == self.named(),
    ;

    /// Gives up the handle for its name.
    fn into_name(self) -> (name: NonZeroName)
        ensures
            name@ == self.named(),
    ;
}

/// An option set whose every variant stands for one constant of the raw
/// interface.
pub trait GLEnum {
    /// The constant that the variant stands for.
    spec fn constant(&self) -> GLenum;

    /// The constant that the variant stands for.
    fn as_gl(&self) -> (raw: GLenum)
        ensures
            raw == self.constant(),
    ;
}

/// The names of some handles, in their order.
pub open spec fn names_of<T: ThinGLObject>(objects: Seq<T>) -> Seq<u32> {
    Seq::new(objects.len(), |i: int| objects[i].named())
}

/// Queues `call`, which deletes objects, with the names of `objects` as its
/// payload.
pub(crate) fn gl_delete_with<const N: usize, T: ThinGLObject>(
    queue: &mut Queue,
    call: Call,
    objects: [T; N],
)
    ensures
        final(queue)@ == old(queue)@.push((call, Data::Words(names_of(objects@)))),
{
    let mut names: Vec<u32> = Vec::new();
    let mut i: usize = 0;
    while i < N
        invariant
            i <= N,
            names@.len() == i,
            forall|j: int| 0 <= j < i ==> names@[j] == objects@[j].named(),
        decreases N - i,
    {
        let name = objects[i].name();
        names.push(name.get());
        i += 1;
    }
    assert(names@ =~= names_of(objects@));
    queue.push_with(call, Payload::Words(names));
}

/// Turns the names that the driver gave into handles, one for one.
///
/// Calls `<[T; N]>::map` with the constructor of `T`, and states of it that
/// the handle at each place holds the name at that place.
#[verifier::external_body]
pub(crate) fn adopt_all<const N: usize, T: ThinGLObject>(names: [NonZeroName; N]) -> (objects: [
    T;
    N
])
    ensures
        forall|i: int| 0 <= i < N ==> (#[trigger] objects@[i]).named() == names@[i]@,
{
    names.map(|name| T::adopt(name))
}

} // verus!
