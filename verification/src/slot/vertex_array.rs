//! Binding vertex arrays, and defining the attributes of the one that is
//! bound.
//!
//! The raw interface lets the default vertex array take host pointers in
//! place of offsets. This crate treats the default vertex array as none at
//! all.
use core::marker::PhantomData;
use vstd::prelude::*;

use crate::call::{plain, Call, Data, Queue};
use crate::gl::types::{GLint, GLsizei};
use crate::names_of;
use crate::sealed::Named;
use crate::slot::buffer;
use crate::slot::marker::{IsDefault, NotDefault, Unknown};
use crate::vertex_array::{Attribute, AttributeType, VertexArray};
use crate::{GLEnum, ThinGLObject};

verus! {

/// The stride that is handed to the driver: the attribute's, or zero where it
/// has none.
pub open spec fn stride_of(attribute: Attribute) -> int {
    match attribute.stride {
        Some(stride) => stride@ as int,
        None => 0,
    }
}

/// The call that defines an attribute: the integer form for attributes that
/// the shader sees as integers, and for the others the general form, which is
/// told whether to normalize.
pub open spec fn pointer_call(index: u32, attribute: Attribute) -> Call {
    let size = attribute.components.count();
    let ty = attribute.ty.constant();
    let stride = stride_of(attribute) as GLsizei;
    let offset = attribute.offset;
    if attribute.ty is Integer {
        Call::VertexAttribIPointer { index, size, ty, stride, offset }
    } else {
        Call::VertexAttribPointer {
            index,
            size,
            ty,
            normalized: attribute.ty is Normalized || attribute.ty is PackedNormalized,
            stride,
            offset,
        }
    }
}

/// The call that enables or disables an attribute.
pub open spec fn enable_call(index: u32, enabled: bool) -> Call {
    if enabled {
        Call::EnableVertexAttribArray { index }
    } else {
        Call::DisableVertexAttribArray { index }
    }
}

impl Active<NotDefault> {
    /// Defines the vertex attribute at `index`. The vertex array remembers
    /// the buffer that is the source; it need not be bound when drawing.
    ///
    /// With `Some` for `enable`, the attribute is enabled or disabled after
    /// it is defined; with `None` it stays as it was. An attribute starts out
    /// disabled.
    ///
    /// The offset must be a multiple of the alignment of the attribute's
    /// type.
    pub fn attribute(
        &mut self,
        queue: &mut Queue,
        _source: &buffer::Active<buffer::Array, NotDefault>,
        index: u32,
        attribute: Attribute,
        enable: Option<bool>,
    ) -> (this: &mut Self)
        requires
            stride_of(attribute) <= GLsizei::MAX,
            attribute.offset as int % attribute.ty.alignment() as int == 0,
        ensures
            final(queue)@ == match enable {
                Some(enabled) => old(queue)@.push(plain(pointer_call(index, attribute))).push(
                    plain(enable_call(index, enabled)),
                ),
                None => old(queue)@.push(plain(pointer_call(index, attribute))),
            },
    {
        let size: GLint = attribute.components.into();
        let stride: GLsizei = match attribute.stride {
            Some(stride) => stride.get() as GLsizei,
            None => 0,
        };
        let offset = attribute.offset;
        match attribute.ty {
            AttributeType::Integer(ty) => {
                queue.push(
                    Call::VertexAttribIPointer { index, size, ty: ty.as_gl(), stride, offset },
                );
            },
            AttributeType::Float(ty) => {
                queue.push(
                    Call::VertexAttribPointer {
                        index,
                        size,
                        ty: ty.as_gl(),
                        normalized: false,
                        stride,
                        offset,
                    },
                );
            },
            AttributeType::PackedScaled(ty) => {
                queue.push(
                    Call::VertexAttribPointer {
                        index,
                        size,
                        ty: ty.as_gl(),
                        normalized: false,
                        stride,
                        offset,
                    },
                );
            },
            AttributeType::Scaled(ty) => {
                queue.push(
                    Call::VertexAttribPointer {
                        index,
                        size,
                        ty: ty.as_gl(),
                        normalized: false,
                        stride,
                        offset,
                    },
                );
            },
            AttributeType::Normalized(ty) => {
                queue.push(
                    Call::VertexAttribPointer {
                        index,
                        size,
                        ty: ty.as_gl(),
                        normalized: true,
                        stride,
                        offset,
                    },
                );
            },
            AttributeType::PackedNormalized(ty) => {
                queue.push(
                    Call::VertexAttribPointer {
                        index,
                        size,
                        ty: ty.as_gl(),
                        normalized: true,
                        stride,
                        offset,
                    },
                );
            },
        }
        if let Some(enable) = enable {
            self.set_attribute_enabled(queue, index, enable)
        } else {
            self
        }
    }

    /// Enables or disables the attribute at `index`. An attribute starts out
    /// disabled.
    pub fn set_attribute_enabled(&mut self, queue: &mut Queue, index: u32, enabled: bool) -> (this:
        &mut Self)
        ensures
            final(queue)@ == old(queue)@.push(plain(enable_call(index, enabled))),
    {
        if enabled {
            queue.push(Call::EnableVertexAttribArray { index });
        } else {
            queue.push(Call::DisableVertexAttribArray { index });
        }
        self
    }
}

/// The token of a vertex array binding: the entry points that define vertex
/// attributes.
pub struct Active<Kind>(pub(crate) PhantomData<Kind>);

/// The binding target of vertex arrays.
pub struct Slot {
    pub(crate) bound: Active<NotDefault>,
    pub(crate) empty: Active<IsDefault>,
    pub(crate) inherited: Active<Unknown>,
}

impl Slot {
    pub(crate) fn new() -> Self {
        Slot {
            bound: Active(PhantomData),
            empty: Active(PhantomData),
            inherited: Active(PhantomData),
        }
    }

    /// Binds a vertex array of the application's to this slot.
    pub fn bind(&mut self, queue: &mut Queue, array: &VertexArray) -> (active: &mut Active<
        NotDefault,
    >)
        ensures
            final(queue)@ == old(queue)@.push(
                plain(Call::BindVertexArray { array: array.named() }),
            ),
    {
        queue.push(Call::BindVertexArray { array: array.name().get() });
        &mut self.bound
    }

    /// Leaves the slot with no vertex array in it.
    pub fn unbind(&mut self, queue: &mut Queue) -> (active: &mut Active<IsDefault>)
        ensures
            final(queue)@ == old(queue)@.push(plain(Call::BindVertexArray { array: 0 })),
    {
        queue.push(Call::BindVertexArray { array: 0 });
        &mut self.empty
    }

    /// Takes over whatever is bound, which may be nothing. Little can be done
    /// with a binding of which it is not known whether it holds a vertex
    /// array.
    #[must_use]
    pub fn inherit(&self) -> &Active<Unknown> {
        &self.inherited
    }

    /// Takes over whatever is bound, which may be nothing. Little can be done
    /// with a binding of which it is not known whether it holds a vertex
    /// array.
    #[must_use]
    pub fn inherit_mut(&mut self) -> &mut Active<Unknown> {
        &mut self.inherited
    }

    /// Deletes vertex arrays. Where one of them was bound to this slot, the
    /// slot holds none afterwards.
    pub fn delete<const N: usize>(&mut self, queue: &mut Queue, arrays: [VertexArray; N])
        requires
            N <= GLsizei::MAX,
        ensures
            final(queue)@ == old(queue)@.push(
                (Call::DeleteVertexArrays { n: N as GLsizei }, Data::Words(names_of(arrays@))),
            ),
    {
        crate::gl_delete_with(queue, Call::DeleteVertexArrays { n: N as GLsizei }, arrays)
    }
}

} // verus!
