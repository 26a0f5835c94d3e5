//! The entry points that draw.
//!
//! Drawing is where the raw interface is least forgiving: with the wrong
//! bindings in place it reads byte offsets as host pointers. The draw
//! functions here take a bundle of tokens that can only be put together while
//! every binding that the draw relies on is in place.
use core::marker::PhantomData;
use vstd::prelude::*;

use crate::call::{plain, Call, Queue};
use crate::gl;
use crate::gl::types::{GLenum, GLint, GLsizei, GLuint};
use crate::slot::{self, marker};
use crate::GLEnum;

verus! {

pub type ActiveProgram = slot::program::Active<marker::NotDefault>;

pub type ActiveVertexArray = slot::vertex_array::Active<marker::NotDefault>;

pub type ActiveElementArray = slot::buffer::Active<slot::buffer::ElementArray, marker::NotDefault>;

pub type ActiveDrawFramebuffer<'a, Defaultness> = slot::framebuffer::Active<
    'a,
    slot::framebuffer::Draw,
    Defaultness,
    crate::framebuffer::Complete,
>;

/// How consecutive vertices are assembled into primitives.
#[derive(Clone, Copy, Debug, PartialEq, Eq, Structural)]
pub enum Topology {
    Points,
    LineStrip,
    LineLoop,
    Lines,
    TriangleStrip,
    TriangleFan,
    Triangles,
}

impl GLEnum for Topology {
    open spec fn constant(&self) -> GLenum {
        match self {
            Topology::Points => gl::POINTS,
            Topology::LineStrip => gl::LINE_STRIP,
            Topology::LineLoop => gl::LINE_LOOP,
            Topology::Lines => gl::LINES,
            Topology::TriangleStrip => gl::TRIANGLE_STRIP,
            Topology::TriangleFan => gl::TRIANGLE_FAN,
            Topology::Triangles => gl::TRIANGLES,
        }
    }

    fn as_gl(&self) -> (raw: GLenum) {
        match self {
            Topology::Points => gl::POINTS,
            Topology::LineStrip => gl::LINE_STRIP,
            Topology::LineLoop => gl::LINE_LOOP,
            Topology::Lines => gl::LINES,
            Topology::TriangleStrip => gl::TRIANGLE_STRIP,
            Topology::TriangleFan => gl::TRIANGLE_FAN,
            Topology::Triangles => gl::TRIANGLES,
        }
    }
}

impl Topology {
    /// No two variants share a constant.
    pub proof fn lemma_constant_injective(a: Self, b: Self)
        ensures
            a.constant() == b.constant() <==> a == b,
    {
    }
}

/// The integer type of the indices fetched from the element array.
#[derive(Clone, Copy, Debug, PartialEq, Eq, Structural)]
pub enum ElementType {
    U8,
    U16,
    U32,
}

impl GLEnum for ElementType {
    open spec fn constant(&self) -> GLenum {
        match self {
            ElementType::U8 => gl::UNSIGNED_BYTE,
            ElementType::U16 => gl::UNSIGNED_SHORT,
            ElementType::U32 => gl::UNSIGNED_INT,
        }
    }

    fn as_gl(&self) -> (raw: GLenum) {
        match self {
            ElementType::U8 => gl::UNSIGNED_BYTE,
            ElementType::U16 => gl::UNSIGNED_SHORT,
            ElementType::U32 => gl::UNSIGNED_INT,
        }
    }
}

impl ElementType {
    /// No two variants share a constant.
    pub proof fn lemma_constant_injective(a: Self, b: Self)
        ensures
            a.constant() == b.constant() <==> a == b,
    {
    }
}

impl ElementType {
    /// The size of one index in bytes.
    pub open spec fn size(&self) -> usize {
        match self {
            ElementType::U8 => 1,
            ElementType::U16 => 2,
            ElementType::U32 => 4,
        }
    }

    /// The size of one index in bytes.
    #[must_use]
    pub fn size_of(&self) -> (size: usize)
        ensures
            size == self.size(),
    {
        match self {
            Self::U8 => 1,
            Self::U16 => 2,
            Self::U32 => 4,
        }
    }
}

/// What a draw of consecutive vertices relies on.
#[derive(Clone, Copy)]
pub struct ArrayState<'a, Default: marker::Defaultness> {
    /// Shows that a vertex array is bound.
    pub vertex_array: &'a ActiveVertexArray,
    /// Shows that a complete framebuffer is bound for drawing.
    pub framebuffer: &'a ActiveDrawFramebuffer<'a, Default>,
    /// Shows that a linked program is in use.
    pub program: &'a ActiveProgram,
}

/// What a draw by indices relies on.
#[derive(Clone, Copy)]
pub struct ElementState<'a, Default: marker::Defaultness> {
    /// Shows that an element array is bound.
    pub elements: &'a ActiveElementArray,
    /// Shows that a vertex array is bound.
    pub vertex_array: &'a ActiveVertexArray,
    /// Shows that a complete framebuffer is bound for drawing.
    pub framebuffer: &'a ActiveDrawFramebuffer<'a, Default>,
    /// Shows that a linked program is in use.
    pub program: &'a ActiveProgram,
}

/// Whether a draw of this range and this many instances draws nothing.
pub open spec fn draws_nothing(start: usize, end: usize, instances: usize) -> bool {
    start == end || instances == 0
}

/// The call of a draw of consecutive vertices that draws something: the plain
/// form for one instance, the instanced form for more.
pub open spec fn arrays_call(mode: Topology, start: usize, end: usize, instances: usize) -> Call {
    if instances == 1 {
        Call::DrawArrays {
            mode: mode.constant(),
            first: start as GLint,
            count: (end - start) as GLsizei,
        }
    } else {
        Call::DrawArraysInstanced {
            mode: mode.constant(),
            first: start as GLint,
            count: (end - start) as GLsizei,
            instancecount: instances as GLsizei,
        }
    }
}

/// The offset in bytes, within the element array, of the index at `start`.
pub open spec fn byte_offset(element_type: ElementType, start: usize) -> int {
    start * element_type.size()
}

/// Whether the indices from `start` to `end` lie within an element array of
/// `len` bytes.
pub open spec fn within_elements(
    element_type: ElementType,
    start: usize,
    end: usize,
    len: usize,
) -> bool {
    start <= end && end * element_type.size() <= len
}

/// The call of a draw by indices that draws something: the plain form for one
/// instance, the instanced form for more.
pub open spec fn elements_call(
    mode: Topology,
    element_type: ElementType,
    start: usize,
    end: usize,
    instances: usize,
) -> Call {
    if instances == 1 {
        Call::DrawElements {
            mode: mode.constant(),
            count: (end - start) as GLsizei,
            ty: element_type.constant(),
            offset: byte_offset(element_type, start) as usize,
        }
    } else {
        Call::DrawElementsInstanced {
            mode: mode.constant(),
            count: (end - start) as GLsizei,
            ty: element_type.constant(),
            offset: byte_offset(element_type, start) as usize,
            instancecount: instances as GLsizei,
        }
    }
}

/// The entry points that draw.
pub struct Draw(pub(crate) PhantomData<()>);

impl Draw {
    /// Draws consecutive vertices of the bound vertex array, with the buffers
    /// and attributes that are enabled in it.
    ///
    /// Nothing is queued for an empty range or for no instances. One instance
    /// is drawn by the plain call, which does what the instanced call does
    /// for one instance.
    ///
    /// The caller sees to it that no enabled attribute is fetched from beyond
    /// its buffer.
    pub fn arrays<Default: marker::Defaultness>(
        &self,
        queue: &mut Queue,
        mode: Topology,
        vertices: core::ops::Range<usize>,
        instances: usize,
        _state: ArrayState<Default>,
    )
        requires
            !draws_nothing(vertices.start, vertices.end, instances) ==> {
                &&& vertices.start <= vertices.end
                &&& vertices.start <= GLint::MAX
                &&& vertices.end - vertices.start <= GLsizei::MAX
                &&& instances <= GLsizei::MAX
            },
        ensures
            final(queue)@ == if draws_nothing(vertices.start, vertices.end, instances) {
                old(queue)@
            } else {
                old(queue)@.push(
                    plain(arrays_call(mode, vertices.start, vertices.end, instances)),
                )
            },
    {
        if vertices.start == vertices.end || instances == 0 {
            return ;
        }
        let count = vertices.end - vertices.start;
        if instances == 1 {
            queue.push(
                Call::DrawArrays {
                    mode: mode.as_gl(),
                    first: vertices.start as GLint,
                    count: count as GLsizei,
                },
            );
        } else {
            queue.push(
                Call::DrawArraysInstanced {
                    mode: mode.as_gl(),
                    first: vertices.start as GLint,
                    count: count as GLsizei,
                    instancecount: instances as GLsizei,
                },
            );
        }
    }

    /// Draws the vertices that the indices from `elements.start` to
    /// `elements.end` of the bound element array name.
    ///
    /// Nothing is queued for an empty range or for no instances. One instance
    /// is drawn by the plain call, which does what the instanced call does
    /// for one instance.
    ///
    /// `index_len` is the length of the bound element array in bytes; the
    /// indices that are drawn must lie within it. The caller sees to it that
    /// no enabled attribute is fetched from beyond its buffer.
    #[allow(unused_variables)]
    pub fn elements<Default: marker::Defaultness>(
        &self,
        queue: &mut Queue,
        mode: Topology,
        element_type: ElementType,
        elements: core::ops::Range<usize>,
        instances: usize,
        _state: ElementState<Default>,
        index_len: usize,
    )
        requires
            !draws_nothing(elements.start, elements.end, instances) ==> {
                &&& within_elements(element_type, elements.start, elements.end, index_len)
                &&& elements.end - elements.start <= GLsizei::MAX
                &&& instances <= GLsizei::MAX
            },
        ensures
            final(queue)@ == if draws_nothing(elements.start, elements.end, instances) {
                old(queue)@
            } else {
                old(queue)@.push(
                    plain(
                        elements_call(mode, element_type, elements.start, elements.end, instances),
                    ),
                )
            },
    {
        if elements.start == elements.end || instances == 0 {
            return ;
        }
        let count = elements.end - elements.start;
        let size = element_type.size_of();
        assert(elements.start * size <= elements.end * size) by (nonlinear_arith)
            requires
                elements.start <= elements.end,
        ;
        let byte_offset = elements.start * size;
        if instances == 1 {
            queue.push(
                Call::DrawElements {
                    mode: mode.as_gl(),
                    count: count as GLsizei,
                    ty: element_type.as_gl(),
                    offset: byte_offset,
                },
            );
        } else {
            queue.push(
                Call::DrawElementsInstanced {
                    mode: mode.as_gl(),
                    count: count as GLsizei,
                    ty: element_type.as_gl(),
                    offset: byte_offset,
                    instancecount: instances as GLsizei,
                },
            );
        }
    }

    /// Draws as [`Draw::elements`] does for one instance, and tells the
    /// driver that every index that is drawn lies in `index_range`, which
    /// lets it fetch ahead. The smaller the range, the better.
    ///
    /// Nothing is queued for an empty range of elements.
    ///
    /// `index_len` is the length of the bound element array in bytes; the
    /// indices that are drawn must lie within it. The caller sees to it that
    /// their values lie in `index_range`, which nothing here can check, and
    /// that no enabled attribute is fetched from beyond its buffer.
    #[allow(unused_variables)]
    pub fn ranged_elements<Default: marker::Defaultness>(
        &self,
        queue: &mut Queue,
        mode: Topology,
        element_type: ElementType,
        elements: core::ops::Range<usize>,
        index_range: core::ops::RangeInclusive<usize>,
        _state: ElementState<Default>,
        index_len: usize,
    )
        requires
            elements.start != elements.end ==> {
                &&& within_elements(element_type, elements.start, elements.end, index_len)
                &&& elements.end - elements.start <= GLsizei::MAX
                &&& index_range@.start <= GLuint::MAX
                &&& index_range@.end <= GLuint::MAX
            },
        ensures
            final(queue)@ == if elements.start == elements.end {
                old(queue)@
            } else {
                old(queue)@.push(
                    plain(
                        Call::DrawRangeElements {
                            mode: mode.constant(),
                            start: index_range@.start as GLuint,
                            end: index_range@.end as GLuint,
                            count: (elements.end - elements.start) as GLsizei,
                            ty: element_type.constant(),
                            offset: byte_offset(element_type, elements.start) as usize,
                        },
                    ),
                )
            },
    {
        if elements.start == elements.end {
            return ;
        }
        let count = elements.end - elements.start;
        let size = element_type.size_of();
        assert(elements.start * size <= elements.end * size) by (nonlinear_arith)
            requires
                elements.start <= elements.end,
        ;
        let byte_offset = elements.start * size;
        queue.push(
            Call::DrawRangeElements {
                mode: mode.as_gl(),
                start: *index_range.start() as GLuint,
                end: *index_range.end() as GLuint,
                count: count as GLsizei,
                ty: element_type.as_gl(),
                offset: byte_offset,
            },
        );
    }
}

/// `RangeInclusive::start` returns the lower bound of the range.
pub assume_specification<Idx>[ core::ops::RangeInclusive::<Idx>::start ](
    range: &core::ops::RangeInclusive<Idx>,
) -> (start: &Idx)
    ensures
        *start == range@.start,
;

/// `RangeInclusive::end` returns the upper bound of the range, which the
/// range holds.
pub assume_specification<Idx>[ core::ops::RangeInclusive::<Idx>::end ](
    range: &core::ops::RangeInclusive<Idx>,
) -> (end: &Idx)
    ensures
        *end == range@.end,
;

} // verus!
