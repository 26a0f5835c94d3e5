//! Binding buffers, and working on the buffer that is bound.
use core::marker::PhantomData;
use vstd::prelude::*;

use crate::buffer::usage;
use crate::bound::Bound;
use crate::buffer::Buffer;
use crate::call::{copy_bytes, plain, Call, Data, Payload, Queue};
use crate::gl;
use crate::gl::types::{GLbitfield, GLboolean, GLenum, GLint, GLint64, GLintptr, GLsizei, GLsizeiptr};
use crate::names_of;
use crate::sealed::{Named, Sealed};
use crate::slot::marker::{IsDefault, NotDefault, Unknown};
use crate::ThinGLObject;

verus! {

/// The binding targets of buffers.
pub trait Target: Sealed {
    const TARGET: GLenum;
}

/// Marker for `GL_ARRAY_BUFFER`: the source of vertex data for the attributes
/// of a vertex array.
#[derive(Debug)]
pub struct Array;

impl Sealed for Array {

}

impl Target for Array {
    const TARGET: GLenum = gl::ARRAY_BUFFER;
}

/// Marker for `GL_COPY_READ_BUFFER`: a place to copy from that disturbs no
/// other binding.
#[derive(Debug)]
pub struct CopyRead;

impl Sealed for CopyRead {

}

impl Target for CopyRead {
    const TARGET: GLenum = gl::COPY_READ_BUFFER;
}

/// Marker for `GL_COPY_WRITE_BUFFER`: a place to copy to that disturbs no
/// other binding.
#[derive(Debug)]
pub struct CopyWrite;

impl Sealed for CopyWrite {

}

impl Target for CopyWrite {
    const TARGET: GLenum = gl::COPY_WRITE_BUFFER;
}

/// Marker for `GL_ELEMENT_ARRAY_BUFFER`: the source of the indices of an
/// indexed draw.
#[derive(Debug)]
pub struct ElementArray;

impl Sealed for ElementArray {

}

impl Target for ElementArray {
    const TARGET: GLenum = gl::ELEMENT_ARRAY_BUFFER;
}

/// Marker for `GL_PIXEL_PACK_BUFFER`: where image downloads go.
#[derive(Debug)]
pub struct PixelPack;

impl Sealed for PixelPack {

}

impl Target for PixelPack {
    const TARGET: GLenum = gl::PIXEL_PACK_BUFFER;
}

/// Marker for `GL_PIXEL_UNPACK_BUFFER`: where image uploads come from.
#[derive(Debug)]
pub struct PixelUnpack;

impl Sealed for PixelUnpack {

}

impl Target for PixelUnpack {
    const TARGET: GLenum = gl::PIXEL_UNPACK_BUFFER;
}

/// Marker for `GL_TRANSFORM_FEEDBACK_BUFFER`: where the fed-back output of
/// the vertex shader goes.
#[derive(Debug)]
pub struct TransformFeedback;

impl Sealed for TransformFeedback {

}

impl Target for TransformFeedback {
    const TARGET: GLenum = gl::TRANSFORM_FEEDBACK_BUFFER;
}

/// Marker for `GL_UNIFORM_BUFFER`.
#[derive(Debug)]
pub struct Uniform;

impl Sealed for Uniform {

}

impl Target for Uniform {
    const TARGET: GLenum = gl::UNIFORM_BUFFER;
}

/// Every marker of a buffer target stands for the constant of its name.
pub proof fn lemma_targets()
    ensures
        Array::TARGET == gl::ARRAY_BUFFER,
        CopyRead::TARGET == gl::COPY_READ_BUFFER,
        CopyWrite::TARGET == gl::COPY_WRITE_BUFFER,
        ElementArray::TARGET == gl::ELEMENT_ARRAY_BUFFER,
        PixelPack::TARGET == gl::PIXEL_PACK_BUFFER,
        PixelUnpack::TARGET == gl::PIXEL_UNPACK_BUFFER,
        TransformFeedback::TARGET == gl::TRANSFORM_FEEDBACK_BUFFER,
        Uniform::TARGET == gl::UNIFORM_BUFFER,
{
}

/// The ways to reach mapped memory. `FLAGS` holds the read bit, may hold the
/// write bit, and holds no other.
pub trait MapAccess: Sealed {
    const FLAGS: GLbitfield;
}

/// Marker for a mapping that can only be read.
pub struct Read;

impl Sealed for Read {

}

impl MapAccess for Read {
    const FLAGS: GLbitfield = gl::MAP_READ_BIT;
}

/// Marker for a mapping that can be read and written.
pub struct ReadWrite;

impl Sealed for ReadWrite {

}

impl MapAccess for ReadWrite {
    const FLAGS: GLbitfield = gl::MAP_READ_BIT | gl::MAP_WRITE_BIT;
}

/// Whether an access of these flags may write.
pub open spec fn writes(flags: GLbitfield) -> bool {
    flags & gl::MAP_WRITE_BIT != 0
}

/// The flags of the two accesses are the bits that their names say: a
/// mapping for reading may not write, and one for reading and writing may.
pub proof fn lemma_access_flags()
    ensures
        Read::FLAGS == gl::MAP_READ_BIT,
        ReadWrite::FLAGS == gl::MAP_READ_BIT | gl::MAP_WRITE_BIT,
        ReadWrite::FLAGS == 3,
        !writes(Read::FLAGS),
        writes(ReadWrite::FLAGS),
{
    assert(0x0003u32 == 0x0001u32 | 0x0002u32) by (bit_vector);
    assert(0x0001u32 & 0x0002u32 == 0) by (bit_vector);
    assert(0x0003u32 & 0x0002u32 != 0) by (bit_vector);
}

/// A range of the buffer's memory, mapped for the host to read and, where
/// `Access` allows, to write.
///
/// While the guard lives, the token of the buffer is borrowed, so that nothing
/// else can be done with the buffer. The guard holds the bytes of the range as
/// the driver handed them over; what is written to them is stored through the
/// mapping when it ends.
///
/// Only [`MapGuard::unmap`] ends the mapping. A guard that goes out of scope
/// queues nothing: the buffer stays mapped in the driver, and what was written
/// through the guard is lost. Whoever holds the queue and the driver together
/// can wrap the guard so that the end of its scope unmaps.
#[must_use]
pub struct MapGuard<'active, Binding: Target, Access: MapAccess> {
    _active: &'active mut Active<Binding, NotDefault>,
    access: PhantomData<Access>,
    bytes: Vec<u8>,
}

impl<Binding: Target, Access: MapAccess> View for MapGuard<'_, Binding, Access> {
    type V = Seq<u8>;

    closed spec fn view(&self) -> Seq<u8> {
        self.bytes@
    }
}

impl<Binding: Target, Access: MapAccess> MapGuard<'_, Binding, Access> {
    /// What the end of a mapping hands to the driver: the bytes, where the
    /// access may have written them.
    pub open spec fn stored(bytes: Seq<u8>) -> Data {
        if writes(Access::FLAGS) {
            Data::Bytes(bytes)
        } else {
            Data::Empty
        }
    }

    /// Ends the mapping. The driver's flag, once the queue has been flushed,
    /// tells whether the buffer's contents survived: see
    /// [`Unmapping::answer`].
    pub fn unmap(self, queue: &mut Queue) -> (unmapping: Unmapping)
        ensures
            final(queue)@ == old(queue)@.push(
                (Call::UnmapBuffer { target: Binding::TARGET }, Self::stored(self@)),
            ),
    {
        let payload = if Access::FLAGS & gl::MAP_WRITE_BIT != 0 {
            Payload::Bytes(self.bytes)
        } else {
            Payload::Empty
        };
        queue.push_with(Call::UnmapBuffer { target: Binding::TARGET }, payload);
        Unmapping { _answered_once: () }
    }

    /// The mapped bytes.
    pub fn deref(&self) -> (bytes: &[u8])
        ensures
            bytes@ == self@,
    {
        self.bytes.as_slice()
    }
}

impl<Binding: Target> MapGuard<'_, Binding, ReadWrite> {
    /// The mapped bytes, to be written.
    pub fn deref_mut(&mut self) -> (bytes: &mut [u8])
        ensures
            bytes@ == old(self)@,
            final(self)@ == final(bytes)@,
    {
        self.bytes.as_mut_slice()
    }
}

/// The end of a mapping that waits for the driver's flag.
#[must_use]
pub struct Unmapping {
    _answered_once: (),
}

impl Unmapping {
    /// What the driver's flag says of the mapping that ended.
    pub open spec fn outcome(flag: GLboolean) -> Result<(), UnmapError> {
        if flag == gl::TRUE {
            Ok(())
        } else {
            Err(UnmapError::Lost)
        }
    }

    /// Completes the end of the mapping with the flag that `UnmapBuffer`
    /// returned.
    pub fn answer(self, flag: GLboolean) -> (result: Result<(), UnmapError>)
        ensures
            result == Self::outcome(flag),
    {
        if flag == gl::TRUE {
            Ok(())
        } else {
            Err(UnmapError::Lost)
        }
    }
}

#[derive(Clone, Copy, Debug, PartialEq, Eq, Structural)]
pub enum UnmapError {
    /// The buffer's memory was lost while it was mapped, for reasons that lie
    /// with the implementation. The contents of the whole buffer are undefined
    /// and must be written again.
    Lost,
}

/// The token of a buffer binding: the entry points that work on the buffer
/// bound to `Slot`.
#[derive(Debug)]
pub struct Active<Slot, Kind>(PhantomData<(Kind, Slot)>);

/// Queues a copy between the buffers bound to two targets, unless it has no
/// length.
fn copy_between(
    queue: &mut Queue,
    read_target: GLenum,
    write_target: GLenum,
    read_offset: usize,
    write_offset: usize,
    len: usize,
)
    requires
        len != 0 ==> read_offset <= isize::MAX && write_offset <= isize::MAX && len <= isize::MAX,
    ensures
        final(queue)@ == copied(old(queue)@, read_target, write_target, read_offset, write_offset, len),
{
    if len == 0 {
        return ;
    }
    queue.push(
        Call::CopyBufferSubData {
            read_target,
            write_target,
            read_offset: read_offset as GLintptr,
            write_offset: write_offset as GLintptr,
            size: len as GLsizeiptr,
        },
    );
}

/// The queue after a copy of `len` bytes was asked for: one call longer, or
/// as it was where `len` is zero.
pub open spec fn copied(
    queue: Seq<(Call, Data)>,
    read_target: GLenum,
    write_target: GLenum,
    read_offset: usize,
    write_offset: usize,
    len: usize,
) -> Seq<(Call, Data)> {
    if len == 0 {
        queue
    } else {
        queue.push(
            plain(
                Call::CopyBufferSubData {
                    read_target,
                    write_target,
                    read_offset: read_offset as GLintptr,
                    write_offset: write_offset as GLintptr,
                    size: len as GLsizeiptr,
                },
            ),
        )
    }
}

/// The queue after a part of a store was to be overwritten with `data`: one
/// call longer, or as it was where `data` is empty.
pub open spec fn patched(
    queue: Seq<(Call, Data)>,
    target: GLenum,
    offset: usize,
    data: Seq<u8>,
) -> Seq<(Call, Data)> {
    if data.len() == 0 {
        queue
    } else {
        queue.push(
            (
                Call::BufferSubData {
                    target,
                    offset: offset as GLintptr,
                    size: data.len() as GLsizeiptr,
                },
                Data::Bytes(data),
            ),
        )
    }
}

impl<Binding: Target> Active<Binding, NotDefault> {
    /// Gives the buffer a new store, filled with `data`.
    pub fn data(
        &mut self,
        queue: &mut Queue,
        data: &[u8],
        frequency: usage::Frequency,
        access: usage::Access,
    ) -> (this: &mut Self)
        requires
            data@.len() <= isize::MAX,
        ensures
            final(queue)@ == old(queue)@.push(
                (
                    Call::BufferData {
                        target: Binding::TARGET,
                        size: data@.len() as GLsizeiptr,
                        usage: usage::hint(frequency, access),
                    },
                    Data::Bytes(data@),
                ),
            ),
    {
        queue.push_with(
            Call::BufferData {
                target: Binding::TARGET,
                size: data.len() as GLsizeiptr,
                usage: usage::as_gl(frequency, access),
            },
            Payload::Bytes(copy_bytes(data)),
        );
        self
    }

    /// Gives the buffer a new store of `len` bytes and leaves it unwritten.
    ///
    /// To read what was never written, on the host or in the driver, is
    /// undefined: the caller sees to it that the store is written first.
    pub fn data_uninit(
        &mut self,
        queue: &mut Queue,
        len: usize,
        frequency: usage::Frequency,
        access: usage::Access,
    ) -> (this: &mut Self)
        requires
            len <= isize::MAX,
        ensures
            final(queue)@ == old(queue)@.push(
                plain(
                    Call::BufferData {
                        target: Binding::TARGET,
                        size: len as GLsizeiptr,
                        usage: usage::hint(frequency, access),
                    },
                ),
            ),
    {
        queue.push(
            Call::BufferData {
                target: Binding::TARGET,
                size: len as GLsizeiptr,
                usage: usage::as_gl(frequency, access),
            },
        );
        self
    }

    /// Overwrites the bytes of the store from `offset` on with `data`. Nothing
    /// is queued where `data` is empty, whatever the offset.
    pub fn sub_data(&mut self, queue: &mut Queue, offset: usize, data: &[u8]) -> (this: &mut Self)
        requires
            data@.len() != 0 ==> offset <= isize::MAX && data@.len() <= isize::MAX,
        ensures
            final(queue)@ == patched(old(queue)@, Binding::TARGET, offset, data@),
    {
        if data.len() == 0 {
            return self;
        }
        queue.push_with(
            Call::BufferSubData {
                target: Binding::TARGET,
                offset: offset as GLintptr,
                size: data.len() as GLsizeiptr,
            },
            Payload::Bytes(copy_bytes(data)),
        );
        self
    }

    /// Copies `len` bytes from one place of this buffer to another. Nothing is
    /// queued where `len` is zero.
    ///
    /// The two ranges must not overlap, and neither may reach past the end of
    /// the buffer.
    pub fn copy_self(
        &mut self,
        queue: &mut Queue,
        read_offset: usize,
        write_offset: usize,
        len: usize,
    ) -> (this: &mut Self)
        requires
            len != 0 ==> read_offset <= isize::MAX && write_offset <= isize::MAX && len
                <= isize::MAX,
        ensures
            final(queue)@ == copied(
                old(queue)@,
                Binding::TARGET,
                Binding::TARGET,
                read_offset,
                write_offset,
                len,
            ),
    {
        copy_between(queue, Binding::TARGET, Binding::TARGET, read_offset, write_offset, len);
        self
    }

    /// Copies `len` bytes of the other buffer into this one. Nothing is queued
    /// where `len` is zero.
    ///
    /// Neither range may reach past the end of its buffer.
    pub fn copy_from<OtherBinding: Target>(
        &mut self,
        queue: &mut Queue,
        _other: &Active<OtherBinding, NotDefault>,
        read_offset: usize,
        write_offset: usize,
        len: usize,
    ) -> (this: &mut Self)
        requires
            len != 0 ==> read_offset <= isize::MAX && write_offset <= isize::MAX && len
                <= isize::MAX,
        ensures
            final(queue)@ == copied(
                old(queue)@,
                OtherBinding::TARGET,
                Binding::TARGET,
                read_offset,
                write_offset,
                len,
            ),
    {
        copy_between(queue, OtherBinding::TARGET, Binding::TARGET, read_offset, write_offset, len);
        self
    }

    /// Copies `len` bytes of this buffer into the other one: see
    /// [`Active::copy_from`].
    pub fn copy_to<OtherBinding: Target>(
        &self,
        queue: &mut Queue,
        other: &mut Active<OtherBinding, NotDefault>,
        read_offset: usize,
        write_offset: usize,
        len: usize,
    ) -> (this: &Self)
        requires
            len != 0 ==> read_offset <= isize::MAX && write_offset <= isize::MAX && len
                <= isize::MAX,
        ensures
            final(queue)@ == copied(
                old(queue)@,
                Binding::TARGET,
                OtherBinding::TARGET,
                read_offset,
                write_offset,
                len,
            ),
    {
        other.copy_from(queue, self, read_offset, write_offset, len);
        self
    }

    /// Asks for a range of the buffer to be mapped. `Access` is [`Read`] or
    /// [`ReadWrite`]; to read a mapping takes exclusive access to the buffer
    /// as well.
    ///
    /// A range without an upper end reaches to the end of the buffer: the
    /// driver is first asked for the buffer's length, and the mapping itself
    /// is asked for when that is answered.
    ///
    /// The driver promises nothing of the alignment of mapped memory.
    pub fn map<Access: MapAccess>(&mut self, queue: &mut Queue, start: Bound<usize>, end: Bound<usize>) -> (request:
        MapRequest<'_, Binding, Access>)
        requires
            start != Bound::Excluded(usize::MAX),
            end != Bound::Included(usize::MAX),
            end.past() matches Some(past) ==> start.first() <= past && start.first() <= isize::MAX
                && past - start.first() <= isize::MAX,
        ensures
            match end.past() {
                Some(past) => {
                    &&& request matches MapRequest::Range(mapping)
                    &&& mapping.len() == past - start.first()
                    &&& final(queue)@ == old(queue)@.push(
                        plain(
                            Call::MapBufferRange {
                                target: Binding::TARGET,
                                offset: start.first() as GLintptr,
                                length: (past - start.first()) as GLsizeiptr,
                                access: Access::FLAGS,
                            },
                        ),
                    )
                },
                None => {
                    &&& request matches MapRequest::Length(measuring)
                    &&& measuring.first() == start.first()
                    &&& final(queue)@ == old(queue)@.push(
                        plain(
                            Call::GetBufferParameteri64v {
                                target: Binding::TARGET,
                                pname: gl::BUFFER_SIZE,
                            },
                        ),
                    )
                },
            },
    {
        let left = match start {
            Bound::Unbounded => 0,
            Bound::Included(x) => x,
            Bound::Excluded(x) => x + 1,
        };
        match end {
            Bound::Unbounded => {
                let _length = self.len(queue);
                MapRequest::Length(Measuring { active: self, access: PhantomData, first: left })
            },
            Bound::Included(x) => MapRequest::Range(self.map_impl(queue, left, x + 1 - left)),
            Bound::Excluded(x) => MapRequest::Range(self.map_impl(queue, left, x - left)),
        }
    }

    fn map_impl<Access: MapAccess>(&mut self, queue: &mut Queue, offset: usize, len: usize) -> (mapping:
        Mapping<'_, Binding, Access>)
        requires
            offset <= isize::MAX,
            len <= isize::MAX,
        ensures
            mapping.len() == len,
            final(queue)@ == old(queue)@.push(
                plain(
                    Call::MapBufferRange {
                        target: Binding::TARGET,
                        offset: offset as GLintptr,
                        length: len as GLsizeiptr,
                        access: Access::FLAGS,
                    },
                ),
            ),
    {
        queue.push(
            Call::MapBufferRange {
                target: Binding::TARGET,
                offset: offset as GLintptr,
                length: len as GLsizeiptr,
                access: Access::FLAGS,
            },
        );
        Mapping { active: self, access: PhantomData, len }
    }

    /// Asks for the length of the buffer in bytes. Nothing is remembered:
    /// every call asks the driver again.
    #[must_use]
    pub fn len(&self, queue: &mut Queue) -> (query: LenQuery)
        ensures
            final(queue)@ == old(queue)@.push(
                plain(
                    Call::GetBufferParameteri64v { target: Binding::TARGET, pname: gl::BUFFER_SIZE },
                ),
            ),
    {
        queue.push(
            Call::GetBufferParameteri64v { target: Binding::TARGET, pname: gl::BUFFER_SIZE },
        );
        LenQuery { _answered_once: () }
    }

    /// Asks whether the buffer has no bytes. Nothing is remembered: every call
    /// asks the driver again.
    #[must_use]
    pub fn is_empty(&self, queue: &mut Queue) -> (query: IsEmptyQuery)
        ensures
            final(queue)@ == old(queue)@.push(
                plain(
                    Call::GetBufferParameteri64v { target: Binding::TARGET, pname: gl::BUFFER_SIZE },
                ),
            ),
    {
        let _length = self.len(queue);
        IsEmptyQuery { _answered_once: () }
    }

    /// Asks for the usage that the store was made with. Nothing is
    /// remembered: every call asks the driver again.
    #[must_use]
    pub fn usage(&self, queue: &mut Queue) -> (query: UsageQuery)
        ensures
            final(queue)@ == old(queue)@.push(
                plain(
                    Call::GetBufferParameteriv { target: Binding::TARGET, pname: gl::BUFFER_USAGE },
                ),
            ),
    {
        queue.push(Call::GetBufferParameteriv { target: Binding::TARGET, pname: gl::BUFFER_USAGE });
        UsageQuery { _answered_once: () }
    }
}

/// What [`Active::map`] waits for.
#[must_use]
pub enum MapRequest<'active, Binding: Target, Access: MapAccess> {
    /// The range had no upper end: the length of the buffer was asked for.
    Length(Measuring<'active, Binding, Access>),
    /// The mapping was asked for.
    Range(Mapping<'active, Binding, Access>),
}

/// A mapping to the end of the buffer that waits for the buffer's length.
#[must_use]
pub struct Measuring<'active, Binding: Target, Access: MapAccess> {
    active: &'active mut Active<Binding, NotDefault>,
    access: PhantomData<Access>,
    first: usize,
}

impl<'active, Binding: Target, Access: MapAccess> Measuring<'active, Binding, Access> {
    /// The first offset of the range.
    pub closed spec fn first(&self) -> usize {
        self.first
    }

    /// Asks for the mapping, now that the driver has written the length of
    /// the buffer.
    pub fn answer(self, queue: &mut Queue, size: GLint64) -> (mapping: Mapping<
        'active,
        Binding,
        Access,
    >)
        requires
            self.first() <= size <= usize::MAX,
            self.first() <= isize::MAX,
            size - self.first() <= isize::MAX,
        ensures
            mapping.len() == size - self.first(),
            final(queue)@ == old(queue)@.push(
                plain(
                    Call::MapBufferRange {
                        target: Binding::TARGET,
                        offset: self.first() as GLintptr,
                        length: (size - self.first()) as GLsizeiptr,
                        access: Access::FLAGS,
                    },
                ),
            ),
    {
        let right = size as usize;
        let len = right - self.first;
        self.active.map_impl(queue, self.first, len)
    }
}

/// A mapping that waits for the driver to hand over the memory.
#[must_use]
pub struct Mapping<'active, Binding: Target, Access: MapAccess> {
    active: &'active mut Active<Binding, NotDefault>,
    access: PhantomData<Access>,
    len: usize,
}

impl<'active, Binding: Target, Access: MapAccess> Mapping<'active, Binding, Access> {
    /// The number of bytes in the range.
    pub closed spec fn len(&self) -> usize {
        self.len
    }

    /// The guard of the mapping, from the bytes of the range as the driver
    /// handed them over. A driver that hands over no memory has failed beyond
    /// repair, and there is nothing to answer with.
    pub fn answer(self, bytes: Vec<u8>) -> (guard: MapGuard<'active, Binding, Access>)
        requires
            bytes@.len() == self.len(),
        ensures
            guard@ == bytes@,
    {
        MapGuard { _active: self.active, access: PhantomData, bytes }
    }
}

/// A question for the length of a buffer.
#[must_use]
pub struct LenQuery {
    _answered_once: (),
}

impl LenQuery {
    /// The length, from the integer that the driver wrote.
    pub fn answer(self, size: GLint64) -> (len: usize)
        requires
            0 <= size <= usize::MAX,
        ensures
            len == size,
    {
        size as usize
    }
}

/// A question whether a buffer has no bytes.
#[must_use]
pub struct IsEmptyQuery {
    _answered_once: (),
}

impl IsEmptyQuery {
    /// Whether the length that the driver wrote is zero.
    pub fn answer(self, size: GLint64) -> (empty: bool)
        requires
            0 <= size <= usize::MAX,
        ensures
            empty == (size == 0),
    {
        size == 0
    }
}

/// A question for the usage of a buffer.
#[must_use]
pub struct UsageQuery {
    _answered_once: (),
}

impl UsageQuery {
    /// The usage, from the constant that the driver wrote.
    pub fn answer(self, raw: GLint) -> (usage: (usage::Frequency, usage::Access))
        requires
            0 <= raw,
            usage::is_hint(raw as GLenum),
        ensures
            usage::hint(usage.0, usage.1) == raw,
    {
        usage::from_gl(raw as GLenum).unwrap()
    }
}

/// A binding target of buffers.
pub struct Slot<Binding: Target> {
    pub(crate) bound: Active<Binding, NotDefault>,
    pub(crate) empty: Active<Binding, IsDefault>,
    pub(crate) inherited: Active<Binding, Unknown>,
}

impl<Binding: Target> Slot<Binding> {
    pub(crate) fn new() -> Self {
        Slot {
            bound: Active(PhantomData),
            empty: Active(PhantomData),
            inherited: Active(PhantomData),
        }
    }

    /// Binds a buffer to this slot.
    ///
    /// The token borrows the slot for as long as it is in use, so a second
    /// bind to the same slot in that time is refused when the program is
    /// compiled:
    ///
    /// ```compile_fail
    /// # use glhf::buffer::usage::{Access, Frequency};
    /// # let mut gl = glhf::GLHF::current();
    /// # let names = [glhf::nonzero::NonZeroU32::new(1).unwrap(); 2];
    /// # let [a, b] = gl.new.buffers::<2>(&mut gl.queue).adopt(names);
    /// let first = gl.buffer.array.bind(&mut gl.queue, &a);
    /// let second = gl.buffer.array.bind(&mut gl.queue, &b);
    /// first.data(&mut gl.queue, &[1, 2, 3], Frequency::Static, Access::Draw);
    /// ```
    pub fn bind(&mut self, queue: &mut Queue, buffer: &Buffer) -> (active: &mut Active<
        Binding,
        NotDefault,
    >)
        ensures
            final(queue)@ == old(queue)@.push(
                plain(Call::BindBuffer { target: Binding::TARGET, buffer: buffer.named() }),
            ),
    {
        queue.push(Call::BindBuffer { target: Binding::TARGET, buffer: buffer.name().get() });
        &mut self.bound
    }

    /// Leaves the slot with no buffer in it.
    pub fn unbind(&mut self, queue: &mut Queue) -> (active: &mut Active<Binding, IsDefault>)
        ensures
            final(queue)@ == old(queue)@.push(
                plain(Call::BindBuffer { target: Binding::TARGET, buffer: 0 }),
            ),
    {
        queue.push(Call::BindBuffer { target: Binding::TARGET, buffer: 0 });
        &mut self.empty
    }

    /// Takes over whatever is bound, which may be nothing. Little can be done
    /// with a binding of which it is not known whether it holds a buffer.
    #[must_use]
    pub fn inherit(&self) -> &Active<Binding, Unknown> {
        &self.inherited
    }

    /// Takes over whatever is bound, which may be nothing. Little can be done
    /// with a binding of which it is not known whether it holds a buffer.
    #[must_use]
    pub fn inherit_mut(&mut self) -> &mut Active<Binding, Unknown> {
        &mut self.inherited
    }
}

/// The binding targets of buffers.
pub struct Slots {
    pub array: Slot<Array>,
    pub copy_read: Slot<CopyRead>,
    pub copy_write: Slot<CopyWrite>,
    pub element_array: Slot<ElementArray>,
    pub pixel_pack: Slot<PixelPack>,
    pub pixel_unpack: Slot<PixelUnpack>,
    pub transform_feedback: Slot<TransformFeedback>,
    pub uniform: Slot<Uniform>,
}

impl Slots {
    /// Deletes buffers. A slot that one of them was bound to holds no buffer
    /// afterwards.
    pub fn delete<const N: usize>(&mut self, queue: &mut Queue, buffers: [Buffer; N])
        requires
            N <= GLsizei::MAX,
        ensures
            final(queue)@ == old(queue)@.push(
                (Call::DeleteBuffers { n: N as GLsizei }, Data::Words(names_of(buffers@))),
            ),
    {
        crate::gl_delete_with(queue, Call::DeleteBuffers { n: N as GLsizei }, buffers)
    }
}

} // verus!
