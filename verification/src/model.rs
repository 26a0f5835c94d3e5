//! What queued calls do to the stores of buffers, by the rules of the raw
//! interface, and what follows for the operations of this crate.
//!
//! The model says what a driver does that keeps to those rules and does not
//! lose a store. A call that the rules refuse leaves the stores as they are.
//! Stores are valid where none is longer than a size of the raw interface can
//! say ([`Stores::fits`]); every call keeps them so.
use vstd::prelude::*;

use crate::buffer::usage;
use crate::call::{plain, Call, Data};
use crate::gl;
use crate::gl::types::{GLenum, GLintptr, GLsizeiptr, GLuint};
use crate::slot::buffer::{patched, MapAccess, MapGuard, Read, ReadWrite, Target};
use crate::slot::framebuffer;

verus! {

/// `store` with the bytes from `offset` on replaced by `patch`.
pub open spec fn overwrite(store: Seq<u8>, offset: int, patch: Seq<u8>) -> Seq<u8> {
    Seq::new(
        store.len(),
        |i: int|
            if offset <= i < offset + patch.len() {
                patch[i - offset]
            } else {
                store[i]
            },
    )
}

/// Whether the `len` bytes from `offset` on lie within a store of `store`
/// bytes.
pub open spec fn within(store: nat, offset: int, len: int) -> bool {
    0 <= offset && 0 <= len && offset + len <= store
}

/// A store of `size` bytes that have not been written.
pub open spec fn unwritten(size: int) -> Seq<u8> {
    Seq::new(size as nat, |i: int| arbitrary())
}

/// The buffers of a context.
pub struct Stores {
    /// For every target the name of the buffer that is bound to it; zero,
    /// or no entry, for none.
    pub bound: Map<GLenum, GLuint>,
    /// For every buffer that has a store the bytes of the store.
    pub bytes: Map<GLuint, Seq<u8>>,
    /// For every buffer that is mapped the offset of the mapped range.
    pub mapped: Map<GLuint, int>,
}

impl Stores {
    /// The name of the buffer bound to `target`; zero for none.
    pub open spec fn at(self, target: GLenum) -> GLuint {
        if self.bound.dom().contains(target) {
            self.bound[target]
        } else {
            0
        }
    }

    /// The store of the buffer `name`; empty where it was never given one.
    pub open spec fn store(self, name: GLuint) -> Seq<u8> {
        if self.bytes.dom().contains(name) {
            self.bytes[name]
        } else {
            Seq::empty()
        }
    }

    /// The length that a query reports for the buffer bound to `target`.
    pub open spec fn len(self, target: GLenum) -> nat {
        self.store(self.at(target)).len()
    }

    /// The bytes that a mapping of `len` bytes from `offset` on hands over,
    /// of the buffer bound to `target`.
    pub open spec fn window(self, target: GLenum, offset: int, len: int) -> Seq<u8> {
        self.store(self.at(target)).subrange(offset, offset + len)
    }

    /// Whether the buffer bound to `target` is mapped.
    pub open spec fn is_mapped(self, target: GLenum) -> bool {
        self.mapped.dom().contains(self.at(target))
    }

    /// Whether no store is longer than the raw interface can say: a store is
    /// made with a length of the type of its sizes, and keeps that length.
    pub open spec fn fits(self) -> bool {
        forall|name: GLuint| #[trigger]
            self.bytes.dom().contains(name) ==> self.bytes[name].len() <= isize::MAX
    }

    /// The stores with a new store for the buffer `name`, which ends a
    /// mapping of it.
    pub open spec fn restored(self, name: GLuint, store: Seq<u8>) -> Stores {
        Stores {
            bound: self.bound,
            bytes: self.bytes.insert(name, store),
            mapped: self.mapped.remove(name),
        }
    }

    /// The stores after one call.
    pub open spec fn step(self, call: Call, data: Data) -> Stores {
        match call {
            Call::BindBuffer { target, buffer } => Stores {
                bound: self.bound.insert(target, buffer),
                ..self
            },
            Call::BufferData { target, size, usage } => {
                let name = self.at(target);
                if name == 0 || size < 0 {
                    self
                } else {
                    match data {
                        Data::Bytes(bytes) => if bytes.len() == size {
                            self.restored(name, bytes)
                        } else {
                            self
                        },
                        Data::Empty => self.restored(name, unwritten(size as int)),
                        Data::Words(_) => self,
                    }
                }
            },
            Call::BufferSubData { target, offset, size } => {
                let name = self.at(target);
                match data {
                    Data::Bytes(bytes) => if name != 0 && bytes.len() == size && within(
                        self.store(name).len(),
                        offset as int,
                        size as int,
                    ) && !self.mapped.dom().contains(name) {
                        Stores {
                            bytes: self.bytes.insert(
                                name,
                                overwrite(self.store(name), offset as int, bytes),
                            ),
                            ..self
                        }
                    } else {
                        self
                    },
                    _ => self,
                }
            },
            Call::CopyBufferSubData {
                read_target,
                write_target,
                read_offset,
                write_offset,
                size,
            } => {
                let from = self.at(read_target);
                let to = self.at(write_target);
                if from != 0 && to != 0 && within(
                    self.store(from).len(),
                    read_offset as int,
                    size as int,
                ) && within(self.store(to).len(), write_offset as int, size as int) && (from != to
                    || read_offset + size <= write_offset || write_offset + size <= read_offset)
                    && !self.mapped.dom().contains(from) && !self.mapped.dom().contains(to) {
                    Stores {
                        bytes: self.bytes.insert(
                            to,
                            overwrite(
                                self.store(to),
                                write_offset as int,
                                self.store(from).subrange(
                                    read_offset as int,
                                    read_offset + size,
                                ),
                            ),
                        ),
                        ..self
                    }
                } else {
                    self
                }
            },
            Call::MapBufferRange { target, offset, length, access } => {
                let name = self.at(target);
                if name != 0 && length > 0 && within(
                    self.store(name).len(),
                    offset as int,
                    length as int,
                ) && !self.mapped.dom().contains(name) {
                    Stores { mapped: self.mapped.insert(name, offset as int), ..self }
                } else {
                    self
                }
            },
            Call::UnmapBuffer { target } => {
                let name = self.at(target);
                if name != 0 && self.mapped.dom().contains(name) {
                    match data {
                        Data::Bytes(bytes) => self.restored(
                            name,
                            overwrite(self.store(name), self.mapped[name], bytes),
                        ),
                        _ => Stores { mapped: self.mapped.remove(name), ..self },
                    }
                } else {
                    self
                }
            },
            Call::DeleteBuffers { n } => match data {
                Data::Words(names) => Stores {
                    bound: self.bound.map_values(
                        |name: GLuint|
                            if names.contains(name) {
                                0
                            } else {
                                name
                            },
                    ),
                    bytes: self.bytes.remove_keys(names.to_set()),
                    mapped: self.mapped.remove_keys(names.to_set()),
                },
                _ => self,
            },
            _ => self,
        }
    }

    /// The stores after some calls, the first of them first.
    pub open spec fn run(self, commands: Seq<(Call, Data)>) -> Stores
        decreases commands.len(),
    {
        if commands.len() == 0 {
            self
        } else {
            self.run(commands.drop_last()).step(commands.last().0, commands.last().1)
        }
    }
}

/// To run calls one more is to run them and then take the step of the one.
pub proof fn lemma_run_push(stores: Stores, commands: Seq<(Call, Data)>, last: (Call, Data))
    ensures
        stores.run(commands.push(last)) == stores.run(commands).step(last.0, last.1),
{
    assert(commands.push(last).drop_last() =~= commands);
}

/// Every step keeps the stores within the lengths that the raw interface can
/// speak of.
pub proof fn lemma_step_fits(stores: Stores, call: Call, data: Data)
    requires
        stores.fits(),
    ensures
        stores.step(call, data).fits(),
{
    let after = stores.step(call, data);
    assert forall|name: GLuint| #[trigger] after.bytes.dom().contains(name) implies after.bytes[name].len()
        <= isize::MAX by {
        if stores.bytes.dom().contains(name) {
            assert(stores.bytes[name].len() <= isize::MAX);
        }
    }
}

/// Calls keep the stores within the lengths that the raw interface can
/// speak of.
pub proof fn lemma_run_fits(stores: Stores, commands: Seq<(Call, Data)>)
    requires
        stores.fits(),
    ensures
        stores.run(commands).fits(),
    decreases commands.len(),
{
    if commands.len() != 0 {
        lemma_run_fits(stores, commands.drop_last());
        lemma_step_fits(
            stores.run(commands.drop_last()),
            commands.last().0,
            commands.last().1,
        );
    }
}

/// No buffer is longer than the raw interface can say, whatever was called.
pub proof fn lemma_len_fits(stores: Stores, commands: Seq<(Call, Data)>, target: GLenum)
    requires
        stores.fits(),
    ensures
        stores.run(commands).len(target) <= isize::MAX,
{
    lemma_run_fits(stores, commands);
    let after = stores.run(commands);
    if after.bytes.dom().contains(after.at(target)) {
        assert(after.bytes[after.at(target)].len() <= isize::MAX);
    }
}

/// After a store was overwritten in part and then given anew, the length that
/// a query reports is that of the new store, whatever was overwritten: what
/// [`Active::sub_data`](crate::slot::buffer::Active::sub_data) and then
/// [`Active::data`](crate::slot::buffer::Active::data) queue leaves the
/// buffer as long as the data of the second.
pub proof fn lemma_length_is_that_of_last_data<Binding: Target>(
    stores: Stores,
    before: Seq<(Call, Data)>,
    offset: usize,
    patch: Seq<u8>,
    data: Seq<u8>,
    frequency: usage::Frequency,
    access: usage::Access,
)
    requires
        stores.run(before).at(Binding::TARGET) != 0,
        data.len() <= isize::MAX,
    ensures
        stores.run(
            patched(before, Binding::TARGET, offset, patch).push(
                (
                    Call::BufferData {
                        target: Binding::TARGET,
                        size: data.len() as GLsizeiptr,
                        usage: usage::hint(frequency, access),
                    },
                    Data::Bytes(data),
                ),
            ),
        ).len(Binding::TARGET) == data.len(),
{
    let sub = (
        Call::BufferSubData {
            target: Binding::TARGET,
            offset: offset as GLintptr,
            size: patch.len() as GLsizeiptr,
        },
        Data::Bytes(patch),
    );
    let full = (
        Call::BufferData {
            target: Binding::TARGET,
            size: data.len() as GLsizeiptr,
            usage: usage::hint(frequency, access),
        },
        Data::Bytes(data),
    );
    if patch.len() != 0 {
        lemma_run_push(stores, before, sub);
    }
    lemma_run_push(stores, patched(before, Binding::TARGET, offset, patch), full);
}

/// What is written through a mapping is there when the same range is mapped
/// again: after a mapping for reading and writing was asked for as
/// [`Active::map`](crate::slot::buffer::Active::map) asks for it and ended as
/// [`MapGuard::unmap`] ends it, with no call between them, a mapping of the
/// same range for reading hands over the bytes that the guard held. The
/// driver grants a mapping of every range but the empty one.
pub proof fn lemma_mapped_bytes_return<Binding: Target>(
    stores: Stores,
    before: Seq<(Call, Data)>,
    offset: usize,
    written: Seq<u8>,
)
    requires
        stores.fits(),
        stores.run(before).at(Binding::TARGET) != 0,
        !stores.run(before).is_mapped(Binding::TARGET),
        offset + written.len() <= stores.run(before).len(Binding::TARGET),
    ensures
        ({
            let ended = before.push(
                plain(
                    Call::MapBufferRange {
                        target: Binding::TARGET,
                        offset: offset as GLintptr,
                        length: written.len() as GLsizeiptr,
                        access: ReadWrite::FLAGS,
                    },
                ),
            ).push(
                (
                    Call::UnmapBuffer { target: Binding::TARGET },
                    MapGuard::<Binding, ReadWrite>::stored(written),
                ),
            );
            let again = ended.push(
                plain(
                    Call::MapBufferRange {
                        target: Binding::TARGET,
                        offset: offset as GLintptr,
                        length: written.len() as GLsizeiptr,
                        access: Read::FLAGS,
                    },
                ),
            );
            &&& !stores.run(ended).is_mapped(Binding::TARGET)
            &&& stores.run(again).is_mapped(Binding::TARGET) <==> written.len() > 0
            &&& stores.run(again).window(Binding::TARGET, offset as int, written.len() as int)
                == written
        }),
{
    let map = plain(
        Call::MapBufferRange {
            target: Binding::TARGET,
            offset: offset as GLintptr,
            length: written.len() as GLsizeiptr,
            access: ReadWrite::FLAGS,
        },
    );
    let unmap = (
        Call::UnmapBuffer { target: Binding::TARGET },
        MapGuard::<Binding, ReadWrite>::stored(written),
    );
    let remap = plain(
        Call::MapBufferRange {
            target: Binding::TARGET,
            offset: offset as GLintptr,
            length: written.len() as GLsizeiptr,
            access: Read::FLAGS,
        },
    );
    crate::slot::buffer::lemma_access_flags();
    lemma_len_fits(stores, before, Binding::TARGET);
    lemma_run_push(stores, before, map);
    lemma_run_push(stores, before.push(map), unmap);
    lemma_run_push(stores, before.push(map).push(unmap), remap);
    let start = stores.run(before);
    if written.len() > 0 {
        assert(start.bytes.dom().contains(start.at(Binding::TARGET)));
    }
    let after = start.step(map.0, map.1).step(unmap.0, unmap.1).step(remap.0, remap.1);
    assert(after.window(Binding::TARGET, offset as int, written.len() as int) =~= written);
}

/// Whether a call changes what is attached to a framebuffer.
pub open spec fn touches_attachments(call: Call) -> bool {
    call is FramebufferTexture2D || call is DeleteTextures || call is DeleteRenderbuffers
        || call is DeleteFramebuffers || call is TexStorage2D || call is RenderbufferStorage
        || call is RenderbufferStorageMultisample
}

/// A completeness check can be made again and again: the two calls that
/// [`Slot::try_complete`](framebuffer::Slot::try_complete) queues change
/// nothing that is attached, and what comes of a check is decided by the
/// status alone, whichever framebuffer is checked through whichever slot.
pub proof fn lemma_check_repeats<T: framebuffer::Target, U: framebuffer::Target>(
    name: GLuint,
    status: GLenum,
)
    ensures
        !touches_attachments(Call::BindFramebuffer { target: T::TARGET, framebuffer: name }),
        !touches_attachments(Call::CheckFramebufferStatus { target: T::TARGET }),
        framebuffer::Checking::<T>::verdict(status) == framebuffer::Checking::<U>::verdict(status),
        framebuffer::Checking::<T>::verdict(status) is None <==> status
            == gl::FRAMEBUFFER_COMPLETE,
{
}

} // verus!
