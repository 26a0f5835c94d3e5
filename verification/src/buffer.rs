//! Buffer handles and the options of buffer operations.
use vstd::prelude::*;

use crate::gl;
use crate::gl::types::GLbitfield;
use crate::sealed::{Named, Sealed};
use crate::{NonZeroName, ThinGLObject};

pub mod usage;

verus! {

/// How mapped memory may be reached.
#[derive(Clone, Copy, Debug, PartialEq, Eq)]
pub struct RawMapAccess {
    bits: GLbitfield,
}

impl View for RawMapAccess {
    type V = GLbitfield;

    closed spec fn view(&self) -> GLbitfield {
        self.bits
    }
}

/// The bits of reading and writing together.
pub const ALL_MAP_ACCESS: GLbitfield = 0x0003;

impl RawMapAccess {
    #[verifier::type_invariant]
    spec fn known(self) -> bool {
        self.bits & !ALL_MAP_ACCESS == 0
    }

    /// No flag.
    pub fn empty() -> (flags: Self)
        ensures
            flags@ == 0,
    {
        assert(0u32 & !0x0003u32 == 0) by (bit_vector);
        RawMapAccess { bits: 0 }
    }

    /// The mapped range may be read. To read a range that was mapped without
    /// this flag may end the program.
    pub fn read() -> (flags: Self)
        ensures
            flags@ == gl::MAP_READ_BIT,
    {
        assert(0x0001u32 & !0x0003u32 == 0) by (bit_vector);
        RawMapAccess { bits: gl::MAP_READ_BIT }
    }

    /// The mapped range may be written. To write a range that was mapped
    /// without this flag may end the program.
    pub fn write() -> (flags: Self)
        ensures
            flags@ == gl::MAP_WRITE_BIT,
    {
        assert(0x0002u32 & !0x0003u32 == 0) by (bit_vector);
        RawMapAccess { bits: gl::MAP_WRITE_BIT }
    }

    /// The mapped range may be read and written, as far as the hints allow.
    pub fn read_write() -> (flags: Self)
        ensures
            flags@ == gl::MAP_READ_BIT | gl::MAP_WRITE_BIT,
    {
        RawMapAccess::read().union(RawMapAccess::write())
    }

    /// The flags of the given bits; `None` if and only if a bit among them
    /// is no flag.
    pub fn from_bits(bits: GLbitfield) -> (flags: Option<Self>)
        ensures
            flags is Some <==> bits & !ALL_MAP_ACCESS == 0,
            flags matches Some(flags) ==> flags@ == bits,
    {
        if bits & !ALL_MAP_ACCESS == 0 {
            Some(RawMapAccess { bits })
        } else {
            None
        }
    }

    /// The bits of the flags.
    pub fn bits(&self) -> (bits: GLbitfield)
        ensures
            bits == self@,
            bits & !ALL_MAP_ACCESS == 0,
    {
        proof {
            use_type_invariant(self);
        }
        self.bits
    }

    /// Whether no flag is set.
    pub fn is_empty(&self) -> (empty: bool)
        ensures
            empty == (self@ == 0),
    {
        self.bits == 0
    }

    /// Whether every flag of `other` is set.
    pub fn contains(&self, other: Self) -> (contains: bool)
        ensures
            contains == (self@ & other@ == other@),
    {
        self.bits & other.bits == other.bits
    }

    /// The flags of both.
    pub fn union(self, other: Self) -> (flags: Self)
        ensures
            flags@ == self@ | other@,
    {
        proof {
            use_type_invariant(&self);
            use_type_invariant(&other);
        }
        let a = self.bits;
        let b = other.bits;
        assert((a | b) & !0x0003u32 == 0) by (bit_vector)
            requires
                a & !0x0003u32 == 0,
                b & !0x0003u32 == 0,
        ;
        RawMapAccess { bits: a | b }
    }
}

/// What more the driver is told of a mapping.
#[derive(Clone, Copy, Debug, PartialEq, Eq)]
pub struct RawMapHint {
    bits: GLbitfield,
}

impl View for RawMapHint {
    type V = GLbitfield;

    closed spec fn view(&self) -> GLbitfield {
        self.bits
    }
}

/// The bits of all hints together.
pub const ALL_MAP_HINTS: GLbitfield = 0x003C;

impl RawMapHint {
    #[verifier::type_invariant]
    spec fn known(self) -> bool {
        self.bits & !ALL_MAP_HINTS == 0
    }

    /// No flag.
    pub fn empty() -> (flags: Self)
        ensures
            flags@ == 0,
    {
        assert(0u32 & !0x003Cu32 == 0) by (bit_vector);
        RawMapHint { bits: 0 }
    }

    /// The data of the mapped range is given up; only for a mapping that is
    /// written and not read. The range holds undefined data until it is written.
    pub fn invalidate_range() -> (flags: Self)
        ensures
            flags@ == gl::MAP_INVALIDATE_RANGE_BIT,
    {
        assert(0x0004u32 & !0x003Cu32 == 0) by (bit_vector);
        RawMapHint { bits: gl::MAP_INVALIDATE_RANGE_BIT }
    }

    /// The data of the whole buffer is given up; only for a mapping that is
    /// written and not read. The buffer holds undefined data until it is written.
    pub fn invalidate_buffer() -> (flags: Self)
        ensures
            flags@ == gl::MAP_INVALIDATE_BUFFER_BIT,
    {
        assert(0x0008u32 & !0x003Cu32 == 0) by (bit_vector);
        RawMapHint { bits: gl::MAP_INVALIDATE_BUFFER_BIT }
    }

    /// What is written is not flushed when the mapping ends; only for a mapping
    /// that is written. What was written and not flushed is undefined.
    pub fn flush_explicit() -> (flags: Self)
        ensures
            flags@ == gl::MAP_FLUSH_EXPLICIT_BIT,
    {
        assert(0x0010u32 & !0x003Cu32 == 0) by (bit_vector);
        RawMapHint { bits: gl::MAP_FLUSH_EXPLICIT_BIT }
    }

    /// The driver does not wait for what it still does with the buffer before
    /// it maps. The caller sees to it that nothing races.
    pub fn unsynchronized() -> (flags: Self)
        ensures
            flags@ == gl::MAP_UNSYNCHRONIZED_BIT,
    {
        assert(0x0020u32 & !0x003Cu32 == 0) by (bit_vector);
        RawMapHint { bits: gl::MAP_UNSYNCHRONIZED_BIT }
    }

    /// The flags of the given bits; `None` if and only if a bit among them
    /// is no flag.
    pub fn from_bits(bits: GLbitfield) -> (flags: Option<Self>)
        ensures
            flags is Some <==> bits & !ALL_MAP_HINTS == 0,
            flags matches Some(flags) ==> flags@ == bits,
    {
        if bits & !ALL_MAP_HINTS == 0 {
            Some(RawMapHint { bits })
        } else {
            None
        }
    }

    /// The bits of the flags.
    pub fn bits(&self) -> (bits: GLbitfield)
        ensures
            bits == self@,
            bits & !ALL_MAP_HINTS == 0,
    {
        proof {
            use_type_invariant(self);
        }
        self.bits
    }

    /// Whether no flag is set.
    pub fn is_empty(&self) -> (empty: bool)
        ensures
            empty == (self@ == 0),
    {
        self.bits == 0
    }

    /// Whether every flag of `other` is set.
    pub fn contains(&self, other: Self) -> (contains: bool)
        ensures
            contains == (self@ & other@ == other@),
    {
        self.bits & other.bits == other.bits
    }

    /// The flags of both.
    pub fn union(self, other: Self) -> (flags: Self)
        ensures
            flags@ == self@ | other@,
    {
        proof {
            use_type_invariant(&self);
            use_type_invariant(&other);
        }
        let a = self.bits;
        let b = other.bits;
        assert((a | b) & !0x003Cu32 == 0) by (bit_vector)
            requires
                a & !0x003Cu32 == 0,
                b & !0x003Cu32 == 0,
        ;
        RawMapHint { bits: a | b }
    }
}

/// A buffer that the application owns: a run of bytes, whose meaning is that
/// of the slot it is bound to.
#[must_use]
#[derive(Debug)]
pub struct Buffer(pub(crate) NonZeroName);

impl Sealed for Buffer {

}

impl Named for Buffer {
    closed spec fn named(&self) -> u32 {
        self.0@
    }

    fn adopt(name: NonZeroName) -> (handle: Self) {
        Buffer(name)
    }
}

impl ThinGLObject for Buffer {
    fn name(&self) -> (name: NonZeroName) {
        self.0
    }

    fn into_name(self) -> (name: NonZeroName) {
        self.0
    }
}

} // verus!
