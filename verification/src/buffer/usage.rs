//! How often and in what way a buffer will be used.
//!
//! The driver takes this as a hint: it does not restrict what can be done with
//! the buffer, but decides where the buffer lives, and a use that contradicts
//! it may be far slower.
use vstd::prelude::*;

use crate::gl;
use crate::gl::types::GLenum;

verus! {

/// How writes relate to reads.
#[derive(Clone, Copy, Debug, PartialEq, Eq, Structural)]
pub enum Frequency {
    /// Written once, read at most a few times.
    Stream,
    /// Written once, read many times.
    Static,
    /// Written many times, read many times.
    Dynamic,
}

/// Who writes and who reads.
#[derive(Clone, Copy, Debug, PartialEq, Eq, Structural)]
pub enum Access {
    /// The host writes, the driver reads.
    Draw,
    /// The driver writes, the host reads.
    Read,
    /// The driver writes, the driver reads.
    Copy,
}

impl Frequency {
    /// The place of the frequency among the three.
    pub open spec fn index(&self) -> int {
        match self {
            Frequency::Stream => 0,
            Frequency::Static => 1,
            Frequency::Dynamic => 2,
        }
    }
}

impl Access {
    /// The place of the access among the three.
    pub open spec fn index(&self) -> int {
        match self {
            Access::Draw => 0,
            Access::Read => 1,
            Access::Copy => 2,
        }
    }
}

/// The constant of a usage. The registry lays the nine out in a grid: four
/// apart by frequency, and consecutive by access.
pub open spec fn hint(frequency: Frequency, access: Access) -> GLenum {
    (gl::STREAM_DRAW + 4 * frequency.index() + access.index()) as GLenum
}

/// The constant that stands for a frequency and an access together.
#[must_use]
pub fn as_gl(frequency: Frequency, access: Access) -> (raw: GLenum)
    ensures
        raw == hint(frequency, access),
{
    match (frequency, access) {
        (Frequency::Stream, Access::Draw) => gl::STREAM_DRAW,
        (Frequency::Stream, Access::Read) => gl::STREAM_READ,
        (Frequency::Stream, Access::Copy) => gl::STREAM_COPY,
        (Frequency::Static, Access::Draw) => gl::STATIC_DRAW,
        (Frequency::Static, Access::Read) => gl::STATIC_READ,
        (Frequency::Static, Access::Copy) => gl::STATIC_COPY,
        (Frequency::Dynamic, Access::Draw) => gl::DYNAMIC_DRAW,
        (Frequency::Dynamic, Access::Read) => gl::DYNAMIC_READ,
        (Frequency::Dynamic, Access::Copy) => gl::DYNAMIC_COPY,
    }
}

/// Whether `raw` is the constant of some usage.
pub open spec fn is_hint(raw: GLenum) -> bool {
    exists|frequency: Frequency, access: Access| hint(frequency, access) == raw
}

/// The frequency and access that a constant stands for; `None` if and only if
/// it stands for none.
#[must_use]
pub fn from_gl(raw: GLenum) -> (usage: Option<(Frequency, Access)>)
    ensures
        usage is Some <==> is_hint(raw),
        usage matches Some((frequency, access)) ==> hint(frequency, access) == raw,
{
    let usage = match raw {
        gl::STATIC_COPY => Some((Frequency::Static, Access::Copy)),
        gl::STATIC_DRAW => Some((Frequency::Static, Access::Draw)),
        gl::STATIC_READ => Some((Frequency::Static, Access::Read)),
        gl::STREAM_COPY => Some((Frequency::Stream, Access::Copy)),
        gl::STREAM_DRAW => Some((Frequency::Stream, Access::Draw)),
        gl::STREAM_READ => Some((Frequency::Stream, Access::Read)),
        gl::DYNAMIC_COPY => Some((Frequency::Dynamic, Access::Copy)),
        gl::DYNAMIC_DRAW => Some((Frequency::Dynamic, Access::Draw)),
        gl::DYNAMIC_READ => Some((Frequency::Dynamic, Access::Read)),
        _ => None,
    };
    proof {
        if let Some((frequency, access)) = usage {
            assert(hint(frequency, access) == raw);
        }
    }
    usage
}

/// A usage is read back from its constant as it was.
pub proof fn lemma_hint_injective(f1: Frequency, a1: Access, f2: Frequency, a2: Access)
    ensures
        hint(f1, a1) == hint(f2, a2) <==> f1 == f2 && a1 == a2,
{
}

} // verus!
