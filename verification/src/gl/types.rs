//! The scalar types of the raw interface.
use vstd::prelude::*;

verus! {

pub type GLenum = u32;

pub type GLuint = u32;

pub type GLint = i32;

pub type GLsizei = i32;

pub type GLbitfield = u32;

pub type GLboolean = u8;

pub type GLintptr = isize;

pub type GLsizeiptr = isize;

pub type GLint64 = i64;

} // verus!
