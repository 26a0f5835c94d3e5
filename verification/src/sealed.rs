//! Keeps the marker traits of this crate closed to other crates, and with
//! them the one way to make a typed handle out of a bare name.
use vstd::prelude::*;

use crate::NonZeroName;

verus! {

pub trait Sealed {

}

/// A handle that is made of a name and nothing else.
pub trait Named: Sized {
    /// The name that the handle holds.
    spec fn named(&self) -> u32;

    /// The handle for `name`. The caller answers for the type's claim about
    /// the object behind the name.
    fn adopt(name: NonZeroName) -> (handle: Self)
        ensures
            handle.named() == name@,
    ;
}

} // verus!
