//! What is known of a binding when the program is checked.
use vstd::prelude::*;

use crate::sealed::Sealed;

verus! {

/// The three things that can be known of a binding: that it is the default
/// object ([`IsDefault`]), that it is not ([`NotDefault`]), or neither
/// ([`Unknown`]).
///
/// What can be done with the default object, whose name is zero, and with an
/// object of the application's differs widely. For buffers the default object
/// is no object at all; for textures it is an object that the driver owns.
///
/// A binding is [`Unknown`] only where it was inherited from calls made
/// earlier; what can be done with it is what can be done in both other cases.
pub trait Defaultness: Sealed + 'static {

}

/// It is not known whether the default object or another is bound.
#[derive(Clone, Copy, Debug)]
pub struct Unknown;

impl Sealed for Unknown {

}

impl Defaultness for Unknown {

}

/// The default object, zero, is bound.
#[derive(Clone, Copy, Debug)]
pub struct IsDefault;

impl Sealed for IsDefault {

}

impl Defaultness for IsDefault {

}

/// An object of the application's, not zero, is bound.
#[derive(Clone, Copy, Debug)]
pub struct NotDefault;

impl Sealed for NotDefault {

}

impl Defaultness for NotDefault {

}

} // verus!
