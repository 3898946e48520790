//! What keeps [`Cloneable`](crate::handler::Cloneable) from being implemented elsewhere.

use crate::handler::ErrorHandler;
use vstd::prelude::*;

verus! {

/// Implemented by the error handlers that can be cloned, and by nothing else.
pub trait Sealed {

}

impl<T: ErrorHandler + Clone> Sealed for T {

}

} // verus!
