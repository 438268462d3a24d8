//! Whether a function is routed to a pin, as type parameters of
//! [`Function`](crate::swm::Function).

use crate::pins::Trait;
use core::marker::PhantomData;
use vstd::prelude::*;

verus! {

/// Marks a function that is routed to no pin.
#[derive(Debug)]
pub struct Unassigned;

/// Marks a function that is routed to the pin `P`.
#[derive(Debug)]
pub struct Assigned<P>(pub(crate) PhantomData<P>);

/// The routing that a tag stands for.
pub trait FunctionState {
    /// The number of the pin that a function with this tag is routed to, if
    /// any.
    spec fn pin() -> Option<u8>;

    /// The number of the pin that a function with this tag is routed to, if
    /// any.
    fn assigned_pin() -> (pin: Option<u8>)
        ensures
            pin == Self::pin(),
    ;
}

impl FunctionState for Unassigned {
    open spec fn pin() -> Option<u8> {
        None
    }

    fn assigned_pin() -> (pin: Option<u8>) {
        None
    }
}

impl<P: Trait> FunctionState for Assigned<P> {
    open spec fn pin() -> Option<u8> {
        Some(P::id())
    }

    fn assigned_pin() -> (pin: Option<u8>) {
        Some(P::pin_id())
    }
}

} // verus!
