//! What a pin is used for, as type parameters of [`Pin`](crate::pins::Pin).

use crate::swm::{FunctionKind, Kind};
use core::marker::PhantomData;
use vstd::prelude::*;

verus! {

/// Marks a pin that nothing uses.
#[derive(Debug)]
pub struct Unused;

/// Marks a pin that is handed to the switch matrix and that no function is
/// routed to.
#[derive(Debug)]
pub struct Unassigned;

/// Marks a pin that the function `F` is routed to.
#[derive(Debug)]
pub struct Assigned<F>(pub(crate) PhantomData<F>);

/// The use that a tag stands for.
pub trait PinState {
    /// The function that is routed to a pin with this tag, if any.
    spec fn function() -> Option<Kind>;

    /// The function that is routed to a pin with this tag, if any.
    fn assigned_function() -> (function: Option<Kind>)
        ensures
            function == Self::function(),
    ;
}

impl PinState for Unused {
    open spec fn function() -> Option<Kind> {
        None
    }

    fn assigned_function() -> (function: Option<Kind>) {
        None
    }
}

impl PinState for Unassigned {
    open spec fn function() -> Option<Kind> {
        None
    }

    fn assigned_function() -> (function: Option<Kind>) {
        None
    }
}

impl<F: FunctionKind> PinState for Assigned<F> {
    open spec fn function() -> Option<Kind> {
        Some(F::kind())
    }

    fn assigned_function() -> (function: Option<Kind>) {
        Some(F::function_kind())
    }
}

} // verus!
