//! Lifecycle phases of a peripheral, used as type parameters of its handle.

use vstd::prelude::*;

verus! {

/// Marks a peripheral whose clock is gated off.
#[derive(Debug)]
pub struct Disabled;

/// Marks a peripheral that has been enabled.
///
/// The payload is what the peripheral needs to stay enabled; most need
/// nothing.
#[derive(Debug)]
pub struct Enabled<T = ()>(pub T);

/// The phase that a tag stands for.
pub trait InitState {
    /// Whether a handle that carries this tag may touch the data registers.
    spec fn is_enabled() -> bool;
}

impl InitState for Disabled {
    open spec fn is_enabled() -> bool {
        false
    }
}

impl<T> InitState for Enabled<T> {
    open spec fn is_enabled() -> bool {
        true
    }
}

} // verus!
