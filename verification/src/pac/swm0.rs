//! Registers of the switch matrix.

use vstd::prelude::*;

verus! {

/// Number of movable functions.
pub const MOVABLE: usize = 60;

/// Number of fixed functions.
pub const FIXED: usize = 32;

/// The pin number that stands for no pin.
pub const NO_PIN: u8 = 0xff;

/// All registers of the switch matrix.
#[derive(Clone, Copy, Debug, PartialEq, Eq)]
pub struct RegisterBlock {
    /// For each movable function, the number of the pin that it is routed
    /// to, or [`NO_PIN`].
    pub pinassign: [u8; MOVABLE],
    /// For each fixed function, whether it is switched on.
    pub pinenable0: [bool; FIXED],
}

/// What the registers of the switch matrix hold.
#[verifier::ext_equal]
pub struct Routing {
    /// For each movable function, the number of the pin that it is routed
    /// to, or [`NO_PIN`].
    pub movable: Seq<u8>,
    /// For each fixed function, whether it is switched on.
    pub fixed: Seq<bool>,
}

impl View for RegisterBlock {
    type V = Routing;

    open spec fn view(&self) -> Routing {
        Routing { movable: self.pinassign@, fixed: self.pinenable0@ }
    }
}

impl RegisterBlock {
    /// The register contents after a reset: no movable function is routed,
    /// and the fixed functions named in `enabled` are switched on.
    pub fn reset(enabled: [bool; FIXED]) -> (regs: RegisterBlock)
        ensures
            regs@.movable == Seq::new(MOVABLE as nat, |i: int| NO_PIN),
            regs@.fixed == enabled@,
    {
        let regs = RegisterBlock { pinassign: [NO_PIN; MOVABLE], pinenable0: enabled };
        assert(regs@.movable =~= Seq::new(MOVABLE as nat, |i: int| NO_PIN));
        regs
    }
}

} // verus!
