//! The pins of the chip.
//!
//! Each pin is a type, and the one [`Pin`] of that type is the right to use
//! the pad. Its second type parameter says what the pad is used for.

use crate::pins::state::{Assigned, PinState, Unassigned, Unused};
use crate::pac::swm0::Routing;
use crate::swm::{
    free_pin, pin_of, reset_routing, FunctionKind, Kind, RESETN, SWCLK, SWDIO,
};
use core::marker::PhantomData;
use vstd::prelude::*;

pub mod state;

verus! {

/// Number of pins of port 0.
pub const PINS: u8 = 32;

/// The identity of a pin.
pub trait Trait {
    /// The number by which the switch matrix knows the pin.
    spec fn id() -> u8;

    /// The number by which the switch matrix knows the pin.
    fn pin_id() -> (id: u8)
        ensures
            id == Self::id(),
    ;
}

/// Pin `N` of port 0.
#[derive(Debug)]
pub struct PIO0<const N: u8>;

impl<const N: u8> Trait for PIO0<N> {
    open spec fn id() -> u8 {
        N
    }

    fn pin_id() -> (id: u8) {
        N
    }
}

pub type PIO0_0 = PIO0<0>;

pub type PIO0_1 = PIO0<1>;

pub type PIO0_2 = PIO0<2>;

pub type PIO0_3 = PIO0<3>;

pub type PIO0_4 = PIO0<4>;

pub type PIO0_5 = PIO0<5>;

pub type PIO0_6 = PIO0<6>;

pub type PIO0_7 = PIO0<7>;

pub type PIO0_8 = PIO0<8>;

pub type PIO0_9 = PIO0<9>;

pub type PIO0_10 = PIO0<10>;

pub type PIO0_11 = PIO0<11>;

pub type PIO0_12 = PIO0<12>;

pub type PIO0_13 = PIO0<13>;

pub type PIO0_14 = PIO0<14>;

pub type PIO0_15 = PIO0<15>;

pub type PIO0_16 = PIO0<16>;

pub type PIO0_17 = PIO0<17>;

pub type PIO0_18 = PIO0<18>;

pub type PIO0_19 = PIO0<19>;

pub type PIO0_20 = PIO0<20>;

pub type PIO0_21 = PIO0<21>;

pub type PIO0_22 = PIO0<22>;

pub type PIO0_23 = PIO0<23>;

pub type PIO0_24 = PIO0<24>;

pub type PIO0_25 = PIO0<25>;

pub type PIO0_26 = PIO0<26>;

pub type PIO0_27 = PIO0<27>;

pub type PIO0_28 = PIO0<28>;

pub type PIO0_29 = PIO0<29>;

pub type PIO0_30 = PIO0<30>;

pub type PIO0_31 = PIO0<31>;

/// The right to use the pin `T`, which is in the state `S`.
#[derive(Debug)]
pub struct Pin<T: Trait, S: PinState> {
    ty: T,
    _state: S,
}

impl<T: Trait, S: PinState> Pin<T, S> {
    #[verifier::type_invariant]
    spec fn inv(self) -> bool {
        T::id() < PINS
    }

    /// The pin in another state. The transitions of this crate are built on
    /// this.
    pub(crate) fn into_state<S2: PinState>(self, state: S2) -> (pin: Pin<T, S2>)
        ensures
            pin.token() == self.token(),
            pin.state() == state,
    {
        proof {
            use_type_invariant(&self);
        }
        Pin { ty: self.ty, _state: state }
    }

    /// The number by which the switch matrix knows the pin.
    pub fn id(&self) -> (id: u8)
        ensures
            id == T::id(),
            id < PINS,
    {
        proof {
            use_type_invariant(self);
        }
        T::pin_id()
    }

    /// The function that the pin's tag names as routed to it, if any.
    pub open spec fn assigned_function(&self) -> Option<Kind> {
        S::function()
    }

    /// The function that is routed to the pin, if any.
    pub fn function(&self) -> (function: Option<Kind>)
        ensures
            function == self.assigned_function(),
    {
        S::assigned_function()
    }

    /// Whether a function is routed to the pin.
    pub fn is_assigned(&self) -> (assigned: bool)
        ensures
            assigned == self.assigned_function().is_some(),
    {
        S::assigned_function().is_some()
    }

    /// Whether the pin's tag says of the pin what the routing says: the
    /// function that the tag names is routed to the pin, and where the tag
    /// names none, none is.
    pub open spec fn agrees(&self, routing: Routing) -> bool {
        match S::function() {
            Some(kind) => pin_of(routing, kind) == Some(T::id()),
            None => free_pin(routing, T::id()),
        }
    }
}

impl<T: Trait> Pin<T, Unused> {
    /// The pin as it is after a reset where no fixed function is switched on
    /// for it.
    pub(crate) fn new(ty: T) -> (pin: Self)
        requires
            T::id() < PINS,
        ensures
            pin.token() == ty,
    {
        Pin { ty, _state: Unused }
    }

    /// Hands the pin to the switch matrix.
    pub fn into_swm_pin(self) -> (pin: Pin<T, Unassigned>)
        ensures
            pin.token() == self.token(),
            pin.assigned_function() is None,
    {
        self.into_state(Unassigned)
    }
}

impl<T: Trait> Pin<T, Unassigned> {
    /// Takes the pin back from the switch matrix.
    pub fn into_unused_pin(self) -> (pin: Pin<T, Unused>)
        ensures
            pin.token() == self.token(),
            pin.assigned_function() is None,
    {
        self.into_state(Unused)
    }
}

impl<T: Trait, F: FunctionKind> Pin<T, Assigned<F>> {
    /// The pin as it is after a reset where the fixed function `F` is
    /// switched on for it.
    pub(crate) fn assigned(ty: T) -> (pin: Self)
        requires
            T::id() < PINS,
        ensures
            pin.token() == ty,
    {
        Pin { ty, _state: Assigned(PhantomData) }
    }
}

impl<T: Trait, S: PinState> Pin<T, S> {
    /// The token of the pin that this is the right to use.
    pub closed spec fn token(&self) -> T {
        self.ty
    }

    /// The tag that says what the pin is used for.
    pub closed spec fn state(&self) -> S {
        self._state
    }
}

/// All pins of port 0, as they are after a reset: the pins of the debug
/// port and of the reset input have their fixed function switched on, the
/// others are unused.
#[derive(Debug)]
pub struct Pins {
    pub pio0_0: Pin<PIO0_0, Unused>,
    pub pio0_1: Pin<PIO0_1, Unused>,
    pub pio0_2: Pin<PIO0_2, Assigned<SWDIO>>,
    pub pio0_3: Pin<PIO0_3, Assigned<SWCLK>>,
    pub pio0_4: Pin<PIO0_4, Unused>,
    pub pio0_5: Pin<PIO0_5, Assigned<RESETN>>,
    pub pio0_6: Pin<PIO0_6, Unused>,
    pub pio0_7: Pin<PIO0_7, Unused>,
    pub pio0_8: Pin<PIO0_8, Unused>,
    pub pio0_9: Pin<PIO0_9, Unused>,
    pub pio0_10: Pin<PIO0_10, Unused>,
    pub pio0_11: Pin<PIO0_11, Unused>,
    pub pio0_12: Pin<PIO0_12, Unused>,
    pub pio0_13: Pin<PIO0_13, Unused>,
    pub pio0_14: Pin<PIO0_14, Unused>,
    pub pio0_15: Pin<PIO0_15, Unused>,
    pub pio0_16: Pin<PIO0_16, Unused>,
    pub pio0_17: Pin<PIO0_17, Unused>,
    pub pio0_18: Pin<PIO0_18, Unused>,
    pub pio0_19: Pin<PIO0_19, Unused>,
    pub pio0_20: Pin<PIO0_20, Unused>,
    pub pio0_21: Pin<PIO0_21, Unused>,
    pub pio0_22: Pin<PIO0_22, Unused>,
    pub pio0_23: Pin<PIO0_23, Unused>,
    pub pio0_24: Pin<PIO0_24, Unused>,
    pub pio0_25: Pin<PIO0_25, Unused>,
    pub pio0_26: Pin<PIO0_26, Unused>,
    pub pio0_27: Pin<PIO0_27, Unused>,
    pub pio0_28: Pin<PIO0_28, Unused>,
    pub pio0_29: Pin<PIO0_29, Unused>,
    pub pio0_30: Pin<PIO0_30, Unused>,
    pub pio0_31: Pin<PIO0_31, Unused>,
}

impl Pins {
    /// Whether every pin's tag says of the pin what the routing says.
    pub open spec fn agree(&self, routing: Routing) -> bool {
        &&& self.pio0_0.agrees(routing)
        &&& self.pio0_1.agrees(routing)
        &&& self.pio0_2.agrees(routing)
        &&& self.pio0_3.agrees(routing)
        &&& self.pio0_4.agrees(routing)
        &&& self.pio0_5.agrees(routing)
        &&& self.pio0_6.agrees(routing)
        &&& self.pio0_7.agrees(routing)
        &&& self.pio0_8.agrees(routing)
        &&& self.pio0_9.agrees(routing)
        &&& self.pio0_10.agrees(routing)
        &&& self.pio0_11.agrees(routing)
        &&& self.pio0_12.agrees(routing)
        &&& self.pio0_13.agrees(routing)
        &&& self.pio0_14.agrees(routing)
        &&& self.pio0_15.agrees(routing)
        &&& self.pio0_16.agrees(routing)
        &&& self.pio0_17.agrees(routing)
        &&& self.pio0_18.agrees(routing)
        &&& self.pio0_19.agrees(routing)
        &&& self.pio0_20.agrees(routing)
        &&& self.pio0_21.agrees(routing)
        &&& self.pio0_22.agrees(routing)
        &&& self.pio0_23.agrees(routing)
        &&& self.pio0_24.agrees(routing)
        &&& self.pio0_25.agrees(routing)
        &&& self.pio0_26.agrees(routing)
        &&& self.pio0_27.agrees(routing)
        &&& self.pio0_28.agrees(routing)
        &&& self.pio0_29.agrees(routing)
        &&& self.pio0_30.agrees(routing)
        &&& self.pio0_31.agrees(routing)
    }

    /// The pins as they are after a reset of the chip.
    pub(crate) fn new() -> (pins: Pins)
        ensures
            pins.agree(reset_routing()),
    {
        Pins {
            pio0_0: Pin::new(PIO0),
            pio0_1: Pin::new(PIO0),
            pio0_2: Pin::assigned(PIO0),
            pio0_3: Pin::assigned(PIO0),
            pio0_4: Pin::new(PIO0),
            pio0_5: Pin::assigned(PIO0),
            pio0_6: Pin::new(PIO0),
            pio0_7: Pin::new(PIO0),
            pio0_8: Pin::new(PIO0),
            pio0_9: Pin::new(PIO0),
            pio0_10: Pin::new(PIO0),
            pio0_11: Pin::new(PIO0),
            pio0_12: Pin::new(PIO0),
            pio0_13: Pin::new(PIO0),
            pio0_14: Pin::new(PIO0),
            pio0_15: Pin::new(PIO0),
            pio0_16: Pin::new(PIO0),
            pio0_17: Pin::new(PIO0),
            pio0_18: Pin::new(PIO0),
            pio0_19: Pin::new(PIO0),
            pio0_20: Pin::new(PIO0),
            pio0_21: Pin::new(PIO0),
            pio0_22: Pin::new(PIO0),
            pio0_23: Pin::new(PIO0),
            pio0_24: Pin::new(PIO0),
            pio0_25: Pin::new(PIO0),
            pio0_26: Pin::new(PIO0),
            pio0_27: Pin::new(PIO0),
            pio0_28: Pin::new(PIO0),
            pio0_29: Pin::new(PIO0),
            pio0_30: Pin::new(PIO0),
            pio0_31: Pin::new(PIO0),
        }
    }
}

} // verus!
