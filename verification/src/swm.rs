//! The switch matrix, which routes the functions of the peripherals to pins.
//!
//! A movable function can be routed to any pin; a fixed function belongs to
//! one pin and can only be switched on or off. [`Function::assign`] and
//! [`Function::unassign`] are the only operations that change a routing, and
//! each takes the function and the pin together.

use crate::init_state::{Disabled, Enabled, InitState};
use crate::pac::swm0::{RegisterBlock, Routing, FIXED, MOVABLE, NO_PIN};
use crate::pac::{Clocked, Peripheral, SWM0};
use crate::pins::{Pin, Trait, PIO0};
use crate::swm::routing::{
    lemma_assign_keeps_exclusive, lemma_assign_links, lemma_unassign_frees,
};
use crate::swm::state::{Assigned, FunctionState, Unassigned};
use crate::syscon;
use crate::syscon::ClockControl;
use core::marker::PhantomData;
use vstd::prelude::*;

pub mod routing;
pub mod state;

pub use self::routing::{
    exclusive, fixed_pin, free_pin, pin_of, released, reset_routing, routed, wired_pin, Kind,
};

verus! {

/// The identity of a function.
pub trait FunctionKind {
    /// The function's entry in the switch matrix.
    spec fn kind() -> Kind;

    /// The function's entry in the switch matrix.
    fn function_kind() -> (kind: Kind)
        ensures
            kind == Self::kind(),
    ;
}

/// A function that can be assigned to the pin `P`.
///
/// A movable function can be assigned to every pin, a fixed function only to
/// its own.
pub trait FunctionTrait<P: Trait>: FunctionKind {
    /// A fixed function is assigned to no other pin than its own.
    proof fn lemma_fits()
        ensures
            Self::kind() matches Kind::Fixed { bit, pin } ==> pin == P::id(),
    ;
}

/// The movable function with the routing entry `SLOT`.
#[derive(Debug)]
pub struct Movable<const SLOT: u8>;

/// The fixed function with the enable bit `BIT`, which belongs to pin `PIN`.
#[derive(Debug)]
pub struct Fixed<const BIT: u8, const PIN: u8>;

impl<const SLOT: u8> FunctionKind for Movable<SLOT> {
    open spec fn kind() -> Kind {
        Kind::Movable { slot: SLOT }
    }

    fn function_kind() -> (kind: Kind) {
        Kind::Movable { slot: SLOT }
    }
}

impl<const BIT: u8, const PIN: u8> FunctionKind for Fixed<BIT, PIN> {
    open spec fn kind() -> Kind {
        Kind::Fixed { bit: BIT, pin: PIN }
    }

    fn function_kind() -> (kind: Kind) {
        Kind::Fixed { bit: BIT, pin: PIN }
    }
}

impl<const SLOT: u8, P: Trait> FunctionTrait<P> for Movable<SLOT> {
    proof fn lemma_fits() {
    }
}

impl<const BIT: u8, const PIN: u8> FunctionTrait<PIO0<PIN>> for Fixed<BIT, PIN> {
    proof fn lemma_fits() {
    }
}

/// Transmit line of the first USART.
pub type U0_TXD = Movable<0>;

/// Receive line of the first USART.
pub type U0_RXD = Movable<1>;

/// Clock line of the first SPI block.
pub type SPI0_SCK = Movable<15>;

/// Data line out of the first SPI block.
pub type SPI0_MOSI = Movable<16>;

/// Data line into the first SPI block.
pub type SPI0_MISO = Movable<17>;

/// Clock line of the second SPI block.
pub type SPI1_SCK = Movable<22>;

/// Data line out of the second SPI block.
pub type SPI1_MOSI = Movable<23>;

/// Data line into the second SPI block.
pub type SPI1_MISO = Movable<24>;

/// Clock line of the debug port, on pin 3.
pub type SWCLK = Fixed<5, 3>;

/// Data line of the debug port, on pin 2.
pub type SWDIO = Fixed<6, 2>;

/// Reset input, on pin 5.
pub type RESETN = Fixed<9, 5>;

/// First input of the converter, on pin 7.
pub type ADC_0 = Fixed<14, 7>;

/// The function `T`, which is in the state `S`.
///
/// There is one such value for each function, so whoever holds it decides
/// where the function is routed.
#[derive(Debug)]
pub struct Function<T: FunctionKind, S: FunctionState> {
    ty: T,
    _state: S,
}

impl<T: FunctionKind, S: FunctionState> Function<T, S> {
    #[verifier::type_invariant]
    spec fn inv(self) -> bool {
        T::kind().wf()
    }

    /// The function's entry in the switch matrix.
    pub fn kind(&self) -> (kind: Kind)
        ensures
            kind == T::kind(),
            kind.wf(),
    {
        proof {
            use_type_invariant(self);
        }
        T::function_kind()
    }

    /// The number of the pin that the function's tag names as the one it is
    /// routed to, if any.
    pub open spec fn assigned_pin(&self) -> Option<u8> {
        S::pin()
    }

    /// The number of the pin that the function is routed to, if any.
    pub fn pin(&self) -> (pin: Option<u8>)
        ensures
            pin == self.assigned_pin(),
    {
        S::assigned_pin()
    }

    /// Whether the function is routed to a pin.
    pub fn is_assigned(&self) -> (assigned: bool)
        ensures
            assigned == self.assigned_pin().is_some(),
    {
        S::assigned_pin().is_some()
    }

    /// Whether the function's tag says of the function what the routing
    /// says.
    pub open spec fn agrees(&self, routing: Routing) -> bool {
        pin_of(routing, T::kind()) == S::pin()
    }
}

impl<T: FunctionKind> Function<T, Unassigned> {
    /// The function as it is after a reset that leaves it routed to no pin.
    pub(crate) fn new(ty: T) -> (function: Self)
        requires
            T::kind().wf(),
        ensures
            function.token() == ty,
    {
        Function { ty, _state: Unassigned }
    }

    /// Assigns the function to a pin.
    ///
    /// Takes the function and the pin, both unassigned, and returns both as
    /// assigned to each other. A movable function is entered in the routing
    /// with the pin's number; a fixed function is switched on.
    ///
    /// The function and the pin are those of the chip that the switch matrix
    /// belongs to: the routing has the function on no pin and no function on
    /// the pin, as their tags say.
    pub fn assign<P: Trait>(
        self,
        pin: Pin<P, crate::pins::state::Unassigned>,
        swm: &mut Handle,
    ) -> (assigned: (Function<T, Assigned<P>>, Pin<P, crate::pins::state::Assigned<T>>)) where
        T: FunctionTrait<P>,

        requires
            old(swm).wf(),
            self.agrees(old(swm)@),
            pin.agrees(old(swm)@),
        ensures
            final(swm).wf(),
            final(swm)@.wf(),
            final(swm)@ == routed(old(swm)@, T::kind(), P::id()),
            assigned.0.token() == self.token(),
            assigned.1.token() == pin.token(),
            assigned.0.assigned_pin() == Some(P::id()),
            assigned.1.assigned_function() == Some(T::kind()),
            assigned.0.agrees(final(swm)@),
            assigned.1.agrees(final(swm)@),
            !free_pin(final(swm)@, P::id()),
            exclusive(old(swm)@) ==> exclusive(final(swm)@),
    {
        let kind = self.kind();
        let id: u8 = pin.id();
        proof {
            swm.lemma_wf();
            T::lemma_fits();
            lemma_assign_links(swm@, kind, id);
            if exclusive(swm@) {
                lemma_assign_keeps_exclusive(swm@, kind, id);
            }
        }
        swm.route(kind, id);
        (
            Function { ty: self.ty, _state: Assigned(PhantomData) },
            pin.into_state(crate::pins::state::Assigned(PhantomData)),
        )
    }
}

impl<T: FunctionKind, P: Trait> Function<T, Assigned<P>> {
    /// The function as it is after a reset that leaves it switched on.
    pub(crate) fn assigned(ty: T) -> (function: Self)
        requires
            T::kind().wf(),
        ensures
            function.token() == ty,
    {
        Function { ty, _state: Assigned(PhantomData) }
    }

    /// Unassigns the function from its pin.
    ///
    /// Takes the function and the pin that it is assigned to, and returns
    /// both as unassigned. A movable function is taken out of the routing; a
    /// fixed function is switched off.
    ///
    /// The function and the pin are those of the chip that the switch matrix
    /// belongs to: the routing has the function on the pin, as their tags
    /// say.
    pub fn unassign(
        self,
        pin: Pin<P, crate::pins::state::Assigned<T>>,
        swm: &mut Handle,
    ) -> (unassigned: (Function<T, Unassigned>, Pin<P, crate::pins::state::Unassigned>))
        requires
            old(swm).wf(),
            self.agrees(old(swm)@),
            pin.agrees(old(swm)@),
        ensures
            final(swm).wf(),
            final(swm)@.wf(),
            final(swm)@ == released(old(swm)@, T::kind()),
            unassigned.0.token() == self.token(),
            unassigned.1.token() == pin.token(),
            unassigned.0.assigned_pin() is None,
            unassigned.1.assigned_function() is None,
            unassigned.0.agrees(final(swm)@),
            exclusive(old(swm)@) ==> exclusive(final(swm)@) && unassigned.1.agrees(
                final(swm)@,
            ),
    {
        let kind = self.kind();
        proof {
            swm.lemma_wf();
            if exclusive(swm@) {
                lemma_unassign_frees(swm@, kind, P::id());
            }
        }
        swm.release(kind);
        (
            Function { ty: self.ty, _state: Unassigned },
            pin.into_state(crate::pins::state::Unassigned),
        )
    }
}

impl<T: FunctionKind, S: FunctionState> Function<T, S> {
    /// The token of the function that this is the right to route.
    pub closed spec fn token(&self) -> T {
        self.ty
    }
}

/// What `assign` takes reports itself unassigned. What it returns reports
/// itself assigned, so neither the function nor the pin that came out of an
/// assignment is taken by another one.
pub proof fn lemma_assign_takes_unassigned<T: FunctionKind, P: Trait>(
    function: Function<T, Unassigned>,
    pin: Pin<P, crate::pins::state::Unassigned>,
)
    ensures
        function.assigned_pin() is None,
        pin.assigned_function() is None,
{
}

/// The handle to the switch matrix.
///
/// Functions are assigned and unassigned through an enabled handle only.
#[derive(Debug)]
pub struct Handle<State = Enabled> {
    swm: SWM0,
    _state: State,
}

impl<State> View for Handle<State> {
    type V = Routing;

    closed spec fn view(&self) -> Routing {
        self.swm.regs()@
    }
}

impl<State: InitState> Handle<State> {
    /// Whether the handle's tag fits the hardware: the clock of an enabled
    /// switch matrix runs.
    pub closed spec fn wf(&self) -> bool {
        State::is_enabled() ==> self.swm.clocked()
    }
}

impl<State> Handle<State> {
    /// Every routing of a handle has the shape of the registers.
    pub proof fn lemma_wf(&self)
        ensures
            self@.wf(),
    {
    }

    /// What the registers of the switch matrix hold.
    pub fn registers(&self) -> (regs: RegisterBlock)
        ensures
            regs@ == self@,
    {
        *self.swm.registers()
    }

    /// The pin that the function `kind` is routed to, if the switch matrix
    /// has such a function and it is routed to one.
    pub fn assigned_pin(&self, kind: Kind) -> (pin: Option<u8>)
        ensures
            pin == if kind.wf() {
                pin_of(self@, kind)
            } else {
                None
            },
    {
        if !kind.is_valid() {
            return None;
        }
        let regs = self.swm.registers();
        match kind {
            Kind::Movable { slot } => {
                let pin: u8 = regs.pinassign[slot as usize];
                if pin == NO_PIN {
                    None
                } else {
                    Some(pin)
                }
            },
            Kind::Fixed { bit, pin } => {
                if regs.pinenable0[bit as usize] {
                    Some(pin)
                } else {
                    None
                }
            },
        }
    }

    /// Whether no function is routed to the pin with the given number.
    pub fn is_pin_free(&self, pin: u8) -> (free: bool)
        ensures
            free == free_pin(self@, pin),
    {
        let regs = self.swm.registers();
        let mut slot: usize = 0;
        while slot < MOVABLE
            invariant
                slot <= MOVABLE,
                regs@ == self@,
                forall|i: int| 0 <= i < slot ==> regs@.movable[i] != pin,
            decreases MOVABLE - slot,
        {
            if regs.pinassign[slot] == pin {
                assert(self@.movable[slot as int] == pin);
                return false;
            }
            slot += 1;
        }
        let mut bit: usize = 0;
        while bit < FIXED
            invariant
                bit <= FIXED,
                regs@ == self@,
                forall|i: int| 0 <= i < MOVABLE ==> regs@.movable[i] != pin,
                forall|i: int| 0 <= i < bit && regs@.fixed[i] ==> fixed_pin(i) != Some(pin),
            decreases FIXED - bit,
        {
            if regs.pinenable0[bit] {
                match wired_pin(bit) {
                    Some(own) => {
                        if own == pin {
                            assert(self@.fixed[bit as int]);
                            assert(fixed_pin(bit as int) == Some(pin));
                            return false;
                        }
                    },
                    None => {},
                }
            }
            bit += 1;
        }
        true
    }
}

impl Handle<Disabled> {
    /// The handle as it is after a reset of the chip.
    pub(crate) fn new(swm: SWM0) -> (handle: Self)
        ensures
            handle@ == swm.regs()@,
    {
        Handle { swm, _state: Disabled }
    }

    /// Enables the switch matrix: opens its clock gate.
    pub fn enable(self, syscon: &mut syscon::Handle) -> (handle: Handle<Enabled>)
        ensures
            handle.wf(),
            handle@.wf(),
            handle@ == self@,
            final(syscon)@ == old(syscon)@.with_clock(SWM0::clock_bit(), true),
    {
        let mut swm = self.swm;
        syscon.enable_clock(&mut swm);
        Handle { swm, _state: Enabled(()) }
    }
}

impl Handle<Enabled> {
    /// Disables the switch matrix: closes its clock gate. The routing stays
    /// as it is.
    pub fn disable(self, syscon: &mut syscon::Handle) -> (handle: Handle<Disabled>)
        ensures
            handle@ == self@,
            final(syscon)@ == old(syscon)@.with_clock(SWM0::clock_bit(), false),
    {
        let mut swm = self.swm;
        syscon.disable_clock(&mut swm);
        Handle { swm, _state: Disabled }
    }

    /// Whether the handle's tag fits the hardware.
    pub fn is_live(&self) -> (live: bool)
        ensures
            live == self.wf(),
    {
        self.swm.is_clocked()
    }

    /// Routes the function `kind` to `pin`.
    fn route(&mut self, kind: Kind, pin: u8)
        requires
            old(self).wf(),
            kind.wf(),
        ensures
            final(self).wf(),
            final(self)@ == routed(old(self)@, kind, pin),
    {
        let mut regs = *self.swm.registers();
        match kind {
            Kind::Movable { slot } => {
                regs.pinassign[slot as usize] = pin;
            },
            Kind::Fixed { bit, pin: _ } => {
                regs.pinenable0[bit as usize] = true;
            },
        }
        self.swm.write(regs);
    }

    /// Takes the function `kind` off its pin.
    fn release(&mut self, kind: Kind)
        requires
            old(self).wf(),
            kind.wf(),
        ensures
            final(self).wf(),
            final(self)@ == released(old(self)@, kind),
    {
        let mut regs = *self.swm.registers();
        match kind {
            Kind::Movable { slot } => {
                regs.pinassign[slot as usize] = NO_PIN;
            },
            Kind::Fixed { bit, pin: _ } => {
                regs.pinenable0[bit as usize] = false;
            },
        }
        self.swm.write(regs);
    }
}

/// The functions that can be routed to any pin, as they are after a reset:
/// unassigned.
#[derive(Debug)]
pub struct MovableFunctions {
    pub u0_txd: Function<U0_TXD, Unassigned>,
    pub u0_rxd: Function<U0_RXD, Unassigned>,
    pub spi0_sck: Function<SPI0_SCK, Unassigned>,
    pub spi0_mosi: Function<SPI0_MOSI, Unassigned>,
    pub spi0_miso: Function<SPI0_MISO, Unassigned>,
    pub spi1_sck: Function<SPI1_SCK, Unassigned>,
    pub spi1_mosi: Function<SPI1_MOSI, Unassigned>,
    pub spi1_miso: Function<SPI1_MISO, Unassigned>,
}

/// The functions that belong to one pin, as they are after a reset: the
/// debug port and the reset input are switched on.
#[derive(Debug)]
pub struct FixedFunctions {
    pub swclk: Function<SWCLK, Assigned<PIO0<3>>>,
    pub swdio: Function<SWDIO, Assigned<PIO0<2>>>,
    pub resetn: Function<RESETN, Assigned<PIO0<5>>>,
    pub adc_0: Function<ADC_0, Unassigned>,
}

/// The switch matrix in parts: its handle and its functions.
#[derive(Debug)]
pub struct Parts {
    pub handle: Handle<Disabled>,
    pub movable_functions: MovableFunctions,
    pub fixed_functions: FixedFunctions,
}

impl Parts {
    /// Whether every function's tag says of the function what the routing
    /// of the handle says.
    pub open spec fn agree(&self) -> bool {
        &&& self.movable_functions.u0_txd.agrees(self.handle@)
        &&& self.movable_functions.u0_rxd.agrees(self.handle@)
        &&& self.movable_functions.spi0_sck.agrees(self.handle@)
        &&& self.movable_functions.spi0_mosi.agrees(self.handle@)
        &&& self.movable_functions.spi0_miso.agrees(self.handle@)
        &&& self.movable_functions.spi1_sck.agrees(self.handle@)
        &&& self.movable_functions.spi1_mosi.agrees(self.handle@)
        &&& self.movable_functions.spi1_miso.agrees(self.handle@)
        &&& self.fixed_functions.swclk.agrees(self.handle@)
        &&& self.fixed_functions.swdio.agrees(self.handle@)
        &&& self.fixed_functions.resetn.agrees(self.handle@)
        &&& self.fixed_functions.adc_0.agrees(self.handle@)
    }

    /// The switch matrix as it is after a reset of the chip.
    pub(crate) fn new() -> (parts: Parts)
        ensures
            parts.handle@ == reset_routing(),
            parts.agree(),
    {
        let mut enabled = [false; FIXED];
        enabled[5] = true;
        enabled[6] = true;
        enabled[9] = true;
        let regs = RegisterBlock::reset(enabled);
        assert(regs@ =~= reset_routing());
        Parts {
            handle: Handle::new(SWM0::new(regs)),
            movable_functions: MovableFunctions {
                u0_txd: Function::new(Movable),
                u0_rxd: Function::new(Movable),
                spi0_sck: Function::new(Movable),
                spi0_mosi: Function::new(Movable),
                spi0_miso: Function::new(Movable),
                spi1_sck: Function::new(Movable),
                spi1_mosi: Function::new(Movable),
                spi1_miso: Function::new(Movable),
            },
            fixed_functions: FixedFunctions {
                swclk: Function::assigned(Fixed),
                swdio: Function::assigned(Fixed),
                resetn: Function::assigned(Fixed),
                adc_0: Function::new(Fixed),
            },
        }
    }
}

impl ClockControl for SWM0 {
    open spec fn clock_bit() -> int {
        7
    }

    fn clock_index() -> (bit: usize) {
        7
    }
}

} // verus!
