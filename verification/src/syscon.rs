//! The system configuration block: clock gates, reset lines and the choice of
//! functional clock for each peripheral.
//!
//! One [`Handle`] exists. Every peripheral that changes its lifecycle phase
//! borrows it for the length of that transition.

use crate::pac::Peripheral;
use vstd::prelude::*;

pub mod clock_source;

verus! {

/// Number of clock gates, and of reset lines.
pub const LINES: usize = 32;

/// Number of peripherals with a selectable functional clock.
pub const SELECTORS: usize = 11;

/// The selector value that feeds a peripheral no functional clock.
pub const NO_CLOCK: u8 = 7;

/// What the registers of the system configuration block hold.
#[verifier::ext_equal]
pub struct State {
    /// For each clock gate, whether it is open.
    pub clocks: Seq<bool>,
    /// For each reset line, whether the peripheral is held in reset.
    pub resets: Seq<bool>,
    /// For each peripheral with a selectable functional clock, the source
    /// that is selected.
    pub selectors: Seq<u8>,
}

impl State {
    /// The shape that every state of a [`Handle`] has.
    pub open spec fn wf(self) -> bool {
        &&& self.clocks.len() == LINES
        &&& self.resets.len() == LINES
        &&& self.selectors.len() == SELECTORS
    }

    /// This state with one clock gate opened or closed.
    pub open spec fn with_clock(self, bit: int, on: bool) -> State {
        State { clocks: self.clocks.update(bit, on), ..self }
    }

    /// This state with one reset line asserted or cleared.
    pub open spec fn with_reset(self, bit: int, held: bool) -> State {
        State { resets: self.resets.update(bit, held), ..self }
    }

    /// This state with another functional clock for one peripheral.
    pub open spec fn with_selector(self, register: int, source: u8) -> State {
        State { selectors: self.selectors.update(register, source), ..self }
    }

    /// The state after a reset of the chip: every gate closed, no peripheral
    /// held in reset, no functional clock selected.
    pub open spec fn reset() -> State {
        State {
            clocks: Seq::new(LINES as nat, |i: int| false),
            resets: Seq::new(LINES as nat, |i: int| false),
            selectors: Seq::new(SELECTORS as nat, |i: int| NO_CLOCK),
        }
    }
}

/// A peripheral with a gate in the clock control register.
pub trait ClockControl: Peripheral {
    /// The peripheral's bit in the clock control register.
    spec fn clock_bit() -> int;

    /// The peripheral's bit in the clock control register.
    fn clock_index() -> (bit: usize)
        ensures
            bit == Self::clock_bit(),
            bit < LINES,
    ;
}

/// A peripheral with a line in the reset control register.
pub trait ResetControl {
    /// The peripheral's bit in the reset control register.
    spec fn reset_bit() -> int;

    /// The peripheral's bit in the reset control register.
    fn reset_index() -> (bit: usize)
        ensures
            bit == Self::reset_bit(),
            bit < LINES,
    ;
}

/// A peripheral whose functional clock is selected from several sources.
pub trait PeripheralClockSelector: Peripheral {
    /// The number of the peripheral's clock select register.
    spec fn register_num() -> int;

    /// The number of the peripheral's clock select register.
    fn register_index() -> (register: usize)
        ensures
            register == Self::register_num(),
            register < SELECTORS,
    ;
}

/// The shared handle to the clock and reset control registers.
#[derive(Debug)]
pub struct Handle {
    sysahbclkctrl: [bool; LINES],
    presetctrl: [bool; LINES],
    fclksel: [u8; SELECTORS],
}

impl View for Handle {
    type V = State;

    closed spec fn view(&self) -> State {
        State {
            clocks: self.sysahbclkctrl@,
            resets: self.presetctrl@,
            selectors: self.fclksel@,
        }
    }
}

impl Handle {
    /// The handle as it is after a reset of the chip.
    pub(crate) fn new() -> (handle: Handle)
        ensures
            handle@ == State::reset(),
    {
        let handle = Handle {
            sysahbclkctrl: [false; LINES],
            presetctrl: [false; LINES],
            fclksel: [NO_CLOCK; SELECTORS],
        };
        assert(handle@ =~= State::reset());
        handle
    }

    /// Every state of a handle has the shape of the registers.
    pub proof fn lemma_wf(&self)
        ensures
            self@.wf(),
    {
    }

    /// Opens the clock gate of a peripheral, which starts the clock behind
    /// it.
    pub fn enable_clock<P: ClockControl>(&mut self, peripheral: &mut P)
        ensures
            final(self)@ == old(self)@.with_clock(P::clock_bit(), true),
            final(peripheral).gate_open(),
            final(peripheral).source() == old(peripheral).source(),
            final(peripheral).regs() == old(peripheral).regs(),
    {
        self.sysahbclkctrl[P::clock_index()] = true;
        peripheral.set_gate(true);
    }

    /// Closes the clock gate of a peripheral, which stops the clock behind
    /// it.
    pub fn disable_clock<P: ClockControl>(&mut self, peripheral: &mut P)
        ensures
            final(self)@ == old(self)@.with_clock(P::clock_bit(), false),
            !final(peripheral).gate_open(),
            final(peripheral).source() == old(peripheral).source(),
            final(peripheral).regs() == old(peripheral).regs(),
    {
        self.sysahbclkctrl[P::clock_index()] = false;
        peripheral.set_gate(false);
    }

    /// Holds a peripheral in reset.
    pub fn assert_reset<P: ResetControl>(&mut self, peripheral: &P)
        ensures
            final(self)@ == old(self)@.with_reset(P::reset_bit(), true),
    {
        self.presetctrl[P::reset_index()] = true;
    }

    /// Releases a peripheral from reset.
    pub fn clear_reset<P: ResetControl>(&mut self, peripheral: &P)
        ensures
            final(self)@ == old(self)@.with_reset(P::reset_bit(), false),
    {
        self.presetctrl[P::reset_index()] = false;
    }

    /// Whether the clock gate of the peripheral `P` is open.
    pub fn is_clock_enabled<P: ClockControl>(&self) -> (on: bool)
        ensures
            on == self@.clocks[P::clock_bit()],
    {
        self.sysahbclkctrl[P::clock_index()]
    }

    /// Whether the peripheral `P` is held in reset.
    pub fn is_reset_asserted<P: ResetControl>(&self) -> (held: bool)
        ensures
            held == self@.resets[P::reset_bit()],
    {
        self.presetctrl[P::reset_index()]
    }

    /// The source that is selected as the functional clock of the peripheral
    /// `P`.
    pub fn selected_clock<P: PeripheralClockSelector>(&self) -> (source: u8)
        ensures
            source == self@.selectors[P::register_num()],
    {
        self.fclksel[P::register_index()]
    }

    /// Selects a functional clock for a peripheral, which feeds it to the
    /// peripheral; the clock descriptors call this.
    pub(crate) fn select<P: PeripheralClockSelector>(&mut self, peripheral: &mut P, source: u8)
        requires
            old(peripheral).gate_open(),
        ensures
            final(self)@ == old(self)@.with_selector(P::register_num(), source),
            final(peripheral).source() == source,
            final(peripheral).gate_open() == old(peripheral).gate_open(),
            final(peripheral).regs() == old(peripheral).regs(),
    {
        self.fclksel[P::register_index()] = source;
        peripheral.set_source(source);
    }
}

} // verus!
