//! The peripherals of the chip as values.
//!
//! A token stands for one hardware block. It holds that block's registers and
//! the state of the clock lines that feed it. The drivers in this crate own
//! the token of the block they drive and hand it back through their `free`.
//!
//! The numbers of the clock gates, reset lines, clock selectors and routing
//! entries throughout this crate are those of the LPC845.

use crate::syscon::NO_CLOCK;
use vstd::prelude::*;

pub mod spi0;
pub mod swm0;
pub mod usart0;

verus! {

/// A hardware block behind a clock gate.
pub trait Peripheral: Sized {
    /// The registers of the block.
    type Registers;

    /// What the registers hold.
    spec fn regs(&self) -> Self::Registers;

    /// Whether the block's clock gate is open.
    spec fn gate_open(&self) -> bool;

    /// The selector value of the functional clock that feeds the block.
    spec fn source(&self) -> u8;

    /// Whether the block has a functional clock beside the one behind its
    /// gate.
    spec fn has_functional_clock() -> bool;

    /// Reads all registers.
    fn registers(&self) -> (regs: &Self::Registers)
        ensures
            *regs == self.regs(),
    ;

    /// Whether the block's clock gate is open.
    fn is_gate_open(&self) -> (open: bool)
        ensures
            open == self.gate_open(),
    ;

    /// The selector value of the functional clock that feeds the block.
    fn functional_clock(&self) -> (source: u8)
        ensures
            source == self.source(),
    ;

    /// Whether every clock of the block runs: its gate is open, and a
    /// functional clock is selected where it has one.
    fn is_clocked(&self) -> (on: bool)
        ensures
            on == (self.gate_open() && (Self::has_functional_clock() ==> self.source()
                != NO_CLOCK)),
    ;

    /// Writes the registers, which only a block accepts whose clocks all
    /// run.
    fn write(&mut self, regs: Self::Registers)
        requires
            old(self).gate_open(),
            Self::has_functional_clock() ==> old(self).source() != NO_CLOCK,
        ensures
            final(self).regs() == regs,
            final(self).gate_open() == old(self).gate_open(),
            final(self).source() == old(self).source(),
    ;

    /// Takes over what the hardware reports, clocked or not.
    fn latch(&mut self, regs: Self::Registers)
        ensures
            final(self).regs() == regs,
            final(self).gate_open() == old(self).gate_open(),
            final(self).source() == old(self).source(),
    ;

    /// Starts or stops the clock behind the block's gate, as the clock
    /// controller does when it opens or closes that gate.
    fn set_gate(&mut self, open: bool)
        ensures
            final(self).regs() == old(self).regs(),
            final(self).gate_open() == open,
            final(self).source() == old(self).source(),
    ;

    /// Feeds the block another functional clock. The clock controller calls
    /// this when it selects one.
    fn set_source(&mut self, source: u8)
        ensures
            final(self).regs() == old(self).regs(),
            final(self).gate_open() == old(self).gate_open(),
            final(self).source() == source,
    ;
}

/// What follows from the clock lines of a block.
pub trait Clocked {
    /// Whether every clock of the block runs: its gate is open, and a
    /// functional clock is selected where it has one.
    spec fn clocked(&self) -> bool;
}

impl<P: Peripheral> Clocked for P {
    open spec fn clocked(&self) -> bool {
        self.gate_open() && (P::has_functional_clock() ==> self.source() != NO_CLOCK)
    }
}

/// The token of the `N`th block with registers `R`. `FCLK` says whether the
/// block has a functional clock beside the one behind its gate.
#[derive(Debug)]
pub struct Block<R, const N: u8, const FCLK: bool> {
    regs: R,
    gate: bool,
    source: u8,
}

/// The first SPI block.
pub type SPI0 = Block<spi0::RegisterBlock, 0, true>;

/// The second SPI block.
pub type SPI1 = Block<spi0::RegisterBlock, 1, true>;

/// The first USART.
pub type USART0 = Block<usart0::RegisterBlock, 0, true>;

/// The switch matrix.
pub type SWM0 = Block<swm0::RegisterBlock, 0, false>;

impl<R, const N: u8, const FCLK: bool> Block<R, N, FCLK> {
    /// A block with the given registers, its gate closed and no functional
    /// clock selected.
    pub(crate) fn new(regs: R) -> (block: Self)
        ensures
            block.regs() == regs,
            !block.gate_open(),
            block.source() == NO_CLOCK,
    {
        Block { regs, gate: false, source: NO_CLOCK }
    }
}

impl<R, const N: u8, const FCLK: bool> Peripheral for Block<R, N, FCLK> {
    type Registers = R;

    closed spec fn regs(&self) -> R {
        self.regs
    }

    closed spec fn gate_open(&self) -> bool {
        self.gate
    }

    closed spec fn source(&self) -> u8 {
        self.source
    }

    open spec fn has_functional_clock() -> bool {
        FCLK
    }

    fn registers(&self) -> (regs: &R) {
        &self.regs
    }

    fn is_gate_open(&self) -> (open: bool) {
        self.gate
    }

    fn functional_clock(&self) -> (source: u8) {
        self.source
    }

    fn is_clocked(&self) -> (on: bool) {
        self.gate && (!FCLK || self.source != NO_CLOCK)
    }

    fn write(&mut self, regs: R) {
        self.regs = regs;
    }

    fn latch(&mut self, regs: R) {
        self.regs = regs;
    }

    fn set_gate(&mut self, open: bool) {
        self.gate = open;
    }

    fn set_source(&mut self, source: u8) {
        self.source = source;
    }
}

} // verus!
