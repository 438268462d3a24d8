//! The one set of resources that the chip has.

use crate::init_state::Disabled;
use crate::pac;
use crate::pac::Peripheral;
use crate::pins::Pins;
use crate::spi::SPI;
use crate::swm;
use crate::syscon;
use vstd::prelude::*;

verus! {

/// A chip, which hands out its resources once.
#[derive(Debug)]
pub struct Device {
    taken: bool,
}

impl Device {
    /// Whether the resources have been handed out.
    pub closed spec fn taken(&self) -> bool {
        self.taken
    }

    /// The chip after a reset, with all its resources.
    pub fn new() -> (device: Device)
        ensures
            !device.taken(),
    {
        Device { taken: false }
    }

    /// Whether the resources have been handed out.
    pub fn is_taken(&self) -> (taken: bool)
        ensures
            taken == self.taken(),
    {
        self.taken
    }
}

/// All resources of one chip. Each field is the only value of its type that
/// this chip hands out, and the pins and functions agree with the routing of
/// this chip's switch matrix, not with that of another chip.
#[derive(Debug)]
pub struct Peripherals {
    /// The pins.
    pub pins: Pins,
    /// The switch matrix, disabled.
    pub SWM: swm::Parts,
    /// The handle to the clock and reset control registers.
    pub SYSCON: syscon::Handle,
    /// The first SPI block, disabled.
    pub SPI0: SPI<pac::SPI0, Disabled>,
    /// The second SPI block, disabled.
    pub SPI1: SPI<pac::SPI1, Disabled>,
    /// The first USART, its clock gated.
    pub USART0: pac::USART0,
}

impl Peripherals {
    /// Whether the resources are as a reset leaves them: every register at
    /// its reset value, every clock gated, no pin with two functions, and
    /// every pin and function tagged as the routing has it.
    pub open spec fn is_reset(&self) -> bool {
        &&& self.SWM.handle@ == swm::reset_routing()
        &&& swm::exclusive(self.SWM.handle@)
        &&& self.SWM.agree()
        &&& self.pins.agree(self.SWM.handle@)
        &&& self.SYSCON@ == syscon::State::reset()
        &&& self.SPI0.instance().regs() == pac::spi0::RegisterBlock::spec_reset()
        &&& !self.SPI0.instance().gate_open()
        &&& self.SPI0.instance().source() == syscon::NO_CLOCK
        &&& self.SPI1.instance().regs() == pac::spi0::RegisterBlock::spec_reset()
        &&& !self.SPI1.instance().gate_open()
        &&& self.SPI1.instance().source() == syscon::NO_CLOCK
        &&& self.USART0.regs() == pac::usart0::RegisterBlock::spec_reset()
        &&& !self.USART0.gate_open()
        &&& self.USART0.source() == syscon::NO_CLOCK
    }

    /// Hands out the resources of the chip.
    ///
    /// Succeeds on the first call for a chip and on no later one.
    pub fn take(device: &mut Device) -> (peripherals: Option<Peripherals>)
        ensures
            final(device).taken(),
            peripherals is Some <==> !old(device).taken(),
            peripherals matches Some(p) ==> p.is_reset(),
    {
        if device.taken {
            return None;
        }
        device.taken = true;
        proof {
            swm::routing::lemma_reset_is_exclusive();
        }
        Some(
            Peripherals {
                pins: Pins::new(),
                SWM: swm::Parts::new(),
                SYSCON: syscon::Handle::new(),
                SPI0: SPI::new(pac::SPI0::new(pac::spi0::RegisterBlock::reset())),
                SPI1: SPI::new(pac::SPI1::new(pac::spi0::RegisterBlock::reset())),
                USART0: pac::USART0::new(pac::usart0::RegisterBlock::reset()),
            },
        )
    }
}

} // verus!
