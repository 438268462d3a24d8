//! Registers of an SPI block, one field for each bit field that the driver
//! reads or writes.

use vstd::prelude::*;

verus! {

/// Configuration register.
#[derive(Clone, Copy, Debug, PartialEq, Eq, Structural)]
pub struct Cfg {
    /// The block takes part in transfers.
    pub enable: bool,
    /// The block drives the clock line.
    pub master: bool,
    /// Data is captured on the second clock transition of a frame.
    pub cpha: bool,
    /// The clock line rests high between frames.
    pub cpol: bool,
}

/// Clock divider register.
#[derive(Clone, Copy, Debug, PartialEq, Eq, Structural)]
pub struct Div {
    /// The divisor that turns the functional clock into the bit clock, less
    /// one.
    pub divval: u16,
}

/// Transmit control register.
#[derive(Clone, Copy, Debug, PartialEq, Eq, Structural)]
pub struct Txctl {
    /// Frame length in bits, less one.
    pub len: u8,
}

/// Status register. The hardware drives it.
#[derive(Clone, Copy, Debug, PartialEq, Eq, Structural)]
pub struct Stat {
    /// A received frame waits in `rxdat`.
    pub rxrdy: bool,
    /// `txdat` takes another frame.
    pub txrdy: bool,
}

/// Receive data register. The hardware drives it.
#[derive(Clone, Copy, Debug, PartialEq, Eq, Structural)]
pub struct Rxdat {
    /// The received frame.
    pub rxdat: u16,
}

/// Transmit data register.
#[derive(Clone, Copy, Debug, PartialEq, Eq, Structural)]
pub struct Txdat {
    /// The frame to send.
    pub data: u16,
}

/// All registers of one SPI block.
#[derive(Clone, Copy, Debug, PartialEq, Eq, Structural)]
pub struct RegisterBlock {
    pub cfg: Cfg,
    pub div: Div,
    pub stat: Stat,
    pub rxdat: Rxdat,
    pub txdat: Txdat,
    pub txctl: Txctl,
}

impl RegisterBlock {
    /// The register contents after a reset.
    pub open spec fn spec_reset() -> RegisterBlock {
        RegisterBlock {
            cfg: Cfg { enable: false, master: false, cpha: false, cpol: false },
            div: Div { divval: 0 },
            stat: Stat { rxrdy: false, txrdy: false },
            rxdat: Rxdat { rxdat: 0 },
            txdat: Txdat { data: 0 },
            txctl: Txctl { len: 0 },
        }
    }

    /// The register contents after a reset.
    pub fn reset() -> (regs: RegisterBlock)
        ensures
            regs == Self::spec_reset(),
    {
        RegisterBlock {
            cfg: Cfg { enable: false, master: false, cpha: false, cpol: false },
            div: Div { divval: 0 },
            stat: Stat { rxrdy: false, txrdy: false },
            rxdat: Rxdat { rxdat: 0 },
            txdat: Txdat { data: 0 },
            txctl: Txctl { len: 0 },
        }
    }
}

} // verus!
