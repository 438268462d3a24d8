//! Registers of a USART, one field for each bit field that the transmitter
//! reads or writes.

use vstd::prelude::*;

verus! {

/// Status register. The hardware drives it.
#[derive(Clone, Copy, Debug, PartialEq, Eq, Structural)]
pub struct Stat {
    /// `txdat` takes another word.
    pub txrdy: bool,
    /// Nothing is being sent and nothing waits to be sent.
    pub txidle: bool,
}

/// Transmit data register.
#[derive(Clone, Copy, Debug, PartialEq, Eq, Structural)]
pub struct Txdat {
    /// The word to send.
    pub txdat: u16,
}

/// Interrupt enable register. A bit is set through `INTENSET` and cleared
/// through `INTENCLR`; this is what reads back.
#[derive(Clone, Copy, Debug, PartialEq, Eq, Structural)]
pub struct Intenset {
    /// An interrupt is raised while `txdat` takes another word.
    pub txrdyen: bool,
}

/// All registers of one USART.
#[derive(Clone, Copy, Debug, PartialEq, Eq, Structural)]
pub struct RegisterBlock {
    pub stat: Stat,
    pub txdat: Txdat,
    pub intenset: Intenset,
}

impl RegisterBlock {
    /// The register contents after a reset.
    pub open spec fn spec_reset() -> RegisterBlock {
        RegisterBlock {
            stat: Stat { txrdy: false, txidle: false },
            txdat: Txdat { txdat: 0 },
            intenset: Intenset { txrdyen: false },
        }
    }

    /// The register contents after a reset.
    pub fn reset() -> (regs: RegisterBlock)
        ensures
            regs == Self::spec_reset(),
    {
        RegisterBlock {
            stat: Stat { txrdy: false, txidle: false },
            txdat: Txdat { txdat: 0 },
            intenset: Intenset { txrdyen: false },
        }
    }
}

} // verus!
