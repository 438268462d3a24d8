//! The transmitting half of a USART.

use crate::init_state::{Enabled, InitState};
use crate::pac::Clocked;
use crate::pac::usart0::{Intenset, RegisterBlock, Stat, Txdat};
use crate::usart::instances::Instance;
use core::marker::PhantomData;
use vstd::prelude::*;
use void::Void;

verus! {

/// USART transmitter
///
/// `I` is the token of the USART, `State` the lifecycle phase of the USART.
#[derive(Debug)]
pub struct Tx<I, State = Enabled> {
    usart: I,
    _state: PhantomData<State>,
}

/// What a write makes of the registers: the word stands in the transmit data
/// register if that takes one, else nothing changes.
pub open spec fn written(regs: RegisterBlock, word: u8) -> RegisterBlock {
    if regs.stat.txrdy {
        RegisterBlock { txdat: Txdat { txdat: word as u16 }, ..regs }
    } else {
        regs
    }
}

/// The result of an operation that waits for `ready`.
pub open spec fn done_if(ready: bool) -> nb::Result<(), Void> {
    if ready {
        Ok(())
    } else {
        Err(nb::Error::WouldBlock)
    }
}

impl<I, State> Tx<I, State> {
    /// The token of the USART that the transmitter belongs to.
    pub closed spec fn instance(&self) -> I {
        self.usart
    }

    /// Returns the token of the USART as it is.
    pub fn free(self) -> (usart: I)
        ensures
            usart == self.instance(),
    {
        self.usart
    }
}

impl<I, State> Tx<I, State> where I: Instance, State: InitState {
    /// Whether the transmitter's tag fits the hardware: the clocks of an
    /// enabled USART run.
    pub open spec fn wf(&self) -> bool {
        State::is_enabled() ==> self.instance().clocked()
    }

    /// What the registers of the USART hold.
    pub fn registers(&self) -> (regs: &RegisterBlock)
        ensures
            *regs == self.instance().regs(),
    {
        self.usart.registers()
    }

    /// The transmitter of a USART.
    ///
    /// A transmitter that is tagged as enabled is made of a USART whose
    /// clocks run, which is what the enabling of the USART leaves.
    pub fn new(usart: I) -> (tx: Self)
        requires
            State::is_enabled() ==> usart.clocked(),
        ensures
            tx.instance() == usart,
            tx.wf(),
    {
        Self { usart, _state: PhantomData }
    }
}

impl<I> Tx<I, Enabled> where I: Instance {
    /// Whether the transmitter's tag fits the hardware.
    pub fn is_live(&self) -> (live: bool)
        ensures
            live == self.wf(),
    {
        self.usart.is_clocked()
    }

    /// Takes over the status that the hardware reports. The other
    /// registers stay as they are.
    pub fn latch(&mut self, stat: Stat)
        ensures
            final(self).instance().regs() == (RegisterBlock {
                stat,
                ..old(self).instance().regs()
            }),
            final(self).instance().gate_open() == old(self).instance().gate_open(),
            final(self).instance().source() == old(self).instance().source(),
            old(self).wf() ==> final(self).wf(),
    {
        let mut regs = *self.usart.registers();
        regs.stat = stat;
        self.usart.latch(regs);
    }

    /// Enable the TXRDY interrupt
    ///
    /// From then on the USART raises an interrupt while it takes another
    /// word.
    pub fn enable_txrdy(&mut self)
        requires
            old(self).wf(),
        ensures
            final(self).wf(),
            final(self).instance().regs() == (RegisterBlock {
                intenset: Intenset { txrdyen: true },
                ..old(self).instance().regs()
            }),
            final(self).instance().gate_open() == old(self).instance().gate_open(),
            final(self).instance().source() == old(self).instance().source(),
    {
        let mut regs = *self.usart.registers();
        regs.intenset = Intenset { txrdyen: true };
        self.usart.write(regs);
    }

    /// Disable the TXRDY interrupt
    pub fn disable_txrdy(&mut self)
        requires
            old(self).wf(),
        ensures
            final(self).wf(),
            final(self).instance().regs() == (RegisterBlock {
                intenset: Intenset { txrdyen: false },
                ..old(self).instance().regs()
            }),
            final(self).instance().gate_open() == old(self).instance().gate_open(),
            final(self).instance().source() == old(self).instance().source(),
    {
        let mut regs = *self.usart.registers();
        regs.intenset = Intenset { txrdyen: false };
        self.usart.write(regs);
    }

    /// Hands a word to the transmitter, if it takes one.
    ///
    /// Returns `WouldBlock`, and writes nothing, while it does not.
    pub fn write(&mut self, word: u8) -> (done: nb::Result<(), Void>)
        requires
            old(self).wf(),
        ensures
            final(self).wf(),
            final(self).instance().regs() == written(old(self).instance().regs(), word),
            final(self).instance().gate_open() == old(self).instance().gate_open(),
            final(self).instance().source() == old(self).instance().source(),
            done == done_if(old(self).instance().regs().stat.txrdy),
    {
        let mut regs = *self.usart.registers();
        if !regs.stat.txrdy {
            return Err(nb::Error::WouldBlock);
        }
        regs.txdat = Txdat { txdat: word as u16 };
        self.usart.write(regs);
        Ok(())
    }

    /// Succeeds once everything handed to the transmitter has been sent.
    ///
    /// Returns `WouldBlock` while the transmitter is busy. The registers stay
    /// as they are.
    pub fn flush(&mut self) -> (done: nb::Result<(), Void>)
        ensures
            *final(self) == *old(self),
            done == done_if(old(self).instance().regs().stat.txidle),
    {
        if !self.usart.registers().stat.txidle {
            return Err(nb::Error::WouldBlock);
        }
        Ok(())
    }

    /// Succeeds once the transmitter is ready to be the target of another
    /// transfer, which is when everything has been sent.
    pub fn wait(&mut self) -> (done: nb::Result<(), Void>)
        ensures
            *final(self) == *old(self),
            done == done_if(old(self).instance().regs().stat.txidle),
    {
        self.flush()
    }
}

} // verus!
