//! The SPI blocks.
//!
//! An [`SPI`] is created disabled. [`SPI::enable`] takes a clock descriptor
//! and the three functions of the block, each assigned to a pin, and returns
//! the enabled handle, on which alone words can be sent and read.

use crate::init_state::{Disabled, Enabled, InitState};
use crate::pac::spi0::{Cfg, Div, RegisterBlock, Rxdat, Stat, Txctl, Txdat};
use crate::pac::{Clocked, Peripheral, SPI0, SPI1};
use crate::pins;
use crate::swm;
use crate::swm::FunctionTrait;
use crate::syscon;
use crate::syscon::clock_source::{PeripheralClock, SpiClock, MAX_DIVISOR};
use crate::syscon::{ClockControl, PeripheralClockSelector, ResetControl};
use embedded_hal::spi::{Mode, Phase, Polarity};
use vstd::prelude::*;

verus! {

/// Frame length that the driver configures, in bits.
pub const FRAME_BITS: u8 = 8;

/// Interface to an SPI block.
///
/// `I` is the block's token, `State` the lifecycle phase of the block.
#[derive(Debug)]
pub struct SPI<I, State = Enabled> {
    spi: I,
    _state: State,
}

/// The SPI blocks of the chip, each with the functions that its lines are.
pub trait Instance: ClockControl + Peripheral<
    Registers = RegisterBlock,
> + ResetControl + PeripheralClockSelector {
    /// The movable function that is the block's clock line.
    type Sck;

    /// The movable function that is the block's data line out.
    type Mosi;

    /// The movable function that is the block's data line in.
    type Miso;
}

/// What `enable` makes of the registers: the divider value of the clock
/// descriptor, frames of eight bits, and master mode with the clock polarity
/// and phase of `mode`. The other registers stay as they are.
pub open spec fn configured(regs: RegisterBlock, divval: u16, mode: Mode) -> RegisterBlock {
    RegisterBlock {
        div: Div { divval },
        txctl: Txctl { len: (FRAME_BITS - 1) as u8 },
        cfg: Cfg {
            enable: true,
            master: true,
            cpol: mode.polarity is IdleHigh,
            cpha: mode.phase is CaptureOnSecondTransition,
        },
        ..regs
    }
}

/// What a read returns: the low eight bits of the received frame if one
/// waits, else `WouldBlock`.
pub open spec fn received(regs: RegisterBlock) -> nb::Result<u8, ()> {
    if regs.stat.rxrdy {
        Ok((regs.rxdat.rxdat % 256) as u8)
    } else {
        Err(nb::Error::WouldBlock)
    }
}

/// What a send makes of the registers: the word stands in the transmit data
/// register if that takes one, else nothing changes.
pub open spec fn sent(regs: RegisterBlock, word: u8) -> RegisterBlock {
    if regs.stat.txrdy {
        RegisterBlock { txdat: Txdat { data: word as u16 }, ..regs }
    } else {
        regs
    }
}

impl<I, State> SPI<I, State> {
    /// The token of the block that the handle drives.
    pub closed spec fn instance(&self) -> I {
        self.spi
    }

    /// Return the raw peripheral
    ///
    /// This is the way out of the typed interface: the token comes back as
    /// it is, and nothing this crate states of a handle holds of what is
    /// done with it afterwards.
    pub fn free(self) -> (spi: I)
        ensures
            spi == self.instance(),
    {
        self.spi
    }
}

impl<I: Instance, State: InitState> SPI<I, State> {
    /// What the registers of the block hold.
    pub fn registers(&self) -> (regs: &RegisterBlock)
        ensures
            *regs == self.instance().regs(),
    {
        self.spi.registers()
    }

    /// Whether the handle is tagged as enabled.
    pub open spec fn enabled(&self) -> bool {
        State::is_enabled()
    }

    /// Whether the handle's tag fits the hardware: the clocks of an enabled
    /// block run, and the block takes part in transfers.
    pub open spec fn wf(&self) -> bool {
        self.enabled() ==> self.instance().clocked() && self.instance().regs().cfg.enable
    }
}

impl<I: Instance> SPI<I, Disabled> {
    /// The disabled handle of a block.
    pub fn new(spi: I) -> (handle: Self)
        ensures
            handle.instance() == spi,
            !handle.enabled(),
    {
        Self { spi, _state: Disabled }
    }

    /// Enable the SPI peripheral
    ///
    /// Opens the block's clock gate, selects the functional clock of the
    /// descriptor, and only then writes the block's registers: the divider,
    /// the frame length, and the configuration with the block switched on as
    /// master in the given mode.
    ///
    /// Consumes the disabled handle and returns the enabled one. The three
    /// functions of the block must be assigned to pins; they stay with the
    /// caller.
    pub fn enable<SckPin, MosiPin, MisoPin, CLOCK>(
        self,
        clock: &SpiClock<CLOCK>,
        syscon: &mut syscon::Handle,
        mode: Mode,
        _sck: &swm::Function<I::Sck, swm::state::Assigned<SckPin>>,
        _mosi: &swm::Function<I::Mosi, swm::state::Assigned<MosiPin>>,
        _miso: &swm::Function<I::Miso, swm::state::Assigned<MisoPin>>,
    ) -> (spi: SPI<I, Enabled>) where
        SckPin: pins::Trait,
        MosiPin: pins::Trait,
        MisoPin: pins::Trait,
        I::Sck: FunctionTrait<SckPin>,
        I::Mosi: FunctionTrait<MosiPin>,
        I::Miso: FunctionTrait<MisoPin>,
        SpiClock<CLOCK>: PeripheralClock<I>,

        ensures
            spi.enabled(),
            spi.wf(),
            spi.instance().gate_open(),
            spi.instance().source() == clock.selector(),
            spi.instance().regs() == configured(self.instance().regs(), clock.divval(), mode),
            final(syscon)@ == old(syscon)@.with_clock(I::clock_bit(), true).with_selector(
                I::register_num(),
                clock.selector(),
            ),
    {
        let mut spi = self.spi;
        syscon.enable_clock(&mut spi);
        clock.select_clock(syscon, &mut spi);

        let mut regs = *spi.registers();
        regs.div = Div { divval: clock.divval() };
        spi.write(regs);

        regs.txctl = Txctl { len: FRAME_BITS - 1 };
        spi.write(regs);

        regs.cfg = Cfg {
            enable: true,
            master: true,
            cpol: match mode.polarity {
                Polarity::IdleHigh => true,
                Polarity::IdleLow => false,
            },
            cpha: match mode.phase {
                Phase::CaptureOnFirstTransition => false,
                Phase::CaptureOnSecondTransition => true,
            },
        };
        spi.write(regs);

        SPI { spi, _state: Enabled(()) }
    }
}

impl<I: Instance> SPI<I, Enabled> {
    /// Disable the SPI peripheral
    ///
    /// Closes the block's clock gate. The registers keep what they hold, and
    /// no function is unassigned.
    ///
    /// Consumes the enabled handle and returns the disabled one.
    pub fn disable(self, syscon: &mut syscon::Handle) -> (spi: SPI<I, Disabled>)
        ensures
            !spi.enabled(),
            !spi.instance().gate_open(),
            spi.instance().source() == self.instance().source(),
            spi.instance().regs() == self.instance().regs(),
            final(syscon)@ == old(syscon)@.with_clock(I::clock_bit(), false),
    {
        let mut spi = self.spi;
        syscon.disable_clock(&mut spi);
        SPI { spi, _state: Disabled }
    }

    /// Whether the handle's tag fits the hardware.
    pub fn is_live(&self) -> (live: bool)
        ensures
            live == self.wf(),
    {
        self.spi.is_clocked() && self.spi.registers().cfg.enable
    }

    /// Takes over what the hardware reports: the status and the received
    /// frame. The other registers stay as they are.
    pub fn latch(&mut self, stat: Stat, rxdat: Rxdat)
        ensures
            final(self).instance().regs() == (RegisterBlock {
                stat,
                rxdat,
                ..old(self).instance().regs()
            }),
            final(self).instance().gate_open() == old(self).instance().gate_open(),
            final(self).instance().source() == old(self).instance().source(),
            old(self).wf() ==> final(self).wf(),
    {
        let mut regs = *self.spi.registers();
        regs.stat = stat;
        regs.rxdat = rxdat;
        self.spi.latch(regs);
    }

    /// Reads the received word, if one waits.
    ///
    /// Returns `WouldBlock` while none does. The registers stay as they
    /// are.
    pub fn read(&mut self) -> (word: nb::Result<u8, ()>)
        ensures
            word == received(old(self).instance().regs()),
            *final(self) == *old(self),
    {
        let regs = self.spi.registers();
        if regs.stat.rxrdy {
            Ok((regs.rxdat.rxdat % 256) as u8)
        } else {
            Err(nb::Error::WouldBlock)
        }
    }

    /// Hands a word to the transmitter, if it takes one.
    ///
    /// Returns `WouldBlock`, and writes nothing, while it does not.
    pub fn send(&mut self, word: u8) -> (done: nb::Result<(), ()>)
        requires
            old(self).wf(),
        ensures
            final(self).wf(),
            final(self).instance().regs() == sent(old(self).instance().regs(), word),
            final(self).instance().gate_open() == old(self).instance().gate_open(),
            final(self).instance().source() == old(self).instance().source(),
            done == if old(self).instance().regs().stat.txrdy {
                Ok::<(), nb::Error<()>>(())
            } else {
                Err::<(), nb::Error<()>>(nb::Error::WouldBlock)
            },
    {
        let mut regs = *self.spi.registers();
        if regs.stat.txrdy {
            regs.txdat = Txdat { data: word as u16 };
            self.spi.write(regs);
            Ok(())
        } else {
            Err(nb::Error::WouldBlock)
        }
    }
}

/// What `enable` takes: a handle that is tagged as disabled, a clock
/// descriptor whose divisor the divider register can select, and the three
/// functions of the block, each tagged as assigned to a pin.
pub proof fn lemma_enable_takes<I, SckPin, MosiPin, MisoPin, CLOCK>(
    spi: SPI<I, Disabled>,
    clock: SpiClock<CLOCK>,
    sck: swm::Function<I::Sck, swm::state::Assigned<SckPin>>,
    mosi: swm::Function<I::Mosi, swm::state::Assigned<MosiPin>>,
    miso: swm::Function<I::Miso, swm::state::Assigned<MisoPin>>,
) where
    I: Instance,
    SckPin: pins::Trait,
    MosiPin: pins::Trait,
    MisoPin: pins::Trait,
    I::Sck: FunctionTrait<SckPin>,
    I::Mosi: FunctionTrait<MosiPin>,
    I::Miso: FunctionTrait<MisoPin>,
    SpiClock<CLOCK>: PeripheralClock<I>,

    ensures
        !spi.enabled(),
        1 <= clock.divisor() <= MAX_DIVISOR,
        sck.assigned_pin() == Some(SckPin::id()),
        mosi.assigned_pin() == Some(MosiPin::id()),
        miso.assigned_pin() == Some(MisoPin::id()),
{
}

/// Enabling a block, disabling it and enabling it again, with the same clock
/// descriptor and in the same mode, leaves the block's registers and the
/// clock control registers as the first enabling left them.
pub proof fn lemma_enable_again_restores(
    regs: RegisterBlock,
    divval: u16,
    mode: Mode,
    state: syscon::State,
    bit: int,
    register: int,
    source: u8,
)
    requires
        state.wf(),
        0 <= bit < syscon::LINES,
        0 <= register < syscon::SELECTORS,
    ensures
        configured(configured(regs, divval, mode), divval, mode) == configured(
            regs,
            divval,
            mode,
        ),
        state.with_clock(bit, true).with_selector(register, source).with_clock(
            bit,
            false,
        ).with_clock(bit, true).with_selector(register, source) == state.with_clock(
            bit,
            true,
        ).with_selector(register, source),
{
    let once = state.with_clock(bit, true).with_selector(register, source);
    let again = once.with_clock(bit, false).with_clock(bit, true).with_selector(
        register,
        source,
    );
    assert(again.clocks =~= once.clocks);
    assert(again.selectors =~= once.selectors);
}

impl ClockControl for SPI0 {
    open spec fn clock_bit() -> int {
        11
    }

    fn clock_index() -> (bit: usize) {
        11
    }
}

impl ClockControl for SPI1 {
    open spec fn clock_bit() -> int {
        12
    }

    fn clock_index() -> (bit: usize) {
        12
    }
}

impl ResetControl for SPI0 {
    open spec fn reset_bit() -> int {
        11
    }

    fn reset_index() -> (bit: usize) {
        11
    }
}

impl ResetControl for SPI1 {
    open spec fn reset_bit() -> int {
        12
    }

    fn reset_index() -> (bit: usize) {
        12
    }
}

impl PeripheralClockSelector for SPI0 {
    open spec fn register_num() -> int {
        9
    }

    fn register_index() -> (register: usize) {
        9
    }
}

impl PeripheralClockSelector for SPI1 {
    open spec fn register_num() -> int {
        10
    }

    fn register_index() -> (register: usize) {
        10
    }
}

impl Instance for SPI0 {
    type Sck = swm::SPI0_SCK;

    type Mosi = swm::SPI0_MOSI;

    type Miso = swm::SPI0_MISO;
}

impl Instance for SPI1 {
    type Sck = swm::SPI1_SCK;

    type Mosi = swm::SPI1_MOSI;

    type Miso = swm::SPI1_MISO;
}

} // verus!
