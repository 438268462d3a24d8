//! Clock descriptors: which source feeds a peripheral, and by how much the
//! source is divided.
//!
//! A requested rate is supported only where one whole divisor reproduces it
//! exactly. Nothing is rounded: a rate that no divisor reproduces is refused.
//!
//! A divider register holds the divisor less one in sixteen bits, so the
//! divisors from 1 to 65536 can be selected.

use crate::pac::Peripheral;
use crate::syscon::{Handle, PeripheralClockSelector, NO_CLOCK};
use core::marker::PhantomData;
use vstd::prelude::*;

verus! {

/// The largest divisor that a divider register can select.
pub const MAX_DIVISOR: u32 = 65536;

/// A source of functional clocks.
pub trait PeripheralClockSource {
    /// The value that selects this source in a clock select register.
    spec fn selector() -> u8;

    /// The value that selects this source in a clock select register.
    fn selector_value() -> (source: u8)
        ensures
            source == Self::selector(),
            source != NO_CLOCK,
    ;
}

/// The internal oscillator.
#[derive(Debug)]
pub struct IOSC;

/// The first fractional rate generator.
#[derive(Debug)]
pub struct FRG0;

/// The second fractional rate generator.
#[derive(Debug)]
pub struct FRG1;

impl PeripheralClockSource for IOSC {
    open spec fn selector() -> u8 {
        0
    }

    fn selector_value() -> (source: u8) {
        0
    }
}

impl PeripheralClockSource for FRG0 {
    open spec fn selector() -> u8 {
        2
    }

    fn selector_value() -> (source: u8) {
        2
    }
}

impl PeripheralClockSource for FRG1 {
    open spec fn selector() -> u8 {
        3
    }

    fn selector_value() -> (source: u8) {
        3
    }
}

/// No divisor within range reproduces the requested rate.
#[derive(Clone, Copy, Debug, PartialEq, Eq, Structural)]
pub struct UnsupportedRate;

/// Whether dividing `source_frequency` by `divisor` gives `rate` with nothing
/// left over, for a divisor that a divider register can select.
pub open spec fn reproduces(source_frequency: int, divisor: int, rate: int) -> bool {
    &&& 1 <= divisor <= MAX_DIVISOR
    &&& 0 < rate
    &&& divisor * rate == source_frequency
}

/// Whether some divisor reproduces `rate` from `source_frequency`.
pub open spec fn supported(source_frequency: int, rate: int) -> bool {
    exists|divisor: int| reproduces(source_frequency, divisor, rate)
}

/// The rate that a divider makes of a source.
pub open spec fn derived_rate(source_frequency: int, divisor: int) -> int {
    source_frequency / divisor
}

/// The functional clock of a peripheral: the source `CLOCK`, divided.
///
/// A descriptor is computed once and read by the `enable` of the peripheral
/// that it is for.
#[derive(Debug)]
pub struct ClockDescriptor<CLOCK> {
    divval: u16,
    _clock: PhantomData<CLOCK>,
}

/// The clock descriptor that an SPI block is enabled with.
pub type SpiClock<CLOCK> = ClockDescriptor<CLOCK>;

impl<CLOCK> ClockDescriptor<CLOCK> {
    /// What the descriptor writes to the divider register: the divisor less
    /// one.
    pub closed spec fn spec_divval(&self) -> u16 {
        self.divval
    }

    /// The divisor that this descriptor selects.
    pub open spec fn spec_divisor(&self) -> u32 {
        (self.spec_divval() + 1) as u32
    }

    /// Computes the descriptor that derives `requested_rate` from a source
    /// that runs at `source_frequency`.
    ///
    /// Succeeds exactly where one divisor from 1 to [`MAX_DIVISOR`]
    /// reproduces the rate with nothing left over, and then selects that
    /// divisor.
    pub fn compute(source_frequency: u32, requested_rate: u32) -> (result: Result<
        Self,
        UnsupportedRate,
    >)
        ensures
            result is Ok <==> supported(source_frequency as int, requested_rate as int),
            result matches Ok(clock) ==> reproduces(
                source_frequency as int,
                clock.divisor() as int,
                requested_rate as int,
            ),
    {
        if requested_rate == 0 {
            return Err(UnsupportedRate);
        }
        let divisor: u32 = source_frequency / requested_rate;
        let rest: u32 = source_frequency % requested_rate;
        if rest != 0 || divisor == 0 || divisor > MAX_DIVISOR {
            proof {
                assert forall|d: int|
                    !reproduces(source_frequency as int, d, requested_rate as int) by {
                    if reproduces(source_frequency as int, d, requested_rate as int) {
                        lemma_reproducing_divisor(
                            source_frequency as int,
                            d,
                            requested_rate as int,
                        );
                    }
                }
            }
            return Err(UnsupportedRate);
        }
        proof {
            vstd::arithmetic::div_mod::lemma_fundamental_div_mod(
                source_frequency as int,
                requested_rate as int,
            );
            vstd::arithmetic::mul::lemma_mul_is_commutative(
                divisor as int,
                requested_rate as int,
            );
            assert(reproduces(source_frequency as int, divisor as int, requested_rate as int));
        }
        Ok(ClockDescriptor { divval: (divisor - 1) as u16, _clock: PhantomData })
    }

    /// What the descriptor writes to the divider register: the divisor less
    /// one.
    #[verifier::when_used_as_spec(spec_divval)]
    pub fn divval(&self) -> (divval: u16)
        ensures
            divval == self.spec_divval(),
    {
        self.divval
    }

    /// The divisor that this descriptor selects.
    #[verifier::when_used_as_spec(spec_divisor)]
    pub fn divisor(&self) -> (divisor: u32)
        ensures
            divisor == self.spec_divisor(),
            1 <= divisor <= MAX_DIVISOR,
    {
        self.divval as u32 + 1
    }
}

/// A divisor that reproduces a rate is the quotient of source and rate, and
/// the division leaves nothing over.
pub proof fn lemma_reproducing_divisor(source_frequency: int, divisor: int, rate: int)
    requires
        reproduces(source_frequency, divisor, rate),
    ensures
        divisor == source_frequency / rate,
        source_frequency % rate == 0,
{
    vstd::arithmetic::div_mod::lemma_fundamental_div_mod_converse(
        source_frequency,
        rate,
        divisor,
        0,
    );
}

/// A descriptor never stands for another rate than the one asked for: the
/// rate derived with a reproducing divisor is the requested rate itself, and
/// no second divisor reproduces it.
pub proof fn lemma_derived_rate_is_exact(source_frequency: int, divisor: int, rate: int)
    requires
        reproduces(source_frequency, divisor, rate),
    ensures
        derived_rate(source_frequency, divisor) == rate,
        source_frequency % divisor == 0,
        forall|other: int| reproduces(source_frequency, other, rate) ==> other == divisor,
{
    vstd::arithmetic::mul::lemma_mul_is_commutative(divisor, rate);
    vstd::arithmetic::div_mod::lemma_fundamental_div_mod_converse(
        source_frequency,
        divisor,
        rate,
        0,
    );
    assert forall|other: int| reproduces(source_frequency, other, rate) implies other
        == divisor by {
        lemma_reproducing_divisor(source_frequency, other, rate);
        lemma_reproducing_divisor(source_frequency, divisor, rate);
    }
}

/// A clock descriptor that can be selected for the peripheral `PERIPH`.
pub trait PeripheralClock<PERIPH: PeripheralClockSelector> {
    /// The value that selects the descriptor's source.
    spec fn selector(&self) -> u8;

    /// Selects the descriptor's source as the functional clock of the
    /// peripheral, which feeds it to the peripheral. A functional clock is
    /// selected for a peripheral with an open gate only.
    fn select_clock(&self, handle: &mut Handle, peripheral: &mut PERIPH)
        requires
            old(peripheral).gate_open(),
        ensures
            self.selector() != NO_CLOCK,
            final(handle)@ == old(handle)@.with_selector(
                PERIPH::register_num(),
                self.selector(),
            ),
            final(peripheral).source() == self.selector(),
            final(peripheral).gate_open() == old(peripheral).gate_open(),
            final(peripheral).regs() == old(peripheral).regs(),
    ;
}

impl<PERIPH: PeripheralClockSelector, CLOCK: PeripheralClockSource> PeripheralClock<
    PERIPH,
> for ClockDescriptor<CLOCK> {
    open spec fn selector(&self) -> u8 {
        CLOCK::selector()
    }

    fn select_clock(&self, handle: &mut Handle, peripheral: &mut PERIPH) {
        handle.select(peripheral, CLOCK::selector_value());
    }
}

} // verus!
