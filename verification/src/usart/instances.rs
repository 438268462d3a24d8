//! The USARTs of the chip.

use crate::pac::usart0::RegisterBlock;
use crate::pac::{Peripheral, USART0};
use crate::syscon::{ClockControl, PeripheralClockSelector};
use vstd::prelude::*;

verus! {

/// A USART of the chip.
pub trait Instance: ClockControl + Peripheral<
    Registers = RegisterBlock,
> + PeripheralClockSelector {

}

impl ClockControl for USART0 {
    open spec fn clock_bit() -> int {
        14
    }

    fn clock_index() -> (bit: usize) {
        14
    }
}

impl PeripheralClockSelector for USART0 {
    open spec fn register_num() -> int {
        0
    }

    fn register_index() -> (register: usize) {
        0
    }
}

impl Instance for USART0 {

}

} // verus!
