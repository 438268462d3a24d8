//! Typed resources for the peripherals of an LPC8xx microcontroller, with the
//! register numbers of the LPC845.
//!
//! Every peripheral, pin and pin function of a chip is a value, and a chip
//! hands its values out once. Operations that are only valid in one
//! lifecycle phase exist only on handles that carry that phase as a type
//! parameter, and each transition consumes the old handle and returns the
//! new one. A program may model more than one chip; the handles of one chip
//! are not used with the switch matrix of another, which the contracts of
//! [`swm::Function::assign`] and [`swm::Function::unassign`] ask of their
//! callers.
//!
//! The registers are modelled as plain values held by the peripheral tokens
//! in [`pac`], so every contract in this crate is a statement about register
//! contents:
//!
//! - [`syscon`] holds the clock gates, the reset lines and the choice of
//!   functional clocks, and computes clock descriptors.
//! - [`swm`] routes functions to pins. What it states of a routing is
//!   collected in [`swm::routing`].
//! - [`spi`] and [`usart`] are drivers. A token accepts a register write
//!   only while its clocks run, so a driver that wrote a register before it
//!   had opened the clock gate and selected the functional clock would not
//!   verify.
//! - [`peripherals`] hands out all resources of a chip, once.
//!
//! A handle is well formed (`wf`) if its tag says of the hardware what the
//! registers say. The transitions return well-formed handles, and the
//! operations on an enabled handle expect one. A pin or a function agrees
//! with a routing (`agrees`) if its tag says of it what the routing says.

#![allow(non_camel_case_types)]
#![allow(non_snake_case)]

pub mod foreign;
pub mod init_state;
pub mod pac;
pub mod syscon;
pub mod pins;
pub mod swm;
pub mod spi;
pub mod usart;
pub mod peripherals;

pub use peripherals::{Device, Peripherals};
