//! The types of `embedded-hal`, `nb` and `void` that the drivers take and
//! return, declared for the verifier.
//!
//! The first four are declared with their fields and variants, so what is
//! proved of a value of them rests on the definition in the crate itself.

use vstd::prelude::*;

verus! {

/// `embedded_hal::spi::Polarity`: an enum of the variants `IdleLow` and
/// `IdleHigh`, both without fields.
#[verifier::external_type_specification]
pub struct ExPolarity(embedded_hal::spi::Polarity);

/// `embedded_hal::spi::Phase`: an enum of the variants
/// `CaptureOnFirstTransition` and `CaptureOnSecondTransition`, both without
/// fields.
#[verifier::external_type_specification]
pub struct ExPhase(embedded_hal::spi::Phase);

/// `embedded_hal::spi::Mode`: a struct of the public fields `polarity` and
/// `phase`.
#[verifier::external_type_specification]
pub struct ExMode(embedded_hal::spi::Mode);

/// `nb::Error`: an enum of the variant `Other`, which holds the error of the
/// operation, and of the variant `WouldBlock`.
#[verifier::external_type_specification]
#[verifier::reject_recursive_types(E)]
pub struct ExError<E>(nb::Error<E>);

/// `void::Void`: an enum without variants, the error of an operation that
/// does not fail. Nothing is stated of it.
#[verifier::external_type_specification]
#[verifier::external_body]
pub struct ExVoid(void::Void);

} // verus!
