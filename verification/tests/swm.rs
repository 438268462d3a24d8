use core::marker::PhantomData;
use lpc8xx_hal::pac::swm0::NO_PIN;
use lpc8xx_hal::pac::SWM0;
use lpc8xx_hal::pins;
use lpc8xx_hal::pins::{Pin, PIO0_13};
use lpc8xx_hal::swm;
use lpc8xx_hal::swm::{Function, FunctionKind, Kind, SPI0_MOSI, SPI0_SCK};
use lpc8xx_hal::{Device, Peripherals};

const SCK: Kind = Kind::Movable { slot: 15 };
const MOSI: Kind = Kind::Movable { slot: 16 };
const SWCLK: Kind = Kind::Fixed { bit: 5, pin: 3 };
const ADC_0: Kind = Kind::Fixed { bit: 14, pin: 7 };

/// Answers at build time whether a handle type is one that `assign` takes.
struct Probe<T>(PhantomData<T>);

trait NotAssignable {
    fn takes_part_in_assign(&self) -> bool {
        false
    }
}

impl<T> NotAssignable for Probe<T> {}

impl<P: pins::Trait> Probe<Pin<P, pins::state::Unassigned>> {
    fn takes_part_in_assign(&self) -> bool {
        true
    }
}

impl<T: FunctionKind> Probe<Function<T, swm::state::Unassigned>> {
    fn takes_part_in_assign(&self) -> bool {
        true
    }
}

fn probe<T>(_: &T) -> Probe<T> {
    Probe(PhantomData)
}

#[test]
fn the_switch_matrix_is_enabled_through_its_clock_gate() {
    let mut device = Device::new();
    let p = Peripherals::take(&mut device).unwrap();
    let mut syscon = p.SYSCON;
    let before = p.SWM.handle.registers();

    let swm = p.SWM.handle.enable(&mut syscon);
    assert!(syscon.is_clock_enabled::<SWM0>());
    assert!(swm.is_live());
    assert_eq!(swm.registers(), before);

    let swm = swm.disable(&mut syscon);
    assert!(!syscon.is_clock_enabled::<SWM0>());
    assert_eq!(swm.registers(), before);
}

#[test]
fn assign_links_function_and_pin() {
    let mut device = Device::new();
    let p = Peripherals::take(&mut device).unwrap();
    let mut syscon = p.SYSCON;
    let mut swm = p.SWM.handle.enable(&mut syscon);
    let sck = p.SWM.movable_functions.spi0_sck;
    let pin = p.pins.pio0_13.into_swm_pin();
    assert_eq!(sck.kind(), SCK);
    assert!(!sck.is_assigned());
    assert!(!pin.is_assigned());
    assert!(swm.is_pin_free(13));

    let (sck, pin) = sck.assign(pin, &mut swm);

    assert!(sck.is_assigned());
    assert!(pin.is_assigned());
    assert_eq!(sck.pin(), Some(13));
    assert_eq!(pin.function(), Some(SCK));
    assert_eq!(pin.id(), 13);
    assert_eq!(swm.assigned_pin(SCK), Some(13));
    assert_eq!(swm.registers().pinassign[15], 13);
    assert!(!swm.is_pin_free(13));
    assert!(swm.is_pin_free(14));
    assert_eq!(swm.assigned_pin(MOSI), None);
}

#[test]
fn unassign_releases_function_and_pin() {
    let mut device = Device::new();
    let p = Peripherals::take(&mut device).unwrap();
    let mut syscon = p.SYSCON;
    let mut swm = p.SWM.handle.enable(&mut syscon);
    let reset = swm.registers();
    let (sck, pin) = p
        .SWM
        .movable_functions
        .spi0_sck
        .assign(p.pins.pio0_13.into_swm_pin(), &mut swm);

    let (sck, pin) = sck.unassign(pin, &mut swm);

    assert!(!sck.is_assigned());
    assert!(!pin.is_assigned());
    assert_eq!(sck.pin(), None);
    assert_eq!(pin.function(), None);
    assert_eq!(swm.assigned_pin(SCK), None);
    assert_eq!(swm.registers().pinassign[15], NO_PIN);
    assert!(swm.is_pin_free(13));
    assert_eq!(swm.registers(), reset);
}

#[test]
fn assign_unassign_assign_gives_what_the_first_assign_gave() {
    let mut device = Device::new();
    let p = Peripherals::take(&mut device).unwrap();
    let mut syscon = p.SYSCON;
    let mut swm = p.SWM.handle.enable(&mut syscon);
    let (mosi, pin14) = p
        .SWM
        .movable_functions
        .spi0_mosi
        .assign(p.pins.pio0_14.into_swm_pin(), &mut swm);

    let (sck, pin) = p
        .SWM
        .movable_functions
        .spi0_sck
        .assign(p.pins.pio0_13.into_swm_pin(), &mut swm);
    let first = swm.registers();
    let (sck, pin) = sck.unassign(pin, &mut swm);
    assert_ne!(swm.registers(), first);
    let (sck, pin) = sck.assign(pin, &mut swm);

    assert_eq!(swm.registers(), first);
    assert_eq!(sck.pin(), Some(13));
    assert_eq!(pin.function(), Some(SCK));
    assert_eq!(mosi.pin(), Some(14));
    assert_eq!(pin14.function(), Some(MOSI));
    assert_eq!(swm.assigned_pin(MOSI), Some(14));
}

#[test]
fn an_assigned_pin_takes_no_second_function() {
    let mut device = Device::new();
    let p = Peripherals::take(&mut device).unwrap();
    let mut syscon = p.SYSCON;
    let mut swm = p.SWM.handle.enable(&mut syscon);
    let sck: Function<SPI0_SCK, swm::state::Unassigned> = p.SWM.movable_functions.spi0_sck;
    let mosi: Function<SPI0_MOSI, swm::state::Unassigned> = p.SWM.movable_functions.spi0_mosi;
    let pin: Pin<PIO0_13, pins::state::Unassigned> = p.pins.pio0_13.into_swm_pin();
    assert!(probe(&pin).takes_part_in_assign());
    assert!(probe(&mosi).takes_part_in_assign());

    let (sck, pin): (
        Function<SPI0_SCK, swm::state::Assigned<PIO0_13>>,
        Pin<PIO0_13, pins::state::Assigned<SPI0_SCK>>,
    ) = sck.assign(pin, &mut swm);

    // `mosi.assign(pin, &mut swm)` is refused when the program is built: the
    // pin that came back is no `Pin<PIO0_13, Unassigned>`.
    assert!(!probe(&pin).takes_part_in_assign());
    assert!(probe(&mosi).takes_part_in_assign());
    assert!(!swm.is_pin_free(pin.id()));
    assert_eq!(pin.function(), Some(SCK));
    assert_eq!(sck.pin(), Some(13));
    assert_eq!(mosi.pin(), None);
    assert_eq!(swm.assigned_pin(MOSI), None);
    assert_eq!(swm.registers().pinassign[16], NO_PIN);
}

#[test]
fn an_assigned_function_is_assigned_to_no_second_pin() {
    let mut device = Device::new();
    let p = Peripherals::take(&mut device).unwrap();
    let mut syscon = p.SYSCON;
    let mut swm = p.SWM.handle.enable(&mut syscon);
    let sck = p.SWM.movable_functions.spi0_sck;
    let other = p.pins.pio0_14.into_swm_pin();
    assert!(probe(&sck).takes_part_in_assign());

    let (sck, _pin) = sck.assign(p.pins.pio0_13.into_swm_pin(), &mut swm);

    // `sck.assign(other, &mut swm)` is refused when the program is built:
    // the function that came back is no `Function<SPI0_SCK, Unassigned>`.
    assert!(!probe(&sck).takes_part_in_assign());
    assert!(probe(&other).takes_part_in_assign());
    assert_eq!(swm.assigned_pin(SCK), Some(13));
    assert!(swm.is_pin_free(14));
}

#[test]
fn a_fixed_function_is_switched_on_and_off() {
    let mut device = Device::new();
    let p = Peripherals::take(&mut device).unwrap();
    let mut syscon = p.SYSCON;
    let mut swm = p.SWM.handle.enable(&mut syscon);
    assert!(swm.registers().pinenable0[5]);
    assert!(!swm.is_pin_free(3));

    let (swclk, pin3) = p.SWM.fixed_functions.swclk.unassign(p.pins.pio0_3, &mut swm);
    assert!(!swm.registers().pinenable0[5]);
    assert_eq!(swm.assigned_pin(SWCLK), None);
    assert_eq!(swclk.pin(), None);
    assert_eq!(pin3.function(), None);
    assert!(swm.is_pin_free(3));
    let pin3 = pin3.into_unused_pin();
    assert_eq!(pin3.id(), 3);

    let (swclk, pin3) = swclk.assign(pin3.into_swm_pin(), &mut swm);
    assert!(swm.registers().pinenable0[5]);
    assert_eq!(swm.assigned_pin(SWCLK), Some(3));
    assert_eq!(swclk.pin(), Some(3));
    assert_eq!(pin3.function(), Some(SWCLK));

    assert!(!swm.registers().pinenable0[14]);
    let (adc, pin7) = p
        .SWM
        .fixed_functions
        .adc_0
        .assign(p.pins.pio0_7.into_swm_pin(), &mut swm);
    assert!(swm.registers().pinenable0[14]);
    assert_eq!(swm.assigned_pin(ADC_0), Some(7));
    assert_eq!(adc.kind(), ADC_0);
    assert_eq!(pin7.function(), Some(ADC_0));
    assert!(swm.registers().pinassign.iter().all(|pin| *pin == NO_PIN));
}

#[test]
fn the_switch_matrix_knows_its_functions() {
    let mut device = Device::new();
    let p = Peripherals::take(&mut device).unwrap();
    assert!(SCK.is_valid());
    assert!(Kind::Movable { slot: 59 }.is_valid());
    assert!(!Kind::Movable { slot: 60 }.is_valid());
    assert!(SWCLK.is_valid());
    assert!(!Kind::Fixed { bit: 4, pin: 2 }.is_valid());
    assert!(!Kind::Fixed { bit: 6, pin: 8 }.is_valid());
    assert!(!Kind::Fixed { bit: 32, pin: 3 }.is_valid());
    assert_eq!(swm::wired_pin(5), Some(3));
    assert_eq!(swm::wired_pin(6), Some(2));
    assert_eq!(swm::wired_pin(9), Some(5));
    assert_eq!(swm::wired_pin(14), Some(7));
    assert_eq!(swm::wired_pin(0), None);
    assert_eq!(p.SWM.handle.assigned_pin(Kind::Movable { slot: 60 }), None);
    assert_eq!(p.SWM.handle.assigned_pin(Kind::Fixed { bit: 5, pin: 2 }), None);
    assert_eq!(p.SWM.handle.assigned_pin(SWCLK), Some(3));
}
