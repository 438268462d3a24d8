use lpc8xx_hal::pac::spi0;
use lpc8xx_hal::pac::swm0::NO_PIN;
use lpc8xx_hal::pac::usart0;
use lpc8xx_hal::pac::{Peripheral, SPI0, SPI1, SWM0, USART0};
use lpc8xx_hal::swm::Kind;
use lpc8xx_hal::syscon::NO_CLOCK;
use lpc8xx_hal::{Device, Peripherals};

#[test]
fn the_resources_are_handed_out_once() {
    let mut device = Device::new();
    assert!(!device.is_taken());
    let first = Peripherals::take(&mut device);
    assert!(first.is_some());
    assert!(device.is_taken());
    assert!(Peripherals::take(&mut device).is_none());
    drop(first);
    assert!(Peripherals::take(&mut device).is_none());
    assert!(device.is_taken());
}

#[test]
fn another_chip_has_resources_of_its_own() {
    let mut first = Device::new();
    let mut second = Device::new();
    assert!(Peripherals::take(&mut first).is_some());
    assert!(Peripherals::take(&mut second).is_some());
    assert!(Peripherals::take(&mut second).is_none());
}

#[test]
fn the_resources_are_in_their_reset_state() {
    let mut device = Device::new();
    let p = Peripherals::take(&mut device).unwrap();

    assert!(!p.SYSCON.is_clock_enabled::<SPI0>());
    assert!(!p.SYSCON.is_clock_enabled::<SPI1>());
    assert!(!p.SYSCON.is_clock_enabled::<USART0>());
    assert!(!p.SYSCON.is_clock_enabled::<SWM0>());
    assert!(!p.SYSCON.is_reset_asserted::<SPI0>());
    assert_eq!(p.SYSCON.selected_clock::<SPI0>(), NO_CLOCK);

    let routing = p.SWM.handle.registers();
    assert!(routing.pinassign.iter().all(|pin| *pin == NO_PIN));
    for bit in 0..32 {
        assert_eq!(routing.pinenable0[bit], bit == 5 || bit == 6 || bit == 9);
    }
    assert_eq!(p.SWM.handle.assigned_pin(Kind::Fixed { bit: 5, pin: 3 }), Some(3));
    assert_eq!(p.SWM.fixed_functions.swclk.pin(), Some(3));
    assert_eq!(p.pins.pio0_3.function(), Some(Kind::Fixed { bit: 5, pin: 3 }));
    assert_eq!(p.SWM.fixed_functions.swdio.pin(), Some(2));
    assert_eq!(p.pins.pio0_2.function(), Some(Kind::Fixed { bit: 6, pin: 2 }));
    assert_eq!(p.SWM.fixed_functions.resetn.pin(), Some(5));
    assert_eq!(p.pins.pio0_5.function(), Some(Kind::Fixed { bit: 9, pin: 5 }));
    assert_eq!(p.SWM.fixed_functions.adc_0.pin(), None);
    assert_eq!(p.pins.pio0_7.function(), None);
    assert_eq!(p.SWM.movable_functions.spi0_sck.pin(), None);
    assert_eq!(p.pins.pio0_0.id(), 0);
    assert_eq!(p.pins.pio0_31.id(), 31);
    for pin in 0..32 {
        let free = pin != 2 && pin != 3 && pin != 5;
        assert_eq!(p.SWM.handle.is_pin_free(pin), free);
    }

    let spi = p.SPI0.free();
    assert!(!spi.is_clocked());
    assert_eq!(
        *spi.registers(),
        spi0::RegisterBlock {
            cfg: spi0::Cfg { enable: false, master: false, cpha: false, cpol: false },
            div: spi0::Div { divval: 0 },
            stat: spi0::Stat { rxrdy: false, txrdy: false },
            rxdat: spi0::Rxdat { rxdat: 0 },
            txdat: spi0::Txdat { data: 0 },
            txctl: spi0::Txctl { len: 0 },
        }
    );
    assert_eq!(*p.SPI1.free().registers(), spi0::RegisterBlock::reset());
    assert!(!p.USART0.is_clocked());
    assert_eq!(
        *p.USART0.registers(),
        usart0::RegisterBlock {
            stat: usart0::Stat { txrdy: false, txidle: false },
            txdat: usart0::Txdat { txdat: 0 },
            intenset: usart0::Intenset { txrdyen: false },
        }
    );
}
