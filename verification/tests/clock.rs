use lpc8xx_hal::syscon::clock_source::{
    ClockDescriptor, SpiClock, UnsupportedRate, FRG0, IOSC, MAX_DIVISOR,
};

#[test]
fn compute_selects_the_exact_divisor() {
    let clock = ClockDescriptor::<IOSC>::compute(12_000_000, 96_000).unwrap();
    assert_eq!(clock.divisor(), 125);
    assert_eq!(clock.divval(), 124);
    assert_eq!(12_000_000 / clock.divisor(), 96_000);
    assert_eq!(12_000_000 % clock.divisor(), 0);
}

#[test]
fn compute_for_an_spi_block_gives_the_same_divisor() {
    let clock = SpiClock::<FRG0>::compute(30_000_000, 1_000_000).unwrap();
    assert_eq!(clock.divisor(), 30);
    assert_eq!(clock.divval(), 29);
}

#[test]
fn compute_refuses_115200_from_12_mhz() {
    // The nearest divisor is 104, which gives 115384 and not 115200.
    let nearest: u32 = (12_000_000 + 115_200 / 2) / 115_200;
    assert_eq!(nearest, 104);
    assert_ne!(nearest * 115_200, 12_000_000);
    let result = ClockDescriptor::<IOSC>::compute(12_000_000, 115_200);
    assert_eq!(result.err(), Some(UnsupportedRate));
}

#[test]
fn compute_accepts_a_uart_rate_with_an_exact_divisor() {
    // 104 * 115200 = 11980800: from that source 115200 is reproduced exactly.
    let clock = ClockDescriptor::<IOSC>::compute(11_980_800, 115_200).unwrap();
    assert_eq!(clock.divisor(), 104);
}

#[test]
fn compute_refuses_a_rate_of_zero() {
    assert!(ClockDescriptor::<IOSC>::compute(12_000_000, 0).is_err());
    assert!(ClockDescriptor::<IOSC>::compute(0, 0).is_err());
}

#[test]
fn compute_refuses_a_rate_above_the_source() {
    assert!(ClockDescriptor::<IOSC>::compute(12_000_000, 12_000_001).is_err());
    assert!(ClockDescriptor::<IOSC>::compute(0, 1).is_err());
}

#[test]
fn compute_accepts_the_source_rate_itself() {
    let clock = ClockDescriptor::<IOSC>::compute(12_000_000, 12_000_000).unwrap();
    assert_eq!(clock.divisor(), 1);
    assert_eq!(clock.divval(), 0);
}

#[test]
fn compute_accepts_the_largest_divisor_and_no_larger() {
    assert_eq!(MAX_DIVISOR, 65_536);
    let clock = ClockDescriptor::<IOSC>::compute(65_536 * 100, 100).unwrap();
    assert_eq!(clock.divisor(), 65_536);
    assert_eq!(clock.divval(), 65_535);
    assert!(ClockDescriptor::<IOSC>::compute(65_537 * 100, 100).is_err());
    assert!(ClockDescriptor::<IOSC>::compute(u32::MAX, 1).is_err());
}

#[test]
fn compute_is_exact_or_fails() {
    let sources: [u32; 7] =
        [1, 65_536, 750_000, 12_000_000, 11_980_800, 30_000_000, u32::MAX];
    let rates: [u32; 10] = [
        1, 3, 183, 9_600, 115_200, 250_000, 1_000_000, 12_000_000, 30_000_001, u32::MAX,
    ];
    for source in sources {
        for rate in rates {
            let exact = (1..=u64::from(MAX_DIVISOR))
                .find(|divisor| divisor * u64::from(rate) == u64::from(source));
            match ClockDescriptor::<IOSC>::compute(source, rate) {
                Ok(clock) => {
                    assert_eq!(exact, Some(u64::from(clock.divisor())));
                    assert_eq!(source / clock.divisor(), rate);
                    assert_eq!(source % clock.divisor(), 0);
                    assert_eq!(u32::from(clock.divval()) + 1, clock.divisor());
                }
                Err(UnsupportedRate) => assert_eq!(exact, None),
            }
        }
    }
}
