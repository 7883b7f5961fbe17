use stm32l0x3_hal::exti::Exti;
use stm32l0x3_hal::i2c::I2c;
use stm32l0x3_hal::lpusart::{LpUsart, LpUsartRxPin, LpUsartTxPin};
use stm32l0x3_hal::rcc::{CCIPR, CFGR, Rcc};
use stm32l0x3_hal::time::Hertz;

#[test]
fn hertz_is_a_plain_frequency() {
    let f = Hertz(8_000_000);
    assert_eq!(f, Hertz(8_000_000));
    assert_ne!(f, Hertz(8_000_001));
    assert_eq!(f.0, 8_000_000);
}

#[test]
fn constraining_yields_the_empty_configuration() {
    let rcc = Rcc::new();
    assert_eq!(rcc.cfgr, CFGR::new());
    let _ = CCIPR::new();
}

#[test]
fn constraining_yields_one_token_per_interrupt_line() {
    let exti = Exti::new();
    // Each token moves independently, as a capability should.
    let _line0 = exti.exti0;
    let _line15 = exti.exti15;
}

#[test]
fn bus_gate_tokens_move_independently() {
    let rcc = Rcc::new();
    let _ahb = rcc.ahb;
    let _apb1 = rcc.apb1;
    let _apb2 = rcc.apb2;
    let _gpio = rcc.gpio;
}

struct TxProbe;
struct RxProbe;

impl LpUsartTxPin for TxProbe {}

impl LpUsartRxPin for RxProbe {}

#[test]
fn lpusart_pairs_with_its_pins() {
    let _usart: LpUsart<TxProbe, RxProbe> = LpUsart::new(TxProbe, RxProbe);
}

#[test]
fn i2c_releases_what_it_was_given() {
    let i2c = I2c::new(7u8, (1u8, 2u8));
    let (bus, pins) = i2c.free();
    assert_eq!(bus, 7);
    assert_eq!(pins, (1, 2));
}
