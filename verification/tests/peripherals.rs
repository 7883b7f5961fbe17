use stm32l0x3_hal::exti::{ExtiTrigger, GpioExtiSource};
use stm32l0x3_hal::i2c::standard_mode_timing;
use stm32l0x3_hal::lpusart::{LpUsartConfig, StopBits, WordLength};
use stm32l0x3_hal::rcc::{CFGR, LpUsartClock};
use stm32l0x3_hal::sequencer::Sequencer;
use stm32l0x3_hal::time::Hertz;

#[test]
fn exti_source_codes_follow_the_port_order() {
    assert_eq!(GpioExtiSource::GPIOA.syscfg_bits(), 0b0000);
    assert_eq!(GpioExtiSource::GPIOB.syscfg_bits(), 0b0001);
    assert_eq!(GpioExtiSource::GPIOC.syscfg_bits(), 0b0010);
    assert_eq!(GpioExtiSource::GPIOD.syscfg_bits(), 0b0011);
    assert_eq!(GpioExtiSource::GPIOE.syscfg_bits(), 0b0100);
    assert_eq!(GpioExtiSource::GPIOH.syscfg_bits(), 0b0101);
}

#[test]
fn exti_triggers_decompose_into_edges() {
    assert!(ExtiTrigger::Rising.triggers_rising());
    assert!(!ExtiTrigger::Rising.triggers_falling());
    assert!(!ExtiTrigger::Falling.triggers_rising());
    assert!(ExtiTrigger::Falling.triggers_falling());
    assert!(ExtiTrigger::RisingAndFalling.triggers_rising());
    assert!(ExtiTrigger::RisingAndFalling.triggers_falling());
}

#[test]
fn lpusart_clock_selection_codes() {
    assert_eq!(LpUsartClock::ApbClock.ccipr_bits(), (false, false));
    assert_eq!(LpUsartClock::SystemClock.ccipr_bits(), (false, true));
    assert_eq!(LpUsartClock::HSI16Clock.ccipr_bits(), (true, false));
    assert_eq!(LpUsartClock::LSEClock.ccipr_bits(), (true, true));
}

#[test]
fn word_length_and_stop_bit_codes() {
    assert_eq!(WordLength::Word8Bits.lpuart_cr1_bits(), (false, false));
    assert_eq!(WordLength::Word9Bits.lpuart_cr1_bits(), (false, true));
    assert_eq!(WordLength::Word7Bits.lpuart_cr1_bits(), (true, false));
    assert_eq!(StopBits::StopBits1.lpuart_cr2_bits(), 0b00);
    assert_eq!(StopBits::StopBits2.lpuart_cr2_bits(), 0b10);
}

#[test]
fn lpusart_config_builder_records_each_setting() {
    let config = LpUsartConfig::new();
    assert_eq!(config.word_length, WordLength::Word8Bits);
    assert!(!config.parity);
    assert_eq!(config.stop_bits, StopBits::StopBits1);
    assert_eq!(config.baud_rate, 115200);

    let config = config
        .word_length(WordLength::Word7Bits)
        .parity(true)
        .stop_bits(StopBits::StopBits2)
        .baud_rate(9600);
    assert_eq!(config.word_length, WordLength::Word7Bits);
    assert!(config.parity);
    assert_eq!(config.stop_bits, StopBits::StopBits2);
    assert_eq!(config.baud_rate, 9600);
}

fn frozen_internal_clocks() -> stm32l0x3_hal::rcc::Clocks {
    let tree = CFGR::new().resolve().unwrap();
    let mut seq = Sequencer::new(tree);
    seq.advance(false); // flash
    seq.advance(false); // enable clocks
    seq.advance(false); // poll oscillator
    seq.advance(true); // ready -> switch
    seq.advance(false); // finished
    seq.clocks().unwrap()
}

#[test]
fn lpusart_register_values_scale_the_clock_by_the_baud_rate() {
    let clocks = frozen_internal_clocks();
    assert_eq!(clocks.sysclk(), Hertz(16_000_000));
    let config = LpUsartConfig::new().parity(true).stop_bits(StopBits::StopBits2);
    let values = config.register_values(&clocks);
    // (16,000,000 * 64) / 115,200 = 8,888 remainder discarded; the
    // register holds four times that.
    assert_eq!(values.brr, 35_552);
    assert!(!values.m1);
    assert!(!values.m0);
    assert!(values.parity_select);
    assert_eq!(values.stop_bits, 0b10);
}

#[test]
fn i2c_standard_mode_timing_splits_the_low_and_high_phases() {
    // 16 MHz APB1 quartered is 4 MHz; at 100 kHz that is 40 cycles a
    // period, so the low phase counts 39 and the high phase 35.
    let timing = standard_mode_timing(16_000_000, 100_000);
    assert_eq!(timing.presc, 1);
    assert_eq!(timing.scll, 39);
    assert_eq!(timing.sclh, 35);
    assert_eq!(timing.sdadel, 2);
    assert_eq!(timing.scldel, 4);

    let timing = standard_mode_timing(32_000_000, 100_000);
    assert_eq!(timing.scll, 79);
    assert_eq!(timing.sclh, 75);
}
