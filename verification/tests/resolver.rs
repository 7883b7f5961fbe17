use stm32l0x3_hal::rcc::{
    CFGR, ClockError, ExternalHseType, HseConfig, PllConfig, hpre_code_for_ratio, hpre_divider,
    ppre_code_for_ratio, ppre_divider,
};
use stm32l0x3_hal::time::Hertz;

#[test]
fn no_oscillator_no_targets_selects_bypass() {
    let cfgr = CFGR::new();
    let tree = cfgr.resolve().unwrap();
    assert!(tree.pll.is_none());
    assert!(!tree.use_hse);
    assert_eq!(tree.hpre_bits, 0b0111);
    assert_eq!(tree.ppre1_bits, 0b011);
    assert_eq!(tree.ppre2_bits, 0b011);
    assert_eq!(tree.ppre1, 1);
    assert_eq!(tree.ppre2, 1);
    assert!(!tree.one_wait_state);
    assert_eq!(tree.sysclk, 16_000_000);
    assert_eq!(tree.hclk, 16_000_000);
    assert_eq!(tree.pclk1, 16_000_000);
    assert_eq!(tree.pclk2, 16_000_000);
}

#[test]
fn crystal_above_ceiling_is_fatal() {
    let cfgr = CFGR::new()
        .external_hse(ExternalHseType::Crystal, Hertz(8_000_000))
        .sysclk(Hertz(32_000_000));
    assert_eq!(cfgr.resolve(), Err(ClockError::SysclkExceedsCeiling));
}

#[test]
fn clock_signal_at_ceiling_is_accepted() {
    let cfgr = CFGR::new()
        .external_hse(ExternalHseType::Clock, Hertz(8_000_000))
        .sysclk(Hertz(32_000_000));
    let tree = cfgr.resolve().unwrap();
    assert_eq!(tree.pll, Some(PllConfig { multiply: 8, divide: 2 }));
    assert!(tree.use_hse);
    assert_eq!(tree.sysclk, 32_000_000);
    assert!(tree.one_wait_state);
}

#[test]
fn crystal_within_ceiling_is_accepted() {
    let cfgr = CFGR::new()
        .external_hse(ExternalHseType::Crystal, Hertz(8_000_000))
        .sysclk(Hertz(24_000_000));
    let tree = cfgr.resolve().unwrap();
    assert_eq!(tree.pll, Some(PllConfig { multiply: 6, divide: 2 }));
    assert_eq!(tree.sysclk, 24_000_000);
}

#[test]
fn bus_ratio_of_seven_selects_the_divide_by_eight_bucket() {
    // 16 MHz system clock over a 2,285,714 Hz APB1 target: the needed
    // ratio is 7, which has no exact divider; the 6..=11 bucket's
    // divide-by-eight code must be chosen.
    let cfgr = CFGR::new().pclk1(Hertz(2_285_714));
    let tree = cfgr.resolve().unwrap();
    assert_eq!(tree.hclk / 2_285_714, 7);
    assert_eq!(tree.ppre1_bits, 0b110);
    assert_eq!(tree.ppre1, 8);
    assert_eq!(tree.pclk1, 2_000_000);
}

#[test]
fn resolving_twice_yields_identical_trees() {
    let cfgr = CFGR::new()
        .external_hse(ExternalHseType::Clock, Hertz(8_000_000))
        .sysclk(Hertz(32_000_000))
        .hclk(Hertz(16_000_000))
        .pclk1(Hertz(4_000_000))
        .pclk2(Hertz(8_000_000));
    let first = cfgr.resolve();
    let second = cfgr.resolve();
    assert_eq!(first, second);
}

#[test]
fn raising_a_bus_target_never_raises_its_divider() {
    let slow = CFGR::new().pclk1(Hertz(2_000_000)).resolve().unwrap();
    let fast = CFGR::new().pclk1(Hertz(4_000_000)).resolve().unwrap();
    assert!(fast.ppre1 <= slow.ppre1);
    assert_eq!(slow.ppre1, 8);
    assert_eq!(fast.ppre1, 4);
}

#[test]
fn raising_the_ahb_target_never_raises_its_divider() {
    let slow = CFGR::new().hclk(Hertz(2_000_000)).resolve().unwrap();
    let fast = CFGR::new().hclk(Hertz(4_000_000)).resolve().unwrap();
    assert!(hpre_divider(fast.hpre_bits) <= hpre_divider(slow.hpre_bits));
    assert_eq!(slow.hclk, 2_000_000);
    assert_eq!(fast.hclk, 4_000_000);
}

#[test]
fn raising_the_second_bus_target_never_raises_its_divider() {
    let slow = CFGR::new().pclk2(Hertz(1_000_000)).resolve().unwrap();
    let fast = CFGR::new().pclk2(Hertz(8_000_000)).resolve().unwrap();
    assert!(fast.ppre2 <= slow.ppre2);
    assert_eq!(slow.ppre2, 16);
    assert_eq!(fast.ppre2, 2);
}

#[test]
fn unsupported_multiplier_is_fatal() {
    // 8 MHz input, 20 MHz system clock: the PLL would need to multiply
    // by 5, which the hardware does not decode.
    let cfgr = CFGR::new()
        .external_hse(ExternalHseType::Clock, Hertz(8_000_000))
        .sysclk(Hertz(20_000_000));
    assert_eq!(cfgr.resolve(), Err(ClockError::InvalidPllMultiplier));
}

#[test]
fn unsupported_divider_is_fatal() {
    // The fixed 96 MHz PLL target over a 19.2 MHz system clock needs a
    // divide by 5, which the hardware does not decode.
    let cfgr = CFGR::new()
        .external_hse(ExternalHseType::Clock, Hertz(8_000_000))
        .usb_pll(true)
        .sysclk(Hertz(19_200_000));
    assert_eq!(cfgr.resolve(), Err(ClockError::InvalidPllDivider));
}

#[test]
fn usb_pll_target_fixes_the_pll_output() {
    let cfgr = CFGR::new()
        .external_hse(ExternalHseType::Clock, Hertz(8_000_000))
        .usb_pll(true)
        .sysclk(Hertz(32_000_000));
    let tree = cfgr.resolve().unwrap();
    assert_eq!(tree.pll, Some(PllConfig { multiply: 12, divide: 3 }));
    assert_eq!(tree.sysclk, 32_000_000);
}

#[test]
fn usb_pll_never_bypasses() {
    // 48 MHz input would degenerate to multiply=2/divide=2, but the
    // bypass is only legal without the alternate target; the factor 2
    // is not in the multiplier enumeration, so this must be fatal.
    let cfgr = CFGR::new()
        .external_hse(ExternalHseType::Clock, Hertz(48_000_000))
        .usb_pll(true);
    assert_eq!(cfgr.resolve(), Err(ClockError::InvalidPllMultiplier));
}

#[test]
fn derived_sysclk_bands_pick_the_smallest_divider() {
    // No requested system clock: the PLL output's band decides.
    // 16 MHz internal input doubled is 32 MHz, band <= 64 MHz, so /2.
    let tree = CFGR::new().resolve().unwrap();
    assert_eq!(tree.sysclk, 16_000_000);

    // The fixed 96 MHz target falls in the middle band, so /3.
    let cfgr = CFGR::new()
        .external_hse(ExternalHseType::Clock, Hertz(8_000_000))
        .usb_pll(true);
    let tree = cfgr.resolve().unwrap();
    assert_eq!(tree.sysclk, 32_000_000);
    assert_eq!(tree.pll, Some(PllConfig { multiply: 12, divide: 3 }));
}

#[test]
fn ahb_prescaler_codes_follow_the_bucket_table() {
    assert_eq!(hpre_code_for_ratio(1), 0b0111);
    assert_eq!(hpre_code_for_ratio(2), 0b1000);
    assert_eq!(hpre_code_for_ratio(3), 0b1001);
    assert_eq!(hpre_code_for_ratio(5), 0b1001);
    assert_eq!(hpre_code_for_ratio(6), 0b1010);
    assert_eq!(hpre_code_for_ratio(11), 0b1010);
    assert_eq!(hpre_code_for_ratio(12), 0b1011);
    assert_eq!(hpre_code_for_ratio(39), 0b1011);
    assert_eq!(hpre_code_for_ratio(40), 0b1100);
    assert_eq!(hpre_code_for_ratio(95), 0b1100);
    assert_eq!(hpre_code_for_ratio(96), 0b1101);
    assert_eq!(hpre_code_for_ratio(191), 0b1101);
    assert_eq!(hpre_code_for_ratio(192), 0b1110);
    assert_eq!(hpre_code_for_ratio(383), 0b1110);
    assert_eq!(hpre_code_for_ratio(384), 0b1111);
    assert_eq!(hpre_code_for_ratio(10_000), 0b1111);
}

#[test]
fn ahb_prescaler_dividers_follow_the_codes() {
    assert_eq!(hpre_divider(0b0111), 1);
    assert_eq!(hpre_divider(0b1000), 2);
    assert_eq!(hpre_divider(0b1001), 4);
    assert_eq!(hpre_divider(0b1010), 8);
    assert_eq!(hpre_divider(0b1011), 16);
    assert_eq!(hpre_divider(0b1100), 32);
    assert_eq!(hpre_divider(0b1101), 64);
    assert_eq!(hpre_divider(0b1110), 128);
    assert_eq!(hpre_divider(0b1111), 256);
}

#[test]
fn apb_prescaler_codes_follow_the_bucket_table() {
    assert_eq!(ppre_code_for_ratio(1), 0b011);
    assert_eq!(ppre_code_for_ratio(2), 0b100);
    assert_eq!(ppre_code_for_ratio(3), 0b101);
    assert_eq!(ppre_code_for_ratio(5), 0b101);
    assert_eq!(ppre_code_for_ratio(6), 0b110);
    assert_eq!(ppre_code_for_ratio(11), 0b110);
    assert_eq!(ppre_code_for_ratio(12), 0b111);
    assert_eq!(ppre_code_for_ratio(500), 0b111);
}

#[test]
fn apb_prescaler_dividers_follow_the_codes() {
    assert_eq!(ppre_divider(0b011), 1);
    assert_eq!(ppre_divider(0b100), 2);
    assert_eq!(ppre_divider(0b101), 4);
    assert_eq!(ppre_divider(0b110), 8);
    assert_eq!(ppre_divider(0b111), 16);
}

#[test]
fn builder_records_each_constraint() {
    let cfgr = CFGR::new()
        .external_hse(ExternalHseType::Crystal, Hertz(8_000_000))
        .usb_pll(true)
        .hclk(Hertz(1))
        .pclk1(Hertz(2))
        .pclk2(Hertz(3))
        .sysclk(Hertz(4));
    assert_eq!(cfgr.hse, Some(HseConfig { kind: ExternalHseType::Crystal, freq: 8_000_000 }));
    assert!(cfgr.usb_pll);
    assert_eq!(cfgr.hclk, Some(1));
    assert_eq!(cfgr.pclk1, Some(2));
    assert_eq!(cfgr.pclk2, Some(3));
    assert_eq!(cfgr.sysclk, Some(4));
}

#[test]
fn builder_keeps_the_last_value_per_concern() {
    let cfgr = CFGR::new().sysclk(Hertz(8_000_000)).sysclk(Hertz(16_000_000));
    assert_eq!(cfgr.sysclk, Some(16_000_000));
    let cfgr = CFGR::new()
        .external_hse(ExternalHseType::Clock, Hertz(4_000_000))
        .external_hse(ExternalHseType::Crystal, Hertz(8_000_000));
    assert_eq!(cfgr.hse, Some(HseConfig { kind: ExternalHseType::Crystal, freq: 8_000_000 }));
}

#[test]
fn builder_starts_empty() {
    let cfgr = CFGR::new();
    assert_eq!(cfgr.hse, None);
    assert!(!cfgr.usb_pll);
    assert_eq!(cfgr.hclk, None);
    assert_eq!(cfgr.pclk1, None);
    assert_eq!(cfgr.pclk2, None);
    assert_eq!(cfgr.sysclk, None);
}

#[test]
fn hclk_target_selects_its_own_prescaler() {
    let cfgr = CFGR::new().hclk(Hertz(4_000_000));
    let tree = cfgr.resolve().unwrap();
    assert_eq!(tree.hpre_bits, 0b1001);
    assert_eq!(tree.hclk, 4_000_000);
    // Both APB stages derive from the divided AHB frequency.
    assert_eq!(tree.pclk1, 4_000_000);
    assert_eq!(tree.pclk2, 4_000_000);
}

#[test]
fn input_well_formedness_rejects_zero_and_unreachable_targets() {
    assert!(CFGR::new().inputs_are_well_formed());
    assert!(
        CFGR::new()
            .external_hse(ExternalHseType::Clock, Hertz(8_000_000))
            .sysclk(Hertz(32_000_000))
            .hclk(Hertz(16_000_000))
            .pclk1(Hertz(4_000_000))
            .inputs_are_well_formed()
    );
    // A zero frequency divides nothing.
    assert!(!CFGR::new().sysclk(Hertz(0)).inputs_are_well_formed());
    assert!(
        !CFGR::new()
            .external_hse(ExternalHseType::Clock, Hertz(0))
            .inputs_are_well_formed()
    );
    // A bus target above its upstream stage has no divider below one.
    assert!(!CFGR::new().hclk(Hertz(20_000_000)).inputs_are_well_formed());
    assert!(
        !CFGR::new()
            .hclk(Hertz(4_000_000))
            .pclk1(Hertz(8_000_000))
            .inputs_are_well_formed()
    );
}

#[test]
fn trees_from_resolution_are_well_formed() {
    let tree = CFGR::new().resolve().unwrap();
    assert!(tree.is_well_formed());
    let tree = CFGR::new()
        .external_hse(ExternalHseType::Clock, Hertz(8_000_000))
        .sysclk(Hertz(32_000_000))
        .resolve()
        .unwrap();
    assert!(tree.is_well_formed());
}
