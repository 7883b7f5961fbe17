//! Inter-integrated circuit bus: pin pairing, the master-mode error
//! taxonomy, and the pure timing derivation its configuration needs.

use vstd::prelude::*;

verus! {

/// Bus-level error reported while driving a transfer.
#[derive(Clone, Copy, Debug, PartialEq, Eq, Structural)]
pub enum Error {
    /// Bus error
    Bus,
    /// Arbitration loss
    Arbitration,
}

/// A pin that may carry the clock line of the given bus controller.
pub trait SclPin<I2C> {

}

/// A pin that may carry the data line of the given bus controller.
pub trait SdaPin<I2C> {

}

/// Bus controller operating in master mode, holding its pins for the
/// rest of the program's lifetime.
pub struct I2c<I2C, PINS> {
    i2c: I2C,
    pins: PINS,
}

impl<I2C, PINS> I2c<I2C, PINS> {
    /// Pairs the controller with its pins. Call this exactly once,
    /// when taking ownership of the bus controller.
    pub fn new(i2c: I2C, pins: PINS) -> I2c<I2C, PINS> {
        I2c { i2c, pins }
    }

    /// Releases the controller and the pins.
    pub fn free(self) -> (I2C, PINS) {
        (self.i2c, self.pins)
    }
}

/// The timing register fields for standard-mode operation at a given
/// bus frequency: the clock halves twice through the prescaler stages,
/// and the low phase takes what is left after the fixed setup counts.
pub open spec fn spec_standard_mode_scll(pclk1: nat, freq: nat) -> int {
    (pclk1 / 4) / freq - 1
}

/// Everything configuring the bus controller's timing register writes.
#[derive(Clone, Copy, Debug, PartialEq, Eq, Structural)]
pub struct I2cTiming {
    /// Timing prescaler code.
    pub presc: u8,
    /// Clock low phase count.
    pub scll: u8,
    /// Clock high phase count.
    pub sclh: u8,
    /// Data setup delay count.
    pub sdadel: u8,
    /// Data hold delay count.
    pub scldel: u8,
}

/// Derives the timing register fields for standard-mode (at most
/// 100 kHz) operation from the APB1 frequency: pure computation,
/// performed before any hardware access. The frequency bounds keep
/// every count inside its register field.
pub fn standard_mode_timing(pclk1: u32, freq: u32) -> (r: I2cTiming)
    requires
        1 <= freq <= 100_000,
        5 <= (pclk1 as nat / 4) / freq as nat <= 256,
    ensures
        r.presc == 1u8,
        r.scll == spec_standard_mode_scll(pclk1 as nat, freq as nat),
        r.sclh == spec_standard_mode_scll(pclk1 as nat, freq as nat) - 4,
        r.sdadel == 2u8,
        r.scldel == 4u8,
{
    assert(pclk1 >> 1 == pclk1 / 2) by (bit_vector);
    assert((pclk1 >> 1) >> 1 == (pclk1 >> 1) / 2) by (bit_vector);
    assert(pclk1 / 2 / 2 == pclk1 / 4) by {
        vstd::arithmetic::div_mod::lemma_div_denominator(pclk1 as int, 2, 2);
    }
    let scll32: u32 = ((pclk1 >> 1) >> 1) / freq - 1;
    let scll: u8 = scll32 as u8;
    I2cTiming { presc: 1, scll, sclh: scll - 4, sdadel: 2, scldel: 4 }
}

} // verus!
