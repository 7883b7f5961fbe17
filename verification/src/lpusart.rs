//! Low-power UART: pin pairing, configuration builder, and the pure
//! register-value derivation its configuration needs.

use vstd::prelude::*;

verus! {

use crate::rcc::Clocks;

/// Extension trait that constrains a raw low-power UART peripheral.
pub trait LpUsartExt {
    /// Constrains the peripheral, pairing it with its transmit and
    /// receive pins.
    fn constrain<TX: LpUsartTxPin, RX: LpUsartRxPin>(self, tx_pin: TX, rx_pin: RX) -> LpUsart<
        TX,
        RX,
    > where Self: Sized;
}

/// A pin that may carry the low-power UART's transmit line.
pub trait LpUsartTxPin {

}

/// A pin that may carry the low-power UART's receive line.
pub trait LpUsartRxPin {

}

/// Constrained low-power UART, holding its pins for the rest of the
/// program's lifetime.
pub struct LpUsart<TX, RX> where TX: LpUsartTxPin, RX: LpUsartRxPin {
    tx_pin: TX,
    rx_pin: RX,
}

impl<TX, RX> LpUsart<TX, RX> where TX: LpUsartTxPin, RX: LpUsartRxPin {
    /// Pairs the peripheral with its pins. Call this exactly once,
    /// when taking ownership of the low-power UART.
    pub fn new(tx_pin: TX, rx_pin: RX) -> LpUsart<TX, RX> {
        LpUsart { tx_pin, rx_pin }
    }
}

/// Data word length on the wire.
#[derive(Clone, Copy, Debug, PartialEq, Eq, Structural)]
pub enum WordLength {
    Word8Bits,
    Word9Bits,
    Word7Bits,
}

impl WordLength {
    /// The two word-length control bits, most significant first.
    pub fn lpuart_cr1_bits(&self) -> (r: (bool, bool))
        ensures
            r == match *self {
                WordLength::Word8Bits => (false, false),
                WordLength::Word9Bits => (false, true),
                WordLength::Word7Bits => (true, false),
            },
    {
        match self {
            WordLength::Word8Bits => (false, false),
            WordLength::Word9Bits => (false, true),
            WordLength::Word7Bits => (true, false),
        }
    }
}

/// Number of stop bits on the wire.
#[derive(Clone, Copy, Debug, PartialEq, Eq, Structural)]
pub enum StopBits {
    StopBits1,
    StopBits2,
}

impl StopBits {
    /// The stop-bit control field.
    pub fn lpuart_cr2_bits(&self) -> (r: u8)
        ensures
            r == match *self {
                StopBits::StopBits1 => 0b00u8,
                StopBits::StopBits2 => 0b10u8,
            },
    {
        match self {
            StopBits::StopBits1 => 0b00,
            StopBits::StopBits2 => 0b10,
        }
    }
}

/// Low-power UART configuration, accumulated without touching hardware.
#[derive(Clone, Copy, Debug, PartialEq, Eq, Structural)]
pub struct LpUsartConfig {
    pub word_length: WordLength,
    pub parity: bool,
    pub stop_bits: StopBits,
    pub baud_rate: u32,
}

impl LpUsartConfig {
    /// The default configuration: 8-bit words, no parity, one stop
    /// bit, 115200 baud.
    pub open spec fn spec_default() -> LpUsartConfig {
        LpUsartConfig {
            word_length: WordLength::Word8Bits,
            parity: false,
            stop_bits: StopBits::StopBits1,
            baud_rate: 115200,
        }
    }

    pub fn new() -> (r: LpUsartConfig)
        ensures
            r == LpUsartConfig::spec_default(),
    {
        LpUsartConfig {
            word_length: WordLength::Word8Bits,
            parity: false,
            stop_bits: StopBits::StopBits1,
            baud_rate: 115200,
        }
    }

    pub fn word_length(self, word_length: WordLength) -> (r: Self)
        ensures
            r == (LpUsartConfig { word_length, ..self }),
    {
        LpUsartConfig { word_length, ..self }
    }

    pub fn parity(self, parity: bool) -> (r: Self)
        ensures
            r == (LpUsartConfig { parity, ..self }),
    {
        LpUsartConfig { parity, ..self }
    }

    pub fn stop_bits(self, stop_bits: StopBits) -> (r: Self)
        ensures
            r == (LpUsartConfig { stop_bits, ..self }),
    {
        LpUsartConfig { stop_bits, ..self }
    }

    pub fn baud_rate(self, baud_rate: u32) -> (r: Self)
        ensures
            r == (LpUsartConfig { baud_rate, ..self }),
    {
        LpUsartConfig { baud_rate, ..self }
    }

    /// Derives the register fields that configuring the peripheral
    /// writes: pure computation, performed before any hardware access.
    pub fn register_values(&self, clocks: &Clocks) -> (r: LpUsartRegisterValues)
        requires
            self.baud_rate >= 1,
            clocks.sysclk_spec().0 <= 67_108_863,
            64 * clocks.sysclk_spec().0 as nat / self.baud_rate as nat <= 16_777_215,
        ensures
            r.m1 == self.word_length.spec_cr1_bits().0,
            r.m0 == self.word_length.spec_cr1_bits().1,
            r.parity_select == self.parity,
            r.brr == spec_brr_value(clocks.sysclk_spec().0 as nat, self.baud_rate as nat),
            r.stop_bits == (if self.stop_bits is StopBits2 {
                0b10u8
            } else {
                0b00u8
            }),
    {
        let sysclk: u32 = clocks.sysclk().0;
        let div: u32 = (sysclk * 64) / self.baud_rate;
        let brr: u32 = div * 4;
        let (m1, m0): (bool, bool) = self.word_length.lpuart_cr1_bits();
        LpUsartRegisterValues {
            m1,
            m0,
            parity_select: self.parity,
            brr,
            stop_bits: self.stop_bits.lpuart_cr2_bits(),
        }
    }
}

impl WordLength {
    /// The two word-length control bits, most significant first.
    pub open spec fn spec_cr1_bits(self) -> (bool, bool) {
        match self {
            WordLength::Word8Bits => (false, false),
            WordLength::Word9Bits => (false, true),
            WordLength::Word7Bits => (true, false),
        }
    }
}

/// The baud-rate register value for a system clock and a baud rate:
/// the clock scaled by 64, divided by the baud rate, scaled back up
/// by the register's fixed-point factor.
pub open spec fn spec_brr_value(sysclk: nat, baud_rate: nat) -> nat {
    4 * ((64 * sysclk) / baud_rate)
}

/// Everything configuring the low-power UART writes, derived from the
/// configuration and the frozen clocks.
#[derive(Clone, Copy, Debug, PartialEq, Eq, Structural)]
pub struct LpUsartRegisterValues {
    /// Most significant word-length control bit.
    pub m1: bool,
    /// Least significant word-length control bit.
    pub m0: bool,
    /// Parity select bit.
    pub parity_select: bool,
    /// Baud-rate register value.
    pub brr: u32,
    /// Stop-bit control field.
    pub stop_bits: u8,
}

} // verus!
