//! External interrupt and event controller: line ownership tokens and
//! the pure encodings its configuration needs.

use vstd::prelude::*;

verus! {

/// Extension trait that constrains a raw external-interrupt peripheral.
pub trait ExtiExt {
    /// Constrains the peripheral so it plays nicely with the other
    /// abstractions.
    fn constrain(self) -> Exti;
}

/// Ownership token for external interrupt line 0.
pub struct EXTI0 {
    _0: (),
}

/// Ownership token for external interrupt line 1.
pub struct EXTI1 {
    _0: (),
}

/// Ownership token for external interrupt line 2.
pub struct EXTI2 {
    _0: (),
}

/// Ownership token for external interrupt line 3.
pub struct EXTI3 {
    _0: (),
}

/// Ownership token for external interrupt line 4.
pub struct EXTI4 {
    _0: (),
}

/// Ownership token for external interrupt line 5.
pub struct EXTI5 {
    _0: (),
}

/// Ownership token for external interrupt line 6.
pub struct EXTI6 {
    _0: (),
}

/// Ownership token for external interrupt line 7.
pub struct EXTI7 {
    _0: (),
}

/// Ownership token for external interrupt line 8.
pub struct EXTI8 {
    _0: (),
}

/// Ownership token for external interrupt line 9.
pub struct EXTI9 {
    _0: (),
}

/// Ownership token for external interrupt line 10.
pub struct EXTI10 {
    _0: (),
}

/// Ownership token for external interrupt line 11.
pub struct EXTI11 {
    _0: (),
}

/// Ownership token for external interrupt line 12.
pub struct EXTI12 {
    _0: (),
}

/// Ownership token for external interrupt line 13.
pub struct EXTI13 {
    _0: (),
}

/// Ownership token for external interrupt line 14.
pub struct EXTI14 {
    _0: (),
}

/// Ownership token for external interrupt line 15.
pub struct EXTI15 {
    _0: (),
}

/// Constrained external-interrupt peripheral: one token per line.
pub struct Exti {
    pub exti0: EXTI0,
    pub exti1: EXTI1,
    pub exti2: EXTI2,
    pub exti3: EXTI3,
    pub exti4: EXTI4,
    pub exti5: EXTI5,
    pub exti6: EXTI6,
    pub exti7: EXTI7,
    pub exti8: EXTI8,
    pub exti9: EXTI9,
    pub exti10: EXTI10,
    pub exti11: EXTI11,
    pub exti12: EXTI12,
    pub exti13: EXTI13,
    pub exti14: EXTI14,
    pub exti15: EXTI15,
}

impl Exti {
    /// Builds the full set of line tokens. Call this exactly once,
    /// when taking ownership of the external-interrupt peripheral.
    pub fn new() -> Exti {
        Exti {
            exti0: EXTI0 { _0: () },
            exti1: EXTI1 { _0: () },
            exti2: EXTI2 { _0: () },
            exti3: EXTI3 { _0: () },
            exti4: EXTI4 { _0: () },
            exti5: EXTI5 { _0: () },
            exti6: EXTI6 { _0: () },
            exti7: EXTI7 { _0: () },
            exti8: EXTI8 { _0: () },
            exti9: EXTI9 { _0: () },
            exti10: EXTI10 { _0: () },
            exti11: EXTI11 { _0: () },
            exti12: EXTI12 { _0: () },
            exti13: EXTI13 { _0: () },
            exti14: EXTI14 { _0: () },
            exti15: EXTI15 { _0: () },
        }
    }
}

/// The GPIO port an external interrupt line listens to.
#[derive(Clone, Copy, Debug, PartialEq, Eq, Structural)]
pub enum GpioExtiSource {
    GPIOA,
    GPIOB,
    GPIOC,
    GPIOD,
    GPIOE,
    GPIOH,
}

impl GpioExtiSource {
    /// The port-select code written to the system-configuration
    /// controller's interrupt source registers.
    pub fn syscfg_bits(self) -> (r: u8)
        ensures
            r == match self {
                GpioExtiSource::GPIOA => 0b0000u8,
                GpioExtiSource::GPIOB => 0b0001u8,
                GpioExtiSource::GPIOC => 0b0010u8,
                GpioExtiSource::GPIOD => 0b0011u8,
                GpioExtiSource::GPIOE => 0b0100u8,
                GpioExtiSource::GPIOH => 0b0101u8,
            },
    {
        match self {
            GpioExtiSource::GPIOA => 0b0000,
            GpioExtiSource::GPIOB => 0b0001,
            GpioExtiSource::GPIOC => 0b0010,
            GpioExtiSource::GPIOD => 0b0011,
            GpioExtiSource::GPIOE => 0b0100,
            GpioExtiSource::GPIOH => 0b0101,
        }
    }
}

/// Which signal edges raise the interrupt.
#[derive(Clone, Copy, Debug, PartialEq, Eq, Structural)]
pub enum ExtiTrigger {
    Rising,
    Falling,
    RisingAndFalling,
}

impl ExtiTrigger {
    /// Whether the rising-edge trigger register bit must be set.
    pub fn triggers_rising(&self) -> (r: bool)
        ensures
            r == (*self is Rising || *self is RisingAndFalling),
    {
        match self {
            ExtiTrigger::Rising | ExtiTrigger::RisingAndFalling => true,
            ExtiTrigger::Falling => false,
        }
    }

    /// Whether the falling-edge trigger register bit must be set.
    pub fn triggers_falling(&self) -> (r: bool)
        ensures
            r == (*self is Falling || *self is RisingAndFalling),
    {
        match self {
            ExtiTrigger::Falling | ExtiTrigger::RisingAndFalling => true,
            ExtiTrigger::Rising => false,
        }
    }
}

} // verus!
