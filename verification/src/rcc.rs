//! Reset and clock control: bus gate tokens, the clock configuration
//! builder, the pure clock tree resolver, and the frozen clock snapshot.

use vstd::prelude::*;

verus! {

use crate::time::Hertz;

/// Frequency of the internal high-speed oscillator, in hertz.
pub const HSI: u32 = 16_000_000;

/// Fixed PLL output frequency demanded by USB-class peripherals, in hertz.
pub const USB_PLL_FREQ: u32 = 96_000_000;

/// Extension trait that constrains a raw clock-control peripheral.
pub trait RccExt {
    /// Constrains the clock-control peripheral so it plays nicely with the
    /// other abstractions.
    fn constrain(self) -> Rcc;
}

/// Constrained clock-control peripheral.
pub struct Rcc {
    /// AMBA High-performance Bus (AHB) registers
    pub ahb: AHB,
    /// Advanced Peripheral Bus 1 (APB1) registers
    pub apb1: APB1,
    /// Advanced Peripheral Bus 2 (APB2) registers
    pub apb2: APB2,
    /// GPIO port bus registers
    pub gpio: GPIO,
    /// Clock configuration builder
    pub cfgr: CFGR,
    /// Peripheral-clock source selection
    pub ccipr: CCIPR,
}

impl Rcc {
    /// Builds the set of bus gate tokens and the empty clock configuration.
    /// Call this exactly once, when taking ownership of the clock-control
    /// peripheral: the tokens are the only path to the bus gates.
    pub fn new() -> (r: Rcc)
        ensures
            r.cfgr == CFGR::empty(),
    {
        Rcc {
            ahb: AHB { _0: () },
            apb1: APB1 { _0: () },
            apb2: APB2 { _0: () },
            gpio: GPIO { _0: () },
            cfgr: CFGR::new(),
            ccipr: CCIPR::new(),
        }
    }
}

/// AMBA High-performance Bus (AHB) gate token.
pub struct AHB {
    _0: (),
}

/// Advanced Peripheral Bus 1 (APB1) gate token.
pub struct APB1 {
    _0: (),
}

/// Advanced Peripheral Bus 2 (APB2) gate token.
pub struct APB2 {
    _0: (),
}

/// GPIO port bus gate token.
pub struct GPIO {
    _0: (),
}

/// Clock source feeding the low-power UART.
pub enum LpUsartClock {
    ApbClock,
    SystemClock,
    HSI16Clock,
    LSEClock,
}

impl LpUsartClock {
    /// The two selection bits of the peripheral-clock source register,
    /// most significant first.
    pub fn ccipr_bits(&self) -> (r: (bool, bool))
        ensures
            r == match *self {
                LpUsartClock::ApbClock => (false, false),
                LpUsartClock::SystemClock => (false, true),
                LpUsartClock::HSI16Clock => (true, false),
                LpUsartClock::LSEClock => (true, true),
            },
    {
        match self {
            LpUsartClock::ApbClock => (false, false),
            LpUsartClock::SystemClock => (false, true),
            LpUsartClock::HSI16Clock => (true, false),
            LpUsartClock::LSEClock => (true, true),
        }
    }
}

/// Token granting access to the peripheral-clock source selection register.
pub struct CCIPR {}

impl CCIPR {
    pub fn new() -> Self {
        Self {}
    }
}

/// Kind of external oscillator feeding the clock tree.
#[derive(Clone, Copy, Debug, PartialEq, Eq, Structural)]
pub enum ExternalHseType {
    /// An external clock signal; downstream frequencies may reach 32 MHz.
    Clock,
    /// An external crystal; downstream frequencies may reach 24 MHz.
    Crystal,
}

/// An external oscillator: its kind and its frequency in hertz.
#[derive(Clone, Copy, Debug, PartialEq, Eq, Structural)]
pub struct HseConfig {
    pub kind: ExternalHseType,
    pub freq: u32,
}

/// Clock configuration builder.
///
/// Records the requested oscillator and target frequencies without
/// touching hardware and without validating them: all legality checking
/// is deferred to [`CFGR::resolve`], so that partial configurations stay
/// inspectable.
#[derive(Clone, Copy, Debug, PartialEq, Eq, Structural)]
pub struct CFGR {
    /// External oscillator kind and frequency, if one is fitted.
    pub hse: Option<HseConfig>,
    /// Whether the PLL must run at the fixed high-frequency USB target.
    pub usb_pll: bool,
    /// Requested AHB frequency.
    pub hclk: Option<u32>,
    /// Requested APB1 frequency.
    pub pclk1: Option<u32>,
    /// Requested APB2 frequency.
    pub pclk2: Option<u32>,
    /// Requested system (core) frequency.
    pub sysclk: Option<u32>,
}

impl CFGR {
    /// The configuration with nothing requested.
    pub open spec fn empty() -> CFGR {
        CFGR { hse: None, usb_pll: false, hclk: None, pclk1: None, pclk2: None, sysclk: None }
    }

    pub fn new() -> (r: CFGR)
        ensures
            r == CFGR::empty(),
    {
        CFGR { hse: None, usb_pll: false, hclk: None, pclk1: None, pclk2: None, sysclk: None }
    }

    /// Use an external oscillator instead of the internal one.
    ///
    /// With an external clock signal, downstream frequencies may reach
    /// 32 MHz; with an external crystal, 24 MHz.
    pub fn external_hse(self, ctype: ExternalHseType, freq: Hertz) -> (r: Self)
        ensures
            r == (CFGR { hse: Some(HseConfig { kind: ctype, freq: freq.0 }), ..self }),
    {
        CFGR { hse: Some(HseConfig { kind: ctype, freq: freq.0 }), ..self }
    }

    /// Requests (or drops) the fixed high-frequency PLL target.
    pub fn usb_pll(self, enabled: bool) -> (r: Self)
        ensures
            r == (CFGR { usb_pll: enabled, ..self }),
    {
        CFGR { usb_pll: enabled, ..self }
    }

    /// Sets a target frequency for the AHB bus.
    pub fn hclk(self, freq: Hertz) -> (r: Self)
        ensures
            r == (CFGR { hclk: Some(freq.0), ..self }),
    {
        CFGR { hclk: Some(freq.0), ..self }
    }

    /// Sets a target frequency for the APB1 bus.
    pub fn pclk1(self, freq: Hertz) -> (r: Self)
        ensures
            r == (CFGR { pclk1: Some(freq.0), ..self }),
    {
        CFGR { pclk1: Some(freq.0), ..self }
    }

    /// Sets a target frequency for the APB2 bus.
    pub fn pclk2(self, freq: Hertz) -> (r: Self)
        ensures
            r == (CFGR { pclk2: Some(freq.0), ..self }),
    {
        CFGR { pclk2: Some(freq.0), ..self }
    }

    /// Sets the target system (core) frequency.
    pub fn sysclk(self, freq: Hertz) -> (r: Self)
        ensures
            r == (CFGR { sysclk: Some(freq.0), ..self }),
    {
        CFGR { sysclk: Some(freq.0), ..self }
    }
}

/// A fatal configuration error: the requested clock tree cannot be
/// realised within the hardware's enumerations and the active
/// oscillator's frequency ceilings. Nothing is written to hardware
/// when resolution fails.
#[derive(Clone, Copy, Debug, PartialEq, Eq, Structural)]
pub enum ClockError {
    /// The derived PLL multiplier is not one of the factors the
    /// hardware decodes.
    InvalidPllMultiplier,
    /// The derived PLL divider is not one of the factors the hardware
    /// decodes.
    InvalidPllDivider,
    /// The derived system clock exceeds the oscillator type's ceiling.
    SysclkExceedsCeiling,
    /// The derived AHB frequency exceeds the oscillator type's ceiling.
    HclkExceedsCeiling,
    /// The derived APB1 frequency exceeds the oscillator type's ceiling.
    Pclk1ExceedsCeiling,
    /// The derived APB2 frequency exceeds the oscillator type's ceiling.
    Pclk2ExceedsCeiling,
}

/// PLL multiply/divide factor pair, drawn from the hardware's closed
/// enumerations.
#[derive(Clone, Copy, Debug, PartialEq, Eq, Structural)]
pub struct PllConfig {
    /// Multiplication factor; one of 3, 4, 6, 8, 12, 16, 24, 32, 48.
    pub multiply: u8,
    /// Division factor; one of 2, 3, 4.
    pub divide: u8,
}

/// The resolved clock tree: every divider, multiplier and prescaler
/// code the sequencer will write, plus the frequencies each stage
/// settles at.
#[derive(Clone, Copy, Debug, PartialEq, Eq, Structural)]
pub struct ResolvedClockTree {
    /// PLL factors, or `None` when the source feeds the system clock
    /// directly (PLL bypass).
    pub pll: Option<PllConfig>,
    /// Whether the external oscillator is the source.
    pub use_hse: bool,
    /// AHB prescaler register code.
    pub hpre_bits: u8,
    /// APB1 prescaler register code.
    pub ppre1_bits: u8,
    /// APB2 prescaler register code.
    pub ppre2_bits: u8,
    /// Whether flash needs the extra wait state (system clock above 16 MHz).
    pub one_wait_state: bool,
    /// Resolved system clock frequency in hertz.
    pub sysclk: u32,
    /// Resolved AHB frequency in hertz.
    pub hclk: u32,
    /// Resolved APB1 frequency in hertz.
    pub pclk1: u32,
    /// Resolved APB2 frequency in hertz.
    pub pclk2: u32,
    /// APB1 prescaler ratio (the divider itself, not its code).
    pub ppre1: u8,
    /// APB2 prescaler ratio (the divider itself, not its code).
    pub ppre2: u8,
}

impl ResolvedClockTree {
    /// The tree invariant: PLL factors, when present, come from the
    /// hardware's closed enumerations — arbitrary integers are never
    /// written to these fields.
    pub open spec fn wf(self) -> bool {
        self.pll matches Some(p) ==> spec_mul_supported(p.multiply as nat) && spec_div_supported(
            p.divide as nat,
        )
    }

    /// Runtime check of the tree invariant, for callers outside
    /// verified code.
    pub fn is_well_formed(&self) -> (r: bool)
        ensures
            r == self.wf(),
    {
        match self.pll {
            Some(p) => {
                let mul_ok: bool = p.multiply == 3 || p.multiply == 4 || p.multiply == 6
                    || p.multiply == 8 || p.multiply == 12 || p.multiply == 16 || p.multiply == 24
                    || p.multiply == 32 || p.multiply == 48;
                mul_ok && 2 <= p.divide && p.divide <= 4
            },
            None => true,
        }
    }
}

// ---------------------------------------------------------------------------
// The mathematical model of resolution. Every derived frequency and code
// below is stated over unbounded naturals; `CFGR::resolve` is proved to
// compute exactly these values.
// ---------------------------------------------------------------------------

/// The PLL input frequency: the external oscillator if one is fitted,
/// else the internal oscillator.
pub open spec fn spec_pll_input(c: CFGR) -> nat {
    match c.hse {
        Some(h) => h.freq as nat,
        None => HSI as nat,
    }
}

/// The PLL output target: the fixed high-frequency target if requested,
/// else twice the requested system clock (or twice the input when no
/// system clock was requested), so the PLL always runs at an even
/// multiple convenient for halving.
pub open spec fn spec_pll_output(c: CFGR) -> nat {
    if c.usb_pll {
        USB_PLL_FREQ as nat
    } else {
        2 * match c.sysclk {
            Some(s) => s as nat,
            None => spec_pll_input(c),
        }
    }
}

/// The derived system clock: the requested one if given, else the PLL
/// output brought down by the smallest of the three fixed dividers
/// whose band it falls into.
pub open spec fn spec_sysclk(c: CFGR) -> nat {
    match c.sysclk {
        Some(s) => s as nat,
        None => {
            let p = spec_pll_output(c);
            if p > 96_000_000 {
                p / 4
            } else if p > 64_000_000 {
                p / 3
            } else {
                p / 2
            }
        },
    }
}

/// The PLL multiplication factor implied by input and output.
pub open spec fn spec_pll_mul(c: CFGR) -> nat {
    spec_pll_output(c) / spec_pll_input(c)
}

/// The PLL division factor implied by output and system clock.
pub open spec fn spec_pll_div(c: CFGR) -> nat {
    spec_pll_output(c) / spec_sysclk(c)
}

/// The PLL is bypassed — the source feeds the system clock directly —
/// exactly when the factors degenerate to 2/2 and no alternate
/// high-frequency target was requested.
pub open spec fn spec_pll_bypassed(c: CFGR) -> bool {
    spec_pll_mul(c) == 2 && spec_pll_div(c) == 2 && !c.usb_pll
}

/// The multiplication factors the PLL hardware decodes.
pub open spec fn spec_mul_supported(m: nat) -> bool {
    m == 3 || m == 4 || m == 6 || m == 8 || m == 12 || m == 16 || m == 24 || m == 32 || m == 48
}

/// The division factors the PLL hardware decodes.
pub open spec fn spec_div_supported(d: nat) -> bool {
    2 <= d && d <= 4
}

/// Whether a derived frequency respects the oscillator type's ceiling:
/// 32 MHz downstream of an external clock signal, 24 MHz downstream of
/// a crystal, unconstrained on the internal oscillator.
pub open spec fn spec_ceiling_ok(hse: Option<HseConfig>, f: nat) -> bool {
    match hse {
        None => true,
        Some(h) => match h.kind {
            ExternalHseType::Clock => f <= 32_000_000,
            ExternalHseType::Crystal => f <= 24_000_000,
        },
    }
}

/// AHB prescaler code for a requested division ratio: the code of the
/// range bucket the ratio falls into.
pub open spec fn spec_hpre_code(ratio: nat) -> u8 {
    if ratio <= 1 {
        0b0111
    } else if ratio == 2 {
        0b1000
    } else if ratio <= 5 {
        0b1001
    } else if ratio <= 11 {
        0b1010
    } else if ratio <= 39 {
        0b1011
    } else if ratio <= 95 {
        0b1100
    } else if ratio <= 191 {
        0b1101
    } else if ratio <= 383 {
        0b1110
    } else {
        0b1111
    }
}

/// The division each AHB prescaler code performs.
pub open spec fn spec_hpre_divider(code: u8) -> nat {
    if code == 0b0111 {
        1
    } else if code == 0b1000 {
        2
    } else if code == 0b1001 {
        4
    } else if code == 0b1010 {
        8
    } else if code == 0b1011 {
        16
    } else if code == 0b1100 {
        32
    } else if code == 0b1101 {
        64
    } else if code == 0b1110 {
        128
    } else {
        256
    }
}

/// APB prescaler code for a requested division ratio.
pub open spec fn spec_ppre_code(ratio: nat) -> u8 {
    if ratio <= 1 {
        0b011
    } else if ratio == 2 {
        0b100
    } else if ratio <= 5 {
        0b101
    } else if ratio <= 11 {
        0b110
    } else {
        0b111
    }
}

/// The division each APB prescaler code performs.
pub open spec fn spec_ppre_divider(code: u8) -> nat {
    if code == 0b011 {
        1
    } else if code == 0b100 {
        2
    } else if code == 0b101 {
        4
    } else if code == 0b110 {
        8
    } else {
        16
    }
}

/// The AHB prescaler code chosen for a configuration: the bucket of the
/// ratio between the system clock and the requested AHB frequency, or
/// divide-by-one when none was requested.
pub open spec fn spec_hpre_bits(c: CFGR) -> u8 {
    match c.hclk {
        Some(h) => spec_hpre_code(spec_sysclk(c) / h as nat),
        None => 0b0111,
    }
}

/// The derived AHB frequency.
pub open spec fn spec_hclk(c: CFGR) -> nat {
    spec_sysclk(c) / spec_hpre_divider(spec_hpre_bits(c))
}

/// The APB1 prescaler code chosen for a configuration.
pub open spec fn spec_ppre1_bits(c: CFGR) -> u8 {
    match c.pclk1 {
        Some(p) => spec_ppre_code(spec_hclk(c) / p as nat),
        None => 0b011,
    }
}

/// The derived APB1 frequency.
pub open spec fn spec_pclk1(c: CFGR) -> nat {
    spec_hclk(c) / spec_ppre_divider(spec_ppre1_bits(c))
}

/// The APB2 prescaler code chosen for a configuration.
pub open spec fn spec_ppre2_bits(c: CFGR) -> u8 {
    match c.pclk2 {
        Some(p) => spec_ppre_code(spec_hclk(c) / p as nat),
        None => 0b011,
    }
}

/// The derived APB2 frequency.
pub open spec fn spec_pclk2(c: CFGR) -> nat {
    spec_hclk(c) / spec_ppre_divider(spec_ppre2_bits(c))
}

/// The tree a legal configuration resolves to.
pub open spec fn spec_tree(c: CFGR) -> ResolvedClockTree {
    ResolvedClockTree {
        pll: if spec_pll_bypassed(c) {
            None
        } else {
            Some(PllConfig { multiply: spec_pll_mul(c) as u8, divide: spec_pll_div(c) as u8 })
        },
        use_hse: c.hse is Some,
        hpre_bits: spec_hpre_bits(c),
        ppre1_bits: spec_ppre1_bits(c),
        ppre2_bits: spec_ppre2_bits(c),
        one_wait_state: spec_sysclk(c) > 16_000_000,
        sysclk: spec_sysclk(c) as u32,
        hclk: spec_hclk(c) as u32,
        pclk1: spec_pclk1(c) as u32,
        pclk2: spec_pclk2(c) as u32,
        ppre1: spec_ppre_divider(spec_ppre1_bits(c)) as u8,
        ppre2: spec_ppre_divider(spec_ppre2_bits(c)) as u8,
    }
}

/// What resolution returns: the first violated rule, in the order the
/// rules are checked, or the resolved tree.
pub open spec fn spec_resolve(c: CFGR) -> Result<ResolvedClockTree, ClockError> {
    if !spec_pll_bypassed(c) && !spec_mul_supported(spec_pll_mul(c)) {
        Err(ClockError::InvalidPllMultiplier)
    } else if !spec_pll_bypassed(c) && !spec_div_supported(spec_pll_div(c)) {
        Err(ClockError::InvalidPllDivider)
    } else if !spec_ceiling_ok(c.hse, spec_sysclk(c)) {
        Err(ClockError::SysclkExceedsCeiling)
    } else if !spec_ceiling_ok(c.hse, spec_hclk(c)) {
        Err(ClockError::HclkExceedsCeiling)
    } else if !spec_ceiling_ok(c.hse, spec_pclk1(c)) {
        Err(ClockError::Pclk1ExceedsCeiling)
    } else if !spec_ceiling_ok(c.hse, spec_pclk2(c)) {
        Err(ClockError::Pclk2ExceedsCeiling)
    } else {
        Ok(spec_tree(c))
    }
}

impl CFGR {
    /// The inputs on which resolution is defined: every given frequency
    /// is nonzero, and no bus target asks for more than its upstream
    /// stage delivers (there is no divider below one).
    pub open spec fn wf_inputs(self) -> bool {
        &&& (self.hse matches Some(h) ==> h.freq >= 1)
        &&& (self.sysclk matches Some(f) ==> f >= 1)
        &&& (self.hclk matches Some(f) ==> 1 <= f && f as nat <= spec_sysclk(self))
        &&& (self.pclk1 matches Some(f) ==> 1 <= f && f as nat <= spec_hclk(self))
        &&& (self.pclk2 matches Some(f) ==> 1 <= f && f as nat <= spec_hclk(self))
    }
}

/// AHB prescaler code for a division ratio.
pub fn hpre_code_for_ratio(ratio: u32) -> (r: u8)
    ensures
        r == spec_hpre_code(ratio as nat),
{
    if ratio <= 1 {
        0b0111
    } else if ratio == 2 {
        0b1000
    } else if ratio <= 5 {
        0b1001
    } else if ratio <= 11 {
        0b1010
    } else if ratio <= 39 {
        0b1011
    } else if ratio <= 95 {
        0b1100
    } else if ratio <= 191 {
        0b1101
    } else if ratio <= 383 {
        0b1110
    } else {
        0b1111
    }
}

/// The division an AHB prescaler code performs.
pub fn hpre_divider(code: u8) -> (r: u32)
    ensures
        r == spec_hpre_divider(code),
{
    if code == 0b0111 {
        1
    } else if code == 0b1000 {
        2
    } else if code == 0b1001 {
        4
    } else if code == 0b1010 {
        8
    } else if code == 0b1011 {
        16
    } else if code == 0b1100 {
        32
    } else if code == 0b1101 {
        64
    } else if code == 0b1110 {
        128
    } else {
        256
    }
}

/// APB prescaler code for a division ratio.
pub fn ppre_code_for_ratio(ratio: u32) -> (r: u8)
    ensures
        r == spec_ppre_code(ratio as nat),
{
    if ratio <= 1 {
        0b011
    } else if ratio == 2 {
        0b100
    } else if ratio <= 5 {
        0b101
    } else if ratio <= 11 {
        0b110
    } else {
        0b111
    }
}

/// The division an APB prescaler code performs.
pub fn ppre_divider(code: u8) -> (r: u8)
    ensures
        r == spec_ppre_divider(code),
{
    if code == 0b011 {
        1
    } else if code == 0b100 {
        2
    } else if code == 0b101 {
        4
    } else if code == 0b110 {
        8
    } else {
        16
    }
}

impl CFGR {
    /// Runtime check of the resolver's precondition, for callers
    /// outside verified code.
    pub fn inputs_are_well_formed(&self) -> (r: bool)
        ensures
            r == self.wf_inputs(),
    {
        if let Some(h) = self.hse {
            if h.freq < 1 {
                return false;
            }
        }
        if let Some(f) = self.sysclk {
            if f < 1 {
                return false;
            }
        }

        let pll_in: u64 = match self.hse {
            Some(h) => h.freq as u64,
            None => HSI as u64,
        };
        let pll_out: u64 = if self.usb_pll {
            USB_PLL_FREQ as u64
        } else {
            2 * match self.sysclk {
                Some(s) => s as u64,
                None => pll_in,
            }
        };
        let sysclk64: u64 = match self.sysclk {
            Some(s) => s as u64,
            None => {
                if pll_out > 96_000_000 {
                    pll_out / 4
                } else if pll_out > 64_000_000 {
                    pll_out / 3
                } else {
                    pll_out / 2
                }
            },
        };

        if let Some(h) = self.hclk {
            if h < 1 || h as u64 > sysclk64 {
                return false;
            }
        }

        let hpre_bits: u8 = match self.hclk {
            Some(h) => hpre_code_for_ratio((sysclk64 / h as u64) as u32),
            None => 0b0111,
        };
        let hclk64: u64 = sysclk64 / hpre_divider(hpre_bits) as u64;

        if let Some(p) = self.pclk1 {
            if p < 1 || p as u64 > hclk64 {
                return false;
            }
        }
        if let Some(p) = self.pclk2 {
            if p < 1 || p as u64 > hclk64 {
                return false;
            }
        }
        true
    }

    /// Derives the clock tree from the accumulated constraints: PLL
    /// factors (or bypass), the three bus prescaler codes, the flash
    /// wait-state flag and every stage's frequency — or the first
    /// rule the configuration violates. Touches no hardware.
    pub fn resolve(&self) -> (r: Result<ResolvedClockTree, ClockError>)
        requires
            self.wf_inputs(),
        ensures
            r == spec_resolve(*self),
    {
        let hse_freq: Option<u32> = match self.hse {
            Some(h) => Some(h.freq),
            None => None,
        };
        let pll_in: u64 = match hse_freq {
            Some(f) => f as u64,
            None => HSI as u64,
        };

        let pll_out: u64 = if self.usb_pll {
            USB_PLL_FREQ as u64
        } else {
            2 * match self.sysclk {
                Some(s) => s as u64,
                None => pll_in,
            }
        };

        let sysclk64: u64 = match self.sysclk {
            Some(s) => s as u64,
            None => {
                if pll_out > 96_000_000 {
                    pll_out / 4
                } else if pll_out > 64_000_000 {
                    pll_out / 3
                } else {
                    pll_out / 2
                }
            },
        };
        let sysclk_freq: u32 = sysclk64 as u32;

        let pll_mul: u64 = pll_out / pll_in;
        let pll_div: u64 = pll_out / sysclk64;

        let bypass: bool = pll_mul == 2 && pll_div == 2 && !self.usb_pll;
        if !bypass {
            let mul_ok: bool = pll_mul == 3 || pll_mul == 4 || pll_mul == 6 || pll_mul == 8
                || pll_mul == 12 || pll_mul == 16 || pll_mul == 24 || pll_mul == 32
                || pll_mul == 48;
            if !mul_ok {
                return Err(ClockError::InvalidPllMultiplier);
            }
            if !(2 <= pll_div && pll_div <= 4) {
                return Err(ClockError::InvalidPllDivider);
            }
        }

        if !ceiling_ok(&self.hse, sysclk_freq) {
            return Err(ClockError::SysclkExceedsCeiling);
        }

        let hpre_bits: u8 = match self.hclk {
            Some(h) => hpre_code_for_ratio(sysclk_freq / h),
            None => 0b0111,
        };
        let hclk: u32 = sysclk_freq / hpre_divider(hpre_bits);
        if !ceiling_ok(&self.hse, hclk) {
            return Err(ClockError::HclkExceedsCeiling);
        }

        let ppre1_bits: u8 = match self.pclk1 {
            Some(p) => ppre_code_for_ratio(hclk / p),
            None => 0b011,
        };
        let ppre1: u8 = ppre_divider(ppre1_bits);
        let pclk1: u32 = hclk / ppre1 as u32;
        if !ceiling_ok(&self.hse, pclk1) {
            return Err(ClockError::Pclk1ExceedsCeiling);
        }

        let ppre2_bits: u8 = match self.pclk2 {
            Some(p) => ppre_code_for_ratio(hclk / p),
            None => 0b011,
        };
        let ppre2: u8 = ppre_divider(ppre2_bits);
        let pclk2: u32 = hclk / ppre2 as u32;
        if !ceiling_ok(&self.hse, pclk2) {
            return Err(ClockError::Pclk2ExceedsCeiling);
        }

        let pll: Option<PllConfig> = if bypass {
            None
        } else {
            Some(PllConfig { multiply: pll_mul as u8, divide: pll_div as u8 })
        };
        let tree = ResolvedClockTree {
            pll,
            use_hse: hse_freq.is_some(),
            hpre_bits,
            ppre1_bits,
            ppre2_bits,
            one_wait_state: sysclk_freq > 16_000_000,
            sysclk: sysclk_freq,
            hclk,
            pclk1,
            pclk2,
            ppre1,
            ppre2,
        };
        Ok(tree)
    }
}

/// Whether a derived frequency respects the active oscillator's ceiling.
fn ceiling_ok(hse: &Option<HseConfig>, f: u32) -> (r: bool)
    ensures
        r == spec_ceiling_ok(*hse, f as nat),
{
    match hse {
        None => true,
        Some(h) => match h.kind {
            ExternalHseType::Clock => f <= 32_000_000,
            ExternalHseType::Crystal => f <= 24_000_000,
        },
    }
}

// ---------------------------------------------------------------------------
// Laws of resolution.
// ---------------------------------------------------------------------------

/// Law: a resolved tree's system clock never exceeds the active
/// oscillator type's ceiling — 32 MHz downstream of an external clock
/// signal, 24 MHz downstream of a crystal, unconstrained by this rule
/// on the internal oscillator.
pub proof fn lemma_resolved_sysclk_within_ceiling(c: CFGR, t: ResolvedClockTree)
    requires
        spec_resolve(c) == Ok::<ResolvedClockTree, ClockError>(t),
    ensures
        spec_ceiling_ok(c.hse, t.sysclk as nat),
{
    assert(spec_sysclk(c) <= u32::MAX);
}

/// Law: every frequency of a resolved tree — system clock, AHB, APB1
/// and APB2 — respects the active oscillator type's ceiling.
pub proof fn lemma_resolved_tree_within_ceiling(c: CFGR, t: ResolvedClockTree)
    requires
        spec_resolve(c) == Ok::<ResolvedClockTree, ClockError>(t),
    ensures
        spec_ceiling_ok(c.hse, t.sysclk as nat),
        spec_ceiling_ok(c.hse, t.hclk as nat),
        spec_ceiling_ok(c.hse, t.pclk1 as nat),
        spec_ceiling_ok(c.hse, t.pclk2 as nat),
{
    assert(spec_sysclk(c) <= u32::MAX);
    assert(spec_hclk(c) <= spec_sysclk(c)) by {
        vstd::arithmetic::div_mod::lemma_div_is_ordered_by_denominator(
            spec_sysclk(c) as int,
            1,
            spec_hpre_divider(spec_hpre_bits(c)) as int,
        );
    }
    assert(spec_pclk1(c) <= spec_hclk(c)) by {
        vstd::arithmetic::div_mod::lemma_div_is_ordered_by_denominator(
            spec_hclk(c) as int,
            1,
            spec_ppre_divider(spec_ppre1_bits(c)) as int,
        );
    }
    assert(spec_pclk2(c) <= spec_hclk(c)) by {
        vstd::arithmetic::div_mod::lemma_div_is_ordered_by_denominator(
            spec_hclk(c) as int,
            1,
            spec_ppre_divider(spec_ppre2_bits(c)) as int,
        );
    }
}

/// Law: whenever the PLL is enabled in a resolved tree, its factors
/// come from the hardware's closed enumerations; and the PLL is
/// bypassed exactly when the derived factors are 2 and 2 and no
/// alternate high-frequency target was requested.
pub proof fn lemma_resolved_pll_factors_enumerated(c: CFGR, t: ResolvedClockTree)
    requires
        spec_resolve(c) == Ok::<ResolvedClockTree, ClockError>(t),
    ensures
        t.pll matches Some(p) ==> spec_mul_supported(p.multiply as nat) && spec_div_supported(
            p.divide as nat,
        ),
        t.pll is None <==> spec_pll_mul(c) == 2 && spec_pll_div(c) == 2 && !c.usb_pll,
{
}

/// Law: every tree that resolution hands out satisfies the tree
/// invariant, so the sequencer can always encode its factors.
pub proof fn lemma_resolved_tree_wf(c: CFGR, t: ResolvedClockTree)
    requires
        spec_resolve(c) == Ok::<ResolvedClockTree, ClockError>(t),
    ensures
        t.wf(),
{
    lemma_resolved_pll_factors_enumerated(c, t);
}

/// Law: resolution is a pure function of the constraint set — equal
/// configurations resolve to identical trees, with no hidden state.
pub proof fn lemma_resolve_deterministic(c1: CFGR, c2: CFGR)
    requires
        c1 == c2,
    ensures
        spec_resolve(c1) == spec_resolve(c2),
{
}

/// Law: for one upstream frequency, a larger requested APB frequency
/// never selects a larger prescaler divider — asking for more never
/// slows the bus down.
pub proof fn lemma_ppre_divider_monotonic(up: nat, t1: nat, t2: nat)
    requires
        1 <= t1 <= t2,
    ensures
        spec_ppre_divider(spec_ppre_code(up / t2)) <= spec_ppre_divider(spec_ppre_code(up / t1)),
{
    vstd::arithmetic::div_mod::lemma_div_is_ordered_by_denominator(up as int, t1 as int, t2 as int);
}

/// Law: for one system clock, a larger requested AHB frequency never
/// selects a larger prescaler divider.
pub proof fn lemma_hpre_divider_monotonic(up: nat, t1: nat, t2: nat)
    requires
        1 <= t1 <= t2,
    ensures
        spec_hpre_divider(spec_hpre_code(up / t2)) <= spec_hpre_divider(spec_hpre_code(up / t1)),
{
    vstd::arithmetic::div_mod::lemma_div_is_ordered_by_denominator(up as int, t1 as int, t2 as int);
}

/// Law: raising the requested APB1 frequency, everything else equal,
/// never makes the chosen APB1 divider larger.
pub proof fn lemma_pclk1_target_monotonic(c1: CFGR, c2: CFGR, t1: u32, t2: u32)
    requires
        c1.pclk1 == Some(t1),
        c2.pclk1 == Some(t2),
        1 <= t1 <= t2,
        c1.hse == c2.hse,
        c1.usb_pll == c2.usb_pll,
        c1.sysclk == c2.sysclk,
        c1.hclk == c2.hclk,
    ensures
        spec_ppre_divider(spec_ppre1_bits(c2)) <= spec_ppre_divider(spec_ppre1_bits(c1)),
        spec_pclk1(c2) >= spec_pclk1(c1),
{
    assert(spec_hclk(c1) == spec_hclk(c2));
    lemma_ppre_divider_monotonic(spec_hclk(c1), t1 as nat, t2 as nat);
    vstd::arithmetic::div_mod::lemma_div_is_ordered_by_denominator(
        spec_hclk(c1) as int,
        spec_ppre_divider(spec_ppre1_bits(c2)) as int,
        spec_ppre_divider(spec_ppre1_bits(c1)) as int,
    );
}

/// Law: raising the requested APB2 frequency, everything else equal,
/// never makes the chosen APB2 divider larger.
pub proof fn lemma_pclk2_target_monotonic(c1: CFGR, c2: CFGR, t1: u32, t2: u32)
    requires
        c1.pclk2 == Some(t1),
        c2.pclk2 == Some(t2),
        1 <= t1 <= t2,
        c1.hse == c2.hse,
        c1.usb_pll == c2.usb_pll,
        c1.sysclk == c2.sysclk,
        c1.hclk == c2.hclk,
    ensures
        spec_ppre_divider(spec_ppre2_bits(c2)) <= spec_ppre_divider(spec_ppre2_bits(c1)),
        spec_pclk2(c2) >= spec_pclk2(c1),
{
    assert(spec_hclk(c1) == spec_hclk(c2));
    lemma_ppre_divider_monotonic(spec_hclk(c1), t1 as nat, t2 as nat);
    vstd::arithmetic::div_mod::lemma_div_is_ordered_by_denominator(
        spec_hclk(c1) as int,
        spec_ppre_divider(spec_ppre2_bits(c2)) as int,
        spec_ppre_divider(spec_ppre2_bits(c1)) as int,
    );
}

/// Law: raising the requested AHB frequency, everything else equal,
/// never makes the chosen AHB divider larger.
pub proof fn lemma_hclk_target_monotonic(c1: CFGR, c2: CFGR, t1: u32, t2: u32)
    requires
        c1.hclk == Some(t1),
        c2.hclk == Some(t2),
        1 <= t1 <= t2,
        c1.hse == c2.hse,
        c1.usb_pll == c2.usb_pll,
        c1.sysclk == c2.sysclk,
    ensures
        spec_hpre_divider(spec_hpre_bits(c2)) <= spec_hpre_divider(spec_hpre_bits(c1)),
        spec_hclk(c2) >= spec_hclk(c1),
{
    assert(spec_sysclk(c1) == spec_sysclk(c2));
    lemma_hpre_divider_monotonic(spec_sysclk(c1), t1 as nat, t2 as nat);
    vstd::arithmetic::div_mod::lemma_div_is_ordered_by_denominator(
        spec_sysclk(c1) as int,
        spec_hpre_divider(spec_hpre_bits(c2)) as int,
        spec_hpre_divider(spec_hpre_bits(c1)) as int,
    );
}

/// Frozen clock frequencies.
///
/// The existence of this value indicates that the clock configuration
/// can no longer be changed: it is created exactly once, by the
/// sequencer, after hardware has confirmed the new configuration.
#[derive(Clone, Copy, Debug)]
pub struct Clocks {
    hclk: Hertz,
    pclk1: Hertz,
    pclk2: Hertz,
    ppre1: u8,
    ppre2: u8,
    sysclk: Hertz,
}

impl Clocks {
    /// Only the sequencer builds a snapshot, from a confirmed tree.
    pub(crate) fn from_tree(tree: &ResolvedClockTree) -> (r: Clocks)
        ensures
            r == Clocks::spec_from_tree(*tree),
    {
        Clocks {
            hclk: Hertz(tree.hclk),
            pclk1: Hertz(tree.pclk1),
            pclk2: Hertz(tree.pclk2),
            ppre1: tree.ppre1,
            ppre2: tree.ppre2,
            sysclk: Hertz(tree.sysclk),
        }
    }

    /// The snapshot a confirmed tree freezes into.
    pub closed spec fn spec_from_tree(tree: ResolvedClockTree) -> Clocks {
        Clocks {
            hclk: Hertz(tree.hclk),
            pclk1: Hertz(tree.pclk1),
            pclk2: Hertz(tree.pclk2),
            ppre1: tree.ppre1,
            ppre2: tree.ppre2,
            sysclk: Hertz(tree.sysclk),
        }
    }

    /// The achieved AHB frequency.
    pub closed spec fn hclk_spec(&self) -> Hertz {
        self.hclk
    }

    /// The achieved APB1 frequency.
    pub closed spec fn pclk1_spec(&self) -> Hertz {
        self.pclk1
    }

    /// The achieved APB2 frequency.
    pub closed spec fn pclk2_spec(&self) -> Hertz {
        self.pclk2
    }

    /// The APB1 prescaler ratio.
    pub closed spec fn ppre1_spec(&self) -> u8 {
        self.ppre1
    }

    /// The APB2 prescaler ratio.
    pub closed spec fn ppre2_spec(&self) -> u8 {
        self.ppre2
    }

    /// The achieved system clock frequency.
    pub closed spec fn sysclk_spec(&self) -> Hertz {
        self.sysclk
    }

    /// Returns the frequency of the AHB.
    pub fn hclk(&self) -> (r: Hertz)
        ensures
            r == self.hclk_spec(),
    {
        self.hclk
    }

    /// Returns the frequency of the APB1.
    pub fn pclk1(&self) -> (r: Hertz)
        ensures
            r == self.pclk1_spec(),
    {
        self.pclk1
    }

    /// Returns the frequency of the APB2.
    pub fn pclk2(&self) -> (r: Hertz)
        ensures
            r == self.pclk2_spec(),
    {
        self.pclk2
    }

    /// Returns the APB1 prescaler ratio.
    pub fn ppre1(&self) -> (r: u8)
        ensures
            r == self.ppre1_spec(),
    {
        self.ppre1
    }

    /// Returns the APB2 prescaler ratio.
    pub fn ppre2(&self) -> (r: u8)
        ensures
            r == self.ppre2_spec(),
    {
        self.ppre2
    }

    /// Returns the system (core) frequency.
    pub fn sysclk(&self) -> (r: Hertz)
        ensures
            r == self.sysclk_spec(),
    {
        self.sysclk
    }
}

/// Law: the frozen snapshot carries exactly the frequencies and
/// prescaler ratios of the tree it was made from.
pub proof fn lemma_snapshot_carries_tree(tree: ResolvedClockTree)
    ensures
        Clocks::spec_from_tree(tree).hclk_spec() == Hertz(tree.hclk),
        Clocks::spec_from_tree(tree).pclk1_spec() == Hertz(tree.pclk1),
        Clocks::spec_from_tree(tree).pclk2_spec() == Hertz(tree.pclk2),
        Clocks::spec_from_tree(tree).sysclk_spec() == Hertz(tree.sysclk),
        Clocks::spec_from_tree(tree).ppre1_spec() == tree.ppre1,
        Clocks::spec_from_tree(tree).ppre2_spec() == tree.ppre2,
{
}

} // verus!
