//! The hardware sequencer: turns a resolved clock tree into the exact
//! series of register writes and status polls that moves the chip onto
//! the new configuration without an unclocked or over-clocked
//! intermediate state.
//!
//! The sequencer itself touches no hardware. Each call to
//! [`Sequencer::advance`] returns the next operation to perform; the
//! caller performs it against the live registers and, for a poll
//! operation, feeds the flag it read back into the next call. The
//! frozen [`Clocks`] snapshot can be taken only once the machine has
//! confirmed every transition — in particular, it is unreachable while
//! a ready or lock flag refuses to set.

use vstd::prelude::*;

verus! {

use crate::rcc::{Clocks, ResolvedClockTree, spec_div_supported, spec_mul_supported};

/// One operation against the live clock-control registers.
#[derive(Clone, Copy, Debug, PartialEq, Eq, Structural)]
pub enum SequencerAction {
    /// Clear the PLL enable bit.
    DisablePll,
    /// Read the PLL lock status flag and hand it to the next step.
    PollPllLocked,
    /// Program the flash wait-state bit for the new system clock
    /// frequency; the payload is whether the extra wait state is needed.
    SetFlashLatency(bool),
    /// Program the PLL multiplier code, divider code and input select
    /// (true selects the external oscillator). Legal only while the
    /// PLL is disabled.
    ProgramPll(u8, u8, bool),
    /// Write the oscillator enable bits in one register write: PLL on,
    /// internal oscillator on, external oscillator on.
    EnableClocks(bool, bool, bool),
    /// Read the ready flag of the chosen oscillator (true: external,
    /// false: internal) and hand it to the next step.
    PollOscillatorReady(bool),
    /// Select the new system clock source and program all three bus
    /// prescaler codes in one atomic register write: AHB code, APB1
    /// code, APB2 code, source-select bits.
    SelectSystemClock(u8, u8, u8, u8),
    /// Nothing is left to do; the snapshot is available.
    Finished,
}

/// Where the sequencer stands between two operations.
#[derive(Clone, Copy, Debug, PartialEq, Eq, Structural)]
pub enum SequencerState {
    /// Nothing done yet.
    Start,
    /// The PLL enable bit has been cleared.
    PllDisabled,
    /// Waiting for the PLL lock flag to clear.
    AwaitPllUnlock,
    /// Flash wait states match the new target frequency.
    FlashConfigured,
    /// PLL factors and input select are programmed.
    PllProgrammed,
    /// The oscillator enable bits are written.
    ClocksEnabled,
    /// Waiting for the chosen oscillator's ready flag to set.
    AwaitOscillatorReady,
    /// Waiting for the PLL lock flag to set.
    AwaitPllLock,
    /// The system clock source and the prescalers are switched.
    SystemClockSelected,
    /// The new configuration is confirmed; the snapshot exists.
    Done,
}

/// Register code for a PLL multiplication factor.
pub open spec fn spec_pll_mul_bits(multiply: u8) -> u8 {
    if multiply == 3 {
        0b0000
    } else if multiply == 4 {
        0b0001
    } else if multiply == 6 {
        0b0010
    } else if multiply == 8 {
        0b0011
    } else if multiply == 12 {
        0b0100
    } else if multiply == 16 {
        0b0101
    } else if multiply == 24 {
        0b0110
    } else if multiply == 32 {
        0b0111
    } else {
        0b1000
    }
}

/// Register code for a PLL multiplication factor.
pub fn pll_mul_bits(multiply: u8) -> (r: u8)
    requires
        spec_mul_supported(multiply as nat),
    ensures
        r == spec_pll_mul_bits(multiply),
{
    if multiply == 3 {
        0b0000
    } else if multiply == 4 {
        0b0001
    } else if multiply == 6 {
        0b0010
    } else if multiply == 8 {
        0b0011
    } else if multiply == 12 {
        0b0100
    } else if multiply == 16 {
        0b0101
    } else if multiply == 24 {
        0b0110
    } else if multiply == 32 {
        0b0111
    } else {
        0b1000
    }
}

/// Register code for a PLL division factor.
pub open spec fn spec_pll_div_bits(divide: u8) -> u8 {
    (divide - 1) as u8
}

/// Register code for a PLL division factor.
pub fn pll_div_bits(divide: u8) -> (r: u8)
    requires
        spec_div_supported(divide as nat),
    ensures
        r == spec_pll_div_bits(divide),
{
    divide - 1
}

/// System clock source-select bits: the PLL when it is enabled, else
/// the chosen oscillator directly.
pub open spec fn spec_sw_bits(tree: ResolvedClockTree) -> u8 {
    if tree.pll is Some {
        0b11
    } else if tree.use_hse {
        0b10
    } else {
        0b01
    }
}

/// The state after one step: how the machine moves on a poll result.
/// `flag` is the status flag the last poll read; steps that follow a
/// plain write ignore it.
pub open spec fn spec_next_state(
    tree: ResolvedClockTree,
    s: SequencerState,
    flag: bool,
) -> SequencerState {
    match s {
        SequencerState::Start => if tree.pll is Some {
            SequencerState::PllDisabled
        } else {
            SequencerState::FlashConfigured
        },
        SequencerState::PllDisabled => SequencerState::AwaitPllUnlock,
        SequencerState::AwaitPllUnlock => if flag {
            SequencerState::AwaitPllUnlock
        } else {
            SequencerState::FlashConfigured
        },
        SequencerState::FlashConfigured => if tree.pll is Some {
            SequencerState::PllProgrammed
        } else {
            SequencerState::ClocksEnabled
        },
        SequencerState::PllProgrammed => SequencerState::ClocksEnabled,
        SequencerState::ClocksEnabled => SequencerState::AwaitOscillatorReady,
        SequencerState::AwaitOscillatorReady => if !flag {
            SequencerState::AwaitOscillatorReady
        } else if tree.pll is Some {
            SequencerState::AwaitPllLock
        } else {
            SequencerState::SystemClockSelected
        },
        SequencerState::AwaitPllLock => if flag {
            SequencerState::SystemClockSelected
        } else {
            SequencerState::AwaitPllLock
        },
        SequencerState::SystemClockSelected => SequencerState::Done,
        SequencerState::Done => SequencerState::Done,
    }
}

/// The operation emitted by one step.
pub open spec fn spec_action(
    tree: ResolvedClockTree,
    s: SequencerState,
    flag: bool,
) -> SequencerAction {
    match s {
        SequencerState::Start => if tree.pll is Some {
            SequencerAction::DisablePll
        } else {
            SequencerAction::SetFlashLatency(tree.one_wait_state)
        },
        SequencerState::PllDisabled => SequencerAction::PollPllLocked,
        SequencerState::AwaitPllUnlock => if flag {
            SequencerAction::PollPllLocked
        } else {
            SequencerAction::SetFlashLatency(tree.one_wait_state)
        },
        SequencerState::FlashConfigured => match tree.pll {
            Some(p) => SequencerAction::ProgramPll(
                spec_pll_mul_bits(p.multiply),
                spec_pll_div_bits(p.divide),
                tree.use_hse,
            ),
            None => SequencerAction::EnableClocks(false, !tree.use_hse, tree.use_hse),
        },
        SequencerState::PllProgrammed => SequencerAction::EnableClocks(
            true,
            !tree.use_hse,
            tree.use_hse,
        ),
        SequencerState::ClocksEnabled => SequencerAction::PollOscillatorReady(tree.use_hse),
        SequencerState::AwaitOscillatorReady => if !flag {
            SequencerAction::PollOscillatorReady(tree.use_hse)
        } else if tree.pll is Some {
            SequencerAction::PollPllLocked
        } else {
            SequencerAction::SelectSystemClock(
                tree.hpre_bits,
                tree.ppre1_bits,
                tree.ppre2_bits,
                spec_sw_bits(tree),
            )
        },
        SequencerState::AwaitPllLock => if flag {
            SequencerAction::SelectSystemClock(
                tree.hpre_bits,
                tree.ppre1_bits,
                tree.ppre2_bits,
                spec_sw_bits(tree),
            )
        } else {
            SequencerAction::PollPllLocked
        },
        SequencerState::SystemClockSelected => SequencerAction::Finished,
        SequencerState::Done => SequencerAction::Finished,
    }
}

/// The sequencer: a resolved tree and the step reached so far.
pub struct Sequencer {
    tree: ResolvedClockTree,
    state: SequencerState,
}

impl Sequencer {
    /// The tree this sequencer applies.
    pub closed spec fn tree_spec(&self) -> ResolvedClockTree {
        self.tree
    }

    /// The step reached so far.
    pub closed spec fn state_spec(&self) -> SequencerState {
        self.state
    }

    /// Starts sequencing a resolved tree. Nothing has been written yet.
    pub fn new(tree: ResolvedClockTree) -> (r: Sequencer)
        requires
            tree.wf(),
        ensures
            r.tree_spec() == tree,
            r.state_spec() == SequencerState::Start,
    {
        Sequencer { tree, state: SequencerState::Start }
    }

    /// The tree being applied.
    pub fn tree(&self) -> (r: ResolvedClockTree)
        ensures
            r == self.tree_spec(),
    {
        self.tree
    }

    /// The step reached so far.
    pub fn state(&self) -> (r: SequencerState)
        ensures
            r == self.state_spec(),
    {
        self.state
    }

    /// One step: moves the machine and returns the operation to perform
    /// next. `flag` is the status flag read by the previous poll
    /// operation; steps that follow a plain write ignore it.
    pub fn advance(&mut self, flag: bool) -> (a: SequencerAction)
        requires
            old(self).tree_spec().wf(),
        ensures
            final(self).tree_spec() == old(self).tree_spec(),
            final(self).state_spec() == spec_next_state(
                old(self).tree_spec(),
                old(self).state_spec(),
                flag,
            ),
            a == spec_action(old(self).tree_spec(), old(self).state_spec(), flag),
    {
        match self.state {
            SequencerState::Start => {
                if self.tree.pll.is_some() {
                    self.state = SequencerState::PllDisabled;
                    SequencerAction::DisablePll
                } else {
                    self.state = SequencerState::FlashConfigured;
                    SequencerAction::SetFlashLatency(self.tree.one_wait_state)
                }
            },
            SequencerState::PllDisabled => {
                self.state = SequencerState::AwaitPllUnlock;
                SequencerAction::PollPllLocked
            },
            SequencerState::AwaitPllUnlock => {
                if flag {
                    SequencerAction::PollPllLocked
                } else {
                    self.state = SequencerState::FlashConfigured;
                    SequencerAction::SetFlashLatency(self.tree.one_wait_state)
                }
            },
            SequencerState::FlashConfigured => {
                match self.tree.pll {
                    Some(p) => {
                        self.state = SequencerState::PllProgrammed;
                        SequencerAction::ProgramPll(
                            pll_mul_bits(p.multiply),
                            pll_div_bits(p.divide),
                            self.tree.use_hse,
                        )
                    },
                    None => {
                        self.state = SequencerState::ClocksEnabled;
                        SequencerAction::EnableClocks(false, !self.tree.use_hse, self.tree.use_hse)
                    },
                }
            },
            SequencerState::PllProgrammed => {
                self.state = SequencerState::ClocksEnabled;
                SequencerAction::EnableClocks(true, !self.tree.use_hse, self.tree.use_hse)
            },
            SequencerState::ClocksEnabled => {
                self.state = SequencerState::AwaitOscillatorReady;
                SequencerAction::PollOscillatorReady(self.tree.use_hse)
            },
            SequencerState::AwaitOscillatorReady => {
                if !flag {
                    SequencerAction::PollOscillatorReady(self.tree.use_hse)
                } else if self.tree.pll.is_some() {
                    self.state = SequencerState::AwaitPllLock;
                    SequencerAction::PollPllLocked
                } else {
                    self.state = SequencerState::SystemClockSelected;
                    SequencerAction::SelectSystemClock(
                        self.tree.hpre_bits,
                        self.tree.ppre1_bits,
                        self.tree.ppre2_bits,
                        self.sw_bits(),
                    )
                }
            },
            SequencerState::AwaitPllLock => {
                if flag {
                    self.state = SequencerState::SystemClockSelected;
                    SequencerAction::SelectSystemClock(
                        self.tree.hpre_bits,
                        self.tree.ppre1_bits,
                        self.tree.ppre2_bits,
                        self.sw_bits(),
                    )
                } else {
                    SequencerAction::PollPllLocked
                }
            },
            SequencerState::SystemClockSelected => {
                self.state = SequencerState::Done;
                SequencerAction::Finished
            },
            SequencerState::Done => SequencerAction::Finished,
        }
    }

    /// The frozen snapshot — available exactly once every transition
    /// has been confirmed, and carrying the frequencies and prescaler
    /// ratios of the applied tree.
    pub fn clocks(&self) -> (r: Option<Clocks>)
        ensures
            r is Some <==> self.state_spec() is Done,
            r matches Some(k) ==> k == Clocks::spec_from_tree(self.tree_spec()),
    {
        match self.state {
            SequencerState::Done => Some(Clocks::from_tree(&self.tree)),
            _ => None,
        }
    }

    /// The system clock source-select bits for the applied tree.
    fn sw_bits(&self) -> (r: u8)
        ensures
            r == spec_sw_bits(self.tree_spec()),
    {
        if self.tree.pll.is_some() {
            0b11
        } else if self.tree.use_hse {
            0b10
        } else {
            0b01
        }
    }
}

// ---------------------------------------------------------------------------
// Laws of sequencing.
// ---------------------------------------------------------------------------

/// How far along the required order a step lies.
pub open spec fn spec_stage(s: SequencerState) -> nat {
    match s {
        SequencerState::Start => 0,
        SequencerState::PllDisabled => 1,
        SequencerState::AwaitPllUnlock => 2,
        SequencerState::FlashConfigured => 3,
        SequencerState::PllProgrammed => 4,
        SequencerState::ClocksEnabled => 5,
        SequencerState::AwaitOscillatorReady => 6,
        SequencerState::AwaitPllLock => 7,
        SequencerState::SystemClockSelected => 8,
        SequencerState::Done => 9,
    }
}

/// Law: the sequencer only moves forward along the required order —
/// no step is ever revisited once passed.
pub proof fn lemma_sequencer_moves_forward(tree: ResolvedClockTree, s: SequencerState, flag: bool)
    ensures
        spec_stage(spec_next_state(tree, s, flag)) >= spec_stage(s),
{
}

/// Law: while the PLL lock flag stays clear, the sequencer stays in the
/// lock-wait step and keeps polling; it never signals completion, so no
/// snapshot can come out of hardware whose lock status never sets.
pub proof fn lemma_no_lock_no_snapshot(tree: ResolvedClockTree, flag: bool)
    requires
        !flag,
    ensures
        spec_next_state(tree, SequencerState::AwaitPllLock, flag) == SequencerState::AwaitPllLock,
        spec_action(tree, SequencerState::AwaitPllLock, flag) == SequencerAction::PollPllLocked,
{
}

/// Law: the machine reaches its final step only through the system
/// clock switch, and it performs the switch only on a confirmed status
/// flag — a set lock flag when the PLL is in use, a set ready flag when
/// the oscillator feeds the system clock directly.
pub proof fn lemma_snapshot_needs_confirmation(
    tree: ResolvedClockTree,
    s: SequencerState,
    flag: bool,
)
    ensures
        spec_next_state(tree, s, flag) is Done ==> s is SystemClockSelected || s is Done,
        spec_next_state(tree, s, flag) is SystemClockSelected && !(s is SystemClockSelected)
            ==> flag && (s is AwaitPllLock || (s is AwaitOscillatorReady && tree.pll is None)),
        spec_action(tree, s, flag) matches SequencerAction::SelectSystemClock(h, p1, p2, sw) ==> {
            &&& flag
            &&& h == tree.hpre_bits
            &&& p1 == tree.ppre1_bits
            &&& p2 == tree.ppre2_bits
            &&& sw == spec_sw_bits(tree)
        },
{
}

/// Law: the flash wait states are programmed strictly before the
/// oscillator enable write and the system clock switch: the flash step
/// lies earlier in the order every later operation comes from.
pub proof fn lemma_flash_before_switch(tree: ResolvedClockTree, s: SequencerState, flag: bool)
    ensures
        spec_action(tree, s, flag) matches SequencerAction::SetFlashLatency(ws) ==> ws
            == tree.one_wait_state && spec_stage(s) <= 2,
        spec_action(tree, s, flag) is EnableClocks ==> spec_stage(s) >= 3,
        spec_action(tree, s, flag) is SelectSystemClock ==> spec_stage(s) >= 6,
{
}

} // verus!
