//! Model of the Timer B register block: a 16-bit counter peripheral with a
//! control register, an expansion (input divider) register, seven independent
//! capture/compare channels, and a priority vector register.
//!
//! Register writes follow the hardware's write semantics: a whole-register
//! write replaces every field, with unwritten fields going to their reset
//! value of zero, while `modify`-style operations preserve the rest.

use vstd::prelude::*;

verus! {

/// TBxCTL: timer-clear bit.
pub const TBCLR: u16 = 0x0004;

/// TBxCTL: timer interrupt enable bit.
pub const TBIE: u16 = 0x0002;

/// TBxCTL: timer interrupt flag bit.
pub const TBIFG: u16 = 0x0001;

/// TBxCTL: mode-control field, two bits.
pub const MC_MASK: u16 = 0x0030;

/// TBxCTL mode-control value: count up to the channel 0 compare value.
pub const MC_UP: u16 = 0x0010;

/// TBxCTL mode-control value: free-running continuous count.
pub const MC_CONTINUOUS: u16 = 0x0020;

/// Complement of `MC_MASK | TBIFG`: the bits a mode switch preserves.
pub const MC_TBIFG_KEEP: u16 = 0xffce;

/// TBxCCTLn: capture/compare interrupt flag bit.
pub const CCIFG: u16 = 0x0001;

/// TBxCCTLn: capture overflow bit.
pub const COV: u16 = 0x0002;

/// TBxCCTLn: capture/compare interrupt enable bit.
pub const CCIE: u16 = 0x0010;

/// TBxCCTLn: capture mode (as opposed to compare mode) bit.
pub const CAP: u16 = 0x0100;

/// TBxCCTLn: synchronize the capture input to the timer clock.
pub const SCS: u16 = 0x0800;

/// Complement of `CCIFG`: keeps every bit but the channel interrupt flag.
pub const CCIFG_KEEP: u16 = 0xfffe;

/// Timer clock source select.
#[derive(Clone, Copy, Debug, PartialEq, Eq, Structural)]
pub enum Tbssel {
    /// External TBxCLK pin.
    Tbxclk,
    /// Auxiliary clock.
    Aclk,
    /// Sub-system master clock.
    Smclk,
    /// Inverted external clock.
    Inclk,
}

impl Tbssel {
    /// The two-bit field encoding of the clock source.
    pub open spec fn bits_spec(self) -> u8 {
        match self {
            Tbssel::Tbxclk => 0,
            Tbssel::Aclk => 1,
            Tbssel::Smclk => 2,
            Tbssel::Inclk => 3,
        }
    }

    /// Field encoding of the clock source, as written to TBxCTL.
    pub fn bits(self) -> (b: u8)
        ensures
            b == self.bits_spec(),
            b <= 3,
    {
        match self {
            Tbssel::Tbxclk => 0,
            Tbssel::Aclk => 1,
            Tbssel::Smclk => 2,
            Tbssel::Inclk => 3,
        }
    }
}

/// Timer clock divider.
#[derive(Clone, Copy, Debug, PartialEq, Eq, Structural)]
pub enum TimerDiv {
    /// No division
    _1,
    /// Divide by 2
    _2,
    /// Divide by 4
    _4,
    /// Divide by 8
    _8,
}

impl TimerDiv {
    /// The two-bit field encoding of the divider.
    pub open spec fn bits_spec(self) -> u8 {
        match self {
            TimerDiv::_1 => 0,
            TimerDiv::_2 => 1,
            TimerDiv::_4 => 2,
            TimerDiv::_8 => 3,
        }
    }

    /// Field encoding of the divider, as written to TBxCTL.
    pub fn bits(self) -> (b: u8)
        ensures
            b == self.bits_spec(),
            b <= 3,
    {
        match self {
            TimerDiv::_1 => 0,
            TimerDiv::_2 => 1,
            TimerDiv::_4 => 2,
            TimerDiv::_8 => 3,
        }
    }
}

/// Timer expansion clock divider, applied on top of the normal clock divider.
#[derive(Clone, Copy, Debug, PartialEq, Eq, Structural)]
pub enum TimerExDiv {
    /// No division
    _1,
    /// Divide by 2
    _2,
    /// Divide by 3
    _3,
    /// Divide by 4
    _4,
    /// Divide by 5
    _5,
    /// Divide by 6
    _6,
    /// Divide by 7
    _7,
    /// Divide by 8
    _8,
}

impl TimerExDiv {
    /// The three-bit field encoding of the expansion divider: one less than
    /// the division it applies.
    pub open spec fn bits_spec(self) -> u8 {
        match self {
            TimerExDiv::_1 => 0,
            TimerExDiv::_2 => 1,
            TimerExDiv::_3 => 2,
            TimerExDiv::_4 => 3,
            TimerExDiv::_5 => 4,
            TimerExDiv::_6 => 5,
            TimerExDiv::_7 => 6,
            TimerExDiv::_8 => 7,
        }
    }

    /// Field encoding of the expansion divider, as written to TBxEX0.
    pub fn bits(self) -> (b: u8)
        ensures
            b == self.bits_spec(),
            b <= 7,
    {
        match self {
            TimerExDiv::_1 => 0,
            TimerExDiv::_2 => 1,
            TimerExDiv::_3 => 2,
            TimerExDiv::_4 => 3,
            TimerExDiv::_5 => 4,
            TimerExDiv::_6 => 5,
            TimerExDiv::_7 => 6,
            TimerExDiv::_8 => 7,
        }
    }
}

/// Compare output-action mode: what the channel's output signal does on a
/// compare match with the channel's own value (EQUn) and on a match with
/// channel 0's value (EQU0), which in up mode marks the period rollover.
#[derive(Clone, Copy, Debug, PartialEq, Eq, Structural)]
pub enum Outmod {
    /// Output the OUT bit; no action on matches.
    Out,
    /// Set on EQUn; stays set.
    SetOnly,
    /// Toggle on EQUn, reset on EQU0.
    ToggleReset,
    /// Set on EQUn, reset on EQU0.
    SetReset,
    /// Toggle on EQUn.
    Toggle,
    /// Reset on EQUn; stays reset.
    Reset,
    /// Toggle on EQUn, set on EQU0.
    ToggleSet,
    /// Reset on EQUn, set on EQU0.
    ResetSet,
}

impl Outmod {
    /// The three-bit field encoding of the output mode.
    pub open spec fn bits_spec(self) -> u8 {
        match self {
            Outmod::Out => 0,
            Outmod::SetOnly => 1,
            Outmod::ToggleReset => 2,
            Outmod::SetReset => 3,
            Outmod::Toggle => 4,
            Outmod::Reset => 5,
            Outmod::ToggleSet => 6,
            Outmod::ResetSet => 7,
        }
    }

    /// Field encoding of the output mode, as written to TBxCCTLn.
    pub fn bits(self) -> (b: u8)
        ensures
            b == self.bits_spec(),
            b <= 7,
    {
        match self {
            Outmod::Out => 0,
            Outmod::SetOnly => 1,
            Outmod::ToggleReset => 2,
            Outmod::SetReset => 3,
            Outmod::Toggle => 4,
            Outmod::Reset => 5,
            Outmod::ToggleSet => 6,
            Outmod::ResetSet => 7,
        }
    }

    /// The channel's output level after one counter tick, given the level
    /// before the tick and whether the tick produced a compare match with the
    /// channel's value (EQUn) or with channel 0's value (EQU0). When both
    /// coincide, the channel's own match decides.
    pub open spec fn step_spec(self, prev: bool, eq_n: bool, eq_0: bool) -> bool {
        match self {
            Outmod::Out => prev,
            Outmod::SetOnly => if eq_n {
                true
            } else {
                prev
            },
            Outmod::ToggleReset => if eq_n {
                !prev
            } else if eq_0 {
                false
            } else {
                prev
            },
            Outmod::SetReset => if eq_n {
                true
            } else if eq_0 {
                false
            } else {
                prev
            },
            Outmod::Toggle => if eq_n {
                !prev
            } else {
                prev
            },
            Outmod::Reset => if eq_n {
                false
            } else {
                prev
            },
            Outmod::ToggleSet => if eq_n {
                !prev
            } else if eq_0 {
                true
            } else {
                prev
            },
            Outmod::ResetSet => if eq_n {
                false
            } else if eq_0 {
                true
            } else {
                prev
            },
        }
    }

    /// One tick of the output-action state machine; see [`Self::step_spec`].
    pub fn step(self, prev: bool, eq_n: bool, eq_0: bool) -> (out: bool)
        ensures
            out == self.step_spec(prev, eq_n, eq_0),
    {
        match self {
            Outmod::Out => prev,
            Outmod::SetOnly => if eq_n {
                true
            } else {
                prev
            },
            Outmod::ToggleReset => if eq_n {
                !prev
            } else if eq_0 {
                false
            } else {
                prev
            },
            Outmod::SetReset => if eq_n {
                true
            } else if eq_0 {
                false
            } else {
                prev
            },
            Outmod::Toggle => if eq_n {
                !prev
            } else {
                prev
            },
            Outmod::Reset => if eq_n {
                false
            } else {
                prev
            },
            Outmod::ToggleSet => if eq_n {
                !prev
            } else if eq_0 {
                true
            } else {
                prev
            },
            Outmod::ResetSet => if eq_n {
                false
            } else if eq_0 {
                true
            } else {
                prev
            },
        }
    }
}

/// Capture edge selection.
#[derive(Clone, Copy, Debug, PartialEq, Eq, Structural)]
pub enum Cm {
    /// No capture.
    NoCap,
    /// Capture on rising edge.
    RisingEdge,
    /// Capture on falling edge.
    FallingEdge,
    /// Capture on both edges.
    BothEdges,
}

impl Cm {
    /// The two-bit field encoding of the capture edge.
    pub open spec fn bits_spec(self) -> u8 {
        match self {
            Cm::NoCap => 0,
            Cm::RisingEdge => 1,
            Cm::FallingEdge => 2,
            Cm::BothEdges => 3,
        }
    }

    /// Field encoding of the capture edge, as written to TBxCCTLn.
    pub fn bits(self) -> (b: u8)
        ensures
            b == self.bits_spec(),
            b <= 3,
    {
        match self {
            Cm::NoCap => 0,
            Cm::RisingEdge => 1,
            Cm::FallingEdge => 2,
            Cm::BothEdges => 3,
        }
    }
}

/// Capture input selection.
#[derive(Clone, Copy, Debug, PartialEq, Eq, Structural)]
pub enum Ccis {
    /// Input signal A.
    InputA,
    /// Input signal B.
    InputB,
    /// Ground.
    Gnd,
    /// Supply voltage.
    Vcc,
}

impl Ccis {
    /// The two-bit field encoding of the capture input.
    pub open spec fn bits_spec(self) -> u8 {
        match self {
            Ccis::InputA => 0,
            Ccis::InputB => 1,
            Ccis::Gnd => 2,
            Ccis::Vcc => 3,
        }
    }

    /// Field encoding of the capture input, as written to TBxCCTLn.
    pub fn bits(self) -> (b: u8)
        ensures
            b == self.bits_spec(),
            b <= 3,
    {
        match self {
            Ccis::InputA => 0,
            Ccis::InputB => 1,
            Ccis::Gnd => 2,
            Ccis::Vcc => 3,
        }
    }
}

/// The registers of one Timer B block: the control register TBxCTL, the
/// expansion register TBxEX0, and the control and count/compare registers of
/// the seven capture/compare channels.
#[derive(Clone, Copy, Debug, PartialEq, Eq, Structural)]
pub struct TimerState {
    /// Control register TBxCTL.
    pub ctl: u16,
    /// Expansion register TBxEX0, holding the secondary divider.
    pub ex: u16,
    /// Channel control register TBxCCTL0.
    pub cctl0: u16,
    /// Channel control register TBxCCTL1.
    pub cctl1: u16,
    /// Channel control register TBxCCTL2.
    pub cctl2: u16,
    /// Channel control register TBxCCTL3.
    pub cctl3: u16,
    /// Channel control register TBxCCTL4.
    pub cctl4: u16,
    /// Channel control register TBxCCTL5.
    pub cctl5: u16,
    /// Channel control register TBxCCTL6.
    pub cctl6: u16,
    /// Count/compare register TBxCCR0.
    pub ccr0: u16,
    /// Count/compare register TBxCCR1.
    pub ccr1: u16,
    /// Count/compare register TBxCCR2.
    pub ccr2: u16,
    /// Count/compare register TBxCCR3.
    pub ccr3: u16,
    /// Count/compare register TBxCCR4.
    pub ccr4: u16,
    /// Count/compare register TBxCCR5.
    pub ccr5: u16,
    /// Count/compare register TBxCCR6.
    pub ccr6: u16,
}

/// Channel `i`'s control register.
pub open spec fn cctl_of(t: TimerState, i: int) -> u16 {
    if i == 0 {
        t.cctl0
    } else if i == 1 {
        t.cctl1
    } else if i == 2 {
        t.cctl2
    } else if i == 3 {
        t.cctl3
    } else if i == 4 {
        t.cctl4
    } else if i == 5 {
        t.cctl5
    } else {
        t.cctl6
    }
}

/// Channel `i`'s count/compare register.
pub open spec fn ccr_of(t: TimerState, i: int) -> u16 {
    if i == 0 {
        t.ccr0
    } else if i == 1 {
        t.ccr1
    } else if i == 2 {
        t.ccr2
    } else if i == 3 {
        t.ccr3
    } else if i == 4 {
        t.ccr4
    } else if i == 5 {
        t.ccr5
    } else {
        t.ccr6
    }
}

/// The timer with channel `i`'s control register replaced by `v`.
pub open spec fn with_cctl(t: TimerState, i: int, v: u16) -> TimerState {
    if i == 0 {
        TimerState { cctl0: v, ..t }
    } else if i == 1 {
        TimerState { cctl1: v, ..t }
    } else if i == 2 {
        TimerState { cctl2: v, ..t }
    } else if i == 3 {
        TimerState { cctl3: v, ..t }
    } else if i == 4 {
        TimerState { cctl4: v, ..t }
    } else if i == 5 {
        TimerState { cctl5: v, ..t }
    } else {
        TimerState { cctl6: v, ..t }
    }
}

/// The timer with channel `i`'s count/compare register replaced by `v`.
pub open spec fn with_ccr(t: TimerState, i: int, v: u16) -> TimerState {
    if i == 0 {
        TimerState { ccr0: v, ..t }
    } else if i == 1 {
        TimerState { ccr1: v, ..t }
    } else if i == 2 {
        TimerState { ccr2: v, ..t }
    } else if i == 3 {
        TimerState { ccr3: v, ..t }
    } else if i == 4 {
        TimerState { ccr4: v, ..t }
    } else if i == 5 {
        TimerState { ccr5: v, ..t }
    } else {
        TimerState { ccr6: v, ..t }
    }
}

/// True when channel `i` has a pending, enabled interrupt.
pub open spec fn channel_pending(t: TimerState, i: int) -> bool {
    cctl_of(t, i) & CCIFG != 0 && cctl_of(t, i) & CCIE != 0
}

/// The value the timer's priority vector register TBxIV presents: 2i for the
/// lowest-numbered channel i in 1..=6 with a pending enabled interrupt,
/// 14 for a pending enabled timer overflow, 0 when nothing is pending.
/// Channel 0 has its own dedicated vector and never appears here.
pub open spec fn tbiv_offset(t: TimerState) -> u16 {
    if channel_pending(t, 1) {
        2
    } else if channel_pending(t, 2) {
        4
    } else if channel_pending(t, 3) {
        6
    } else if channel_pending(t, 4) {
        8
    } else if channel_pending(t, 5) {
        10
    } else if channel_pending(t, 6) {
        12
    } else if t.ctl & TBIFG != 0 && t.ctl & TBIE != 0 {
        14
    } else {
        0
    }
}

/// The registers after a TBxIV read: the reported event's flag, and only that
/// flag, is cleared.
pub open spec fn tbiv_after(t: TimerState) -> TimerState {
    if channel_pending(t, 1) {
        TimerState { cctl1: t.cctl1 & CCIFG_KEEP, ..t }
    } else if channel_pending(t, 2) {
        TimerState { cctl2: t.cctl2 & CCIFG_KEEP, ..t }
    } else if channel_pending(t, 3) {
        TimerState { cctl3: t.cctl3 & CCIFG_KEEP, ..t }
    } else if channel_pending(t, 4) {
        TimerState { cctl4: t.cctl4 & CCIFG_KEEP, ..t }
    } else if channel_pending(t, 5) {
        TimerState { cctl5: t.cctl5 & CCIFG_KEEP, ..t }
    } else if channel_pending(t, 6) {
        TimerState { cctl6: t.cctl6 & CCIFG_KEEP, ..t }
    } else if t.ctl & TBIFG != 0 && t.ctl & TBIE != 0 {
        TimerState { ctl: t.ctl & CCIFG_KEEP, ..t }
    } else {
        t
    }
}

impl TimerState {
    /// A timer in its reset configuration: every register zero, so the timer
    /// is stopped with no interrupts enabled or pending.
    pub fn new() -> (t: TimerState)
        ensures
            t == (TimerState {
                ctl: 0,
                ex: 0,
                cctl0: 0,
                cctl1: 0,
                cctl2: 0,
                cctl3: 0,
                cctl4: 0,
                cctl5: 0,
                cctl6: 0,
                ccr0: 0,
                ccr1: 0,
                ccr2: 0,
                ccr3: 0,
                ccr4: 0,
                ccr5: 0,
                ccr6: 0,
            }),
    {
        TimerState {
            ctl: 0,
            ex: 0,
            cctl0: 0,
            cctl1: 0,
            cctl2: 0,
            cctl3: 0,
            cctl4: 0,
            cctl5: 0,
            cctl6: 0,
            ccr0: 0,
            ccr1: 0,
            ccr2: 0,
            ccr3: 0,
            ccr4: 0,
            ccr5: 0,
            ccr6: 0,
        }
    }
}

/// Operations every Timer B instance offers on its control, expansion and
/// vector registers. Implemented by the register-block model; the contracts
/// follow the hardware's write semantics, under which a whole-register write
/// resets the unwritten fields to zero.
pub trait TimerB {
    /// The registers this timer currently holds.
    spec fn state(&self) -> TimerState;

    /// Reset timer countdown: a whole-register write of TBxCTL with only the
    /// clear bit set, which also stops the timer.
    fn reset(&mut self)
        ensures
            final(self).state() == (TimerState { ctl: TBCLR, ..old(self).state() }),
    ;

    /// Set to upmode, reset timer, and clear interrupts, preserving the other
    /// control fields.
    fn upmode(&mut self)
        ensures
            final(self).state() == (TimerState {
                ctl: (old(self).state().ctl & MC_TBIFG_KEEP) | (TBCLR | MC_UP),
                ..old(self).state()
            }),
    ;

    /// Set to continuous mode, reset timer, and clear interrupts, preserving
    /// the other control fields.
    fn continuous(&mut self)
        ensures
            final(self).state() == (TimerState {
                ctl: (old(self).state().ctl & MC_TBIFG_KEEP) | (TBCLR | MC_CONTINUOUS),
                ..old(self).state()
            }),
    ;

    /// Apply clock select settings: a whole-register write of TBxCTL holding
    /// only the clock source and primary divider fields, so the timer is left
    /// stopped.
    fn config_clock(&mut self, tbssel: Tbssel, div: TimerDiv)
        ensures
            final(self).state() == (TimerState {
                ctl: ((tbssel.bits_spec() as u16) * 0x100 + (div.bits_spec() as u16) * 0x40) as u16,
                ..old(self).state()
            }),
    ;

    /// Check if timer is stopped.
    fn is_stopped(&self) -> (stopped: bool)
        ensures
            stopped == (self.state().ctl & MC_MASK == 0),
    ;

    /// Stop timer: a whole-register write of TBxCTL with the stopped mode,
    /// which zeroes every other control field too.
    fn stop(&mut self)
        ensures
            final(self).state() == (TimerState { ctl: 0, ..old(self).state() }),
    ;

    /// Set expansion register clock divider settings.
    fn set_tbidex(&mut self, tbidex: TimerExDiv)
        ensures
            final(self).state() == (TimerState {
                ex: tbidex.bits_spec() as u16,
                ..old(self).state()
            }),
    ;

    /// Read the timer overflow interrupt flag.
    fn tbifg_rd(&self) -> (flag: bool)
        ensures
            flag == (self.state().ctl & TBIFG != 0),
    ;

    /// Clear the timer overflow interrupt flag: a whole-register write of
    /// TBxCTL, which zeroes every other control field too.
    fn tbifg_clr(&mut self)
        ensures
            final(self).state() == (TimerState { ctl: 0, ..old(self).state() }),
    ;

    /// Enable the timer overflow interrupt: a whole-register write of TBxCTL
    /// with only the enable bit set.
    fn tbie_set(&mut self)
        ensures
            final(self).state() == (TimerState { ctl: TBIE, ..old(self).state() }),
    ;

    /// Disable the timer overflow interrupt: a whole-register write of TBxCTL
    /// with every field zero.
    fn tbie_clr(&mut self)
        ensures
            final(self).state() == (TimerState { ctl: 0, ..old(self).state() }),
    ;

    /// Read the priority vector register TBxIV: reports the highest-priority
    /// pending enabled event (channel 1 highest, then channels 2 to 6, then
    /// the timer overflow) and clears that event's flag, and only it, as a
    /// side effect of the read.
    fn tbxiv_rd(&mut self) -> (iv: u16)
        ensures
            iv == tbiv_offset(old(self).state()),
            final(self).state() == tbiv_after(old(self).state()),
    ;
}

/// A label type naming one of the seven capture/compare channels.
pub trait CcrNum {
    /// The channel number, 0 to 6.
    spec fn num() -> int;

    /// The channel number lies in range.
    proof fn num_in_range()
        ensures
            0 <= Self::num() < 7,
    ;

    /// The channel number, for register dispatch.
    fn index() -> (n: usize)
        ensures
            n as int == Self::num(),
    ;
}

/// Label for capture-compare register 0
pub struct CCR0;

impl CcrNum for CCR0 {
    open spec fn num() -> int {
        0
    }

    proof fn num_in_range() {
    }

    fn index() -> (n: usize) {
        0
    }
}

/// Label for capture-compare register 1
pub struct CCR1;

impl CcrNum for CCR1 {
    open spec fn num() -> int {
        1
    }

    proof fn num_in_range() {
    }

    fn index() -> (n: usize) {
        1
    }
}

/// Label for capture-compare register 2
pub struct CCR2;

impl CcrNum for CCR2 {
    open spec fn num() -> int {
        2
    }

    proof fn num_in_range() {
    }

    fn index() -> (n: usize) {
        2
    }
}

/// Label for capture-compare register 3
pub struct CCR3;

impl CcrNum for CCR3 {
    open spec fn num() -> int {
        3
    }

    proof fn num_in_range() {
    }

    fn index() -> (n: usize) {
        3
    }
}

/// Label for capture-compare register 4
pub struct CCR4;

impl CcrNum for CCR4 {
    open spec fn num() -> int {
        4
    }

    proof fn num_in_range() {
    }

    fn index() -> (n: usize) {
        4
    }
}

/// Label for capture-compare register 5
pub struct CCR5;

impl CcrNum for CCR5 {
    open spec fn num() -> int {
        5
    }

    proof fn num_in_range() {
    }

    fn index() -> (n: usize) {
        5
    }
}

/// Label for capture-compare register 6
pub struct CCR6;

impl CcrNum for CCR6 {
    open spec fn num() -> int {
        6
    }

    proof fn num_in_range() {
    }

    fn index() -> (n: usize) {
        6
    }
}

/// Operations on one capture/compare channel `C` of a Timer B instance. The
/// channel's registers are selected by the label type, so code for one
/// channel cannot touch another channel's registers.
pub trait CCRn<C: CcrNum>: TimerB {
    /// Write the channel's count/compare register.
    fn set_ccrn(&mut self, count: u16)
        ensures
            final(self).state() == with_ccr(old(self).state(), C::num(), count),
    ;

    /// Read the channel's count/compare register.
    fn get_ccrn(&self) -> (count: u16)
        ensures
            count == ccr_of(self.state(), C::num()),
    ;

    /// Configure the compare output-action mode: a whole-register write of
    /// TBxCCTLn holding only the output-mode field, which also puts the
    /// channel into compare mode with interrupts disabled.
    fn config_outmod(&mut self, outmod: Outmod)
        ensures
            final(self).state() == with_cctl(
                old(self).state(),
                C::num(),
                ((outmod.bits_spec() as u16) * 0x20) as u16,
            ),
    ;

    /// Configure capture mode: a whole-register write of TBxCCTLn selecting
    /// capture mode, synchronized to the timer clock, with the given edge and
    /// input source.
    fn config_cap_mode(&mut self, cm: Cm, ccis: Ccis)
        ensures
            final(self).state() == with_cctl(
                old(self).state(),
                C::num(),
                (CAP + SCS + (cm.bits_spec() as u16) * 0x4000 + (ccis.bits_spec() as u16)
                    * 0x1000) as u16,
            ),
    ;

    /// Read the channel interrupt flag.
    fn ccifg_rd(&self) -> (flag: bool)
        ensures
            flag == (cctl_of(self.state(), C::num()) & CCIFG != 0),
    ;

    /// Clear the channel interrupt flag: a whole-register write of TBxCCTLn,
    /// which zeroes the channel's other control fields too.
    fn ccifg_clr(&mut self)
        ensures
            final(self).state() == with_cctl(old(self).state(), C::num(), 0),
    ;

    /// Enable the channel interrupt: a whole-register write of TBxCCTLn with
    /// only the enable bit set.
    fn ccie_set(&mut self)
        ensures
            final(self).state() == with_cctl(old(self).state(), C::num(), CCIE),
    ;

    /// Disable the channel interrupt: a whole-register write of TBxCCTLn with
    /// every field zero.
    fn ccie_clr(&mut self)
        ensures
            final(self).state() == with_cctl(old(self).state(), C::num(), 0),
    ;

    /// Atomically read the capture overflow bit and the interrupt flag as a
    /// pair, in one register read.
    fn cov_ccifg_rd(&self) -> (pair: (bool, bool))
        ensures
            pair.0 == (cctl_of(self.state(), C::num()) & COV != 0),
            pair.1 == (cctl_of(self.state(), C::num()) & CCIFG != 0),
    ;

    /// Clear the capture overflow bit and the interrupt flag together: a
    /// whole-register write of TBxCCTLn, which zeroes the channel's other
    /// control fields too.
    fn cov_ccifg_clr(&mut self)
        ensures
            final(self).state() == with_cctl(old(self).state(), C::num(), 0),
    ;
}

/// Law: with any set of channel interrupts pending and enabled, the timer
/// vector reports the lowest-numbered such channel, which has the highest
/// priority, and the read clears that channel's flag and only that flag,
/// leaving every other register untouched.
pub proof fn lemma_tbiv_priority(t: TimerState, k: int)
    requires
        1 <= k < 7,
        channel_pending(t, k),
        forall|j: int| 1 <= j < k ==> !channel_pending(t, j),
    ensures
        tbiv_offset(t) == 2 * k,
        cctl_of(tbiv_after(t), k) == (cctl_of(t, k) & CCIFG_KEEP),
        !channel_pending(tbiv_after(t), k),
        forall|j: int| 0 <= j < 7 && j != k ==> cctl_of(tbiv_after(t), j) == cctl_of(t, j),
        tbiv_after(t).ctl == t.ctl,
        tbiv_after(t).ex == t.ex,
        forall|j: int| 0 <= j < 7 ==> ccr_of(tbiv_after(t), j) == ccr_of(t, j),
{
    if k >= 2 {
        assert(!channel_pending(t, 1));
    }
    if k >= 3 {
        assert(!channel_pending(t, 2));
    }
    if k >= 4 {
        assert(!channel_pending(t, 3));
    }
    if k >= 5 {
        assert(!channel_pending(t, 4));
    }
    if k >= 6 {
        assert(!channel_pending(t, 5));
    }
    let c = cctl_of(t, k);
    assert((c & CCIFG_KEEP) & CCIFG == 0) by (bit_vector)
        requires
            CCIFG_KEEP == 0xfffeu16 && CCIFG == 0x0001u16,
    ;
}

/// Law: when no channel interrupt is pending and enabled, a pending enabled
/// timer overflow is reported with the lowest priority, and the read clears
/// the overflow flag and nothing else.
pub proof fn lemma_tbiv_overflow(t: TimerState)
    requires
        forall|j: int| 1 <= j < 7 ==> !channel_pending(t, j),
        t.ctl & TBIFG != 0,
        t.ctl & TBIE != 0,
    ensures
        tbiv_offset(t) == 14,
        tbiv_after(t).ctl == (t.ctl & CCIFG_KEEP),
        tbiv_after(t).ctl & TBIFG == 0,
        tbiv_after(t).ex == t.ex,
        forall|j: int| 0 <= j < 7 ==> cctl_of(tbiv_after(t), j) == cctl_of(t, j),
        forall|j: int| 0 <= j < 7 ==> ccr_of(tbiv_after(t), j) == ccr_of(t, j),
{
    assert(!channel_pending(t, 1));
    assert(!channel_pending(t, 2));
    assert(!channel_pending(t, 3));
    assert(!channel_pending(t, 4));
    assert(!channel_pending(t, 5));
    assert(!channel_pending(t, 6));
    let c = t.ctl;
    assert((c & CCIFG_KEEP) & TBIFG == 0) by (bit_vector)
        requires
            CCIFG_KEEP == 0xfffeu16 && TBIFG == 0x0001u16,
    ;
}

impl TimerB for TimerState {
    closed spec fn state(&self) -> TimerState {
        *self
    }

    fn reset(&mut self) {
        self.ctl = TBCLR;
    }

    fn upmode(&mut self) {
        self.ctl = (self.ctl & MC_TBIFG_KEEP) | (TBCLR | MC_UP);
    }

    fn continuous(&mut self) {
        self.ctl = (self.ctl & MC_TBIFG_KEEP) | (TBCLR | MC_CONTINUOUS);
    }

    fn config_clock(&mut self, tbssel: Tbssel, div: TimerDiv) {
        self.ctl = (tbssel.bits() as u16) * 0x100 + (div.bits() as u16) * 0x40;
    }

    fn is_stopped(&self) -> (stopped: bool) {
        self.ctl & MC_MASK == 0
    }

    fn stop(&mut self) {
        self.ctl = 0;
    }

    fn set_tbidex(&mut self, tbidex: TimerExDiv) {
        self.ex = tbidex.bits() as u16;
    }

    fn tbifg_rd(&self) -> (flag: bool) {
        self.ctl & TBIFG != 0
    }

    fn tbifg_clr(&mut self) {
        self.ctl = 0;
    }

    fn tbie_set(&mut self) {
        self.ctl = TBIE;
    }

    fn tbie_clr(&mut self) {
        self.ctl = 0;
    }

    fn tbxiv_rd(&mut self) -> (iv: u16) {
        if self.cctl1 & CCIFG != 0 && self.cctl1 & CCIE != 0 {
            self.cctl1 = self.cctl1 & CCIFG_KEEP;
            2
        } else if self.cctl2 & CCIFG != 0 && self.cctl2 & CCIE != 0 {
            self.cctl2 = self.cctl2 & CCIFG_KEEP;
            4
        } else if self.cctl3 & CCIFG != 0 && self.cctl3 & CCIE != 0 {
            self.cctl3 = self.cctl3 & CCIFG_KEEP;
            6
        } else if self.cctl4 & CCIFG != 0 && self.cctl4 & CCIE != 0 {
            self.cctl4 = self.cctl4 & CCIFG_KEEP;
            8
        } else if self.cctl5 & CCIFG != 0 && self.cctl5 & CCIE != 0 {
            self.cctl5 = self.cctl5 & CCIFG_KEEP;
            10
        } else if self.cctl6 & CCIFG != 0 && self.cctl6 & CCIE != 0 {
            self.cctl6 = self.cctl6 & CCIFG_KEEP;
            12
        } else if self.ctl & TBIFG != 0 && self.ctl & TBIE != 0 {
            self.ctl = self.ctl & CCIFG_KEEP;
            14
        } else {
            0
        }
    }
}

impl<C: CcrNum> CCRn<C> for TimerState {
    fn set_ccrn(&mut self, count: u16) {
        proof {
            C::num_in_range();
        }
        let i = C::index();
        match i {
            0 => self.ccr0 = count,
            1 => self.ccr1 = count,
            2 => self.ccr2 = count,
            3 => self.ccr3 = count,
            4 => self.ccr4 = count,
            5 => self.ccr5 = count,
            _ => self.ccr6 = count,
        }
    }

    fn get_ccrn(&self) -> (count: u16) {
        proof {
            C::num_in_range();
        }
        let i = C::index();
        match i {
            0 => self.ccr0,
            1 => self.ccr1,
            2 => self.ccr2,
            3 => self.ccr3,
            4 => self.ccr4,
            5 => self.ccr5,
            _ => self.ccr6,
        }
    }

    fn config_outmod(&mut self, outmod: Outmod) {
        proof {
            C::num_in_range();
        }
        let v = (outmod.bits() as u16) * 0x20;
        let i = C::index();
        match i {
            0 => self.cctl0 = v,
            1 => self.cctl1 = v,
            2 => self.cctl2 = v,
            3 => self.cctl3 = v,
            4 => self.cctl4 = v,
            5 => self.cctl5 = v,
            _ => self.cctl6 = v,
        }
    }

    fn config_cap_mode(&mut self, cm: Cm, ccis: Ccis) {
        proof {
            C::num_in_range();
        }
        let v = CAP + SCS + (cm.bits() as u16) * 0x4000 + (ccis.bits() as u16) * 0x1000;
        let i = C::index();
        match i {
            0 => self.cctl0 = v,
            1 => self.cctl1 = v,
            2 => self.cctl2 = v,
            3 => self.cctl3 = v,
            4 => self.cctl4 = v,
            5 => self.cctl5 = v,
            _ => self.cctl6 = v,
        }
    }

    fn ccifg_rd(&self) -> (flag: bool) {
        proof {
            C::num_in_range();
        }
        let i = C::index();
        let cctl = match i {
            0 => self.cctl0,
            1 => self.cctl1,
            2 => self.cctl2,
            3 => self.cctl3,
            4 => self.cctl4,
            5 => self.cctl5,
            _ => self.cctl6,
        };
        cctl & CCIFG != 0
    }

    fn ccifg_clr(&mut self) {
        proof {
            C::num_in_range();
        }
        let i = C::index();
        match i {
            0 => self.cctl0 = 0,
            1 => self.cctl1 = 0,
            2 => self.cctl2 = 0,
            3 => self.cctl3 = 0,
            4 => self.cctl4 = 0,
            5 => self.cctl5 = 0,
            _ => self.cctl6 = 0,
        }
    }

    fn ccie_set(&mut self) {
        proof {
            C::num_in_range();
        }
        let i = C::index();
        match i {
            0 => self.cctl0 = CCIE,
            1 => self.cctl1 = CCIE,
            2 => self.cctl2 = CCIE,
            3 => self.cctl3 = CCIE,
            4 => self.cctl4 = CCIE,
            5 => self.cctl5 = CCIE,
            _ => self.cctl6 = CCIE,
        }
    }

    fn ccie_clr(&mut self) {
        proof {
            C::num_in_range();
        }
        let i = C::index();
        match i {
            0 => self.cctl0 = 0,
            1 => self.cctl1 = 0,
            2 => self.cctl2 = 0,
            3 => self.cctl3 = 0,
            4 => self.cctl4 = 0,
            5 => self.cctl5 = 0,
            _ => self.cctl6 = 0,
        }
    }

    fn cov_ccifg_rd(&self) -> (pair: (bool, bool)) {
        proof {
            C::num_in_range();
        }
        let i = C::index();
        let cctl = match i {
            0 => self.cctl0,
            1 => self.cctl1,
            2 => self.cctl2,
            3 => self.cctl3,
            4 => self.cctl4,
            5 => self.cctl5,
            _ => self.cctl6,
        };
        (cctl & COV != 0, cctl & CCIFG != 0)
    }

    fn cov_ccifg_clr(&mut self) {
        proof {
            C::num_in_range();
        }
        let i = C::index();
        match i {
            0 => self.cctl0 = 0,
            1 => self.cctl1 = 0,
            2 => self.cctl2 = 0,
            3 => self.cctl3 = 0,
            4 => self.cctl4 = 0,
            5 => self.cctl5 = 0,
            _ => self.cctl6 = 0,
        }
    }
}

} // verus!
