//! GPIO pin typestates and the alternate-function multiplexing engine.
//!
//! A [`Pin`] is a zero-sized capability for one pin of one port: its type
//! carries the port, the pin number, and the pin's current direction and
//! function, so an operation the current state does not allow simply does not
//! exist on the handle and is rejected when the program is built. Which
//! alternate functions a given (port, pin) pair supports is a fixed hardware
//! fact, encoded by the [`ToAlternate1`], [`ToAlternate2`] and
//! [`ToAlternate3`] marker impls at the bottom of this module.
//!
//! Every operation works on the port's register block, passed explicitly as a
//! [`PortState`], and its contract states the exact masked writes issued:
//! only the pin's own bit of a register changes, so sibling pins sharing the
//! register are never disturbed.

use core::marker::PhantomData;

use vstd::prelude::*;

pub use crate::batch_gpio::Batch;
use crate::bits::{
    bit, clr_mask_of, lemma_clear_effect, lemma_double_toggle, lemma_set_effect,
    lemma_set_then_clear, lemma_toggle_effect, mask_of,
};
use crate::hw_traits::gpio::{
    lemma_pxiv_priority, pending, pxiv_after, pxiv_offset, Edit, GpioReg, PortRegs, PortState,
};

verus! {

/// Trait that encompasses all `Pinx` types for specifying a pin number.
pub trait PinNum {
    /// Pin number, 0 to 7.
    spec fn num() -> u8;

    /// The pin number lies in range.
    proof fn num_below_eight()
        ensures
            Self::num() < 8,
    ;

    /// Bitmask with all zeros except for the bit corresponding to the pin.
    fn set_mask() -> (m: u8)
        ensures
            m == mask_of(Self::num()),
    ;

    /// Bitmask with all ones except for the bit corresponding to the pin.
    fn clr_mask() -> (m: u8)
        ensures
            m == clr_mask_of(Self::num()),
    ;
}

/// Trait that encompasses all `Portx` types for specifying a GPIO port.
pub trait PortNum {

}

/// Marker for ports whose pins have interrupt capability: an interrupt-capable
/// port has the edge-select, interrupt-enable, interrupt-flag and vector
/// registers. On this chip those are ports 1 to 4.
pub trait IntrPortNum: PortNum {

}

/// Trait implemented on register-block types to map them to their respective
/// port number type.
pub trait GpioPort {
    /// Port number
    type PortNum: PortNum;
}

/// Pin number 0
pub struct Pin0;

impl PinNum for Pin0 {
    open spec fn num() -> u8 {
        0
    }

    proof fn num_below_eight() {
    }

    fn set_mask() -> (m: u8) {
        0x01
    }

    fn clr_mask() -> (m: u8) {
        0xfe
    }
}

/// Pin number 1
pub struct Pin1;

impl PinNum for Pin1 {
    open spec fn num() -> u8 {
        1
    }

    proof fn num_below_eight() {
    }

    fn set_mask() -> (m: u8) {
        0x02
    }

    fn clr_mask() -> (m: u8) {
        0xfd
    }
}

/// Pin number 2
pub struct Pin2;

impl PinNum for Pin2 {
    open spec fn num() -> u8 {
        2
    }

    proof fn num_below_eight() {
    }

    fn set_mask() -> (m: u8) {
        0x04
    }

    fn clr_mask() -> (m: u8) {
        0xfb
    }
}

/// Pin number 3
pub struct Pin3;

impl PinNum for Pin3 {
    open spec fn num() -> u8 {
        3
    }

    proof fn num_below_eight() {
    }

    fn set_mask() -> (m: u8) {
        0x08
    }

    fn clr_mask() -> (m: u8) {
        0xf7
    }
}

/// Pin number 4
pub struct Pin4;

impl PinNum for Pin4 {
    open spec fn num() -> u8 {
        4
    }

    proof fn num_below_eight() {
    }

    fn set_mask() -> (m: u8) {
        0x10
    }

    fn clr_mask() -> (m: u8) {
        0xef
    }
}

/// Pin number 5
pub struct Pin5;

impl PinNum for Pin5 {
    open spec fn num() -> u8 {
        5
    }

    proof fn num_below_eight() {
    }

    fn set_mask() -> (m: u8) {
        0x20
    }

    fn clr_mask() -> (m: u8) {
        0xdf
    }
}

/// Pin number 6
pub struct Pin6;

impl PinNum for Pin6 {
    open spec fn num() -> u8 {
        6
    }

    proof fn num_below_eight() {
    }

    fn set_mask() -> (m: u8) {
        0x40
    }

    fn clr_mask() -> (m: u8) {
        0xbf
    }
}

/// Pin number 7
pub struct Pin7;

impl PinNum for Pin7 {
    open spec fn num() -> u8 {
        7
    }

    proof fn num_below_eight() {
    }

    fn set_mask() -> (m: u8) {
        0x80
    }

    fn clr_mask() -> (m: u8) {
        0x7f
    }
}

/// Port P1
pub struct Port1;

impl PortNum for Port1 {

}

impl IntrPortNum for Port1 {

}

/// Port P2
pub struct Port2;

impl PortNum for Port2 {

}

impl IntrPortNum for Port2 {

}

/// Port P3
pub struct Port3;

impl PortNum for Port3 {

}

impl IntrPortNum for Port3 {

}

/// Port P4
pub struct Port4;

impl PortNum for Port4 {

}

impl IntrPortNum for Port4 {

}

/// Port P5
pub struct Port5;

impl PortNum for Port5 {

}

/// Port P6
pub struct Port6;

impl PortNum for Port6 {

}

/// Marker trait for GPIO typestates representing pins in GPIO (non-alternate)
/// state.
pub trait GpioFunction {

}

/// Direction typestate for GPIO output
pub struct Output;

impl GpioFunction for Output {

}

/// Direction typestate for GPIO input.
/// The type parameter specifies pull direction of input.
pub struct Input<PULL>(PhantomData<PULL>);

impl<PULL> GpioFunction for Input<PULL> {

}

/// Pull typestate for pullup inputs
pub struct Pullup;

/// Pull typestate for pulldown inputs
pub struct Pulldown;

/// Pull typestate for floating inputs
pub struct Floating;

/// A single GPIO pin on the chip: a zero-sized capability whose type records
/// the pin's current direction and function.
pub struct Pin<PORT: PortNum, PIN: PinNum, DIR> {
    _port: PhantomData<PORT>,
    _pin: PhantomData<PIN>,
    _dir: PhantomData<DIR>,
}

/// Builds the handle for a pin's new typestate; used by every transition.
fn make_pin<PORT: PortNum, PIN: PinNum, DIR>() -> Pin<PORT, PIN, DIR> {
    Pin { _port: PhantomData, _pin: PhantomData, _dir: PhantomData }
}

impl<PORT: PortNum, PIN: PinNum, PULL> Pin<PORT, PIN, Input<PULL>> {
    /// Configures pin as pulldown input: clears the pin's output bit to select
    /// the pull-down direction, then enables the pull resistor.
    pub fn pulldown(self, p: &mut PortState) -> (pin: Pin<PORT, PIN, Input<Pulldown>>)
        ensures
            final(p).regs == (PortRegs {
                out: old(p).regs.out & clr_mask_of(PIN::num()),
                ren: old(p).regs.ren | mask_of(PIN::num()),
                ..old(p).regs
            }),
            final(p).log@ == old(p).log@.push(
                Edit::ClearBits(GpioReg::Out, clr_mask_of(PIN::num())),
            ).push(Edit::SetBits(GpioReg::Ren, mask_of(PIN::num()))),
    {
        p.pxout_clear(PIN::clr_mask());
        p.pxren_set(PIN::set_mask());
        make_pin()
    }

    /// Configures pin as pullup input: sets the pin's output bit to select the
    /// pull-up direction, then enables the pull resistor.
    pub fn pullup(self, p: &mut PortState) -> (pin: Pin<PORT, PIN, Input<Pullup>>)
        ensures
            final(p).regs == (PortRegs {
                out: old(p).regs.out | mask_of(PIN::num()),
                ren: old(p).regs.ren | mask_of(PIN::num()),
                ..old(p).regs
            }),
            final(p).log@ == old(p).log@.push(
                Edit::SetBits(GpioReg::Out, mask_of(PIN::num())),
            ).push(Edit::SetBits(GpioReg::Ren, mask_of(PIN::num()))),
    {
        p.pxout_set(PIN::set_mask());
        p.pxren_set(PIN::set_mask());
        make_pin()
    }

    /// Configures pin as floating input by disabling the pull resistor.
    pub fn floating(self, p: &mut PortState) -> (pin: Pin<PORT, PIN, Input<Floating>>)
        ensures
            final(p).regs == (PortRegs {
                ren: old(p).regs.ren & clr_mask_of(PIN::num()),
                ..old(p).regs
            }),
            final(p).log@ == old(p).log@.push(
                Edit::ClearBits(GpioReg::Ren, clr_mask_of(PIN::num())),
            ),
    {
        p.pxren_clear(PIN::clr_mask());
        make_pin()
    }

    /// Reads the pin's input level.
    pub fn is_high(&self, p: &PortState) -> (high: bool)
        ensures
            high == bit(p.regs.input, PIN::num()),
    {
        p.pxin_rd() & PIN::set_mask() != 0
    }

    /// Reads the pin's input level, inverted.
    pub fn is_low(&self, p: &PortState) -> (low: bool)
        ensures
            low == !bit(p.regs.input, PIN::num()),
    {
        !self.is_high(p)
    }

    /// Configures pin as output; the pull configuration bits are left as they
    /// are, since they have no effect on an output pin.
    pub fn to_output(self, p: &mut PortState) -> (pin: Pin<PORT, PIN, Output>)
        ensures
            final(p).regs == (PortRegs {
                dir: old(p).regs.dir | mask_of(PIN::num()),
                ..old(p).regs
            }),
            final(p).log@ == old(p).log@.push(
                Edit::SetBits(GpioReg::Dir, mask_of(PIN::num())),
            ),
    {
        p.pxdir_set(PIN::set_mask());
        make_pin()
    }
}

impl<PORT: IntrPortNum, PIN: PinNum, PULL> Pin<PORT, PIN, Input<PULL>> {
    /// Set interrupt trigger to rising edge and clear the interrupt flag, so
    /// the edge change itself cannot leave a stale trigger pending.
    pub fn select_rising_edge_trigger(&mut self, p: &mut PortState)
        ensures
            final(p).regs == (PortRegs {
                ies: old(p).regs.ies | mask_of(PIN::num()),
                ifg: old(p).regs.ifg & clr_mask_of(PIN::num()),
                ..old(p).regs
            }),
            final(p).log@ == old(p).log@.push(
                Edit::SetBits(GpioReg::Ies, mask_of(PIN::num())),
            ).push(Edit::ClearBits(GpioReg::Ifg, clr_mask_of(PIN::num()))),
    {
        p.pxies_set(PIN::set_mask());
        p.pxifg_clear(PIN::clr_mask());
    }

    /// Set interrupt trigger to falling edge, the default, and clear the
    /// interrupt flag.
    pub fn select_falling_edge_trigger(&mut self, p: &mut PortState)
        ensures
            final(p).regs == (PortRegs {
                ies: old(p).regs.ies & clr_mask_of(PIN::num()),
                ifg: old(p).regs.ifg & clr_mask_of(PIN::num()),
                ..old(p).regs
            }),
            final(p).log@ == old(p).log@.push(
                Edit::ClearBits(GpioReg::Ies, clr_mask_of(PIN::num())),
            ).push(Edit::ClearBits(GpioReg::Ifg, clr_mask_of(PIN::num()))),
    {
        p.pxies_clear(PIN::clr_mask());
        p.pxifg_clear(PIN::clr_mask());
    }

    /// Enable interrupts on input pin.
    /// Note that changing other GPIO configurations while interrupts are
    /// enabled can cause spurious interrupts.
    pub fn enable_interrupts(&mut self, p: &mut PortState)
        ensures
            final(p).regs == (PortRegs {
                ie: old(p).regs.ie | mask_of(PIN::num()),
                ..old(p).regs
            }),
            final(p).log@ == old(p).log@.push(
                Edit::SetBits(GpioReg::Ie, mask_of(PIN::num())),
            ),
    {
        p.pxie_set(PIN::set_mask());
    }

    /// Disable interrupts on input pin.
    pub fn disable_interrupt(&mut self, p: &mut PortState)
        ensures
            final(p).regs == (PortRegs {
                ie: old(p).regs.ie & clr_mask_of(PIN::num()),
                ..old(p).regs
            }),
            final(p).log@ == old(p).log@.push(
                Edit::ClearBits(GpioReg::Ie, clr_mask_of(PIN::num())),
            ),
    {
        p.pxie_clear(PIN::clr_mask());
    }

    /// Set interrupt flag high, triggering an ISR if interrupts are enabled.
    pub fn set_ifg(&mut self, p: &mut PortState)
        ensures
            final(p).regs == (PortRegs {
                ifg: old(p).regs.ifg | mask_of(PIN::num()),
                ..old(p).regs
            }),
            final(p).log@ == old(p).log@.push(
                Edit::SetBits(GpioReg::Ifg, mask_of(PIN::num())),
            ),
    {
        p.pxifg_set(PIN::set_mask());
    }

    /// Clear interrupt flag.
    pub fn clear_ifg(&mut self, p: &mut PortState)
        ensures
            final(p).regs == (PortRegs {
                ifg: old(p).regs.ifg & clr_mask_of(PIN::num()),
                ..old(p).regs
            }),
            final(p).log@ == old(p).log@.push(
                Edit::ClearBits(GpioReg::Ifg, clr_mask_of(PIN::num())),
            ),
    {
        p.pxifg_clear(PIN::clr_mask());
    }

    /// Poll the interrupt flag without blocking. When the flag is high the
    /// call clears it and reports ready; when it is low the call changes
    /// nothing and reports would-block, an expected transient state rather
    /// than an error. The caller decides whether to spin, sleep or move on.
    pub fn wait_for_ifg(&mut self, p: &mut PortState) -> (res: Result<(), WouldBlock>)
        ensures
            res is Ok <==> bit(old(p).regs.ifg, PIN::num()),
            bit(old(p).regs.ifg, PIN::num()) ==> final(p).regs == (PortRegs {
                ifg: old(p).regs.ifg & clr_mask_of(PIN::num()),
                ..old(p).regs
            }) && final(p).log@ == old(p).log@.push(
                Edit::ClearBits(GpioReg::Ifg, clr_mask_of(PIN::num())),
            ),
            !bit(old(p).regs.ifg, PIN::num()) ==> final(p).regs == old(p).regs
                && final(p).log@ == old(p).log@,
    {
        if p.pxifg_rd() & PIN::set_mask() != 0 {
            p.pxifg_clear(PIN::clr_mask());
            Ok(())
        } else {
            Err(WouldBlock)
        }
    }
}

/// The poll result reported when an awaited flag is not set yet: retry later.
#[derive(Clone, Copy, Debug, PartialEq, Eq, Structural)]
pub struct WouldBlock;

impl<PORT: PortNum, PIN: PinNum> Pin<PORT, PIN, Output> {
    /// Configures pin as floating input: clears the direction bit, then
    /// disables the pull resistor.
    pub fn to_input_floating(self, p: &mut PortState) -> (pin: Pin<PORT, PIN, Input<Floating>>)
        ensures
            final(p).regs == (PortRegs {
                dir: old(p).regs.dir & clr_mask_of(PIN::num()),
                ren: old(p).regs.ren & clr_mask_of(PIN::num()),
                ..old(p).regs
            }),
            final(p).log@ == old(p).log@.push(
                Edit::ClearBits(GpioReg::Dir, clr_mask_of(PIN::num())),
            ).push(Edit::ClearBits(GpioReg::Ren, clr_mask_of(PIN::num()))),
    {
        p.pxdir_clear(PIN::clr_mask());
        let pin: Pin<PORT, PIN, Input<Floating>> = make_pin();
        pin.floating(p)
    }

    /// Configures pin as pullup input: clears the direction bit, then applies
    /// the pull-up policy.
    pub fn to_input_pullup(self, p: &mut PortState) -> (pin: Pin<PORT, PIN, Input<Pullup>>)
        ensures
            final(p).regs == (PortRegs {
                dir: old(p).regs.dir & clr_mask_of(PIN::num()),
                out: old(p).regs.out | mask_of(PIN::num()),
                ren: old(p).regs.ren | mask_of(PIN::num()),
                ..old(p).regs
            }),
            final(p).log@ == old(p).log@.push(
                Edit::ClearBits(GpioReg::Dir, clr_mask_of(PIN::num())),
            ).push(Edit::SetBits(GpioReg::Out, mask_of(PIN::num()))).push(
                Edit::SetBits(GpioReg::Ren, mask_of(PIN::num())),
            ),
    {
        p.pxdir_clear(PIN::clr_mask());
        let pin: Pin<PORT, PIN, Input<Floating>> = make_pin();
        pin.pullup(p)
    }

    /// Configures pin as pulldown input: clears the direction bit, then
    /// applies the pull-down policy.
    pub fn to_input_pulldown(self, p: &mut PortState) -> (pin: Pin<PORT, PIN, Input<Pulldown>>)
        ensures
            final(p).regs == (PortRegs {
                dir: old(p).regs.dir & clr_mask_of(PIN::num()),
                out: old(p).regs.out & clr_mask_of(PIN::num()),
                ren: old(p).regs.ren | mask_of(PIN::num()),
                ..old(p).regs
            }),
            final(p).log@ == old(p).log@.push(
                Edit::ClearBits(GpioReg::Dir, clr_mask_of(PIN::num())),
            ).push(Edit::ClearBits(GpioReg::Out, clr_mask_of(PIN::num()))).push(
                Edit::SetBits(GpioReg::Ren, mask_of(PIN::num())),
            ),
    {
        p.pxdir_clear(PIN::clr_mask());
        let pin: Pin<PORT, PIN, Input<Floating>> = make_pin();
        pin.pulldown(p)
    }

    /// Drives the pin's output low by a masked clear of its output bit.
    pub fn set_low(&mut self, p: &mut PortState)
        ensures
            final(p).regs == (PortRegs {
                out: old(p).regs.out & clr_mask_of(PIN::num()),
                ..old(p).regs
            }),
            final(p).log@ == old(p).log@.push(
                Edit::ClearBits(GpioReg::Out, clr_mask_of(PIN::num())),
            ),
    {
        p.pxout_clear(PIN::clr_mask());
    }

    /// Drives the pin's output high by a masked set of its output bit.
    pub fn set_high(&mut self, p: &mut PortState)
        ensures
            final(p).regs == (PortRegs {
                out: old(p).regs.out | mask_of(PIN::num()),
                ..old(p).regs
            }),
            final(p).log@ == old(p).log@.push(
                Edit::SetBits(GpioReg::Out, mask_of(PIN::num())),
            ),
    {
        p.pxout_set(PIN::set_mask());
    }

    /// Reads back the pin's recorded output value.
    pub fn is_set_high(&self, p: &PortState) -> (high: bool)
        ensures
            high == bit(p.regs.out, PIN::num()),
    {
        p.pxout_rd() & PIN::set_mask() != 0
    }

    /// Reads back the pin's recorded output value, inverted.
    pub fn is_set_low(&self, p: &PortState) -> (low: bool)
        ensures
            low == !bit(p.regs.out, PIN::num()),
    {
        !self.is_set_high(p)
    }

    /// Flips the pin's output by a masked toggle of its output bit.
    pub fn toggle(&mut self, p: &mut PortState)
        ensures
            final(p).regs == (PortRegs {
                out: old(p).regs.out ^ mask_of(PIN::num()),
                ..old(p).regs
            }),
            final(p).log@ == old(p).log@.push(
                Edit::ToggleBits(GpioReg::Out, mask_of(PIN::num())),
            ),
    {
        p.pxout_toggle(PIN::set_mask());
    }
}

/// Trait for getting the interrupt vector info for a port with interrupt
/// capabilities.
pub trait GetInterruptVector {
    /// When called inside an ISR, returns the pin number of the highest
    /// priority interrupt flag that's currently enabled, decoded from the
    /// port's vector register. The read clears that same flag as a side
    /// effect, so each logical trigger is reported at most once. For a given
    /// port, the lowest numbered pin has the highest interrupt priority.
    fn get_interrupt_vector(p: &mut PortState) -> (v: InterruptVector)
        ensures
            v == vector_of(pending(old(p).regs)),
            final(p).regs == pxiv_after(old(p).regs),
            final(p).log@ == old(p).log@,
    ;
}

/// The vector decoded from a pending-and-enabled byte: the lowest set bit
/// names the pin, and no pending bit at all decodes to no ISR.
pub open spec fn vector_of(pend: u8) -> InterruptVector {
    if pend & 0x01 != 0 {
        InterruptVector::Pin0Isr
    } else if pend & 0x02 != 0 {
        InterruptVector::Pin1Isr
    } else if pend & 0x04 != 0 {
        InterruptVector::Pin2Isr
    } else if pend & 0x08 != 0 {
        InterruptVector::Pin3Isr
    } else if pend & 0x10 != 0 {
        InterruptVector::Pin4Isr
    } else if pend & 0x20 != 0 {
        InterruptVector::Pin5Isr
    } else if pend & 0x40 != 0 {
        InterruptVector::Pin6Isr
    } else if pend & 0x80 != 0 {
        InterruptVector::Pin7Isr
    } else {
        InterruptVector::NoIsr
    }
}

/// The vector variant naming pin `n`.
pub open spec fn pin_isr_of(n: u8) -> InterruptVector {
    if n == 0 {
        InterruptVector::Pin0Isr
    } else if n == 1 {
        InterruptVector::Pin1Isr
    } else if n == 2 {
        InterruptVector::Pin2Isr
    } else if n == 3 {
        InterruptVector::Pin3Isr
    } else if n == 4 {
        InterruptVector::Pin4Isr
    } else if n == 5 {
        InterruptVector::Pin5Isr
    } else if n == 6 {
        InterruptVector::Pin6Isr
    } else {
        InterruptVector::Pin7Isr
    }
}

impl<P: IntrPortNum> GetInterruptVector for P {
    // Since all we do here are reg reads, this function is re-entrant.
    fn get_interrupt_vector(p: &mut PortState) -> (v: InterruptVector) {
        match p.pxiv_rd() {
            0 => InterruptVector::NoIsr,
            2 => InterruptVector::Pin0Isr,
            4 => InterruptVector::Pin1Isr,
            6 => InterruptVector::Pin2Isr,
            8 => InterruptVector::Pin3Isr,
            10 => InterruptVector::Pin4Isr,
            12 => InterruptVector::Pin5Isr,
            14 => InterruptVector::Pin6Isr,
            _ => InterruptVector::Pin7Isr,
        }
    }
}

/// Indicates which pin on the GPIO port caused the ISR.
#[derive(Clone, Copy, Debug, PartialEq, Eq, Structural)]
pub enum InterruptVector {
    /// No ISR
    NoIsr,
    /// ISR caused by pin 0
    Pin0Isr,
    /// ISR caused by pin 1
    Pin1Isr,
    /// ISR caused by pin 2
    Pin2Isr,
    /// ISR caused by pin 3
    Pin3Isr,
    /// ISR caused by pin 4
    Pin4Isr,
    /// ISR caused by pin 5
    Pin5Isr,
    /// ISR caused by pin 6
    Pin6Isr,
    /// ISR caused by pin 7
    Pin7Isr,
}

/// GPIO parts for a specific port, including all 8 pins.
pub struct Parts<PORT: PortNum, DIR0, DIR1, DIR2, DIR3, DIR4, DIR5, DIR6, DIR7> {
    /// Pin0
    pub pin0: Pin<PORT, Pin0, DIR0>,
    /// Pin1
    pub pin1: Pin<PORT, Pin1, DIR1>,
    /// Pin2
    pub pin2: Pin<PORT, Pin2, DIR2>,
    /// Pin3
    pub pin3: Pin<PORT, Pin3, DIR3>,
    /// Pin4
    pub pin4: Pin<PORT, Pin4, DIR4>,
    /// Pin5
    pub pin5: Pin<PORT, Pin5, DIR5>,
    /// Pin6
    pub pin6: Pin<PORT, Pin6, DIR6>,
    /// Pin7
    pub pin7: Pin<PORT, Pin7, DIR7>,
}

impl<
    PORT: PortNum,
    DIR0,
    DIR1,
    DIR2,
    DIR3,
    DIR4,
    DIR5,
    DIR6,
    DIR7,
> Parts<PORT, DIR0, DIR1, DIR2, DIR3, DIR4, DIR5, DIR6, DIR7> {
    /// Converts all parts into a GPIO batch so the entire port can be
    /// configured at once.
    pub fn batch(self) -> Batch<PORT, DIR0, DIR1, DIR2, DIR3, DIR4, DIR5, DIR6, DIR7> {
        Batch::from_parts()
    }

    /// Builds the handles for all eight pins; callers guarantee that no other
    /// live handle for the port exists.
    pub(crate) fn new() -> Self {
        Self {
            pin0: make_pin(),
            pin1: make_pin(),
            pin2: make_pin(),
            pin3: make_pin(),
            pin4: make_pin(),
            pin5: make_pin(),
            pin6: make_pin(),
            pin7: make_pin(),
        }
    }
}

// Methods for managing sel1, sel0, and selc registers
impl<PORT: PortNum, PIN: PinNum, DIR> Pin<PORT, PIN, DIR> {
    fn set_sel0(&self, p: &mut PortState)
        ensures
            final(p).regs == (PortRegs {
                sel0: old(p).regs.sel0 | mask_of(PIN::num()),
                ..old(p).regs
            }),
            final(p).log@ == old(p).log@.push(
                Edit::SetBits(GpioReg::Sel0, mask_of(PIN::num())),
            ),
    {
        p.pxsel0_set(PIN::set_mask());
    }

    fn set_sel1(&self, p: &mut PortState)
        ensures
            final(p).regs == (PortRegs {
                sel1: old(p).regs.sel1 | mask_of(PIN::num()),
                ..old(p).regs
            }),
            final(p).log@ == old(p).log@.push(
                Edit::SetBits(GpioReg::Sel1, mask_of(PIN::num())),
            ),
    {
        p.pxsel1_set(PIN::set_mask());
    }

    fn clear_sel0(&self, p: &mut PortState)
        ensures
            final(p).regs == (PortRegs {
                sel0: old(p).regs.sel0 & clr_mask_of(PIN::num()),
                ..old(p).regs
            }),
            final(p).log@ == old(p).log@.push(
                Edit::ClearBits(GpioReg::Sel0, clr_mask_of(PIN::num())),
            ),
    {
        p.pxsel0_clear(PIN::clr_mask());
    }

    fn clear_sel1(&self, p: &mut PortState)
        ensures
            final(p).regs == (PortRegs {
                sel1: old(p).regs.sel1 & clr_mask_of(PIN::num()),
                ..old(p).regs
            }),
            final(p).log@ == old(p).log@.push(
                Edit::ClearBits(GpioReg::Sel1, clr_mask_of(PIN::num())),
            ),
    {
        p.pxsel1_clear(PIN::clr_mask());
    }

    /// Change both sel0 and sel1 bits at once, in a single register access, so
    /// the pin never routes through a third, unintended function encoding.
    fn flip_selc(&self, p: &mut PortState)
        ensures
            final(p).regs == (PortRegs {
                sel0: old(p).regs.sel0 ^ mask_of(PIN::num()),
                sel1: old(p).regs.sel1 ^ mask_of(PIN::num()),
                ..old(p).regs
            }),
            final(p).log@ == old(p).log@.push(Edit::SelcWrite(mask_of(PIN::num()))),
    {
        p.pxselc_wr(PIN::set_mask());
    }
}

/// Typestate for GPIO alternate function 1; the type parameter remembers the
/// direction typestate the pin restores on return to GPIO function.
pub struct Alternate1<DIR>(PhantomData<DIR>);

/// Typestate for GPIO alternate function 2; the type parameter remembers the
/// direction typestate the pin restores on return to GPIO function.
pub struct Alternate2<DIR>(PhantomData<DIR>);

/// Typestate for GPIO alternate function 3; the type parameter remembers the
/// direction typestate the pin restores on return to GPIO function.
pub struct Alternate3<DIR>(PhantomData<DIR>);

/// Capability marker: the (port, pin) pair supports alternate function 1.
pub trait ToAlternate1 {

}

/// Capability marker: the (port, pin) pair supports alternate function 2.
pub trait ToAlternate2 {

}

/// Capability marker: the (port, pin) pair supports alternate function 3.
pub trait ToAlternate3 {

}

// From gpio function: sel0 = 0, sel1 = 0
impl<PORT: PortNum, PIN: PinNum, DIR: GpioFunction> Pin<PORT, PIN, DIR> where Self: ToAlternate1 {
    /// Convert pin to GPIO alternate function 1 by setting its sel0 bit.
    pub fn to_alternate1(self, p: &mut PortState) -> (pin: Pin<PORT, PIN, Alternate1<DIR>>)
        ensures
            final(p).regs == (PortRegs {
                sel0: old(p).regs.sel0 | mask_of(PIN::num()),
                ..old(p).regs
            }),
            final(p).log@ == old(p).log@.push(
                Edit::SetBits(GpioReg::Sel0, mask_of(PIN::num())),
            ),
    {
        self.set_sel0(p);
        make_pin()
    }
}

impl<PORT: PortNum, PIN: PinNum, DIR: GpioFunction> Pin<PORT, PIN, DIR> where Self: ToAlternate2 {
    /// Convert pin to GPIO alternate function 2 by setting its sel1 bit.
    pub fn to_alternate2(self, p: &mut PortState) -> (pin: Pin<PORT, PIN, Alternate2<DIR>>)
        ensures
            final(p).regs == (PortRegs {
                sel1: old(p).regs.sel1 | mask_of(PIN::num()),
                ..old(p).regs
            }),
            final(p).log@ == old(p).log@.push(
                Edit::SetBits(GpioReg::Sel1, mask_of(PIN::num())),
            ),
    {
        self.set_sel1(p);
        make_pin()
    }
}

impl<PORT: PortNum, PIN: PinNum, DIR: GpioFunction> Pin<PORT, PIN, DIR> where Self: ToAlternate3 {
    /// Convert pin to GPIO alternate function 3 by flipping both select bits
    /// together through the complement register.
    pub fn to_alternate3(self, p: &mut PortState) -> (pin: Pin<PORT, PIN, Alternate3<DIR>>)
        ensures
            final(p).regs == (PortRegs {
                sel0: old(p).regs.sel0 ^ mask_of(PIN::num()),
                sel1: old(p).regs.sel1 ^ mask_of(PIN::num()),
                ..old(p).regs
            }),
            final(p).log@ == old(p).log@.push(Edit::SelcWrite(mask_of(PIN::num()))),
    {
        self.flip_selc(p);
        make_pin()
    }
}

// From alternate 1: sel0 = 1, sel1 = 0
impl<PORT: PortNum, PIN: PinNum, DIR> Pin<PORT, PIN, Alternate1<DIR>> {
    /// Convert pin to GPIO function by clearing its sel0 bit.
    pub fn to_gpio(self, p: &mut PortState) -> (pin: Pin<PORT, PIN, DIR>)
        ensures
            final(p).regs == (PortRegs {
                sel0: old(p).regs.sel0 & clr_mask_of(PIN::num()),
                ..old(p).regs
            }),
            final(p).log@ == old(p).log@.push(
                Edit::ClearBits(GpioReg::Sel0, clr_mask_of(PIN::num())),
            ),
    {
        self.clear_sel0(p);
        make_pin()
    }
}

impl<PORT: PortNum, PIN: PinNum, DIR> Pin<PORT, PIN, Alternate1<DIR>> where Self: ToAlternate2 {
    /// Convert pin to alternate function 2: from encoding (1, 0) to (0, 1)
    /// both select bits must change, so they are flipped together through the
    /// complement register rather than edited one at a time.
    pub fn to_alternate2(self, p: &mut PortState) -> (pin: Pin<PORT, PIN, Alternate2<DIR>>)
        ensures
            final(p).regs == (PortRegs {
                sel0: old(p).regs.sel0 ^ mask_of(PIN::num()),
                sel1: old(p).regs.sel1 ^ mask_of(PIN::num()),
                ..old(p).regs
            }),
            final(p).log@ == old(p).log@.push(Edit::SelcWrite(mask_of(PIN::num()))),
    {
        self.flip_selc(p);
        make_pin()
    }
}

impl<PORT: PortNum, PIN: PinNum, DIR> Pin<PORT, PIN, Alternate1<DIR>> where Self: ToAlternate3 {
    /// Convert pin to alternate function 3 by setting its sel1 bit.
    pub fn to_alternate3(self, p: &mut PortState) -> (pin: Pin<PORT, PIN, Alternate3<DIR>>)
        ensures
            final(p).regs == (PortRegs {
                sel1: old(p).regs.sel1 | mask_of(PIN::num()),
                ..old(p).regs
            }),
            final(p).log@ == old(p).log@.push(
                Edit::SetBits(GpioReg::Sel1, mask_of(PIN::num())),
            ),
    {
        self.set_sel1(p);
        make_pin()
    }
}

// From alternate 2: sel0 = 0, sel1 = 1
impl<PORT: PortNum, PIN: PinNum, DIR> Pin<PORT, PIN, Alternate2<DIR>> {
    /// Convert pin to GPIO function by clearing its sel1 bit.
    pub fn to_gpio(self, p: &mut PortState) -> (pin: Pin<PORT, PIN, DIR>)
        ensures
            final(p).regs == (PortRegs {
                sel1: old(p).regs.sel1 & clr_mask_of(PIN::num()),
                ..old(p).regs
            }),
            final(p).log@ == old(p).log@.push(
                Edit::ClearBits(GpioReg::Sel1, clr_mask_of(PIN::num())),
            ),
    {
        self.clear_sel1(p);
        make_pin()
    }
}

impl<PORT: PortNum, PIN: PinNum, DIR> Pin<PORT, PIN, Alternate2<DIR>> where Self: ToAlternate1 {
    /// Convert pin to alternate function 1: from encoding (0, 1) to (1, 0)
    /// both select bits must change, so they are flipped together through the
    /// complement register rather than edited one at a time.
    pub fn to_alternate1(self, p: &mut PortState) -> (pin: Pin<PORT, PIN, Alternate1<DIR>>)
        ensures
            final(p).regs == (PortRegs {
                sel0: old(p).regs.sel0 ^ mask_of(PIN::num()),
                sel1: old(p).regs.sel1 ^ mask_of(PIN::num()),
                ..old(p).regs
            }),
            final(p).log@ == old(p).log@.push(Edit::SelcWrite(mask_of(PIN::num()))),
    {
        self.flip_selc(p);
        make_pin()
    }
}

impl<PORT: PortNum, PIN: PinNum, DIR> Pin<PORT, PIN, Alternate2<DIR>> where Self: ToAlternate3 {
    /// Convert pin to alternate function 3 by setting its sel0 bit.
    pub fn to_alternate3(self, p: &mut PortState) -> (pin: Pin<PORT, PIN, Alternate3<DIR>>)
        ensures
            final(p).regs == (PortRegs {
                sel0: old(p).regs.sel0 | mask_of(PIN::num()),
                ..old(p).regs
            }),
            final(p).log@ == old(p).log@.push(
                Edit::SetBits(GpioReg::Sel0, mask_of(PIN::num())),
            ),
    {
        self.set_sel0(p);
        make_pin()
    }
}

// From alternate 3: sel0 = 1, sel1 = 1
impl<PORT: PortNum, PIN: PinNum, DIR> Pin<PORT, PIN, Alternate3<DIR>> {
    /// Convert pin to GPIO function: from encoding (1, 1) to (0, 0) both
    /// select bits must change, so they are flipped together through the
    /// complement register rather than edited one at a time.
    pub fn to_gpio(self, p: &mut PortState) -> (pin: Pin<PORT, PIN, DIR>)
        ensures
            final(p).regs == (PortRegs {
                sel0: old(p).regs.sel0 ^ mask_of(PIN::num()),
                sel1: old(p).regs.sel1 ^ mask_of(PIN::num()),
                ..old(p).regs
            }),
            final(p).log@ == old(p).log@.push(Edit::SelcWrite(mask_of(PIN::num()))),
    {
        self.flip_selc(p);
        make_pin()
    }
}

impl<PORT: PortNum, PIN: PinNum, DIR> Pin<PORT, PIN, Alternate3<DIR>> where Self: ToAlternate1 {
    /// Convert pin to alternate function 1 by clearing its sel1 bit.
    pub fn to_alternate1(self, p: &mut PortState) -> (pin: Pin<PORT, PIN, Alternate1<DIR>>)
        ensures
            final(p).regs == (PortRegs {
                sel1: old(p).regs.sel1 & clr_mask_of(PIN::num()),
                ..old(p).regs
            }),
            final(p).log@ == old(p).log@.push(
                Edit::ClearBits(GpioReg::Sel1, clr_mask_of(PIN::num())),
            ),
    {
        self.clear_sel1(p);
        make_pin()
    }
}

impl<PORT: PortNum, PIN: PinNum, DIR> Pin<PORT, PIN, Alternate3<DIR>> where Self: ToAlternate2 {
    /// Convert pin to alternate function 2 by clearing its sel0 bit.
    pub fn to_alternate2(self, p: &mut PortState) -> (pin: Pin<PORT, PIN, Alternate2<DIR>>)
        ensures
            final(p).regs == (PortRegs {
                sel0: old(p).regs.sel0 & clr_mask_of(PIN::num()),
                ..old(p).regs
            }),
            final(p).log@ == old(p).log@.push(
                Edit::ClearBits(GpioReg::Sel0, clr_mask_of(PIN::num())),
            ),
    {
        self.clear_sel0(p);
        make_pin()
    }
}

// P1 alternate 1
impl<PIN: PinNum, DIR> ToAlternate1 for Pin<Port1, PIN, DIR> {

}

// P1 alternate 2
impl<DIR> ToAlternate2 for Pin<Port1, Pin0, DIR> {

}

impl<DIR> ToAlternate2 for Pin<Port1, Pin1, DIR> {

}

impl<PULL> ToAlternate2 for Pin<Port1, Pin2, Input<PULL>> {

}

impl<DIR> ToAlternate2 for Pin<Port1, Pin6, DIR> {

}

impl<DIR> ToAlternate2 for Pin<Port1, Pin7, DIR> {

}

// P1 alternate 3
impl<PIN: PinNum, DIR> ToAlternate3 for Pin<Port1, PIN, DIR> {

}

// P2 alternate 1
impl<DIR> ToAlternate1 for Pin<Port2, Pin0, DIR> {

}

impl<DIR> ToAlternate1 for Pin<Port2, Pin1, DIR> {

}

impl<PULL> ToAlternate1 for Pin<Port2, Pin2, Input<PULL>> {

}

impl<DIR> ToAlternate1 for Pin<Port2, Pin3, DIR> {

}

impl<DIR> ToAlternate1 for Pin<Port2, Pin6, DIR> {

}

impl<DIR> ToAlternate1 for Pin<Port2, Pin7, DIR> {

}

// P2 alternate 2
impl ToAlternate2 for Pin<Port2, Pin0, Output> {

}

impl ToAlternate2 for Pin<Port2, Pin1, Output> {

}

impl<DIR> ToAlternate2 for Pin<Port2, Pin6, DIR> {

}

impl<DIR> ToAlternate2 for Pin<Port2, Pin7, DIR> {

}

// P2 alternate 3
impl<DIR> ToAlternate3 for Pin<Port2, Pin4, DIR> {

}

impl<DIR> ToAlternate3 for Pin<Port2, Pin5, DIR> {

}

// P3 alternate 1
impl<DIR> ToAlternate1 for Pin<Port3, Pin0, DIR> {

}

impl<DIR> ToAlternate1 for Pin<Port3, Pin4, DIR> {

}

// P3 alternate 3
impl<DIR> ToAlternate3 for Pin<Port3, Pin1, DIR> {

}

impl<DIR> ToAlternate3 for Pin<Port3, Pin2, DIR> {

}

impl<DIR> ToAlternate3 for Pin<Port3, Pin3, DIR> {

}

impl<DIR> ToAlternate3 for Pin<Port3, Pin5, DIR> {

}

impl<DIR> ToAlternate3 for Pin<Port3, Pin6, DIR> {

}

impl<DIR> ToAlternate3 for Pin<Port3, Pin7, DIR> {

}

// P4 alternate 1
impl<PIN: PinNum, DIR> ToAlternate1 for Pin<Port4, PIN, DIR> {

}

// P4 alternate 2
impl<DIR> ToAlternate2 for Pin<Port4, Pin0, DIR> {

}

impl<DIR> ToAlternate2 for Pin<Port4, Pin2, DIR> {

}

impl<DIR> ToAlternate2 for Pin<Port4, Pin3, DIR> {

}

// P5 alternate 1
impl<DIR> ToAlternate1 for Pin<Port5, Pin0, DIR> {

}

impl<DIR> ToAlternate1 for Pin<Port5, Pin1, DIR> {

}

impl<DIR> ToAlternate1 for Pin<Port5, Pin2, DIR> {

}

impl<DIR> ToAlternate1 for Pin<Port5, Pin3, DIR> {

}

// P5 alternate 2
impl<DIR> ToAlternate2 for Pin<Port5, Pin0, DIR> {

}

impl<DIR> ToAlternate2 for Pin<Port5, Pin1, DIR> {

}

// P5 alternate 3
impl<DIR> ToAlternate3 for Pin<Port5, Pin0, DIR> {

}

impl<DIR> ToAlternate3 for Pin<Port5, Pin1, DIR> {

}

impl<DIR> ToAlternate3 for Pin<Port5, Pin2, DIR> {

}

impl<DIR> ToAlternate3 for Pin<Port5, Pin3, DIR> {

}

// P6 alternate 1
impl<PIN: PinNum, DIR> ToAlternate1 for Pin<Port6, PIN, DIR> {

}

/// Law: for a pin whose function-select bits are clear, as they are in any
/// GPIO-function typestate, entering alternate function 1 and returning to
/// GPIO restores the registers exactly; the direction typestate is restored
/// by type, since `to_gpio` on `Alternate1<DIR>` hands back a `DIR` pin, and
/// no register but sel0 is ever touched by the two transitions.
pub proof fn lemma_alternate1_round_trip(r: PortRegs, n: u8)
    requires
        n < 8,
        !bit(r.sel0, n),
    ensures
        (PortRegs { sel0: (r.sel0 | mask_of(n)) & clr_mask_of(n), ..r }) == r,
{
    lemma_set_then_clear(r.sel0, n);
}

/// Law: entering alternate function 2 from a GPIO-function typestate and
/// returning to GPIO restores the registers exactly; only sel1 is touched.
pub proof fn lemma_alternate2_round_trip(r: PortRegs, n: u8)
    requires
        n < 8,
        !bit(r.sel1, n),
    ensures
        (PortRegs { sel1: (r.sel1 | mask_of(n)) & clr_mask_of(n), ..r }) == r,
{
    lemma_set_then_clear(r.sel1, n);
}

/// Law: entering alternate function 3 and returning to GPIO restores the
/// registers exactly, whatever the select bits held before: both transitions
/// flip the same two bits through the complement register.
pub proof fn lemma_alternate3_round_trip(r: PortRegs, n: u8)
    requires
        n < 8,
    ensures
        (PortRegs {
            sel0: (r.sel0 ^ mask_of(n)) ^ mask_of(n),
            sel1: (r.sel1 ^ mask_of(n)) ^ mask_of(n),
            ..r
        }) == r,
{
    lemma_double_toggle(r.sel0, n);
    lemma_double_toggle(r.sel1, n);
}

/// Law: after `set_high` the pin's output bit reads set, after `set_low` it
/// reads clear, and `toggle` flips it exactly once per call.
pub proof fn lemma_output_readback(out: u8, n: u8)
    requires
        n < 8,
    ensures
        bit(out | mask_of(n), n),
        !bit(out & clr_mask_of(n), n),
        bit(out ^ mask_of(n), n) == !bit(out, n),
{
    lemma_set_effect(out, n, n);
    lemma_clear_effect(out, n, n);
    lemma_toggle_effect(out, n, n);
}

/// Law: masked-write isolation. Whatever masked write pin `k` issues to a
/// shared register, the bit recorded for any other pin `j` is unchanged.
pub proof fn lemma_masked_write_isolation(x: u8, k: u8, j: u8)
    requires
        k < 8,
        j < 8,
        j != k,
    ensures
        bit(x | mask_of(k), j) == bit(x, j),
        bit(x & clr_mask_of(k), j) == bit(x, j),
        bit(x ^ mask_of(k), j) == bit(x, j),
{
    lemma_set_effect(x, k, j);
    lemma_clear_effect(x, k, j);
    lemma_toggle_effect(x, k, j);
}

/// Law: with any set of flags pending and enabled, the interrupt vector
/// reports the lowest-numbered such pin, and the read clears that pin's flag
/// and only that flag, leaving every other register untouched.
pub proof fn lemma_interrupt_vector_priority(r: PortRegs, n: u8)
    requires
        n < 8,
        bit(pending(r), n),
        forall|j: u8| j < n ==> !bit(pending(r), j),
    ensures
        vector_of(pending(r)) == pin_isr_of(n),
        pxiv_offset(pending(r)) == 2 * (n + 1),
        !bit(pxiv_after(r).ifg, n),
        forall|j: u8| j < 8 && j != n ==> bit(pxiv_after(r).ifg, j) == bit(r.ifg, j),
        pxiv_after(r) == (PortRegs { ifg: pxiv_after(r).ifg, ..r }),
{
    lemma_pxiv_priority(r, n);
    let pend = pending(r);
    if n >= 1 {
        assert(!bit(pend, 0));
    }
    if n >= 2 {
        assert(!bit(pend, 1));
    }
    if n >= 3 {
        assert(!bit(pend, 2));
    }
    if n >= 4 {
        assert(!bit(pend, 3));
    }
    if n >= 5 {
        assert(!bit(pend, 4));
    }
    if n >= 6 {
        assert(!bit(pend, 5));
    }
    if n >= 7 {
        assert(!bit(pend, 6));
    }
}

} // verus!
