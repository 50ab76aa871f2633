use msp430fr2x5x_hal::batch_gpio::Batch;
use msp430fr2x5x_hal::gpio::{
    Floating, GetInterruptVector, Input, InterruptVector, Parts, Port1, Port2, WouldBlock,
};
use msp430fr2x5x_hal::hw_traits::gpio::{Edit, GpioReg, PortState};

type Flo = Input<Floating>;
type ResetParts<PORT> = Parts<PORT, Flo, Flo, Flo, Flo, Flo, Flo, Flo, Flo>;

fn port1_reset() -> (PortState, ResetParts<Port1>) {
    (PortState::new(), Batch::new().split())
}

fn port2_reset() -> (PortState, ResetParts<Port2>) {
    (PortState::new(), Batch::new().split())
}

#[test]
fn reset_state_is_all_zero() {
    let (p, _parts) = port1_reset();
    assert_eq!(p.regs.dir, 0);
    assert_eq!(p.regs.out, 0);
    assert_eq!(p.regs.input, 0);
    assert_eq!(p.regs.ren, 0);
    assert_eq!(p.regs.sel0, 0);
    assert_eq!(p.regs.sel1, 0);
    assert_eq!(p.regs.ies, 0);
    assert_eq!(p.regs.ie, 0);
    assert_eq!(p.regs.ifg, 0);
    assert!(p.log.is_empty());
}

#[test]
fn pullup_sets_out_and_ren() {
    let (mut p, parts) = port1_reset();
    let _pin = parts.pin2.pullup(&mut p);
    assert_eq!(p.regs.out, 0x04);
    assert_eq!(p.regs.ren, 0x04);
    assert_eq!(p.regs.dir, 0);
}

#[test]
fn pulldown_clears_out_and_sets_ren() {
    let (mut p, parts) = port1_reset();
    p.regs.out = 0xff;
    let _pin = parts.pin2.pulldown(&mut p);
    assert_eq!(p.regs.out, 0xfb);
    assert_eq!(p.regs.ren, 0x04);
}

#[test]
fn floating_disables_pull_resistor() {
    let (mut p, parts) = port1_reset();
    let pin = parts.pin5.pullup(&mut p);
    assert_eq!(p.regs.ren, 0x20);
    let _pin = pin.floating(&mut p);
    assert_eq!(p.regs.ren, 0);
}

#[test]
fn input_reads_the_input_register() {
    let (mut p, parts) = port1_reset();
    let pin = parts.pin3;
    assert!(!pin.is_high(&p));
    assert!(pin.is_low(&p));
    // the pin is driven high from outside
    p.regs.input = 0x08;
    assert!(pin.is_high(&p));
    assert!(!pin.is_low(&p));
}

#[test]
fn output_readback_follows_set_and_toggle() {
    let (mut p, parts) = port1_reset();
    let mut pin = parts.pin0.to_output(&mut p);
    assert_eq!(p.regs.dir, 0x01);
    pin.set_high(&mut p);
    assert!(pin.is_set_high(&p));
    assert!(!pin.is_set_low(&p));
    pin.set_low(&mut p);
    assert!(!pin.is_set_high(&p));
    assert!(pin.is_set_low(&p));
    pin.toggle(&mut p);
    assert!(pin.is_set_high(&p));
    pin.toggle(&mut p);
    assert!(!pin.is_set_high(&p));
}

#[test]
fn masked_writes_leave_sibling_pins_alone() {
    let (mut p, parts) = port1_reset();
    let mut pin1 = parts.pin1.to_output(&mut p);
    let mut pin6 = parts.pin6.to_output(&mut p);
    pin6.set_high(&mut p);
    assert_eq!(p.regs.out, 0x40);
    pin1.set_high(&mut p);
    assert_eq!(p.regs.out, 0x42);
    pin1.set_low(&mut p);
    assert_eq!(p.regs.out, 0x40);
    pin1.toggle(&mut p);
    assert_eq!(p.regs.out, 0x42);
    // only bit 1 ever changed; bit 6 still reads set
    assert!(pin6.is_set_high(&p));
}

#[test]
fn to_input_pullup_restores_input_direction() {
    let (mut p, parts) = port1_reset();
    let pin = parts.pin4.to_output(&mut p);
    assert_eq!(p.regs.dir, 0x10);
    let _pin = pin.to_input_pullup(&mut p);
    assert_eq!(p.regs.dir, 0);
    assert_eq!(p.regs.out, 0x10);
    assert_eq!(p.regs.ren, 0x10);
}

#[test]
fn to_input_pulldown_and_floating_apply_pull_policy() {
    let (mut p, parts) = port1_reset();
    p.regs.out = 0xff;
    let pin = parts.pin4.to_output(&mut p);
    let pin = pin.to_input_pulldown(&mut p);
    assert_eq!(p.regs.out, 0xef);
    assert_eq!(p.regs.ren, 0x10);
    let pin = pin.to_output(&mut p);
    let _pin = pin.to_input_floating(&mut p);
    assert_eq!(p.regs.dir, 0);
    assert_eq!(p.regs.ren, 0);
}

#[test]
fn edge_select_clears_the_flag() {
    let (mut p, parts) = port1_reset();
    let mut pin = parts.pin3;
    p.regs.ifg = 0x08;
    pin.select_rising_edge_trigger(&mut p);
    assert_eq!(p.regs.ies, 0x08);
    assert_eq!(p.regs.ifg, 0);
    p.regs.ifg = 0x08;
    pin.select_falling_edge_trigger(&mut p);
    assert_eq!(p.regs.ies, 0);
    assert_eq!(p.regs.ifg, 0);
}

#[test]
fn interrupt_enable_and_flag_controls() {
    let (mut p, parts) = port1_reset();
    let mut pin = parts.pin5;
    pin.enable_interrupts(&mut p);
    assert_eq!(p.regs.ie, 0x20);
    pin.set_ifg(&mut p);
    assert_eq!(p.regs.ifg, 0x20);
    pin.clear_ifg(&mut p);
    assert_eq!(p.regs.ifg, 0);
    pin.disable_interrupt(&mut p);
    assert_eq!(p.regs.ie, 0);
}

#[test]
fn wait_for_ifg_would_block_then_ready() {
    let (mut p, parts) = port1_reset();
    let mut pin = parts.pin2;
    pin.enable_interrupts(&mut p);
    // flag clear: the poll must report would-block and change nothing
    assert_eq!(pin.wait_for_ifg(&mut p), Err(WouldBlock));
    assert_eq!(p.regs.ifg, 0);
    // the hardware raises the flag
    p.regs.ifg = 0x04;
    assert_eq!(pin.wait_for_ifg(&mut p), Ok(()));
    // ready was reported and the flag was consumed
    assert_eq!(p.regs.ifg, 0);
    assert_eq!(pin.wait_for_ifg(&mut p), Err(WouldBlock));
}

#[test]
fn interrupt_vector_reports_lowest_pending_pin() {
    let (mut p, _parts) = port1_reset();
    // pins 2, 5 and 7 pending and enabled; pin 2 has the highest priority
    p.regs.ifg = 0xa4;
    p.regs.ie = 0xa4;
    assert_eq!(Port1::get_interrupt_vector(&mut p), InterruptVector::Pin2Isr);
    // only pin 2's flag was cleared by the read
    assert_eq!(p.regs.ifg, 0xa0);
    assert_eq!(p.regs.ie, 0xa4);
    assert_eq!(Port1::get_interrupt_vector(&mut p), InterruptVector::Pin5Isr);
    assert_eq!(p.regs.ifg, 0x80);
    assert_eq!(Port1::get_interrupt_vector(&mut p), InterruptVector::Pin7Isr);
    assert_eq!(p.regs.ifg, 0);
    assert_eq!(Port1::get_interrupt_vector(&mut p), InterruptVector::NoIsr);
}

#[test]
fn interrupt_vector_ignores_disabled_flags() {
    let (mut p, _parts) = port1_reset();
    // pin 0 pending but disabled; pin 4 pending and enabled
    p.regs.ifg = 0x11;
    p.regs.ie = 0x10;
    assert_eq!(Port1::get_interrupt_vector(&mut p), InterruptVector::Pin4Isr);
    // pin 0's flag stays: it was not reported
    assert_eq!(p.regs.ifg, 0x01);
    assert_eq!(Port1::get_interrupt_vector(&mut p), InterruptVector::NoIsr);
    assert_eq!(p.regs.ifg, 0x01);
}

#[test]
fn alternate1_round_trip_restores_registers() {
    let (mut p, parts) = port1_reset();
    let pin = parts.pin1.to_output(&mut p);
    let before = p.regs;
    let pin = pin.to_alternate1(&mut p);
    assert_eq!(p.regs.sel0, 0x02);
    let pin = pin.to_gpio(&mut p);
    assert_eq!(p.regs, before);
    // the handle is an output pin again, exactly as before
    let _pin = pin.to_input_floating(&mut p);
}

#[test]
fn alternate2_round_trip_restores_registers() {
    let (mut p, parts) = port2_reset();
    let mut pin = parts.pin6.to_output(&mut p);
    pin.set_high(&mut p);
    let before = p.regs;
    let pin = pin.to_alternate2(&mut p);
    assert_eq!(p.regs.sel1, 0x40);
    let mut pin = pin.to_gpio(&mut p);
    assert_eq!(p.regs, before);
    pin.toggle(&mut p);
    assert!(!pin.is_set_high(&p));
}

#[test]
fn alternate3_round_trip_restores_registers() {
    let (mut p, parts) = port2_reset();
    let pin = parts.pin4.pullup(&mut p);
    let before = p.regs;
    let pin = pin.to_alternate3(&mut p);
    assert_eq!(p.regs.sel0, 0x10);
    assert_eq!(p.regs.sel1, 0x10);
    let pin = pin.to_gpio(&mut p);
    assert_eq!(p.regs, before);
    let _pin = pin.floating(&mut p);
}

#[test]
fn pin7_output_alternate1_alternate2_edit_sequence() {
    let (mut p, parts) = port1_reset();
    // starting at Input/Floating/Gpio
    let pin = parts.pin7;
    let pin = pin.to_output(&mut p);
    let pin = pin.to_alternate1(&mut p);
    let pin = pin.to_alternate2(&mut p);
    // the three transitions issue, in order: set direction bit, set sel0 bit,
    // flip sel0 and sel1 together through the complement register
    assert_eq!(
        p.log,
        vec![
            Edit::SetBits(GpioReg::Dir, 0x80),
            Edit::SetBits(GpioReg::Sel0, 0x80),
            Edit::SelcWrite(0x80),
        ]
    );
    // ending at Output/Alternate2 with select bits (0, 1)
    assert_eq!(p.regs.dir, 0x80);
    assert_eq!(p.regs.sel0, 0x00);
    assert_eq!(p.regs.sel1, 0x80);
    let _pin = pin;
}

#[test]
fn batch_round_trip_keeps_the_handles() {
    let (mut p, parts) = port1_reset();
    let parts = parts.batch().split();
    let mut pin = parts.pin0.to_output(&mut p);
    pin.set_high(&mut p);
    assert!(pin.is_set_high(&p));
}
