use msp430fr2x5x_hal::hw_traits::timerb::{
    CCRn, Ccis, Cm, Outmod, Tbssel, TimerB, TimerDiv, TimerExDiv, TimerState, CCR0, CCR1, CCR2,
};

#[test]
fn reset_writes_only_the_clear_bit() {
    let mut t = TimerState::new();
    t.ex = 0x0005;
    t.reset();
    assert_eq!(t.ctl, 0x0004);
    assert_eq!(t.ex, 0x0005);
}

#[test]
fn config_clock_writes_source_and_divider() {
    let mut t = TimerState::new();
    t.config_clock(Tbssel::Smclk, TimerDiv::_2);
    assert_eq!(t.ctl, 0x0240);
    assert!(t.is_stopped());
}

#[test]
fn upmode_preserves_clock_fields_and_clears_the_flag() {
    let mut t = TimerState::new();
    t.config_clock(Tbssel::Aclk, TimerDiv::_8);
    t.ctl |= 0x0001; // a pending overflow flag
    t.upmode();
    // clock fields kept, flag cleared, clear bit and up mode set
    assert_eq!(t.ctl, 0x01c0 | 0x0004 | 0x0010);
    assert!(!t.is_stopped());
    assert!(!t.tbifg_rd());
}

#[test]
fn continuous_mode_sets_the_other_mode_bits() {
    let mut t = TimerState::new();
    t.continuous();
    assert_eq!(t.ctl, 0x0004 | 0x0020);
    assert!(!t.is_stopped());
    t.stop();
    assert_eq!(t.ctl, 0);
    assert!(t.is_stopped());
}

#[test]
fn expansion_divider_is_one_less_than_the_division() {
    let mut t = TimerState::new();
    t.set_tbidex(TimerExDiv::_8);
    assert_eq!(t.ex, 7);
    t.set_tbidex(TimerExDiv::_1);
    assert_eq!(t.ex, 0);
}

#[test]
fn overflow_interrupt_controls() {
    let mut t = TimerState::new();
    t.tbie_set();
    assert_eq!(t.ctl, 0x0002);
    t.ctl |= 0x0001;
    assert!(t.tbifg_rd());
    t.tbifg_clr();
    assert_eq!(t.ctl, 0);
    assert!(!t.tbifg_rd());
    t.tbie_clr();
    assert_eq!(t.ctl, 0);
}

#[test]
fn compare_registers_are_per_channel() {
    let mut t = TimerState::new();
    CCRn::<CCR0>::set_ccrn(&mut t, 10000);
    CCRn::<CCR1>::set_ccrn(&mut t, 2500);
    assert_eq!(CCRn::<CCR0>::get_ccrn(&t), 10000);
    assert_eq!(CCRn::<CCR1>::get_ccrn(&t), 2500);
    assert_eq!(CCRn::<CCR2>::get_ccrn(&t), 0);
    CCRn::<CCR2>::set_ccrn(&mut t, 77);
    // writing channel 2 does not touch its siblings
    assert_eq!(CCRn::<CCR0>::get_ccrn(&t), 10000);
    assert_eq!(CCRn::<CCR1>::get_ccrn(&t), 2500);
    assert_eq!(CCRn::<CCR2>::get_ccrn(&t), 77);
}

#[test]
fn outmod_field_encodings() {
    assert_eq!(Outmod::Out.bits(), 0);
    assert_eq!(Outmod::SetOnly.bits(), 1);
    assert_eq!(Outmod::ToggleReset.bits(), 2);
    assert_eq!(Outmod::SetReset.bits(), 3);
    assert_eq!(Outmod::Toggle.bits(), 4);
    assert_eq!(Outmod::Reset.bits(), 5);
    assert_eq!(Outmod::ToggleSet.bits(), 6);
    assert_eq!(Outmod::ResetSet.bits(), 7);
}

#[test]
fn clock_and_capture_field_encodings() {
    assert_eq!(Tbssel::Tbxclk.bits(), 0);
    assert_eq!(Tbssel::Aclk.bits(), 1);
    assert_eq!(Tbssel::Smclk.bits(), 2);
    assert_eq!(Tbssel::Inclk.bits(), 3);
    assert_eq!(TimerDiv::_1.bits(), 0);
    assert_eq!(TimerDiv::_8.bits(), 3);
    assert_eq!(Cm::NoCap.bits(), 0);
    assert_eq!(Cm::RisingEdge.bits(), 1);
    assert_eq!(Cm::FallingEdge.bits(), 2);
    assert_eq!(Cm::BothEdges.bits(), 3);
    assert_eq!(Ccis::InputA.bits(), 0);
    assert_eq!(Ccis::InputB.bits(), 1);
    assert_eq!(Ccis::Gnd.bits(), 2);
    assert_eq!(Ccis::Vcc.bits(), 3);
}

#[test]
fn config_outmod_writes_the_output_mode_field() {
    let mut t = TimerState::new();
    CCRn::<CCR1>::config_outmod(&mut t, Outmod::ResetSet);
    assert_eq!(t.cctl1, 7 * 0x20);
    assert_eq!(t.cctl0, 0);
    CCRn::<CCR1>::config_outmod(&mut t, Outmod::SetReset);
    assert_eq!(t.cctl1, 3 * 0x20);
}

#[test]
fn config_cap_mode_selects_capture_with_sync() {
    let mut t = TimerState::new();
    CCRn::<CCR2>::config_cap_mode(&mut t, Cm::RisingEdge, Ccis::InputB);
    // capture mode, synchronized, rising edge, input B
    assert_eq!(t.cctl2, 0x0100 + 0x0800 + 0x4000 + 0x1000);
}

#[test]
fn channel_interrupt_controls() {
    let mut t = TimerState::new();
    CCRn::<CCR1>::ccie_set(&mut t);
    assert_eq!(t.cctl1, 0x0010);
    t.cctl1 |= 0x0001;
    assert!(CCRn::<CCR1>::ccifg_rd(&t));
    CCRn::<CCR1>::ccifg_clr(&mut t);
    assert!(!CCRn::<CCR1>::ccifg_rd(&t));
    assert_eq!(t.cctl1, 0);
}

#[test]
fn capture_overflow_pair_reads_and_clears_atomically() {
    let mut t = TimerState::new();
    t.cctl2 = 0x0003; // overflow and flag both up
    assert_eq!(CCRn::<CCR2>::cov_ccifg_rd(&t), (true, true));
    CCRn::<CCR2>::cov_ccifg_clr(&mut t);
    assert_eq!(CCRn::<CCR2>::cov_ccifg_rd(&t), (false, false));
}

#[test]
fn timer_vector_reports_lowest_channel_then_overflow() {
    let mut t = TimerState::new();
    t.cctl3 = 0x0011; // channel 3 pending and enabled
    t.cctl5 = 0x0011; // channel 5 pending and enabled
    t.cctl6 = 0x0001; // channel 6 pending but not enabled
    t.ctl = 0x0003; // overflow pending and enabled
    assert_eq!(t.tbxiv_rd(), 6);
    assert_eq!(t.cctl3, 0x0010);
    assert_eq!(t.tbxiv_rd(), 10);
    assert_eq!(t.cctl5, 0x0010);
    assert_eq!(t.tbxiv_rd(), 14);
    assert_eq!(t.ctl, 0x0002);
    assert_eq!(t.tbxiv_rd(), 0);
    assert_eq!(t.cctl6, 0x0001);
}

#[test]
fn up_mode_pwm_quarter_duty() {
    // timer in up mode, period 10000 in channel 0, channel 1 compare 2500,
    // output mode 7: reset when the counter reaches the compare value, set
    // when it reaches the period, so the output is high for a quarter of
    // each period
    let mut t = TimerState::new();
    t.config_clock(Tbssel::Smclk, TimerDiv::_1);
    CCRn::<CCR0>::set_ccrn(&mut t, 10000);
    CCRn::<CCR1>::set_ccrn(&mut t, 2500);
    CCRn::<CCR1>::config_outmod(&mut t, Outmod::ResetSet);
    t.upmode();
    assert!(!t.is_stopped());

    let period = CCRn::<CCR0>::get_ccrn(&t);
    let compare = CCRn::<CCR1>::get_ccrn(&t);
    let mode = Outmod::ResetSet;
    assert_eq!(t.cctl1 >> 5, 7);

    // one warm-up period, then count edges and high time over full periods
    let mut out = false;
    for count in 0..=period {
        out = mode.step(out, count == compare, count == period);
    }
    for _ in 0..3 {
        let mut rising = 0u32;
        let mut falling = 0u32;
        let mut high = 0u32;
        let mut total = 0u32;
        for count in 0..=period {
            let next = mode.step(out, count == compare, count == period);
            if next && !out {
                rising += 1;
            }
            if !next && out {
                falling += 1;
            }
            out = next;
            if out {
                high += 1;
            }
            total += 1;
        }
        // exactly one rising and one falling edge per period
        assert_eq!(rising, 1);
        assert_eq!(falling, 1);
        // high for the 2500 ticks below the compare value, plus the tick on
        // which the period match sets it: 25% high time
        assert_eq!(total, 10001);
        assert_eq!(high, 2501);
    }
}
