use stm32f3_rtc::datetime::{Date, Time};
use stm32f3_rtc::program::{modify_value, next_index, RegOp, Register};
use stm32f3_rtc::rtc::{ClockSource, Delay, Rtc};

fn get(regs: &Vec<(Register, u32)>, reg: Register) -> u32 {
    for (r, v) in regs.iter() {
        if *r == reg {
            return *v;
        }
    }
    0
}

fn set(regs: &mut Vec<(Register, u32)>, reg: Register, value: u32) {
    for entry in regs.iter_mut() {
        if entry.0 == reg {
            entry.1 = value;
            return;
        }
    }
    regs.push((reg, value));
}

/// Runs a program on a simulated register file whose ready flags follow their enable bits.
fn simulate(ops: &Vec<RegOp>, regs: &mut Vec<(Register, u32)>, writes: &mut Vec<(Register, u32)>) {
    let mut index = 0;
    let mut steps = 0;
    while index < ops.len() {
        steps += 1;
        assert!(steps < 1000, "program does not end");
        let read = match ops[index] {
            RegOp::Write { reg, value } => {
                set(regs, reg, value);
                writes.push((reg, value));
                0
            }
            RegOp::Modify { reg, mask, value } => {
                let new = modify_value(get(regs, reg), mask, value);
                set(regs, reg, new);
                writes.push((reg, new));
                0
            }
            RegOp::WaitWhile { reg, .. } | RegOp::SkipUnless { reg, .. } => get(regs, reg),
            RegOp::UnmaskWakeupInterrupt => 0,
        };
        let isr = get(regs, Register::RtcIsr);
        let init = (isr >> 7) & 1;
        let wute = (get(regs, Register::RtcCr) >> 10) & 1;
        set(regs, Register::RtcIsr, (isr & !0x44) | (init << 6) | ((1 - wute) << 2));
        let csr = get(regs, Register::RccCsr);
        set(regs, Register::RccCsr, (csr & !2) | ((csr & 1) << 1));
        let bdcr = get(regs, Register::RccBdcr);
        set(regs, Register::RccBdcr, (bdcr & !2) | ((bdcr & 1) << 1));
        let cr = get(regs, Register::RccCr);
        set(regs, Register::RccCr, (cr & !(1 << 17)) | (((cr >> 16) & 1) << 17));
        index = next_index(ops, index, read);
    }
}

fn guarded(body: Vec<RegOp>) -> Vec<RegOp> {
    let mut ops = vec![
        RegOp::Write { reg: Register::RtcWpr, value: 0xca },
        RegOp::Write { reg: Register::RtcWpr, value: 0x53 },
        RegOp::SkipUnless { reg: Register::RtcIsr, mask: 0x80, value: 0, count: 2 },
        RegOp::Modify { reg: Register::RtcIsr, mask: 0x80, value: 0x80 },
        RegOp::WaitWhile { reg: Register::RtcIsr, mask: 0x40, value: 0 },
    ];
    ops.extend(body);
    ops.extend(vec![
        RegOp::SkipUnless { reg: Register::RtcIsr, mask: 0x80, value: 0x80, count: 2 },
        RegOp::Modify { reg: Register::RtcIsr, mask: 0x80, value: 0 },
        RegOp::WaitWhile { reg: Register::RtcIsr, mask: 0x40, value: 0x40 },
        RegOp::Write { reg: Register::RtcWpr, value: 0xc0 },
    ]);
    ops
}

fn prer_op(ops: &Vec<RegOp>) -> RegOp {
    *ops.iter().find(|op| matches!(op, RegOp::Modify { reg: Register::RtcPrer, .. })).unwrap()
}

#[test]
fn start_clock_on_lsi() {
    let rtc = Rtc::new();
    let mut expected = vec![
        RegOp::Modify { reg: Register::RccApb1enr, mask: 1 << 28, value: 1 << 28 },
        RegOp::Modify { reg: Register::PwrCr, mask: 1 << 8, value: 1 << 8 },
        RegOp::WaitWhile { reg: Register::PwrCr, mask: 1 << 8, value: 0 },
        RegOp::Modify { reg: Register::RccBdcr, mask: 1 << 16, value: 1 << 16 },
        RegOp::Modify { reg: Register::RccBdcr, mask: 1 << 16, value: 0 },
        RegOp::Modify { reg: Register::RccCsr, mask: 1, value: 1 },
        RegOp::WaitWhile { reg: Register::RccCsr, mask: 2, value: 0 },
        RegOp::Modify { reg: Register::RccBdcr, mask: 0x1_8300, value: 0x8200 },
        RegOp::Modify { reg: Register::RtcCr, mask: 1 << 6, value: 1 << 6 },
    ];
    expected.extend(guarded(vec![RegOp::Modify {
        reg: Register::RtcPrer,
        mask: 0x7f_7fff,
        value: (99 << 16) | 399,
    }]));
    assert_eq!(rtc.start_clock(), expected);
}

#[test]
fn start_clock_on_lse_with_bypass() {
    let mut rtc = Rtc::new();
    rtc.set_clock_source(ClockSource::LSE(true));
    let ops = rtc.start_clock();
    // the backup domain is opened and reset before the LSE oscillator is started
    assert_eq!(ops[3], RegOp::Modify { reg: Register::RccBdcr, mask: 1 << 16, value: 1 << 16 });
    assert_eq!(ops[5], RegOp::Modify { reg: Register::RccBdcr, mask: 0b101, value: 0b101 });
    assert_eq!(ops[6], RegOp::WaitWhile { reg: Register::RccBdcr, mask: 2, value: 0 });
    assert_eq!(ops[7], RegOp::Modify { reg: Register::RccBdcr, mask: 0x1_8300, value: 0x8100 });
    assert_eq!(prer_op(&ops), RegOp::Modify { reg: Register::RtcPrer, mask: 0x7f_7fff, value: (127 << 16) | 255 });
}

#[test]
fn start_clock_on_hse_without_bypass() {
    let mut rtc = Rtc::new();
    rtc.set_clock_source(ClockSource::HSE(false));
    let ops = rtc.start_clock();
    assert_eq!(ops[5], RegOp::Modify { reg: Register::RccCr, mask: 0x5_0000, value: 0x1_0000 });
    assert_eq!(ops[6], RegOp::WaitWhile { reg: Register::RccCr, mask: 0x2_0000, value: 0 });
    assert_eq!(ops[7], RegOp::Modify { reg: Register::RccBdcr, mask: 0x1_8300, value: 0x8300 });
    // 12 MHz = (199 + 1) * (59999 + 1); RTC_PRER takes the pair cut to 7 and 15 bits
    assert_eq!(
        prer_op(&ops),
        RegOp::Modify { reg: Register::RtcPrer, mask: 0x7f_7fff, value: ((199 & 0x7f) << 16) | (59999 & 0x7fff) }
    );
}

#[test]
fn custom_prescalers_survive_source_change() {
    let mut rtc = Rtc::new();
    rtc.set_prescalers(98, 397);
    rtc.set_clock_source(ClockSource::LSE(false));
    let ops = rtc.start_clock();
    assert_eq!(prer_op(&ops), RegOp::Modify { reg: Register::RtcPrer, mask: 0x7f_7fff, value: (98 << 16) | 397 });
    assert_eq!(ops[5], RegOp::Modify { reg: Register::RccBdcr, mask: 0b101, value: 0b001 });
}

#[test]
fn source_change_back_to_lsi_restores_its_prescalers() {
    let mut rtc = Rtc::new();
    rtc.set_clock_source(ClockSource::HSE(true));
    rtc.set_clock_source(ClockSource::LSI);
    let ops = rtc.start_clock();
    assert_eq!(prer_op(&ops), RegOp::Modify { reg: Register::RtcPrer, mask: 0x7f_7fff, value: (99 << 16) | 399 });
}

#[test]
fn start_clock_leaves_prescalers_and_lock() {
    let rtc = Rtc::new();
    let mut regs = vec![(Register::RtcPrer, 0x007f_00ff)];
    let mut writes = Vec::new();
    simulate(&rtc.start_clock(), &mut regs, &mut writes);
    assert_eq!(get(&regs, Register::RtcPrer), (99 << 16) | 399);
    assert_eq!(get(&regs, Register::RtcWpr), 0xc0);
    assert_eq!(writes.last(), Some(&(Register::RtcWpr, 0xc0)));
}

#[test]
fn set_time_program() {
    let rtc = Rtc::new();
    let ops = rtc.set_time(Time::from(12, 30, 0));
    assert_eq!(ops, guarded(vec![RegOp::Modify { reg: Register::RtcTr, mask: 0x3f_7f7f, value: 0x12_3000 }]));
}

#[test]
fn set_time_then_time_reads_it_back() {
    let rtc = Rtc::new();
    for (h, m, s) in [(12u8, 30u8, 0u8), (0, 0, 0), (23, 59, 59), (39, 79, 79), (9, 5, 1)] {
        // bit 22 (PM) and bit 7 stay as they were
        let mut regs = vec![(Register::RtcTr, 0x0040_0080 | 0x0012_3456)];
        let mut writes = Vec::new();
        simulate(&rtc.set_time(Time::from(h, m, s)), &mut regs, &mut writes);
        let tr = get(&regs, Register::RtcTr);
        assert_eq!(Rtc::time_from_register(tr), Time::from(h, m, s));
        assert_eq!(tr & !0x3f_7f7f, 0x0040_0080);
        assert_eq!(get(&regs, Register::RtcWpr), 0xc0);
        assert_eq!(get(&regs, Register::RtcIsr) & 0x80, 0);
    }
}

#[test]
fn set_time_beyond_field_widths_is_cut() {
    let rtc = Rtc::new();
    let mut regs = Vec::new();
    let mut writes = Vec::new();
    simulate(&rtc.set_time(Time::from(40, 0, 0)), &mut regs, &mut writes);
    assert_eq!(Rtc::time_from_register(get(&regs, Register::RtcTr)), Time::from(0, 0, 0));
}

#[test]
fn set_date_then_date_reads_it_back() {
    let rtc = Rtc::new();
    for (d, m, y) in [(1u8, 1u8, 2024u32), (31, 12, 2154), (29, 2, 2000), (39, 19, 2099)] {
        let mut regs = vec![(Register::RtcDr, 0x0000_e000)];
        let mut writes = Vec::new();
        simulate(&rtc.set_date(Date::from(d, m, y)), &mut regs, &mut writes);
        let dr = get(&regs, Register::RtcDr);
        assert_eq!(Rtc::date_from_register(dr), Date::from(d, m, y));
        assert_eq!(dr & !0xff_1f3f, 0x0000_e000);
    }
}

#[test]
fn set_date_out_of_range_year_reads_back_2000() {
    let rtc = Rtc::new();
    for year in [1999u32, 2155, 3000, 0] {
        let mut regs = Vec::new();
        let mut writes = Vec::new();
        simulate(&rtc.set_date(Date::from(15, 7, year)), &mut regs, &mut writes);
        assert_eq!(Rtc::date_from_register(get(&regs, Register::RtcDr)), Date::from(15, 7, 2000));
    }
}

#[test]
fn set_date_program() {
    let rtc = Rtc::new();
    let ops = rtc.set_date(Date::from(1, 1, 2024));
    assert_eq!(ops, guarded(vec![RegOp::Modify { reg: Register::RtcDr, mask: 0xff_1f3f, value: 0x24_0101 }]));
    let ops = rtc.set_date(Date::from(25, 12, 2154));
    assert_eq!(ops, guarded(vec![RegOp::Modify { reg: Register::RtcDr, mask: 0xff_1f3f, value: 0xf4_1225 }]));
}

#[test]
fn registers_decode() {
    assert_eq!(Rtc::time_from_register(0x12_3000), Time::from(12, 30, 0));
    assert_eq!(Rtc::time_from_register(0x23_5959), Time::from(23, 59, 59));
    assert_eq!(Rtc::time_from_register(0xffff_ffff), Time::from(45, 85, 85));
    assert_eq!(Rtc::date_from_register(0x24_0101), Date::from(1, 1, 2024));
    assert_eq!(Rtc::date_from_register(0x24_e101), Date::from(1, 1, 2024));
    assert_eq!(Rtc::date_from_register(0xffff_ffff), Date::from(45, 25, 2165));
}

#[test]
fn delay_longer_than_a_day_does_nothing() {
    let rtc = Rtc::new();
    assert_eq!(rtc.delay(&Time::from(12, 0, 0), 86391), Delay::Finished);
    assert_eq!(rtc.delay(&Time::from(12, 0, 0), u32::MAX), Delay::Finished);
}

#[test]
fn delay_within_the_day() {
    let rtc = Rtc::new();
    let delay = rtc.delay(&Time::from(12, 30, 0), 2);
    assert_eq!(delay, Delay::Until { target: 45002 });
    assert_eq!(delay.step(&Time::from(12, 30, 1)), delay);
    assert_eq!(delay.step(&Time::from(12, 30, 2)), Delay::Finished);
    assert!(delay.step(&Time::from(12, 31, 0)).is_finished());
    assert!(!delay.is_finished());
    assert_eq!(rtc.delay(&Time::from(0, 0, 0), 86390), Delay::Until { target: 86390 });
}

#[test]
fn delay_ending_at_midnight() {
    let rtc = Rtc::new();
    let delay = rtc.delay(&Time::from(23, 59, 50), 10);
    assert_eq!(delay, Delay::UntilRollover { start: 86390, target: 0 });
    assert_eq!(delay.step(&Time::from(23, 59, 59)), delay);
    let after = delay.step(&Time::from(0, 0, 0));
    assert_eq!(after, Delay::Until { target: 0 });
    assert_eq!(after.step(&Time::from(0, 0, 0)), Delay::Finished);
}

#[test]
fn delay_effect_limit() {
    assert!(Rtc::has_delay_effect(0));
    assert!(Rtc::has_delay_effect(86390));
    assert!(!Rtc::has_delay_effect(86391));
}

#[test]
fn default_prescalers_give_one_hertz() {
    for (source, hz) in [(ClockSource::LSI, 40_000u32), (ClockSource::LSE(true), 32_768)] {
        let mut rtc = Rtc::new();
        rtc.set_clock_source(source);
        match prer_op(&rtc.start_clock()) {
            RegOp::Modify { value, .. } => {
                let a = (value >> 16) & 0x7f;
                let s = value & 0x7fff;
                assert_eq!((a + 1) * (s + 1), hz);
            }
            _ => panic!("no prescaler write"),
        }
    }
}

#[test]
fn delay_across_midnight() {
    let rtc = Rtc::new();
    let delay = rtc.delay(&Time::from(23, 59, 59), 10);
    assert_eq!(delay, Delay::UntilRollover { start: 86399, target: 9 });
    assert_eq!(delay.step(&Time::from(23, 59, 59)), delay);
    let after = delay.step(&Time::from(0, 0, 1));
    assert_eq!(after, Delay::Until { target: 9 });
    assert_eq!(after.step(&Time::from(0, 0, 8)), after);
    assert_eq!(after.step(&Time::from(0, 0, 9)), Delay::Finished);
}
