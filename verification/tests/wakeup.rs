use stm32f3_rtc::program::{modify_value, next_index, RegOp, Register};
use stm32f3_rtc::rtc::Rtc;
use stm32f3_rtc::rtc_interrupt::{RtcInterrupt, RtcInterruptOutputPolarity, RtcInterruptOutputSelection};
use stm32f3_rtc::wakeup::{WakeupManager, WakeupRtcDivision};

#[test]
fn division_bits() {
    assert_eq!(WakeupRtcDivision::RtcDiv16.get_bits(), 0b000);
    assert_eq!(WakeupRtcDivision::RtcDiv8.get_bits(), 0b001);
    assert_eq!(WakeupRtcDivision::RtcDiv4.get_bits(), 0b010);
    assert_eq!(WakeupRtcDivision::RtcDiv2.get_bits(), 0b011);
    assert_eq!(WakeupRtcDivision::RtcNoDiv.get_bits(), 0b100);
    assert_eq!(WakeupRtcDivision::RtcOffset.get_bits(), 0b110);
}

fn expected_enable(sel: u32, counter: u32, interrupt: Vec<RegOp>) -> Vec<RegOp> {
    let mut ops = vec![
        RegOp::Write { reg: Register::RtcWpr, value: 0xca },
        RegOp::Write { reg: Register::RtcWpr, value: 0x53 },
        RegOp::Modify { reg: Register::RtcCr, mask: 1 << 10, value: 0 },
        RegOp::WaitWhile { reg: Register::RtcIsr, mask: 1 << 2, value: 0 },
        RegOp::Write { reg: Register::RtcWpr, value: 0xca },
        RegOp::Write { reg: Register::RtcWpr, value: 0x53 },
        RegOp::SkipUnless { reg: Register::RtcIsr, mask: 0x80, value: 0, count: 2 },
        RegOp::Modify { reg: Register::RtcIsr, mask: 0x80, value: 0x80 },
        RegOp::WaitWhile { reg: Register::RtcIsr, mask: 0x40, value: 0 },
        RegOp::Modify { reg: Register::RtcCr, mask: 0b111, value: sel },
        RegOp::SkipUnless { reg: Register::RtcIsr, mask: 0x80, value: 0x80, count: 2 },
        RegOp::Modify { reg: Register::RtcIsr, mask: 0x80, value: 0 },
        RegOp::WaitWhile { reg: Register::RtcIsr, mask: 0x40, value: 0x40 },
        RegOp::Write { reg: Register::RtcWpr, value: 0xc0 },
        RegOp::Write { reg: Register::RtcWpr, value: 0xca },
        RegOp::Write { reg: Register::RtcWpr, value: 0x53 },
    ];
    ops.extend(interrupt);
    ops.extend(vec![
        RegOp::Modify { reg: Register::RtcWutr, mask: 0xffff, value: counter },
        RegOp::Modify { reg: Register::RtcCr, mask: 1 << 10, value: 1 << 10 },
        RegOp::Modify { reg: Register::RtcIsr, mask: 1 << 10, value: 0 },
        RegOp::Write { reg: Register::RtcWpr, value: 0xc0 },
        RegOp::WaitWhile { reg: Register::RtcIsr, mask: 1 << 2, value: 1 << 2 },
    ]);
    ops
}

#[test]
fn default_wakeup_program() {
    let rtc = Rtc::new();
    let manager = rtc.get_wakeup_manager();
    let expected = expected_enable(0b100, 360, vec![RegOp::Modify { reg: Register::RtcCr, mask: 1 << 14, value: 0 }]);
    assert_eq!(manager.enable(), expected);
    assert_eq!(WakeupManager::new(&rtc).enable(), expected);
}

#[test]
fn wakeup_with_counter_and_interrupt() {
    let rtc = Rtc::new();
    let mut manager = rtc.get_wakeup_manager().set_counter(200).set_interrupt(true);
    manager.configure_interrupt(
        RtcInterrupt::new()
            .set_output_selection(RtcInterruptOutputSelection::WakeUp)
            .set_polarity(RtcInterruptOutputPolarity::Low),
    );
    let expected = expected_enable(
        0b100,
        200,
        vec![
            RegOp::Modify { reg: Register::RtcCr, mask: 1 << 14, value: 1 << 14 },
            RegOp::Modify { reg: Register::RtcCr, mask: 0x70_0000, value: 0x70_0000 },
        ],
    );
    assert_eq!(manager.enable(), expected);
}

#[test]
fn wakeup_interrupt_alarm_a_high() {
    let rtc = Rtc::new();
    let mut manager = rtc.get_wakeup_manager().set_interrupt(true);
    manager.configure_interrupt(RtcInterrupt::new().set_output_selection(RtcInterruptOutputSelection::AlarmA));
    let ops = manager.enable();
    assert_eq!(ops[17], RegOp::Modify { reg: Register::RtcCr, mask: 0x70_0000, value: 0x20_0000 });
}

#[test]
fn interrupt_turned_off_again() {
    let rtc = Rtc::new();
    let manager = rtc.get_wakeup_manager().set_interrupt(true).set_interrupt(false);
    assert_eq!(manager.enable()[16], RegOp::Modify { reg: Register::RtcCr, mask: 1 << 14, value: 0 });
}

#[test]
fn clock_division_is_written() {
    let rtc = Rtc::new();
    let no_interrupt = vec![RegOp::Modify { reg: Register::RtcCr, mask: 1 << 14, value: 0 }];
    for (division, bits) in [
        (WakeupRtcDivision::RtcDiv16, 0b000),
        (WakeupRtcDivision::RtcDiv8, 0b001),
        (WakeupRtcDivision::RtcDiv4, 0b010),
        (WakeupRtcDivision::RtcDiv2, 0b011),
        (WakeupRtcDivision::RtcNoDiv, 0b100),
        (WakeupRtcDivision::RtcOffset, 0b110),
    ] {
        let ops = rtc.get_wakeup_manager().set_clock_division(division).enable();
        assert_eq!(ops, expected_enable(bits, 360, no_interrupt.clone()));
    }
}

#[test]
fn wakeup_uses_the_clock_keys_after_source_change() {
    let mut rtc = Rtc::new();
    rtc.set_clock_source(stm32f3_rtc::rtc::ClockSource::LSE(true));
    let ops = rtc.get_wakeup_manager().set_counter(0).enable();
    assert_eq!(ops, expected_enable(0b100, 0, vec![RegOp::Modify { reg: Register::RtcCr, mask: 1 << 14, value: 0 }]));
}

#[test]
fn interrupt_line_when_off() {
    let rtc = Rtc::new();
    assert_eq!(
        rtc.get_wakeup_manager().interrupt_line(),
        vec![RegOp::Modify { reg: Register::ExtiImr1, mask: 1 << 20, value: 0 }]
    );
    assert_eq!(
        rtc.get_wakeup_manager().set_interrupt(true).set_interrupt(false).interrupt_line(),
        vec![RegOp::Modify { reg: Register::ExtiImr1, mask: 1 << 20, value: 0 }]
    );
}

#[test]
fn interrupt_line_program() {
    let rtc = Rtc::new();
    assert_eq!(
        rtc.get_wakeup_manager().set_interrupt(true).interrupt_line(),
        vec![
            RegOp::Modify { reg: Register::ExtiImr1, mask: 1 << 20, value: 1 << 20 },
            RegOp::Modify { reg: Register::ExtiRtsr1, mask: 1 << 20, value: 1 << 20 },
            RegOp::UnmaskWakeupInterrupt,
        ]
    );
}

#[test]
fn acknowledge_program() {
    assert_eq!(
        WakeupManager::acknowledge(),
        vec![
            RegOp::Modify { reg: Register::RtcIsr, mask: 1 << 10, value: 0 },
            RegOp::Modify { reg: Register::ExtiPr1, mask: 1 << 20, value: 1 << 20 },
        ]
    );
}

fn get(regs: &Vec<(Register, u32)>, reg: Register) -> u32 {
    regs.iter().find(|(r, _)| *r == reg).map(|(_, v)| *v).unwrap_or(0)
}

fn set(regs: &mut Vec<(Register, u32)>, reg: Register, value: u32) {
    match regs.iter_mut().find(|(r, _)| *r == reg) {
        Some(entry) => entry.1 = value,
        None => regs.push((reg, value)),
    }
}

/// Runs a program on registers whose INITF follows INIT and whose WUTWF is set while the
/// timer is stopped.
fn simulate(ops: &Vec<RegOp>, regs: &mut Vec<(Register, u32)>) {
    let mut index = 0;
    let mut steps = 0;
    while index < ops.len() {
        steps += 1;
        assert!(steps < 1000, "program does not end");
        let read = match ops[index] {
            RegOp::Write { reg, value } => {
                set(regs, reg, value);
                0
            }
            RegOp::Modify { reg, mask, value } => {
                let new = modify_value(get(regs, reg), mask, value);
                set(regs, reg, new);
                0
            }
            RegOp::WaitWhile { reg, .. } | RegOp::SkipUnless { reg, .. } => get(regs, reg),
            RegOp::UnmaskWakeupInterrupt => 0,
        };
        let isr = get(regs, Register::RtcIsr);
        let wute = (get(regs, Register::RtcCr) >> 10) & 1;
        set(regs, Register::RtcIsr, (isr & !0x44) | (((isr >> 7) & 1) << 6) | ((1 - wute) << 2));
        index = next_index(ops, index, read);
    }
}

#[test]
fn enabled_timer_registers() {
    let rtc = Rtc::new();
    let mut manager = rtc.get_wakeup_manager().set_counter(1234).set_interrupt(true);
    manager.configure_interrupt(
        RtcInterrupt::new()
            .set_output_selection(RtcInterruptOutputSelection::WakeUp)
            .set_polarity(RtcInterruptOutputPolarity::High),
    );
    let manager = manager.set_clock_division(WakeupRtcDivision::RtcDiv2);
    let mut regs = vec![(Register::RtcCr, 0x0000_0403), (Register::RtcWutr, 0xffff), (Register::RtcIsr, 0x400)];
    simulate(&manager.enable(), &mut regs);
    let cr = get(&regs, Register::RtcCr);
    assert_eq!(cr & (1 << 10), 1 << 10);
    assert_eq!(cr & 0b111, 0b011);
    assert_eq!(cr & (1 << 14), 1 << 14);
    assert_eq!(cr & 0x70_0000, 0x60_0000);
    assert_eq!(get(&regs, Register::RtcWutr), 1234);
    assert_eq!(get(&regs, Register::RtcWpr), 0xc0);
    assert_eq!(get(&regs, Register::RtcIsr) & (1 << 10), 0);
}

#[test]
fn enabled_timer_without_interrupt() {
    let rtc = Rtc::new();
    let manager = rtc.get_wakeup_manager();
    let mut regs = vec![(Register::RtcCr, 0x0070_4000)];
    simulate(&manager.enable(), &mut regs);
    let cr = get(&regs, Register::RtcCr);
    assert_eq!(cr & (1 << 14), 0);
    assert_eq!(cr & 0x70_0000, 0x70_0000);
    assert_eq!(get(&regs, Register::RtcWutr), 360);
}
