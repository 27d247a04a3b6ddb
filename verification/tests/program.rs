use stm32f3_rtc::program::{modify_value, next_index, RegOp, Register};

#[test]
fn modify_value_replaces_masked_bits_only() {
    assert_eq!(modify_value(0xffff_ffff, 0x0000_00f0, 0x0000_0050), 0xffff_ff5f);
    assert_eq!(modify_value(0, 0x0f, 0xff), 0x0f);
    assert_eq!(modify_value(0x1234_5678, 0, 0xffff_ffff), 0x1234_5678);
}

#[test]
fn next_index_of_plain_steps() {
    let ops = vec![
        RegOp::Write { reg: Register::RtcWpr, value: 0xca },
        RegOp::Modify { reg: Register::RtcCr, mask: 1, value: 1 },
        RegOp::UnmaskWakeupInterrupt,
    ];
    assert_eq!(next_index(&ops, 0, 0), 1);
    assert_eq!(next_index(&ops, 1, 0xffff), 2);
    assert_eq!(next_index(&ops, 2, 0), 3);
}

#[test]
fn next_index_of_wait() {
    let ops = vec![RegOp::WaitWhile { reg: Register::RtcIsr, mask: 0x40, value: 0 }];
    assert_eq!(next_index(&ops, 0, 0), 0);
    assert_eq!(next_index(&ops, 0, 0x80), 0);
    assert_eq!(next_index(&ops, 0, 0x40), 1);
}

#[test]
fn next_index_of_conditional() {
    let ops = vec![
        RegOp::SkipUnless { reg: Register::RtcIsr, mask: 0x80, value: 0, count: 2 },
        RegOp::Modify { reg: Register::RtcIsr, mask: 0x80, value: 0x80 },
        RegOp::WaitWhile { reg: Register::RtcIsr, mask: 0x40, value: 0 },
        RegOp::Write { reg: Register::RtcWpr, value: 0xc0 },
    ];
    assert_eq!(next_index(&ops, 0, 0), 1);
    assert_eq!(next_index(&ops, 0, 0x80), 3);
    let short = vec![RegOp::SkipUnless { reg: Register::RtcIsr, mask: 1, value: 1, count: 5 }];
    assert_eq!(next_index(&short, 0, 0), 1);
}
