use vstd::prelude::*;
use crate::registers::{
    CR_WUTIE, BDCR_LSEBYP, BDCR_RTCEN, BDCR_RTCSEL, CR_FMT, CR_OSEL, CR_POL, RCC_CR_HSEBYP, RTCSEL_HSE,
    RTCSEL_LSE, RTCSEL_LSI, BDCR_BDRST, BDCR_LSEON, BDCR_LSERDY, CR_RESET, CR_WUCKSEL, CR_WUTE, CSR_LSION, CSR_LSIRDY,
    DR_RESET, ISR_DRIVEN, ISR_FLAGS, ISR_INIT, ISR_INITF, ISR_RESET, ISR_WUTWF, PRER_RESET,
    PWR_CR_DBP, RCC_CR_HSEON, RCC_CR_HSERDY, TR_RESET, WUTR_RESET,
};

verus! {

/// The peripheral registers that the clock driver reads and writes.
#[derive(Clone, Copy, Debug, PartialEq, Eq, Structural)]
pub enum Register {
    /// RTC time register (RTC_TR).
    RtcTr,
    /// RTC date register (RTC_DR).
    RtcDr,
    /// RTC control register (RTC_CR).
    RtcCr,
    /// RTC initialization and status register (RTC_ISR).
    RtcIsr,
    /// RTC prescaler register (RTC_PRER).
    RtcPrer,
    /// RTC wakeup timer register (RTC_WUTR).
    RtcWutr,
    /// RTC write protection register (RTC_WPR).
    RtcWpr,
    /// RCC clock control register (RCC_CR).
    RccCr,
    /// RCC control and status register (RCC_CSR).
    RccCsr,
    /// RCC backup domain control register (RCC_BDCR).
    RccBdcr,
    /// RCC APB1 peripheral clock enable register (RCC_APB1ENR).
    RccApb1enr,
    /// PWR power control register (PWR_CR).
    PwrCr,
    /// EXTI interrupt mask register 1 (EXTI_IMR1).
    ExtiImr1,
    /// EXTI rising trigger selection register 1 (EXTI_RTSR1).
    ExtiRtsr1,
    /// EXTI pending register 1 (EXTI_PR1).
    ExtiPr1,
}

/// One step of a register program: what the driver does to the hardware, in order.
#[derive(Clone, Copy, Debug, PartialEq, Eq, Structural)]
pub enum RegOp {
    /// Write `value` to the whole register.
    Write { reg: Register, value: u32 },
    /// Read the register, replace the bits that `mask` selects by those of `value`, write it back.
    Modify { reg: Register, mask: u32, value: u32 },
    /// Read the register again and again for as long as its bits under `mask` equal `value`.
    WaitWhile { reg: Register, mask: u32, value: u32 },
    /// Read the register; carry out the next `count` steps only if its bits under `mask`
    /// equal `value`, and pass over them otherwise.
    SkipUnless { reg: Register, mask: u32, value: u32, count: usize },
    /// Unmask the RTC wakeup interrupt line in the interrupt controller (NVIC).
    UnmaskWakeupInterrupt,
}

/// The value of a register after a read-modify-write that puts the bits of `value`
/// under `mask` in place of the old ones.
pub open spec fn modified(old: u32, mask: u32, value: u32) -> u32 {
    (old & !mask) | (value & mask)
}

/// The register file `regs` with `reg` holding `value`.
pub open spec fn update(regs: spec_fn(Register) -> u32, reg: Register, value: u32) -> spec_fn(
    Register,
) -> u32 {
    |r: Register|
        if r == reg {
            value
        } else {
            regs(r)
        }
}

// The model of the hardware. A register file holds the value of each register; RTC_WPR,
// which cannot be read, holds instead how far the unlock sequence has got.
/// RTC_WPR state: the RTC registers are write protected.
pub const WPR_LOCKED: u32 = 0;
/// RTC_WPR state: the first unlock key has been written.
pub const WPR_FIRST_KEY: u32 = 1;
/// RTC_WPR state: both unlock keys have been written; the RTC registers may be written.
pub const WPR_UNLOCKED: u32 = 2;

/// How far the unlock sequence has got after `key` is written in state `state`: 0xCA
/// starts it, 0x53 right after 0xCA completes it, any other write protects the registers.
pub open spec fn key_state(state: u32, key: u32) -> u32 {
    if key == 0xca {
        WPR_FIRST_KEY
    } else if key == 0x53 && state == WPR_FIRST_KEY {
        WPR_UNLOCKED
    } else {
        WPR_LOCKED
    }
}

/// The backup domain (RCC_BDCR and the RTC) may be written: PWR_CR.DBP is set.
pub open spec fn backup_writable(regs: spec_fn(Register) -> u32) -> bool {
    regs(Register::PwrCr) & PWR_CR_DBP != 0
}

/// The RTC registers are unlocked.
pub open spec fn rtc_unlocked(regs: spec_fn(Register) -> u32) -> bool {
    regs(Register::RtcWpr) == WPR_UNLOCKED
}

/// The RTC is in initialization mode (RTC_ISR.INITF): time, date and prescalers may be written.
pub open spec fn init_mode(regs: spec_fn(Register) -> u32) -> bool {
    regs(Register::RtcIsr) & ISR_INITF != 0
}

/// The wakeup timer may be configured (RTC_ISR.WUTWF).
pub open spec fn wakeup_configurable(regs: spec_fn(Register) -> u32) -> bool {
    regs(Register::RtcIsr) & ISR_WUTWF != 0
}

/// RTC_ISR after `value` is written to it: the flags of bits 8 to 13 are cleared by
/// writing 0 and kept by writing 1; INIT takes the written bit when the RTC is unlocked;
/// INITF follows INIT and WUTWF is set while RTC_CR.WUTE (`cr`) is clear; the other bits
/// stay.
pub open spec fn isr_value(old: u32, value: u32, unlocked: bool, cr: u32) -> u32 {
    let kept = old & !ISR_DRIVEN;
    let flags = old & value & ISR_FLAGS;
    let init = if unlocked {
        value & ISR_INIT
    } else {
        old & ISR_INIT
    };
    let initf = if init != 0 {
        ISR_INITF
    } else {
        0u32
    };
    let wutwf = if cr & CR_WUTE == 0 {
        ISR_WUTWF
    } else {
        0u32
    };
    kept | flags | init | initf | wutwf
}

/// RTC_CR after `value` is written to it: the wakeup clock selection changes only while
/// the wakeup timer may be configured.
pub open spec fn cr_value(old: u32, value: u32, configurable: bool) -> u32 {
    if configurable {
        value
    } else {
        (value & !CR_WUCKSEL) | (old & CR_WUCKSEL)
    }
}

/// A control register whose ready flag `rdy` follows its enable bit `on`.
pub open spec fn with_ready(value: u32, on: u32, rdy: u32) -> u32 {
    if value & on != 0 {
        value | rdy
    } else {
        value & !rdy
    }
}

/// The registers after a reset of the backup domain: RCC_BDCR holds only BDRST, the RTC
/// registers hold their reset values and are write protected.
pub open spec fn backup_reset(regs: spec_fn(Register) -> u32) -> spec_fn(Register) -> u32 {
    |r: Register|
        match r {
            Register::RccBdcr => BDCR_BDRST,
            Register::RtcTr => TR_RESET,
            Register::RtcDr => DR_RESET,
            Register::RtcCr => CR_RESET,
            Register::RtcIsr => ISR_RESET,
            Register::RtcPrer => PRER_RESET,
            Register::RtcWutr => WUTR_RESET,
            Register::RtcWpr => WPR_LOCKED,
            _ => regs(r),
        }
}

/// The registers after `value` is written to `reg`, as the reference manual describes:
/// - the backup domain (RCC_BDCR and the RTC) ignores writes while PWR_CR.DBP is clear;
/// - RTC_WPR advances or resets the unlock sequence;
/// - the RTC registers ignore writes while locked, except the RTC_ISR flags; RTC_TR,
///   RTC_DR and RTC_PRER also need initialization mode, RTC_WUTR needs WUTWF;
/// - setting RCC_BDCR.BDRST resets the backup domain;
/// - ready flags follow their enable bits.
pub open spec fn hw_write(regs: spec_fn(Register) -> u32, reg: Register, value: u32) -> spec_fn(
    Register,
) -> u32 {
    let dbp = backup_writable(regs);
    match reg {
        Register::RtcWpr => if dbp {
            update(regs, reg, key_state(regs(reg), value))
        } else {
            regs
        },
        Register::RtcTr | Register::RtcDr | Register::RtcPrer => if dbp && rtc_unlocked(regs)
            && init_mode(regs) {
            update(regs, reg, value)
        } else {
            regs
        },
        Register::RtcWutr => if dbp && rtc_unlocked(regs) && wakeup_configurable(regs) {
            update(regs, reg, value)
        } else {
            regs
        },
        Register::RtcCr => if dbp && rtc_unlocked(regs) {
            let cr = cr_value(regs(reg), value, wakeup_configurable(regs));
            update(
                update(regs, reg, cr),
                Register::RtcIsr,
                isr_value(regs(Register::RtcIsr), regs(Register::RtcIsr), true, cr),
            )
        } else {
            regs
        },
        Register::RtcIsr => if dbp {
            update(
                regs,
                reg,
                isr_value(regs(reg), value, rtc_unlocked(regs), regs(Register::RtcCr)),
            )
        } else {
            regs
        },
        Register::RccBdcr => if !dbp {
            regs
        } else if value & BDCR_BDRST != 0 {
            backup_reset(regs)
        } else {
            update(regs, reg, with_ready(value, BDCR_LSEON, BDCR_LSERDY))
        },
        Register::RccCsr => update(regs, reg, with_ready(value, CSR_LSION, CSR_LSIRDY)),
        Register::RccCr => update(regs, reg, with_ready(value, RCC_CR_HSEON, RCC_CR_HSERDY)),
        _ => update(regs, reg, value),
    }
}

/// The registers after one step that is no conditional step; `None` when the step waits
/// for ever (the flag it waits on is driven by the model and has not changed).
pub open spec fn step(op: RegOp, regs: spec_fn(Register) -> u32) -> Option<
    spec_fn(Register) -> u32,
> {
    match op {
        RegOp::Write { reg, value } => Some(hw_write(regs, reg, value)),
        RegOp::Modify { reg, mask, value } => Some(
            hw_write(regs, reg, modified(regs(reg), mask, value)),
        ),
        RegOp::WaitWhile { reg, mask, value } => if regs(reg) & mask == value {
            None
        } else {
            Some(regs)
        },
        _ => Some(regs),
    }
}

/// The registers after running `ops` on `regs`; `None` when the program never ends.
pub open spec fn run(ops: Seq<RegOp>, regs: spec_fn(Register) -> u32) -> Option<
    spec_fn(Register) -> u32,
>
    decreases ops.len(),
{
    if ops.len() == 0 {
        Some(regs)
    } else {
        match ops[0] {
            RegOp::SkipUnless { reg, mask, value, count } => {
                if regs(reg) & mask == value {
                    run(ops.drop_first(), regs)
                } else if count + 1 <= ops.len() {
                    run(ops.skip(count + 1), regs)
                } else {
                    Some(regs)
                }
            },
            _ => match step(ops[0], regs) {
                Some(next) => run(ops.drop_first(), next),
                None => None,
            },
        }
    }
}

/// Every conditional step of `ops` passes over steps of `ops` only.
pub open spec fn skips_within(ops: Seq<RegOp>) -> bool {
    forall|i: int|
        0 <= i < ops.len() && (#[trigger] ops[i]) is SkipUnless ==> i + 1 + ops[i]->count
            <= ops.len()
}

/// `ops` has no conditional step.
pub open spec fn straight(ops: Seq<RegOp>) -> bool {
    forall|i: int| 0 <= i < ops.len() ==> !((#[trigger] ops[i]) is SkipUnless)
}

/// Running two programs one after the other is running their concatenation, when the
/// conditional steps of the first pass over steps of the first only.
pub proof fn lemma_run_append(a: Seq<RegOp>, b: Seq<RegOp>, regs: spec_fn(Register) -> u32)
    requires
        skips_within(a),
    ensures
        run(a + b, regs) == match run(a, regs) {
            Some(next) => run(b, next),
            None => None,
        },
    decreases a.len(),
{
    if a.len() == 0 {
        assert(a + b =~= b);
    } else {
        let ab = a + b;
        assert(ab[0] == a[0]);
        let rest = a.drop_first();
        assert(ab.drop_first() =~= rest + b);
        assert(skips_within(rest)) by {
            assert forall|i: int|
                0 <= i < rest.len() && (#[trigger] rest[i]) is SkipUnless implies i + 1
                + rest[i]->count <= rest.len() by {
                assert(rest[i] == a[i + 1]);
            }
        }
        match a[0] {
            RegOp::SkipUnless { reg, mask, value, count } => {
                assert(0 + 1 + a[0]->count <= a.len());
                if regs(reg) & mask == value {
                    lemma_run_append(rest, b, regs);
                } else {
                    let tail = a.skip(count + 1);
                    assert(ab.skip(count + 1) =~= tail + b);
                    assert(skips_within(tail)) by {
                        assert forall|i: int|
                            0 <= i < tail.len() && (#[trigger] tail[i]) is SkipUnless implies i + 1
                            + tail[i]->count <= tail.len() by {
                            assert(tail[i] == a[i + count + 1]);
                        }
                    }
                    lemma_run_append(tail, b, regs);
                }
            },
            _ => {
                match step(a[0], regs) {
                    Some(next) => {
                        lemma_run_append(rest, b, next);
                    },
                    None => {},
                }
            },
        }
    }
}

/// Putting two programs whose conditional steps stay inside them one after the other gives
/// a program whose conditional steps stay inside it.
pub proof fn lemma_skips_within_append(a: Seq<RegOp>, b: Seq<RegOp>)
    requires
        skips_within(a),
        skips_within(b),
    ensures
        skips_within(a + b),
{
    let ab = a + b;
    assert forall|i: int|
        0 <= i < ab.len() && (#[trigger] ab[i]) is SkipUnless implies i + 1 + ab[i]->count
        <= ab.len() by {
        if i < a.len() {
            assert(ab[i] == a[i]);
        } else {
            assert(ab[i] == b[i - a.len()]);
        }
    }
}

/// Running a program and then one more step that is no conditional step.
pub proof fn lemma_run_push(ops: Seq<RegOp>, op: RegOp, regs: spec_fn(Register) -> u32)
    requires
        skips_within(ops),
        !(op is SkipUnless),
    ensures
        run(ops.push(op), regs) == match run(ops, regs) {
            Some(next) => step(op, next),
            None => None,
        },
{
    assert(ops.push(op) =~= ops + seq![op]);
    lemma_run_append(ops, seq![op], regs);
    let one = seq![op];
    assert(one.drop_first() =~= Seq::<RegOp>::empty());
    reveal_with_fuel(run, 2);
}

/// A program without conditional steps keeps its conditional steps inside it.
pub proof fn lemma_straight(ops: Seq<RegOp>)
    requires
        straight(ops),
    ensures
        skips_within(ops),
{
}

/// Running one step that is no conditional step.
pub proof fn lemma_run_one(a: RegOp, regs: spec_fn(Register) -> u32)
    requires
        !(a is SkipUnless),
    ensures
        run(seq![a], regs) == step(a, regs),
{
    assert(seq![a] =~= Seq::<RegOp>::empty().push(a));
    lemma_run_push(Seq::<RegOp>::empty(), a, regs);
    assert(run(Seq::<RegOp>::empty(), regs) == Some(regs));
}

/// Running two steps that are no conditional steps.
pub proof fn lemma_run_two(a: RegOp, b: RegOp, regs: spec_fn(Register) -> u32)
    requires
        !(a is SkipUnless),
        !(b is SkipUnless),
    ensures
        run(seq![a, b], regs) == match step(a, regs) {
            Some(r) => step(b, r),
            None => None,
        },
{
    lemma_run_one(a, regs);
    assert(skips_within(seq![a]));
    assert(seq![a, b] =~= seq![a].push(b));
    lemma_run_push(seq![a], b, regs);
}

/// Running three steps that are no conditional steps.
pub proof fn lemma_run_three(a: RegOp, b: RegOp, c: RegOp, regs: spec_fn(Register) -> u32)
    requires
        !(a is SkipUnless),
        !(b is SkipUnless),
        !(c is SkipUnless),
    ensures
        run(seq![a, b, c], regs) == match step(a, regs) {
            Some(r) => match step(b, r) {
                Some(q) => step(c, q),
                None => None,
            },
            None => None,
        },
{
    lemma_run_two(a, b, regs);
    let ab = seq![a, b];
    assert(skips_within(ab)) by {
        assert forall|i: int|
            0 <= i < ab.len() && (#[trigger] ab[i]) is SkipUnless implies i + 1 + ab[i]->count
            <= ab.len() by {
            if i == 0 {
                assert(ab[i] == a);
            } else {
                assert(ab[i] == b);
            }
        }
    }
    assert(seq![a, b, c] =~= ab.push(c));
    lemma_run_push(seq![a, b], c, regs);
}

/// The values of the register masks and values that the programs combine.
pub proof fn lemma_register_constants()
    by (bit_vector)
    ensures
        BDCR_LSEON | BDCR_LSEBYP == 5,
        RCC_CR_HSEON | RCC_CR_HSEBYP == 0x50000,
        BDCR_RTCSEL | BDCR_RTCEN | BDCR_BDRST == 0x18300,
        RTCSEL_LSE | BDCR_RTCEN == 0x8100,
        RTCSEL_LSI | BDCR_RTCEN == 0x8200,
        RTCSEL_HSE | BDCR_RTCEN == 0x8300,
        CR_OSEL | CR_POL == 0x700000,
        CR_WUTE | CR_WUCKSEL | CR_WUTIE | CR_OSEL | CR_POL == 0x704407,
        0u32 & BDCR_BDRST == 0,
        (BDCR_BDRST & !BDCR_BDRST) | (0u32 & BDCR_BDRST) == 0,
        0u32 & BDCR_LSEON == 0,
        0u32 & !BDCR_LSERDY == 0,
        ISR_RESET & ISR_INITF == 0,
        ISR_RESET & ISR_INIT == 0,
        ISR_RESET & ISR_WUTWF != 0,
        CR_RESET & CR_WUTE == 0,
        CR_RESET & CR_FMT == 0,
{
}

/// The value that a read-modify-write step writes back, given the value it read.
pub fn modify_value(old: u32, mask: u32, value: u32) -> (new: u32)
    ensures
        new == modified(old, mask, value),
{
    (old & !mask) | (value & mask)
}

/// Where a program goes on after step `i`, when the step read `read` from its register
/// (steps that read nothing ignore it): a wait stays on its step while the bits under its
/// mask equal its value; a conditional step goes to the next step when they are equal and
/// passes over `count` steps (not beyond the end) when they are not; any other step goes
/// to the next one.
pub open spec fn next_index_spec(ops: Seq<RegOp>, i: int, read: u32) -> int {
    match ops[i] {
        RegOp::WaitWhile { mask, value, .. } => if read & mask == value {
            i
        } else {
            i + 1
        },
        RegOp::SkipUnless { mask, value, count, .. } => if read & mask == value {
            i + 1
        } else if i + 1 + count <= ops.len() {
            i + 1 + count
        } else {
            ops.len() as int
        },
        _ => i + 1,
    }
}

/// Where a program goes on after step `index`, given what that step read.
pub fn next_index(ops: &Vec<RegOp>, index: usize, read: u32) -> (next: usize)
    requires
        index < ops.len(),
    ensures
        next == next_index_spec(ops@, index as int, read),
        index <= next <= ops.len(),
{
    match ops[index] {
        RegOp::WaitWhile { mask, value, .. } => {
            if read & mask == value {
                index
            } else {
                index + 1
            }
        },
        RegOp::SkipUnless { mask, value, count, .. } => {
            if read & mask == value {
                index + 1
            } else if count < ops.len() - index {
                index + 1 + count
            } else {
                ops.len()
            }
        },
        _ => index + 1,
    }
}

} // verus!
