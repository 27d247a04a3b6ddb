//! What the register programs do to the hardware, as the model of `program::run` describes
//! it: write protection, the backup domain, initialization mode and the ready flags.
use vstd::prelude::*;
use crate::program::{
    backup_reset, backup_writable, hw_write, isr_value, lemma_register_constants,
    lemma_run_append, lemma_run_one, lemma_run_push, lemma_run_three, lemma_run_two,
    lemma_skips_within_append, modified, run, rtc_unlocked, skips_within, straight, update,
    with_ready, RegOp, Register, WPR_LOCKED, WPR_UNLOCKED,
};
use crate::datetime::{digits_of, lemma_bcd_round_trip, stored_year, Date, Time, CENTURY};
use crate::registers::{
    date_fields, lemma_date_read_back, lemma_prescaler_read_back, lemma_time_read_back,
    prescaler_digits, prescaler_fields, time_fields, APB1ENR_PWREN, BDCR_BDRST, BDCR_LSEBYP,
    BDCR_LSEON, BDCR_LSERDY, BDCR_RTCEN, BDCR_RTCSEL, CR_FMT, CR_WUTE, CSR_LSION, CSR_LSIRDY,
    DR_DATE_MASK, DR_RESET, ISR_FLAGS, ISR_INIT, ISR_INITF, ISR_WUTWF, PRER_MASK, PRER_RESET,
    PWR_CR_DBP, RCC_CR_HSEBYP, RCC_CR_HSEON, RCC_CR_HSERDY, TR_RESET, TR_TIME_MASK,
};
use crate::rtc::{
    backup_domain_ops, clock_source_ops, date_of, date_op, domain_reset_ops, enter_init_ops,
    exit_init_ops, guarded_ops, lock_ops, prescaler_op, rtc_enable_ops, rtcsel_bits,
    start_clock_ops, time_of, time_op, unlock_keys, unlock_ops, ClockSource, RtcSettings,
};

verus! {

/// The keys that unlock the RTC registers.
pub open spec fn hardware_key() -> (u8, u8) {
    unlock_keys()
}

/// The flags of RTC_ISR agree with what drives them: INITF with INIT, WUTWF with
/// RTC_CR.WUTE being clear.
pub open spec fn rtc_consistent(regs: spec_fn(Register) -> u32) -> bool {
    &&& (regs(Register::RtcIsr) & ISR_INITF != 0) == (regs(Register::RtcIsr) & ISR_INIT != 0)
    &&& (regs(Register::RtcIsr) & ISR_WUTWF != 0) == (regs(Register::RtcCr) & CR_WUTE == 0)
}

/// The registers after entering initialization mode (nothing changes when INIT is set).
pub open spec fn entered(regs: spec_fn(Register) -> u32) -> spec_fn(Register) -> u32 {
    let isr = regs(Register::RtcIsr);
    if isr & ISR_INIT == 0 {
        update(
            regs,
            Register::RtcIsr,
            isr_value(isr, modified(isr, ISR_INIT, ISR_INIT), true, regs(Register::RtcCr)),
        )
    } else {
        regs
    }
}

/// The registers after leaving initialization mode (nothing changes when INIT is clear).
pub open spec fn exited(regs: spec_fn(Register) -> u32) -> spec_fn(Register) -> u32 {
    let isr = regs(Register::RtcIsr);
    if isr & ISR_INIT == ISR_INIT {
        update(
            regs,
            Register::RtcIsr,
            isr_value(isr, modified(isr, ISR_INIT, 0), true, regs(Register::RtcCr)),
        )
    } else {
        regs
    }
}

/// What a write of RTC_ISR does to INIT, INITF, WUTWF and the flags.
pub proof fn lemma_isr_value(old: u32, value: u32, unlocked: bool, cr: u32)
    ensures
        isr_value(old, value, unlocked, cr) & ISR_INIT == (if unlocked {
            value & ISR_INIT
        } else {
            old & ISR_INIT
        }),
        (isr_value(old, value, unlocked, cr) & ISR_INITF != 0) == (isr_value(old, value, unlocked, cr)
            & ISR_INIT != 0),
        (isr_value(old, value, unlocked, cr) & ISR_WUTWF != 0) == (cr & CR_WUTE == 0),
        isr_value(old, value, unlocked, cr) & ISR_FLAGS == old & value & ISR_FLAGS,
{
    let i: u32 = if unlocked {
        value & ISR_INIT
    } else {
        old & ISR_INIT
    };
    let f: u32 = if i != 0 {
        ISR_INITF
    } else {
        0u32
    };
    let w: u32 = if cr & CR_WUTE == 0 {
        ISR_WUTWF
    } else {
        0u32
    };
    assert(i & !0x80u32 == 0) by (bit_vector)
        requires
            i == value & 0x80u32 || i == old & 0x80u32,
    ;
    let r: u32 = (old & !0x3fc4u32) | (old & value & 0x3f00u32) | i | f | w;
    assert(r == isr_value(old, value, unlocked, cr));
    assert(r & 0x80 == i && ((r & 0x40 != 0) == (r & 0x80 != 0)) && ((r & 4 != 0) == (w != 0)) && r
        & 0x3f00 == old & value & 0x3f00) by (bit_vector)
        requires
            i & !0x80u32 == 0,
            (i != 0 && f == 0x40) || (i == 0 && f == 0),
            w == 0 || w == 4,
            r == (old & !0x3fc4u32) | (old & value & 0x3f00u32) | i | f | w,
    ;
}

/// Writing the two unlock keys, with the backup domain open, unlocks the RTC registers.
pub proof fn lemma_unlock(regs: spec_fn(Register) -> u32)
    requires
        backup_writable(regs),
    ensures
        run(unlock_ops(hardware_key()), regs) == Some(update(regs, Register::RtcWpr, WPR_UNLOCKED)),
{
    let ops = unlock_ops(hardware_key());
    let w0 = ops[0];
    let w1 = ops[1];
    assert(ops == seq![w0].push(w1));
    lemma_run_push(seq![w0], w1, regs);
    assert(seq![w0] == Seq::<RegOp>::empty().push(w0));
    lemma_run_push(Seq::<RegOp>::empty(), w0, regs);
    let r1 = hw_write(regs, Register::RtcWpr, 0xca);
    assert(hw_write(r1, Register::RtcWpr, 0x53) =~= update(regs, Register::RtcWpr, WPR_UNLOCKED));
}

/// Writing the lock key, with the backup domain open, locks the RTC registers.
pub proof fn lemma_lock(regs: spec_fn(Register) -> u32)
    requires
        backup_writable(regs),
    ensures
        run(lock_ops(), regs) == Some(update(regs, Register::RtcWpr, WPR_LOCKED)),
{
    let w0 = lock_ops()[0];
    assert(lock_ops() == Seq::<RegOp>::empty().push(w0));
    lemma_run_push(Seq::<RegOp>::empty(), w0, regs);
    assert(hw_write(regs, Register::RtcWpr, 0xc0) =~= update(regs, Register::RtcWpr, WPR_LOCKED));
}

/// Entering initialization mode, with the RTC unlocked and its flags consistent, ends, and
/// leaves the RTC in initialization mode with its flags consistent.
pub proof fn lemma_enter(regs: spec_fn(Register) -> u32)
    requires
        backup_writable(regs),
        rtc_unlocked(regs),
        rtc_consistent(regs),
    ensures
        run(enter_init_ops(), regs) == Some(entered(regs)),
        entered(regs)(Register::RtcIsr) & ISR_INIT != 0,
        entered(regs)(Register::RtcIsr) & ISR_INITF != 0,
        rtc_consistent(entered(regs)),
        entered(regs)(Register::RtcIsr) & ISR_FLAGS == regs(Register::RtcIsr) & ISR_FLAGS,
{
    let ops = enter_init_ops();
    let m = ops[1];
    let w = ops[2];
    let isr = regs(Register::RtcIsr);
    let cr = regs(Register::RtcCr);
    let v = modified(isr, ISR_INIT, ISR_INIT);
    lemma_isr_value(isr, v, true, cr);
    assert(v & ISR_INIT == ISR_INIT && isr & v & ISR_FLAGS == isr & ISR_FLAGS) by (bit_vector)
        requires
            v == (isr & !0x80u32) | (0x80u32 & 0x80u32),
    ;
    if isr & ISR_INIT == 0 {
        assert(ops.drop_first() == seq![m].push(w));
        lemma_run_push(seq![m], w, regs);
        assert(seq![m] == Seq::<RegOp>::empty().push(m));
        lemma_run_push(Seq::<RegOp>::empty(), m, regs);
    } else {
        assert(ops.skip(3) =~= Seq::<RegOp>::empty());
    }
}

/// Leaving initialization mode, with the RTC unlocked, ends, and leaves the RTC out of
/// initialization mode with INITF following INIT.
pub proof fn lemma_exit(regs: spec_fn(Register) -> u32)
    requires
        backup_writable(regs),
        rtc_unlocked(regs),
        (regs(Register::RtcIsr) & ISR_WUTWF != 0) == (regs(Register::RtcCr) & CR_WUTE == 0),
        regs(Register::RtcIsr) & ISR_INIT != 0,
    ensures
        run(exit_init_ops(), regs) == Some(exited(regs)),
        exited(regs)(Register::RtcIsr) & ISR_INIT == 0,
        rtc_consistent(exited(regs)),
        exited(regs)(Register::RtcIsr) & ISR_FLAGS == regs(Register::RtcIsr) & ISR_FLAGS,
{
    let ops = exit_init_ops();
    let m = ops[1];
    let w = ops[2];
    let isr = regs(Register::RtcIsr);
    let cr = regs(Register::RtcCr);
    let v = modified(isr, ISR_INIT, 0);
    lemma_isr_value(isr, v, true, cr);
    assert(isr & 0x80 == 0x80 && v & ISR_INIT == 0 && isr & v & ISR_FLAGS == isr & ISR_FLAGS) by (
    bit_vector)
        requires
            v == (isr & !0x80u32) | (0u32 & 0x80u32),
            isr & 0x80u32 != 0,
    ;
    assert(ops.drop_first() == seq![m].push(w));
    lemma_run_push(seq![m], w, regs);
    assert(seq![m] == Seq::<RegOp>::empty().push(m));
    lemma_run_push(Seq::<RegOp>::empty(), m, regs);
}

/// The parts of a guarded program keep their conditional steps inside them.
pub proof fn lemma_guard_skips(key: (u8, u8))
    ensures
        skips_within(unlock_ops(key)),
        skips_within(enter_init_ops()),
        skips_within(exit_init_ops()),
        skips_within(lock_ops()),
{
    assert(skips_within(enter_init_ops())) by {
        assert forall|i: int|
            0 <= i < enter_init_ops().len() && (#[trigger] enter_init_ops()[i]) is SkipUnless
            implies i + 1 + enter_init_ops()[i]->count <= enter_init_ops().len() by {
            if i > 0 {
                assert(!(enter_init_ops()[i] is SkipUnless));
            }
        }
    }
    assert(skips_within(exit_init_ops())) by {
        assert forall|i: int|
            0 <= i < exit_init_ops().len() && (#[trigger] exit_init_ops()[i]) is SkipUnless
            implies i + 1 + exit_init_ops()[i]->count <= exit_init_ops().len() by {
            if i > 0 {
                assert(!(exit_init_ops()[i] is SkipUnless));
            }
        }
    }
}

/// A guarded program keeps its conditional steps inside it when its body does.
pub proof fn lemma_guarded_skips(key: (u8, u8), body: Seq<RegOp>)
    requires
        skips_within(body),
    ensures
        skips_within(guarded_ops(key, body)),
{
    lemma_guard_skips(key);
    let ue = unlock_ops(key) + enter_init_ops();
    lemma_skips_within_append(unlock_ops(key), enter_init_ops());
    lemma_skips_within_append(ue, body);
    lemma_skips_within_append(ue + body, exit_init_ops());
    lemma_skips_within_append(ue + body + exit_init_ops(), lock_ops());
}

/// The registers in which the body of a guarded program starts: unlocked, in
/// initialization mode.
pub open spec fn guard_start(regs: spec_fn(Register) -> u32) -> spec_fn(Register) -> u32 {
    entered(update(regs, Register::RtcWpr, WPR_UNLOCKED))
}

/// A guarded program run with the backup domain open and the RTC flags consistent: its
/// body starts unlocked and in initialization mode; when the body ends and leaves the RTC
/// unlocked, in initialization mode and with WUTWF following WUTE, the program ends, out of
/// initialization mode and locked.
pub proof fn lemma_guarded(body: Seq<RegOp>, regs: spec_fn(Register) -> u32)
    requires
        skips_within(body),
        backup_writable(regs),
        rtc_consistent(regs),
    ensures
        backup_writable(guard_start(regs)),
        rtc_unlocked(guard_start(regs)),
        rtc_consistent(guard_start(regs)),
        guard_start(regs)(Register::RtcIsr) & ISR_INIT != 0,
        guard_start(regs)(Register::RtcIsr) & ISR_INITF != 0,
        guard_start(regs)(Register::RtcIsr) & ISR_FLAGS == regs(Register::RtcIsr) & ISR_FLAGS,
        match run(body, guard_start(regs)) {
            Some(b) => (backup_writable(b) && rtc_unlocked(b) && b(Register::RtcIsr) & ISR_INIT != 0
                && (b(Register::RtcIsr) & ISR_WUTWF != 0) == (b(Register::RtcCr) & CR_WUTE == 0))
                ==> run(guarded_ops(hardware_key(), body), regs) == Some(
                update(exited(b), Register::RtcWpr, WPR_LOCKED),
            ),
            None => run(guarded_ops(hardware_key(), body), regs) is None,
        },
{
    let key = hardware_key();
    lemma_guard_skips(key);
    lemma_unlock(regs);
    let u = update(regs, Register::RtcWpr, WPR_UNLOCKED);
    lemma_enter(u);
    let ue = unlock_ops(key) + enter_init_ops();
    lemma_skips_within_append(unlock_ops(key), enter_init_ops());
    lemma_run_append(unlock_ops(key), enter_init_ops(), regs);
    lemma_skips_within_append(ue, body);
    lemma_run_append(ue, body, regs);
    let ueb = ue + body;
    lemma_skips_within_append(ueb, exit_init_ops());
    lemma_run_append(ueb, exit_init_ops(), regs);
    lemma_run_append(ueb + exit_init_ops(), lock_ops(), regs);
    match run(body, guard_start(regs)) {
        Some(b) => {
            if backup_writable(b) && rtc_unlocked(b) && b(Register::RtcIsr) & ISR_INIT != 0 && (b(
                Register::RtcIsr,
            ) & ISR_WUTWF != 0) == (b(Register::RtcCr) & CR_WUTE == 0) {
                lemma_exit(b);
                lemma_lock(exited(b));
            }
        },
        None => {},
    }
}

/// A register that is written in initialization mode (RTC_TR, RTC_DR, RTC_PRER).
pub open spec fn calendar_register(reg: Register) -> bool {
    reg == Register::RtcTr || reg == Register::RtcDr || reg == Register::RtcPrer
}

/// A guarded program whose body is one read-modify-write of RTC_TR, RTC_DR or RTC_PRER,
/// run with the backup domain open and the RTC flags consistent, ends: the register holds
/// the written bits under the mask and its old bits elsewhere, the RTC has left
/// initialization mode, its flags are consistent, it is locked, and the other registers
/// hold what they held (RTC_ISR keeps its flags).
pub proof fn lemma_guarded_calendar_write(
    reg: Register,
    mask: u32,
    value: u32,
    regs: spec_fn(Register) -> u32,
)
    requires
        calendar_register(reg),
        backup_writable(regs),
        rtc_consistent(regs),
    ensures
        run(guarded_ops(hardware_key(), seq![RegOp::Modify { reg, mask, value }]), regs) is Some,
        ({
            let after = run(
                guarded_ops(hardware_key(), seq![RegOp::Modify { reg, mask, value }]),
                regs,
            ).unwrap();
            &&& after(reg) == modified(regs(reg), mask, value)
            &&& after(Register::RtcIsr) & ISR_INIT == 0
            &&& after(Register::RtcIsr) & ISR_FLAGS == regs(Register::RtcIsr) & ISR_FLAGS
            &&& rtc_consistent(after)
            &&& after(Register::RtcWpr) == WPR_LOCKED
            &&& backup_writable(after)
            &&& forall|q: Register|
                q != reg && q != Register::RtcIsr && q != Register::RtcWpr ==> #[trigger] after(q)
                    == regs(q)
        }),
{
    let op = RegOp::Modify { reg, mask, value };
    let body = seq![op];
    assert(skips_within(body));
    lemma_guarded(body, regs);
    let g = guard_start(regs);
    assert(body == Seq::<RegOp>::empty().push(op));
    lemma_run_push(Seq::<RegOp>::empty(), op, g);
    let b = update(g, reg, modified(g(reg), mask, value));
    assert(hw_write(g, reg, modified(g(reg), mask, value)) == b);
    assert(run(body, g) == Some(b));
    lemma_exit(b);
}

/// A read-modify-write leaves the bits outside its mask as they were.
pub proof fn lemma_modify_keeps_others(old: u32, mask: u32, value: u32)
    ensures
        modified(old, mask, value) & !mask == old & !mask,
{
    assert(((old & !mask) | (value & mask)) & !mask == old & !mask) by (bit_vector);
}

/// What the clock is given by a time write is read back from it. With the backup domain
/// open and the RTC flags consistent, the program that writes `time` ends; afterwards
/// RTC_TR holds `time`, its bits outside the time fields (the AM/PM bit) are those it held
/// before, RTC_DR is untouched, the RTC has left initialization mode and is locked again.
/// This holds for hours below 40 and minutes and seconds below 80, the values whose tens
/// digit fits its field.
pub proof fn lemma_set_time_read_back(time: Time, regs: spec_fn(Register) -> u32)
    requires
        backup_writable(regs),
        rtc_consistent(regs),
        time.hour < 40,
        time.minute < 80,
        time.second < 80,
    ensures
        run(guarded_ops(hardware_key(), seq![time_op(time)]), regs) is Some,
        ({
            let after = run(guarded_ops(hardware_key(), seq![time_op(time)]), regs).unwrap();
            &&& time_of(after(Register::RtcTr)) == time
            &&& after(Register::RtcTr) & !TR_TIME_MASK == regs(Register::RtcTr) & !TR_TIME_MASK
            &&& after(Register::RtcDr) == regs(Register::RtcDr)
            &&& after(Register::RtcIsr) & ISR_INIT == 0
            &&& rtc_consistent(after)
            &&& after(Register::RtcWpr) == WPR_LOCKED
        }),
{
    let h = digits_of(time.hour);
    let m = digits_of(time.minute);
    let sec = digits_of(time.second);
    let v = time_fields(h, m, sec);
    lemma_guarded_calendar_write(Register::RtcTr, TR_TIME_MASK, v, regs);
    let after = run(guarded_ops(hardware_key(), seq![time_op(time)]), regs).unwrap();
    assert(after(Register::RtcDr) == regs(Register::RtcDr));
    lemma_bcd_round_trip(time.hour);
    lemma_bcd_round_trip(time.minute);
    lemma_bcd_round_trip(time.second);
    lemma_time_read_back(regs(Register::RtcTr), h, m, sec);
    lemma_modify_keeps_others(regs(Register::RtcTr), TR_TIME_MASK, v);
}

/// What the clock is given by a date write is read back from it. With the backup domain
/// open and the RTC flags consistent, the program that writes `date` ends; afterwards
/// RTC_DR holds its day and month and the year that the clock keeps (`stored_year`: 2000
/// for years outside 2000..=2154), its bits outside the date fields (the week day) are
/// those it held before, RTC_TR is untouched, the RTC has left initialization mode and is
/// locked again. This holds for days below 40 and months below 20, the values whose tens
/// digit fits its field.
pub proof fn lemma_set_date_read_back(date: Date, regs: spec_fn(Register) -> u32)
    requires
        backup_writable(regs),
        rtc_consistent(regs),
        date.day < 40,
        date.month < 20,
    ensures
        run(guarded_ops(hardware_key(), seq![date_op(date)]), regs) is Some,
        ({
            let after = run(guarded_ops(hardware_key(), seq![date_op(date)]), regs).unwrap();
            &&& date_of(after(Register::RtcDr)) == (Date {
                day: date.day,
                month: date.month,
                year: stored_year(date.year),
            })
            &&& after(Register::RtcDr) & !DR_DATE_MASK == regs(Register::RtcDr) & !DR_DATE_MASK
            &&& after(Register::RtcTr) == regs(Register::RtcTr)
            &&& after(Register::RtcIsr) & ISR_INIT == 0
            &&& rtc_consistent(after)
            &&& after(Register::RtcWpr) == WPR_LOCKED
        }),
{
    let y: u8 = (stored_year(date.year) - CENTURY) as u8;
    let d = digits_of(date.day);
    let m = digits_of(date.month);
    let yy = digits_of(y);
    let v = date_fields(d, m, yy);
    lemma_guarded_calendar_write(Register::RtcDr, DR_DATE_MASK, v, regs);
    let after = run(guarded_ops(hardware_key(), seq![date_op(date)]), regs).unwrap();
    assert(after(Register::RtcTr) == regs(Register::RtcTr));
    lemma_bcd_round_trip(date.day);
    lemma_bcd_round_trip(date.month);
    lemma_bcd_round_trip(y);
    lemma_date_read_back(regs(Register::RtcDr), d, m, yy);
    lemma_modify_keeps_others(regs(Register::RtcDr), DR_DATE_MASK, v);
}

/// The registers after the power interface clock is turned on and the backup domain opened.
pub open spec fn after_backup(regs: spec_fn(Register) -> u32) -> spec_fn(Register) -> u32 {
    update(
        update(
            regs,
            Register::RccApb1enr,
            modified(regs(Register::RccApb1enr), APB1ENR_PWREN, APB1ENR_PWREN),
        ),
        Register::PwrCr,
        modified(regs(Register::PwrCr), PWR_CR_DBP, PWR_CR_DBP),
    )
}

/// The registers after the backup domain is reset and released.
pub open spec fn after_reset(regs: spec_fn(Register) -> u32) -> spec_fn(Register) -> u32 {
    update(backup_reset(regs), Register::RccBdcr, 0)
}

/// The registers after the clock source is turned on.
pub open spec fn after_source(regs: spec_fn(Register) -> u32, source: ClockSource) -> spec_fn(
    Register,
) -> u32 {
    let op = clock_source_ops(source)[0];
    match op {
        RegOp::Modify { reg, mask, value } => hw_write(regs, reg, modified(regs(reg), mask, value)),
        _ => regs,
    }
}

/// The registers after the RTC clock is selected and enabled.
pub open spec fn after_select(regs: spec_fn(Register) -> u32, source: ClockSource) -> spec_fn(
    Register,
) -> u32 {
    update(
        regs,
        Register::RccBdcr,
        with_ready(
            modified(
                regs(Register::RccBdcr),
                BDCR_RTCSEL | BDCR_RTCEN | BDCR_BDRST,
                rtcsel_bits(source) | BDCR_RTCEN,
            ),
            BDCR_LSEON,
            BDCR_LSERDY,
        ),
    )
}

/// The registers just before the prescalers are written by the start-up program.
pub open spec fn before_prescalers(regs: spec_fn(Register) -> u32, source: ClockSource) -> spec_fn(
    Register,
) -> u32 {
    after_select(after_source(after_reset(after_backup(regs)), source), source)
}

/// The steps of the start-up program before the prescalers: opening the backup domain
/// ends, the reset and release of the backup domain follow, the clock source is turned on
/// and becomes ready, the RTC clock is selected, and the hour format write is ignored by
/// the locked RTC.
pub proof fn lemma_start_prefix(source: ClockSource, regs: spec_fn(Register) -> u32)
    ensures
        ({
            let p = backup_domain_ops() + domain_reset_ops() + clock_source_ops(source)
                + rtc_enable_ops(source) + seq![
                RegOp::Modify { reg: Register::RtcCr, mask: CR_FMT, value: CR_FMT },
            ];
            &&& skips_within(p)
            &&& run(p, regs) == Some(before_prescalers(regs, source))
        }),
{
    let b = backup_domain_ops();
    let r = domain_reset_ops();
    let c = clock_source_ops(source);
    let e = rtc_enable_ops(source);
    let f = seq![RegOp::Modify { reg: Register::RtcCr, mask: CR_FMT, value: CR_FMT }];
    // opening the backup domain
    lemma_run_three(b[0], b[1], b[2], regs);
    assert(b == seq![b[0], b[1], b[2]]);
    let pwr = regs(Register::PwrCr);
    assert(modified(pwr, PWR_CR_DBP, PWR_CR_DBP) & PWR_CR_DBP != 0) by (bit_vector);
    let r1 = after_backup(regs);
    assert(run(b, regs) == Some(r1));
    // resetting the backup domain
    lemma_run_two(r[0], r[1], r1);
    assert(r == seq![r[0], r[1]]);
    let bd = r1(Register::RccBdcr);
    assert(modified(bd, BDCR_BDRST, BDCR_BDRST) & BDCR_BDRST != 0) by (bit_vector);
    lemma_register_constants();
    let r2 = after_reset(r1);
    assert(hw_write(backup_reset(r1), Register::RccBdcr, 0) =~= r2);
    assert(run(r, r1) == Some(r2));
    // starting the clock source
    lemma_run_two(c[0], c[1], r2);
    assert(c == seq![c[0], c[1]]);
    let r3 = after_source(r2, source);
    match source {
        ClockSource::LSI => {
            let x = r2(Register::RccCsr);
            assert(with_ready(modified(x, 1, 1), 1, 2) & 2 != 0) by (bit_vector);
        },
        ClockSource::LSE(bypass) => {
            assert(with_ready(modified(0, 5, 5), 1, 2) & 2 != 0 && modified(0, 5, 5) & 0x10000 == 0
                && with_ready(modified(0, 5, 1), 1, 2) & 2 != 0 && modified(0, 5, 1) & 0x10000 == 0)
                by (bit_vector);
        },
        ClockSource::HSE(bypass) => {
            let x = r2(Register::RccCr);
            assert(with_ready(modified(x, 0x50000, 0x50000), 0x10000, 0x20000) & 0x20000 != 0
                && with_ready(modified(x, 0x50000, 0x10000), 0x10000, 0x20000) & 0x20000 != 0) by (
            bit_vector);
        },
    }
    assert(run(c, r2) == Some(r3));
    // selecting the RTC clock
    lemma_run_one(e[0], r3);
    assert(e == seq![e[0]]);
    let bd3 = r3(Register::RccBdcr);
    let sel = rtcsel_bits(source) | BDCR_RTCEN;
    assert(modified(bd3, 0x18300, 0x8100) & 0x10000 == 0 && modified(bd3, 0x18300, 0x8200)
        & 0x10000 == 0 && modified(bd3, 0x18300, 0x8300) & 0x10000 == 0) by (bit_vector);
    let r4 = after_select(r3, source);
    assert(run(e, r3) == Some(r4));
    // the hour format write, ignored while the RTC is locked
    lemma_run_one(f[0], r4);
    assert(!rtc_unlocked(r4));
    assert(run(f, r4) == Some(r4));
    // putting the parts together
    assert(straight(b) && straight(r) && straight(c) && straight(e) && straight(f));
    let br = b + r;
    let brc = br + c;
    let brce = brc + e;
    lemma_skips_within_append(b, r);
    lemma_skips_within_append(br, c);
    lemma_skips_within_append(brc, e);
    lemma_skips_within_append(brce, f);
    lemma_run_append(b, r, regs);
    lemma_run_append(br, c, regs);
    lemma_run_append(brc, e, regs);
    lemma_run_append(brce, f, regs);
}

/// The reset values of RTC_TR and RTC_DR stand for 00:00:00 and 1 January 2000.
pub proof fn lemma_reset_calendar()
    ensures
        time_of(TR_RESET) == (Time { hour: 0, minute: 0, second: 0 }),
        date_of(DR_RESET) == (Date { day: 1, month: 1, year: 2000 }),
{
    let t: u32 = TR_RESET;
    assert((t >> 20) & 3 == 0 && (t >> 16) & 0xf == 0 && (t >> 12) & 7 == 0 && (t >> 8) & 0xf == 0
        && (t >> 4) & 7 == 0 && t & 0xf == 0) by (bit_vector)
        requires
            t == 0,
    ;
    let d: u32 = DR_RESET;
    assert((d >> 4) & 3 == 0 && d & 0xf == 1 && (d >> 12) & 1 == 0 && (d >> 8) & 0xf == 1 && (d
        >> 20) & 0xf == 0 && (d >> 16) & 0xf == 0) by (bit_vector)
        requires
            d == 0x2101,
    ;
}

/// What starting the clock does. From any register contents the start-up program ends
/// (the backup domain is opened before it is written, and reset before the clock source
/// is started); afterwards:
/// - the backup domain is open, the chosen clock source runs and is ready (with the asked
///   bypass), RCC_BDCR selects it for the RTC with the RTC clock enabled and no reset held;
/// - the RTC holds the reset calendar (00:00:00, 1 January 2000), RTC_CR keeps its reset
///   value in the hour format bit (the write of FMT comes while the RTC is locked, so the
///   clock counts in 24-hour format), and RTC_PRER holds the prescalers cut to 7 and 15 bits;
/// - the RTC is out of initialization mode, its flags are consistent and it is locked.
pub proof fn lemma_start_clock(s: RtcSettings, regs: spec_fn(Register) -> u32)
    ensures
        run(start_clock_ops(s), regs) is Some,
        ({
            let after = run(start_clock_ops(s), regs).unwrap();
            &&& prescaler_digits(after(Register::RtcPrer)) == (
                (s.prediv_a % 128) as u8,
                (s.prediv_s % 32768) as u16,
            )
            &&& time_of(after(Register::RtcTr)) == (Time { hour: 0, minute: 0, second: 0 })
            &&& date_of(after(Register::RtcDr)) == (Date { day: 1, month: 1, year: 2000 })
            &&& after(Register::RtcCr) & CR_FMT == 0
            &&& after(Register::RccBdcr) & BDCR_RTCSEL == rtcsel_bits(s.source)
            &&& after(Register::RccBdcr) & BDCR_RTCEN != 0
            &&& after(Register::RccBdcr) & BDCR_BDRST == 0
            &&& (s.source matches ClockSource::LSE(bypass) ==> after(Register::RccBdcr) & BDCR_LSEON
                != 0 && after(Register::RccBdcr) & BDCR_LSERDY != 0 && (after(Register::RccBdcr)
                & BDCR_LSEBYP != 0) == bypass)
            &&& (s.source is LSI ==> after(Register::RccCsr) & CSR_LSION != 0 && after(
                Register::RccCsr,
            ) & CSR_LSIRDY != 0)
            &&& (s.source matches ClockSource::HSE(bypass) ==> after(Register::RccCr) & RCC_CR_HSEON
                != 0 && after(Register::RccCr) & RCC_CR_HSERDY != 0 && (after(Register::RccCr)
                & RCC_CR_HSEBYP != 0) == bypass)
            &&& backup_writable(after)
            &&& after(Register::RtcIsr) & ISR_INIT == 0
            &&& rtc_consistent(after)
            &&& after(Register::RtcWpr) == WPR_LOCKED
            &&& after(Register::RccApb1enr) & APB1ENR_PWREN != 0
        }),
{
    let p = backup_domain_ops() + domain_reset_ops() + clock_source_ops(s.source) + rtc_enable_ops(
        s.source,
    ) + seq![RegOp::Modify { reg: Register::RtcCr, mask: CR_FMT, value: CR_FMT }];
    let body = seq![prescaler_op(s.prediv_a, s.prediv_s)];
    lemma_start_prefix(s.source, regs);
    let q = before_prescalers(regs, s.source);
    let r1 = after_backup(regs);
    let pwr = regs(Register::PwrCr);
    let apb = regs(Register::RccApb1enr);
    assert(modified(pwr, PWR_CR_DBP, PWR_CR_DBP) & PWR_CR_DBP != 0 && modified(
        apb,
        APB1ENR_PWREN,
        APB1ENR_PWREN,
    ) & APB1ENR_PWREN != 0) by (bit_vector);
    lemma_register_constants();
    assert(backup_writable(q));
    assert(q(Register::RccApb1enr) == r1(Register::RccApb1enr));
    assert(rtc_consistent(q));
    lemma_guarded_calendar_write(
        Register::RtcPrer,
        PRER_MASK,
        prescaler_fields(s.prediv_a, s.prediv_s),
        q,
    );
    lemma_guarded_skips(hardware_key(), body);
    lemma_run_append(p, guarded_ops(hardware_key(), body), regs);
    let after = run(start_clock_ops(s), regs).unwrap();
    lemma_prescaler_read_back(PRER_RESET, s.prediv_a, s.prediv_s);
    lemma_reset_calendar();
    assert(after(Register::RtcTr) == q(Register::RtcTr));
    assert(after(Register::RtcDr) == q(Register::RtcDr));
    assert(after(Register::RtcCr) == q(Register::RtcCr));
    assert(after(Register::RccBdcr) == q(Register::RccBdcr));
    assert(after(Register::RccCsr) == q(Register::RccCsr));
    assert(after(Register::RccCr) == q(Register::RccCr));
    match s.source {
        ClockSource::LSI => {
            let r2 = after_reset(r1);
            let r3 = after_source(r2, s.source);
            assert(clock_source_ops(s.source)[0] == RegOp::Modify {
                reg: Register::RccCsr,
                mask: CSR_LSION,
                value: CSR_LSION,
            });
            assert(r3(Register::RccBdcr) == 0);
            assert(q(Register::RccBdcr) == with_ready(modified(0, 0x18300, 0x8200), 1, 2));
            let x = after_reset(r1)(Register::RccCsr);
            assert(with_ready(modified(x, 1, 1), 1, 2) & 1 != 0 && with_ready(modified(x, 1, 1), 1, 2) & 2 != 0) by (bit_vector);
            assert(with_ready(modified(0, 0x18300, 0x8200), 1, 2) & 0x300 == 0x200 && with_ready(
                modified(0, 0x18300, 0x8200),
                1,
                2,
            ) & 0x8000 != 0 && with_ready(modified(0, 0x18300, 0x8200), 1, 2) & 0x10000 == 0)
                by (bit_vector);
        },
        ClockSource::LSE(bypass) => {
            let r2 = after_reset(r1);
            let r3 = after_source(r2, s.source);
            assert(r2(Register::RccBdcr) == 0);
            assert(backup_writable(r2));
            assert(modified(0, 5, 5) & 0x10000 == 0 && modified(0, 5, 1) & 0x10000 == 0) by (
            bit_vector);
            assert(clock_source_ops(s.source)[0] == RegOp::Modify {
                reg: Register::RccBdcr,
                mask: BDCR_LSEON | BDCR_LSEBYP,
                value: if bypass {
                    BDCR_LSEON | BDCR_LSEBYP
                } else {
                    BDCR_LSEON
                },
            });
            if bypass {
                assert(r3(Register::RccBdcr) == with_ready(modified(0, 5, 5), 1, 2));
            } else {
                assert(r3(Register::RccBdcr) == with_ready(modified(0, 5, 1), 1, 2));
            }
            let x5 = with_ready(modified(0, 5, 5), 1, 2);
            let x1 = with_ready(modified(0, 5, 1), 1, 2);
            assert(with_ready(modified(x5, 0x18300, 0x8100), 1, 2) & 0x300 == 0x100 && with_ready(
                modified(x5, 0x18300, 0x8100),
                1,
                2,
            ) & 0x8000 != 0 && with_ready(modified(x5, 0x18300, 0x8100), 1, 2) & 0x10000 == 0
                && with_ready(modified(x5, 0x18300, 0x8100), 1, 2) & 1 != 0 && with_ready(
                modified(x5, 0x18300, 0x8100),
                1,
                2,
            ) & 2 != 0 && with_ready(modified(x5, 0x18300, 0x8100), 1, 2) & 4 != 0) by (bit_vector)
                requires
                    x5 == with_ready(modified(0, 5, 5), 1, 2),
            ;
            assert(with_ready(modified(x1, 0x18300, 0x8100), 1, 2) & 0x300 == 0x100 && with_ready(
                modified(x1, 0x18300, 0x8100),
                1,
                2,
            ) & 0x8000 != 0 && with_ready(modified(x1, 0x18300, 0x8100), 1, 2) & 0x10000 == 0
                && with_ready(modified(x1, 0x18300, 0x8100), 1, 2) & 1 != 0 && with_ready(
                modified(x1, 0x18300, 0x8100),
                1,
                2,
            ) & 2 != 0 && with_ready(modified(x1, 0x18300, 0x8100), 1, 2) & 4 == 0) by (bit_vector)
                requires
                    x1 == with_ready(modified(0, 5, 1), 1, 2),
            ;
        },
        ClockSource::HSE(bypass) => {
            let r2 = after_reset(r1);
            let r3 = after_source(r2, s.source);
            assert(r3(Register::RccBdcr) == 0);
            assert(q(Register::RccBdcr) == with_ready(modified(0, 0x18300, 0x8300), 1, 2));
            let x = after_reset(r1)(Register::RccCr);
            let y5 = with_ready(modified(x, 0x50000, 0x50000), 0x10000, 0x20000);
            let y1 = with_ready(modified(x, 0x50000, 0x10000), 0x10000, 0x20000);
            assert(y5 & 0x10000 != 0 && y5 & 0x20000 != 0 && y5 & 0x40000 != 0) by (bit_vector)
                requires
                    y5 == with_ready(modified(x, 0x50000, 0x50000), 0x10000, 0x20000),
            ;
            assert(y1 & 0x10000 != 0 && y1 & 0x20000 != 0 && y1 & 0x40000 == 0) by (bit_vector)
                requires
                    y1 == with_ready(modified(x, 0x50000, 0x10000), 0x10000, 0x20000),
            ;
            assert(with_ready(modified(0, 0x18300, 0x8300), 1, 2) & 0x300 == 0x300 && with_ready(
                modified(0, 0x18300, 0x8300),
                1,
                2,
            ) & 0x8000 != 0 && with_ready(modified(0, 0x18300, 0x8300), 1, 2) & 0x10000 == 0)
                by (bit_vector);
        },
    }
}

} // verus!
