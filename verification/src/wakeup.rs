//! The wakeup timer: its settings and the register programs that enable it and answer
//! its interrupt.
use vstd::prelude::*;
use crate::effects::{
    exited, guard_start, hardware_key, lemma_exit, lemma_guarded, lemma_guarded_skips,
    lemma_isr_value, lemma_lock, lemma_unlock, rtc_consistent,
};
use crate::program::{
    backup_writable, hw_write, isr_value, lemma_run_append, lemma_run_one, lemma_run_three,
    lemma_register_constants, lemma_run_two, lemma_skips_within_append, modified, rtc_unlocked, run, skips_within, straight,
    update, wakeup_configurable, RegOp, Register, WPR_LOCKED, WPR_UNLOCKED,
};
use crate::registers::{
    CR_OSEL, CR_POL, CR_WUCKSEL, CR_WUTE, CR_WUTIE, EXTI_LINE20, ISR_INIT, ISR_WUTF, ISR_WUTWF,
    WUTR_WUT,
};
use crate::rtc::{
    guarded_ops, unlock_keys, lock_ops, unlock_ops, Protection,
    Rtc, RtcSettings,
};
use crate::rtc_interrupt::{
    osel_bits, RtcInterrupt, RtcInterruptOutputPolarity, RtcInterruptOutputSelection,
};

verus! {

/// Contains all WakeUp counter divisions that are available to use
#[derive(Clone, Copy, Debug, PartialEq, Eq, Structural)]
pub enum WakeupRtcDivision {
    /// When used on WakeUp timer slows counting **16 times** (bits 0b000)
    RtcDiv16,
    /// When used on WakeUp timer slows counting **8 times** (bits 0b001)
    RtcDiv8,
    /// When used on WakeUp timer slows counting **4 times** (bits 0b010)
    RtcDiv4,
    /// When used on WakeUp timer slows counting **2 times** (bits 0b011)
    RtcDiv2,
    /// Do not affect on counter (counting seconds) (bits 0b100)
    RtcNoDiv,
    /// Counter is increase by 0x10000 (65536) (bits 0b110)
    RtcOffset,
}

impl WakeupRtcDivision {
    /// The register bits of a division.
    pub open spec fn bits_spec(self) -> u8 {
        match self {
            WakeupRtcDivision::RtcDiv16 => 0b000,
            WakeupRtcDivision::RtcDiv8 => 0b001,
            WakeupRtcDivision::RtcDiv4 => 0b010,
            WakeupRtcDivision::RtcDiv2 => 0b011,
            WakeupRtcDivision::RtcNoDiv => 0b100,
            WakeupRtcDivision::RtcOffset => 0b110,
        }
    }

    /// Returns bits that need to be written in to register to achieve particular division
    pub fn get_bits(self) -> (bits: u8)
        ensures
            bits == self.bits_spec(),
    {
        match self {
            WakeupRtcDivision::RtcDiv16 => 0b000,
            WakeupRtcDivision::RtcDiv8 => 0b001,
            WakeupRtcDivision::RtcDiv4 => 0b010,
            WakeupRtcDivision::RtcDiv2 => 0b011,
            WakeupRtcDivision::RtcNoDiv => 0b100,
            WakeupRtcDivision::RtcOffset => 0b110,
        }
    }
}

/// The settings of the wakeup timer and the clock it belongs to.
#[derive(Clone, Copy)]
pub struct WakeupManager {
    rtc: Rtc,
    sel: u8,
    time: u16,
    interrupt: RtcInterrupt,
    en_interrupt: bool,
}

/// What a wakeup timer's settings are, as plain values.
#[derive(Clone, Copy, Debug)]
pub struct WakeupSettings {
    /// The settings of the clock.
    pub rtc: RtcSettings,
    /// The clock division bits.
    pub sel: u8,
    /// The counter reload value.
    pub time: u16,
    /// The output selection and polarity of the RTC_ALARM output.
    pub interrupt: (RtcInterruptOutputSelection, RtcInterruptOutputPolarity),
    /// Whether the wakeup interrupt is enabled.
    pub en_interrupt: bool,
}

impl View for WakeupManager {
    type V = WakeupSettings;

    closed spec fn view(&self) -> WakeupSettings {
        WakeupSettings {
            rtc: self.rtc@,
            sel: self.sel,
            time: self.time,
            interrupt: self.interrupt@,
            en_interrupt: self.en_interrupt,
        }
    }
}

/// The RTC_CR bits for an output selection and a polarity.
pub open spec fn output_fields(
    interrupt: (RtcInterruptOutputSelection, RtcInterruptOutputPolarity),
) -> u32 {
    ((((osel_bits(interrupt.0) as u32) & 3) << 21) | (if interrupt.1 is Low {
        CR_POL
    } else {
        0u32
    }))
}

/// The output bits that enable writes into RTC_CR carry both choices, whatever the other:
/// POL is set exactly when the output is active low, and OSEL holds the selection's
/// encoding (00 disabled, 01 alarm A, 10 alarm B, 11 wakeup); no other bit is set.
pub proof fn lemma_output_fields(
    interrupt: (RtcInterruptOutputSelection, RtcInterruptOutputPolarity),
)
    ensures
        (output_fields(interrupt) & CR_POL != 0) <==> (interrupt.1 is Low),
        (output_fields(interrupt) >> 21) & 3 == osel_bits(interrupt.0) as u32,
        (output_fields(interrupt) >> 21) & 3 == match interrupt.0 {
            RtcInterruptOutputSelection::Disabled => 0u32,
            RtcInterruptOutputSelection::AlarmA => 1u32,
            RtcInterruptOutputSelection::AlarmB => 2u32,
            RtcInterruptOutputSelection::WakeUp => 3u32,
        },
        output_fields(interrupt) & !(CR_OSEL | CR_POL) == 0,
{
    let o: u32 = osel_bits(interrupt.0) as u32;
    let low: bool = interrupt.1 is Low;
    assert(o < 4);
    assert(((((o & 3) << 21) | (if low { 0x100000u32 } else { 0u32 })) & 0x100000u32 != 0)
        == low && (((((o & 3) << 21) | (if low { 0x100000u32 } else { 0u32 })) >> 21) & 3) == o
        && (((o & 3) << 21) | (if low { 0x100000u32 } else { 0u32 })) & !0x700000u32 == 0
        && 0x600000u32 | 0x100000u32 == 0x700000u32) by (bit_vector)
        requires
            o < 4,
    ;
}

/// Turning the wakeup interrupt on or off in RTC_CR; when on, also writing the output
/// selection and polarity.
pub open spec fn interrupt_ops(w: WakeupSettings) -> Seq<RegOp> {
    if w.en_interrupt {
        seq![
            RegOp::Modify { reg: Register::RtcCr, mask: CR_WUTIE, value: CR_WUTIE },
            RegOp::Modify {
                reg: Register::RtcCr,
                mask: CR_OSEL | CR_POL,
                value: output_fields(w.interrupt),
            },
        ]
    } else {
        seq![RegOp::Modify { reg: Register::RtcCr, mask: CR_WUTIE, value: 0 }]
    }
}

/// Writing the wakeup clock division bits `sel`, under unlocked initialization mode.
pub open spec fn wutsel_ops(key: (u8, u8), sel: u8) -> Seq<RegOp> {
    guarded_ops(key, seq![RegOp::Modify { reg: Register::RtcCr, mask: CR_WUCKSEL, value: sel as u32 }])
}

/// The write of the counter reload value into RTC_WUTR.
pub open spec fn counter_op(time: u16) -> RegOp {
    RegOp::Modify { reg: Register::RtcWutr, mask: WUTR_WUT, value: time as u32 }
}

/// Stopping the timer and waiting until it may be configured.
pub open spec fn stop_ops() -> Seq<RegOp> {
    seq![
        RegOp::Modify { reg: Register::RtcCr, mask: CR_WUTE, value: 0 },
        RegOp::WaitWhile { reg: Register::RtcIsr, mask: ISR_WUTWF, value: 0 },
    ]
}

/// Setting the counter, starting the timer and clearing its flag.
pub open spec fn run_ops(time: u16) -> Seq<RegOp> {
    seq![
        counter_op(time),
        RegOp::Modify { reg: Register::RtcCr, mask: CR_WUTE, value: CR_WUTE },
        RegOp::Modify { reg: Register::RtcIsr, mask: ISR_WUTF, value: 0 },
    ]
}

/// Waiting until the timer has taken its configuration.
pub open spec fn settle_ops() -> Seq<RegOp> {
    seq![RegOp::WaitWhile { reg: Register::RtcIsr, mask: ISR_WUTWF, value: ISR_WUTWF }]
}

/// The whole program that enables the wakeup timer with settings `w`: the RTC is unlocked
/// before the timer is stopped, so that the program also reconfigures a running timer.
pub open spec fn enable_ops(w: WakeupSettings) -> Seq<RegOp> {
    unlock_ops(unlock_keys()) + stop_ops() + wutsel_ops(unlock_keys(), w.sel) + unlock_ops(
        unlock_keys(),
    ) + interrupt_ops(w) + run_ops(w.time) + lock_ops() + settle_ops()
}

/// With the interrupt on: unmasking EXTI line 20 (the RTC wakeup event), triggering it on
/// the rising edge and unmasking the RTC wakeup interrupt in the interrupt controller.
/// With the interrupt off: masking EXTI line 20.
pub open spec fn interrupt_line_ops(enable: bool) -> Seq<RegOp> {
    if enable {
        seq![
            RegOp::Modify { reg: Register::ExtiImr1, mask: EXTI_LINE20, value: EXTI_LINE20 },
            RegOp::Modify { reg: Register::ExtiRtsr1, mask: EXTI_LINE20, value: EXTI_LINE20 },
            RegOp::UnmaskWakeupInterrupt,
        ]
    } else {
        seq![RegOp::Modify { reg: Register::ExtiImr1, mask: EXTI_LINE20, value: 0 }]
    }
}

/// Clearing the wakeup timer flag and the pending bit of EXTI line 20 after the interrupt.
pub open spec fn acknowledge_ops() -> Seq<RegOp> {
    seq![
        RegOp::Modify { reg: Register::RtcIsr, mask: ISR_WUTF, value: 0 },
        RegOp::Modify { reg: Register::ExtiPr1, mask: EXTI_LINE20, value: EXTI_LINE20 },
    ]
}

impl WakeupManager {
    /// A wakeup timer of clock `rtc`: no division (counting seconds), counter 360,
    /// interrupt output disabled with polarity high, interrupt off.
    pub fn new(rtc: &Rtc) -> (manager: WakeupManager)
        ensures
            manager@ == (WakeupSettings {
                rtc: rtc@,
                sel: WakeupRtcDivision::RtcNoDiv.bits_spec(),
                time: 360,
                interrupt: (RtcInterruptOutputSelection::Disabled, RtcInterruptOutputPolarity::High),
                en_interrupt: false,
            }),
    {
        Self {
            rtc: *rtc,
            sel: WakeupRtcDivision::RtcNoDiv.get_bits(),
            time: 360,
            interrupt: RtcInterrupt::new(),
            en_interrupt: false,
        }
    }

    /// Configure your Interrupt by setting output and polarity.
    ///
    /// **Note:** By default this OSEL is Disabled and POL is High
    pub fn configure_interrupt(&mut self, interrupt: RtcInterrupt) -> (manager: &Self)
        ensures
            final(self)@ == (WakeupSettings { interrupt: interrupt@, ..old(self)@ }),
            manager@ == final(self)@,
    {
        self.interrupt = interrupt;
        self
    }

    /// Turns the wakeup interrupt on (true) or off (false). The interrupt line itself is
    /// set up by the program of `interrupt_line`, run after this call.
    pub fn set_interrupt(self, enable: bool) -> (manager: Self)
        ensures
            manager@ == (WakeupSettings { en_interrupt: enable, ..self@ }),
    {
        let mut manager = self;
        manager.en_interrupt = enable;
        manager
    }

    /// The program that routes the wakeup event to the processor when the interrupt is on
    /// (EXTI line 20 unmasked and triggered on the rising edge, RTC wakeup interrupt
    /// unmasked), and masks EXTI line 20 when it is off.
    pub fn interrupt_line(&self) -> (ops: Vec<RegOp>)
        ensures
            ops@ == interrupt_line_ops(self@.en_interrupt),
    {
        let mut ops: Vec<RegOp> = Vec::new();
        if self.en_interrupt {
            ops.push(RegOp::Modify { reg: Register::ExtiImr1, mask: EXTI_LINE20, value: EXTI_LINE20 });
            ops.push(RegOp::Modify { reg: Register::ExtiRtsr1, mask: EXTI_LINE20, value: EXTI_LINE20 });
            ops.push(RegOp::UnmaskWakeupInterrupt);
        } else {
            ops.push(RegOp::Modify { reg: Register::ExtiImr1, mask: EXTI_LINE20, value: 0 });
        }
        assert(ops@ =~= interrupt_line_ops(self@.en_interrupt));
        ops
    }

    /// The program that the wakeup interrupt handler runs after the user's handler:
    /// clearing the wakeup flag and the pending bit of EXTI line 20.
    pub fn acknowledge() -> (ops: Vec<RegOp>)
        ensures
            ops@ == acknowledge_ops(),
    {
        let mut ops: Vec<RegOp> = Vec::new();
        ops.push(RegOp::Modify { reg: Register::RtcIsr, mask: ISR_WUTF, value: 0 });
        ops.push(RegOp::Modify { reg: Register::ExtiPr1, mask: EXTI_LINE20, value: EXTI_LINE20 });
        assert(ops@ =~= acknowledge_ops());
        ops
    }

    /// Please set counter for your WakeUp event. Every time counter will finish
    /// counting time that you set WakeUp event will happen.
    pub fn set_counter(self, time: u16) -> (manager: Self)
        ensures
            manager@ == (WakeupSettings { time, ..self@ }),
    {
        let mut manager = self;
        manager.time = time;
        manager
    }

    /// You can set division for your RTC clock that will affect by slowing down
    /// WukeUp timer. Please read **WakeupRtcDivision** documentation.
    pub fn set_clock_division(self, division: WakeupRtcDivision) -> (manager: Self)
        ensures
            manager@ == (WakeupSettings { sel: division.bits_spec(), ..self@ }),
    {
        let mut manager = self;
        manager.sel = division.get_bits();
        manager
    }

    /// The program that enables the wakeup timer. It can be run again to reconfigure the timer.
    pub fn enable(&self) -> (ops: Vec<RegOp>)
        ensures
            ops@ == enable_ops(self@),
    {
        // Unlock, disable Wakeup Timer and waiting for ready flag
        let mut ops: Vec<RegOp> = self.rtc.write_protection(Protection::Disable);
        let mut stop: Vec<RegOp> = Vec::new();
        stop.push(RegOp::Modify { reg: Register::RtcCr, mask: CR_WUTE, value: 0 });
        stop.push(RegOp::WaitWhile { reg: Register::RtcIsr, mask: ISR_WUTWF, value: 0 });
        assert(stop@ =~= stop_ops());
        ops.append(&mut stop);
        let mut wutsel: Vec<RegOp> = self.set_wutsel();
        ops.append(&mut wutsel);
        let mut unlock: Vec<RegOp> = self.rtc.write_protection(Protection::Disable);
        ops.append(&mut unlock);
        // Interrupt enabling
        let mut interrupts: Vec<RegOp> = if self.en_interrupt {
            self.enable_interrupts()
        } else {
            let mut off: Vec<RegOp> = Vec::new();
            off.push(RegOp::Modify { reg: Register::RtcCr, mask: CR_WUTIE, value: 0 });
            off
        };
        assert(interrupts@ =~= interrupt_ops(self@));
        ops.append(&mut interrupts);
        let mut rest: Vec<RegOp> = Vec::new();
        rest.push(self.set_time());
        rest.push(RegOp::Modify { reg: Register::RtcCr, mask: CR_WUTE, value: CR_WUTE });
        rest.push(RegOp::Modify { reg: Register::RtcIsr, mask: ISR_WUTF, value: 0 });
        assert(rest@ =~= run_ops(self@.time));
        ops.append(&mut rest);
        let mut lock: Vec<RegOp> = self.rtc.write_protection(Protection::Enable);
        ops.append(&mut lock);
        ops.push(RegOp::WaitWhile { reg: Register::RtcIsr, mask: ISR_WUTWF, value: ISR_WUTWF });
        assert(ops@ =~= enable_ops(self@));
        ops
    }

    /// Writing the chosen wakeup clock division, under unlocked initialization mode.
    fn set_wutsel(&self) -> (ops: Vec<RegOp>)
        ensures
            ops@ == wutsel_ops(unlock_keys(), self@.sel),
    {
        let mut body: Vec<RegOp> = Vec::new();
        body.push(RegOp::Modify { reg: Register::RtcCr, mask: CR_WUCKSEL, value: self.sel as u32 });
        assert(body@ =~= seq![RegOp::Modify { reg: Register::RtcCr, mask: CR_WUCKSEL, value: self@.sel as u32 }]);
        assert(skips_within(body@));
        self.rtc.modify(body)
    }

    /// The write of the counter reload value.
    fn set_time(&self) -> (op: RegOp)
        ensures
            op == counter_op(self@.time),
    {
        RegOp::Modify { reg: Register::RtcWutr, mask: WUTR_WUT, value: self.time as u32 }
    }

    /// Turning the wakeup interrupt on and writing the output selection and polarity.
    fn enable_interrupts(&self) -> (ops: Vec<RegOp>)
        requires
            self@.en_interrupt,
        ensures
            ops@ == interrupt_ops(self@),
    {
        let mut ops: Vec<RegOp> = Vec::new();
        ops.push(RegOp::Modify { reg: Register::RtcCr, mask: CR_WUTIE, value: CR_WUTIE });
        let osel: u8 = u8::from(self.interrupt.output_selection());
        let pol: bool = bool::from(self.interrupt.polarity());
        let pol_bit: u32 = if pol {
            CR_POL
        } else {
            0u32
        };
        ops.push(
            RegOp::Modify {
                reg: Register::RtcCr,
                mask: CR_OSEL | CR_POL,
                value: (((osel as u32) & 3) << 21) | pol_bit,
            },
        );
        assert(ops@ =~= interrupt_ops(self@));
        ops
    }
}


/// A write of RTC_CR while the backup domain is open and the RTC unlocked, that changes the
/// wakeup clock selection only where the timer may be configured: RTC_CR takes the value
/// and RTC_ISR.WUTWF follows its WUTE bit, the rest of RTC_ISR staying.
proof fn lemma_cr_write(r: spec_fn(Register) -> u32, v: u32)
    requires
        backup_writable(r),
        rtc_unlocked(r),
        wakeup_configurable(r) || v & CR_WUCKSEL == r(Register::RtcCr) & CR_WUCKSEL,
    ensures
        hw_write(r, Register::RtcCr, v) == update(
            update(r, Register::RtcCr, v),
            Register::RtcIsr,
            isr_value(r(Register::RtcIsr), r(Register::RtcIsr), true, v),
        ),
{
    let old = r(Register::RtcCr);
    if !wakeup_configurable(r) {
        assert((v & !7u32) | (old & 7u32) == v) by (bit_vector)
            requires
                v & 7u32 == old & 7u32,
        ;
    }
}

/// After the program that enables the wakeup timer, run with the backup domain open and
/// the RTC flags consistent (as after `start_clock`): the program ends, also when the timer
/// was already running; the timer runs (WUTE set) with the chosen clock division in
/// WUCKSEL, RTC_WUTR holds the counter, the wakeup interrupt is on exactly when it was asked
/// for, with the chosen output selection and polarity, the wakeup flag is clear, the RTC is
/// out of initialization mode with consistent flags, and write protection is back on.
pub proof fn lemma_enable_result(w: WakeupSettings, regs: spec_fn(Register) -> u32)
    requires
        backup_writable(regs),
        rtc_consistent(regs),
    ensures
        run(enable_ops(w), regs) is Some,
        ({
            let after = run(enable_ops(w), regs).unwrap();
            &&& after(Register::RtcCr) & CR_WUTE == CR_WUTE
            &&& after(Register::RtcCr) & CR_WUCKSEL == (w.sel as u32) & CR_WUCKSEL
            &&& after(Register::RtcCr) & CR_WUTIE == (if w.en_interrupt {
                CR_WUTIE
            } else {
                0
            })
            &&& w.en_interrupt ==> after(Register::RtcCr) & (CR_OSEL | CR_POL) == output_fields(
                w.interrupt,
            )
            &&& after(Register::RtcWutr) & WUTR_WUT == w.time
            &&& after(Register::RtcIsr) & ISR_WUTF == 0
            &&& after(Register::RtcIsr) & ISR_INIT == 0
            &&& rtc_consistent(after)
            &&& after(Register::RtcWpr) == WPR_LOCKED
            &&& !w.en_interrupt ==> after(Register::RtcCr) & (CR_OSEL | CR_POL) == regs(
                Register::RtcCr,
            ) & (CR_OSEL | CR_POL)
            &&& after(Register::RtcCr) & !(CR_WUTE | CR_WUCKSEL | CR_WUTIE | CR_OSEL | CR_POL)
                == regs(Register::RtcCr) & !(CR_WUTE | CR_WUCKSEL | CR_WUTIE | CR_OSEL | CR_POL)
            &&& after(Register::PwrCr) == regs(Register::PwrCr)
            &&& backup_writable(after)
            &&& after(Register::RtcTr) == regs(Register::RtcTr)
            &&& after(Register::RtcDr) == regs(Register::RtcDr)
            &&& after(Register::RtcPrer) == regs(Register::RtcPrer)
        }),
{
    let key = hardware_key();
    let sel = w.sel as u32;
    let f = output_fields(w.interrupt);
    let u = unlock_ops(key);
    let st = stop_ops();
    let body = seq![RegOp::Modify { reg: Register::RtcCr, mask: CR_WUCKSEL, value: sel }];
    let g = wutsel_ops(key, w.sel);
    let i = interrupt_ops(w);
    let r = run_ops(w.time);
    let l = lock_ops();
    let t = settle_ops();
    lemma_register_constants();
    assert(CR_WUTIE & CR_WUCKSEL == 0 && (CR_OSEL | CR_POL) & CR_WUCKSEL == 0 && CR_WUTE
        & CR_WUCKSEL == 0 && CR_WUTE & CR_WUTIE == 0 && CR_WUTE & (CR_OSEL | CR_POL) == 0 && (CR_OSEL
        | CR_POL) & CR_WUTIE == 0 && CR_WUTE & (CR_OSEL | CR_POL) == 0) by (bit_vector);
    // unlocking
    lemma_unlock(regs);
    let r1 = update(regs, Register::RtcWpr, WPR_UNLOCKED);
    // stopping the timer
    let c0 = regs(Register::RtcCr);
    let c1 = modified(c0, CR_WUTE, 0);
    assert(c1 & 7 == c0 & 7 && c1 & 0x400 == 0) by (bit_vector)
        requires
            c1 == (c0 & !0x400u32) | (0u32 & 0x400u32),
    ;
    lemma_cr_write(r1, c1);
    let r2 = hw_write(r1, Register::RtcCr, c1);
    lemma_isr_value(r1(Register::RtcIsr), r1(Register::RtcIsr), true, c1);
    lemma_run_two(st[0], st[1], r1);
    assert(st == seq![st[0], st[1]]);
    assert(run(st, r1) == Some(r2));
    // the clock division, under initialization mode
    assert(rtc_consistent(r2));
    assert(skips_within(body));
    lemma_guarded(body, r2);
    let gs = guard_start(r2);
    let c2 = modified(gs(Register::RtcCr), CR_WUCKSEL, sel);
    lemma_cr_write(gs, c2);
    let b = hw_write(gs, Register::RtcCr, c2);
    lemma_isr_value(gs(Register::RtcIsr), gs(Register::RtcIsr), true, c2);
    lemma_run_one(body[0], gs);
    assert(body == seq![body[0]]);
    assert(gs(Register::RtcCr) == c1);
    assert(c2 & 0x400 == 0 && c2 & 7 == sel & 7) by (bit_vector)
        requires
            c2 == (c1 & !7u32) | (sel & 7u32),
            c1 & 0x400 == 0,
    ;
    let r3 = update(exited(b), Register::RtcWpr, WPR_LOCKED);
    assert(run(g, r2) == Some(r3));
    lemma_exit(b);
    // unlocking again
    lemma_unlock(r3);
    let r4 = update(r3, Register::RtcWpr, WPR_UNLOCKED);
    assert(r4(Register::RtcCr) == c2);
    // the interrupt
    let r5;
    let c3;
    if w.en_interrupt {
        let ca = modified(c2, CR_WUTIE, CR_WUTIE);
        assert(ca & 7 == c2 & 7 && ca & 0x400 == 0) by (bit_vector)
            requires
                ca == (c2 & !0x4000u32) | (0x4000u32 & 0x4000u32),
                c2 & 0x400 == 0,
        ;
        lemma_cr_write(r4, ca);
        let ra = hw_write(r4, Register::RtcCr, ca);
        lemma_isr_value(r4(Register::RtcIsr), r4(Register::RtcIsr), true, ca);
        c3 = modified(ca, CR_OSEL | CR_POL, f);
        assert(c3 & 7 == ca & 7 && c3 & 0x400 == 0) by (bit_vector)
            requires
                c3 == (ca & !0x700000u32) | (f & 0x700000u32),
                ca & 0x400 == 0,
        ;
        lemma_cr_write(ra, c3);
        r5 = hw_write(ra, Register::RtcCr, c3);
        lemma_isr_value(ra(Register::RtcIsr), ra(Register::RtcIsr), true, c3);
        lemma_run_two(i[0], i[1], r4);
        assert(i == seq![i[0], i[1]]);
    } else {
        c3 = modified(c2, CR_WUTIE, 0);
        assert(c3 & 7 == c2 & 7 && c3 & 0x400 == 0) by (bit_vector)
            requires
                c3 == (c2 & !0x4000u32) | (0u32 & 0x4000u32),
                c2 & 0x400 == 0,
        ;
        lemma_cr_write(r4, c3);
        r5 = hw_write(r4, Register::RtcCr, c3);
        lemma_isr_value(r4(Register::RtcIsr), r4(Register::RtcIsr), true, c3);
        lemma_run_one(i[0], r4);
        assert(i == seq![i[0]]);
    }
    assert(run(i, r4) == Some(r5));
    assert(r5(Register::RtcCr) == c3);
    assert(wakeup_configurable(r5));
    // counter, start, flag
    let r6a = hw_write(r5, Register::RtcWutr, modified(r5(Register::RtcWutr), WUTR_WUT, w.time as u32));
    let c4 = modified(c3, CR_WUTE, CR_WUTE);
    lemma_cr_write(r6a, c4);
    let r6b = hw_write(r6a, Register::RtcCr, c4);
    lemma_isr_value(r6a(Register::RtcIsr), r6a(Register::RtcIsr), true, c4);
    let isr6 = r6b(Register::RtcIsr);
    let r6 = hw_write(r6b, Register::RtcIsr, modified(isr6, ISR_WUTF, 0));
    lemma_isr_value(isr6, modified(isr6, ISR_WUTF, 0), true, c4);
    assert(c4 & 0x400 == 0x400) by (bit_vector)
        requires
            c4 == (c3 & !0x400u32) | (0x400u32 & 0x400u32),
    ;
    let v6 = modified(isr6, ISR_WUTF, 0);
    let z = isr_value(isr6, v6, true, c4);
    assert(v6 & 0x80 == isr6 & 0x80 && z & 0x400 == 0) by (bit_vector)
        requires
            v6 == (isr6 & !0x400u32) | (0u32 & 0x400u32),
            z & 0x3f00 == isr6 & v6 & 0x3f00,
    ;
    lemma_run_three(r[0], r[1], r[2], r5);
    assert(r == seq![r[0], r[1], r[2]]);
    assert(run(r, r5) == Some(r6));
    // locking and waiting for the timer
    lemma_lock(r6);
    let r7 = update(r6, Register::RtcWpr, WPR_LOCKED);
    lemma_run_one(t[0], r7);
    assert(t == seq![t[0]]);
    assert(run(t, r7) == Some(r7));
    // putting the parts together
    lemma_guarded_skips(key, body);
    crate::effects::lemma_guard_skips(key);
    assert(straight(st) && straight(i) && straight(r) && straight(t));
    let x1 = u + st;
    let x2 = x1 + g;
    let x3 = x2 + u;
    let x4 = x3 + i;
    let x5 = x4 + r;
    let x6 = x5 + l;
    lemma_skips_within_append(u, st);
    lemma_skips_within_append(x1, g);
    lemma_skips_within_append(x2, u);
    lemma_skips_within_append(x3, i);
    lemma_skips_within_append(x4, r);
    lemma_skips_within_append(x5, l);
    lemma_run_append(u, st, regs);
    lemma_run_append(x1, g, regs);
    lemma_run_append(x2, u, regs);
    lemma_run_append(x3, i, regs);
    lemma_run_append(x4, r, regs);
    lemma_run_append(x5, l, regs);
    lemma_run_append(x6, t, regs);
    assert(enable_ops(w) == x6 + t);
    // the bits of RTC_CR, RTC_WUTR and RTC_ISR at the end
    let tt: u32 = w.time as u32;
    let wutr5 = r5(Register::RtcWutr);
    assert(modified(wutr5, 0xffff, tt) & 0xffff == tt) by (bit_vector)
        requires
            tt < 65536,
    ;
    assert(c4 & 7 == sel & 7) by (bit_vector)
        requires
            c4 == (c3 & !0x400u32) | (0x400u32 & 0x400u32),
            c3 & 7 == sel & 7,
    ;
    if w.en_interrupt {
        let ca = modified(c2, CR_WUTIE, CR_WUTIE);
        assert(c4 & 0x4000 != 0 && c4 & 0x4000 == 0x4000 && c4 & 0x700000 == f & 0x700000 && c4
            & !0x704407u32 == c0 & !0x704407u32) by (bit_vector)
            requires
                c4 == (c3 & !0x400u32) | (0x400u32 & 0x400u32),
                c3 == (ca & !0x700000u32) | (f & 0x700000u32),
                ca == (c2 & !0x4000u32) | (0x4000u32 & 0x4000u32),
                c2 == (c1 & !7u32) | (sel & 7u32),
                c1 == (c0 & !0x400u32) | (0u32 & 0x400u32),
        ;
        let o = osel_bits(w.interrupt.0) as u32;
        assert(((((o & 3) << 21) | 0x100000u32) & 0x700000u32) == (((o & 3) << 21) | 0x100000u32))
            by (bit_vector);
        assert(((((o & 3) << 21) | 0u32) & 0x700000u32) == (((o & 3) << 21) | 0u32)) by (bit_vector);
    } else {
        assert(c4 & 0x4000 == 0 && c4 & 0x700000 == c0 & 0x700000 && c4 & !0x704407u32 == c0
            & !0x704407u32) by (bit_vector)
            requires
                c4 == (c3 & !0x400u32) | (0x400u32 & 0x400u32),
                c3 == (c2 & !0x4000u32) | (0u32 & 0x4000u32),
                c2 == (c1 & !7u32) | (sel & 7u32),
                c1 == (c0 & !0x400u32) | (0u32 & 0x400u32),
        ;
    }
}

/// The enable program can be run again to reconfigure a running timer: after a first
/// enable, a second one with other settings ends too, and leaves the timer running with the
/// second settings' counter and clock division.
pub proof fn lemma_enable_again(w1: WakeupSettings, w2: WakeupSettings, regs: spec_fn(Register) -> u32)
    requires
        backup_writable(regs),
        rtc_consistent(regs),
    ensures
        run(enable_ops(w1), regs) is Some,
        run(enable_ops(w2), run(enable_ops(w1), regs).unwrap()) is Some,
        ({
            let after = run(enable_ops(w2), run(enable_ops(w1), regs).unwrap()).unwrap();
            &&& after(Register::RtcCr) & CR_WUTE == CR_WUTE
            &&& after(Register::RtcCr) & CR_WUCKSEL == (w2.sel as u32) & CR_WUCKSEL
            &&& after(Register::RtcWutr) & WUTR_WUT == w2.time
            &&& after(Register::RtcWpr) == WPR_LOCKED
        }),
{
    lemma_enable_result(w1, regs);
    lemma_enable_result(w2, run(enable_ops(w1), regs).unwrap());
}

} // verus!
