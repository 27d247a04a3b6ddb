//! Configuration of the real time clock and the register programs that set it up, read
//! and write it. The hardware access itself (running a program) is left to the caller.
use vstd::prelude::*;
use crate::datetime::{digits_of, seconds_of, stored_year, BcdDate, BcdTime, Date, Time, CENTURY};
use crate::program::{skips_within, RegOp, Register};
use crate::rtc_interrupt::{RtcInterruptOutputPolarity, RtcInterruptOutputSelection};
use crate::wakeup::{WakeupManager, WakeupRtcDivision, WakeupSettings};
use crate::registers::{
    date_digits, date_fields, prescaler_fields, time_digits, time_fields, APB1ENR_PWREN,
    BDCR_BDRST, BDCR_LSEBYP, BDCR_LSEON, BDCR_LSERDY, BDCR_RTCEN, BDCR_RTCSEL, CR_FMT,
    CSR_LSION, CSR_LSIRDY, DR_DATE_MASK, ISR_INIT, ISR_INITF, PRER_MASK, PWR_CR_DBP,
    RCC_CR_HSEBYP, RCC_CR_HSEON, RCC_CR_HSERDY, RTCSEL_HSE, RTCSEL_LSE, RTCSEL_LSI,
    TR_TIME_MASK, WPR_LOCK_KEY, encode_prescalers, encode_time, encode_date, decode_time,
    decode_date,
};

verus! {

/// The two steps of the initialization mode.
enum Init {
    Start,
    Stop,
}

/// Write protection of the RTC registers: on or off.
pub(crate) enum Protection {
    Enable,
    Disable,
}

/// Offers clock source options LSI, LSE and HSE. Two of this source can have bypass on,
/// by filling bool parameter
#[derive(Clone, Copy, Debug, PartialEq, Eq, Structural)]
pub enum ClockSource {
    /// Low Speed Internal clock source - it is built in microcontroller,
    /// so you sure that you have this one. But you have to know that this one is not that accurate
    /// like others.
    LSI,
    /// Low Speed External clock source - it is external clock source, very accurate.
    /// The bool argument turns the oscillator bypass on.
    LSE(bool),
    /// High Speed External clock source - it is external clock source, very accurate.
    /// The bool argument turns the oscillator bypass on.
    HSE(bool),
}

/// The asynchronous (`a`) and synchronous (`s`) prescalers of the RTC clock.
#[derive(Clone, Copy)]
struct Prediv {
    a: u8,
    s: u16,
}

/// Settings of the real time clock: the key that unlocks its registers, the clock source,
/// the prescalers, and whether the prescalers still follow the clock source.
///
/// It contains default (most typical clocks frequencies) for LSI, LSE and HSE:
/// - LSI - 40 kHz
/// - LSE - 32.768 kHz
/// - HSE - 12MHz
#[derive(Clone, Copy)]
pub struct Rtc {
    source: ClockSource,
    prediv: Prediv,
    default: bool,
}

/// What a clock's settings are, as plain values.
#[derive(Clone, Copy, Debug)]
pub struct RtcSettings {
    pub source: ClockSource,
    pub prediv_a: u8,
    pub prediv_s: u16,
    /// The prescalers follow the clock source (no prescalers were set by hand).
    pub default: bool,
}

impl View for Rtc {
    type V = RtcSettings;

    closed spec fn view(&self) -> RtcSettings {
        RtcSettings {
            source: self.source,
            prediv_a: self.prediv.a,
            prediv_s: self.prediv.s,
            default: self.default,
        }
    }
}

/// The first of the two keys that unlock the RTC registers.
pub const UNLOCK_KEY_FIRST: u8 = 0xca;

/// The second of the two keys that unlock the RTC registers.
pub const UNLOCK_KEY_SECOND: u8 = 0x53;

/// The two keys that unlock the RTC registers, in the order they are written. Every clock
/// uses them: they are fixed by the hardware.
pub open spec fn unlock_keys() -> (u8, u8) {
    (UNLOCK_KEY_FIRST, UNLOCK_KEY_SECOND)
}

/// The prescalers that suit each clock source, so that Frequency = (PREDIV_A + 1) *
/// (PREDIV_S + 1): (99, 399) for LSI at 40 kHz, (127, 255) for LSE at 32.768 kHz and
/// (199, 59999) for HSE at 12 MHz. The HSE pair does not fit the 7-bit and 15-bit fields of
/// RTC_PRER, which receives it cut to those widths.
pub open spec fn default_prescalers(source: ClockSource) -> (u8, u16) {
    match source {
        ClockSource::LSI => (99, 399),
        ClockSource::LSE(_) => (127, 255),
        ClockSource::HSE(_) => (199, 59999),
    }
}

/// The settings of a new clock.
pub open spec fn initial_settings() -> RtcSettings {
    RtcSettings {
        source: ClockSource::LSI,
        prediv_a: 99,
        prediv_s: 399,
        default: true,
    }
}

/// The settings after choosing `source`: the prescalers follow it unless they were set by hand.
pub open spec fn with_clock_source(s: RtcSettings, source: ClockSource) -> RtcSettings {
    if s.default {
        RtcSettings {
            source,
            prediv_a: default_prescalers(source).0,
            prediv_s: default_prescalers(source).1,
            ..s
        }
    } else {
        RtcSettings { source, ..s }
    }
}

/// The settings after setting the prescalers by hand.
pub open spec fn with_prescalers(s: RtcSettings, a: u8, p: u16) -> RtcSettings {
    RtcSettings { prediv_a: a, prediv_s: p, default: false, ..s }
}

/// Writes of the two unlock keys to RTC_WPR.
pub open spec fn unlock_ops(key: (u8, u8)) -> Seq<RegOp> {
    seq![
        RegOp::Write { reg: Register::RtcWpr, value: key.0 as u32 },
        RegOp::Write { reg: Register::RtcWpr, value: key.1 as u32 },
    ]
}

/// The write of the lock key to RTC_WPR.
pub open spec fn lock_ops() -> Seq<RegOp> {
    seq![RegOp::Write { reg: Register::RtcWpr, value: WPR_LOCK_KEY }]
}

/// If the RTC is not in initialization mode: enter it and wait until it may be written.
pub open spec fn enter_init_ops() -> Seq<RegOp> {
    seq![
        RegOp::SkipUnless { reg: Register::RtcIsr, mask: ISR_INIT, value: 0, count: 2 },
        RegOp::Modify { reg: Register::RtcIsr, mask: ISR_INIT, value: ISR_INIT },
        RegOp::WaitWhile { reg: Register::RtcIsr, mask: ISR_INITF, value: 0 },
    ]
}

/// If the RTC is in initialization mode: leave it and wait until it has left.
pub open spec fn exit_init_ops() -> Seq<RegOp> {
    seq![
        RegOp::SkipUnless { reg: Register::RtcIsr, mask: ISR_INIT, value: ISR_INIT, count: 2 },
        RegOp::Modify { reg: Register::RtcIsr, mask: ISR_INIT, value: 0 },
        RegOp::WaitWhile { reg: Register::RtcIsr, mask: ISR_INITF, value: ISR_INITF },
    ]
}

/// `body` run with write protection off and the RTC in initialization mode.
pub open spec fn guarded_ops(key: (u8, u8), body: Seq<RegOp>) -> Seq<RegOp> {
    unlock_ops(key) + enter_init_ops() + body + exit_init_ops() + lock_ops()
}

/// Turning the clock source on and waiting until it is ready.
pub open spec fn clock_source_ops(source: ClockSource) -> Seq<RegOp> {
    match source {
        ClockSource::LSI => seq![
            RegOp::Modify { reg: Register::RccCsr, mask: CSR_LSION, value: CSR_LSION },
            RegOp::WaitWhile { reg: Register::RccCsr, mask: CSR_LSIRDY, value: 0 },
        ],
        ClockSource::LSE(bypass) => seq![
            RegOp::Modify {
                reg: Register::RccBdcr,
                mask: BDCR_LSEON | BDCR_LSEBYP,
                value: if bypass {
                    BDCR_LSEON | BDCR_LSEBYP
                } else {
                    BDCR_LSEON
                },
            },
            RegOp::WaitWhile { reg: Register::RccBdcr, mask: BDCR_LSERDY, value: 0 },
        ],
        ClockSource::HSE(bypass) => seq![
            RegOp::Modify {
                reg: Register::RccCr,
                mask: RCC_CR_HSEON | RCC_CR_HSEBYP,
                value: if bypass {
                    RCC_CR_HSEON | RCC_CR_HSEBYP
                } else {
                    RCC_CR_HSEON
                },
            },
            RegOp::WaitWhile { reg: Register::RccCr, mask: RCC_CR_HSERDY, value: 0 },
        ],
    }
}

/// Turning the power interface clock on and opening the backup domain to writes.
pub open spec fn backup_domain_ops() -> Seq<RegOp> {
    seq![
        RegOp::Modify { reg: Register::RccApb1enr, mask: APB1ENR_PWREN, value: APB1ENR_PWREN },
        RegOp::Modify { reg: Register::PwrCr, mask: PWR_CR_DBP, value: PWR_CR_DBP },
        RegOp::WaitWhile { reg: Register::PwrCr, mask: PWR_CR_DBP, value: 0 },
    ]
}

/// The RCC_BDCR clock selection bits for a clock source.
pub open spec fn rtcsel_bits(source: ClockSource) -> u32 {
    match source {
        ClockSource::LSI => RTCSEL_LSI,
        ClockSource::LSE(_) => RTCSEL_LSE,
        ClockSource::HSE(_) => RTCSEL_HSE,
    }
}

/// Resetting the backup domain: setting RCC_BDCR.BDRST, then releasing it.
pub open spec fn domain_reset_ops() -> Seq<RegOp> {
    seq![
        RegOp::Modify { reg: Register::RccBdcr, mask: BDCR_BDRST, value: BDCR_BDRST },
        RegOp::Modify { reg: Register::RccBdcr, mask: BDCR_BDRST, value: 0 },
    ]
}

/// Selecting the clock source of the RTC and enabling the RTC clock, with BDRST kept clear.
pub open spec fn rtc_enable_ops(source: ClockSource) -> Seq<RegOp> {
    seq![
        RegOp::Modify {
            reg: Register::RccBdcr,
            mask: BDCR_RTCSEL | BDCR_RTCEN | BDCR_BDRST,
            value: rtcsel_bits(source) | BDCR_RTCEN,
        },
    ]
}

/// The write of the prescalers into RTC_PRER.
pub open spec fn prescaler_op(a: u8, s: u16) -> RegOp {
    RegOp::Modify { reg: Register::RtcPrer, mask: PRER_MASK, value: prescaler_fields(a, s) }
}

/// The write of a time into RTC_TR.
pub open spec fn time_op(time: Time) -> RegOp {
    RegOp::Modify {
        reg: Register::RtcTr,
        mask: TR_TIME_MASK,
        value: time_fields(digits_of(time.hour), digits_of(time.minute), digits_of(time.second)),
    }
}

/// The write of a date into RTC_DR; the year is first brought into 2000..=2154.
pub open spec fn date_op(date: Date) -> RegOp {
    RegOp::Modify {
        reg: Register::RtcDr,
        mask: DR_DATE_MASK,
        value: date_fields(
            digits_of(date.day),
            digits_of(date.month),
            digits_of((stored_year(date.year) - CENTURY) as u8),
        ),
    }
}

/// The frequency, in Hz, of each clock source: LSI at 40 kHz, LSE at 32.768 kHz, HSE at
/// 12 MHz.
pub open spec fn rtc_input_hz(source: ClockSource) -> int {
    match source {
        ClockSource::LSI => 40_000,
        ClockSource::LSE(_) => 32_768,
        ClockSource::HSE(_) => 12_000_000,
    }
}

/// The whole start-up program of a clock with settings `s`: the backup domain is opened
/// and reset first, then the clock source is started and selected, so that the reset does
/// not turn the source off again.
pub open spec fn start_clock_ops(s: RtcSettings) -> Seq<RegOp> {
    backup_domain_ops() + domain_reset_ops() + clock_source_ops(s.source) + rtc_enable_ops(s.source) + seq![
        RegOp::Modify { reg: Register::RtcCr, mask: CR_FMT, value: CR_FMT },
    ] + guarded_ops(unlock_keys(), seq![prescaler_op(s.prediv_a, s.prediv_s)])
}

/// The time that RTC_TR holds.
pub open spec fn time_of(tr: u32) -> Time {
    let (h, m, s) = time_digits(tr);
    Time {
        hour: (h.0 * 10 + h.1) as u8,
        minute: (m.0 * 10 + m.1) as u8,
        second: (s.0 * 10 + s.1) as u8,
    }
}

/// The date that RTC_DR holds; its year counts from 2000.
pub open spec fn date_of(dr: u32) -> Date {
    let (d, m, y) = date_digits(dr);
    Date {
        day: (d.0 * 10 + d.1) as u8,
        month: (m.0 * 10 + m.1) as u8,
        year: (y.0 * 10 + y.1 + CENTURY) as u32,
    }
}

/// A delay in progress, as the time of day it waits for.
#[derive(Clone, Copy, Debug, PartialEq, Eq, Structural)]
pub enum Delay {
    /// Nothing left to wait for.
    Finished,
    /// The end lies in the next day: wait until the clock has gone past midnight (it reads
    /// a time before `start`), then until `target` seconds after midnight.
    UntilRollover { start: u32, target: u32 },
    /// Wait until the clock reads `target` seconds after midnight or later.
    Until { target: u32 },
}

/// The longest delay in seconds; longer ones have no effect.
pub const MAX_DELAY: u32 = 86390;

/// Seconds in a day.
pub const DAY_SECONDS: u32 = 86400;

/// The delay that starts at `now` and lasts `seconds`.
pub open spec fn delay_spec(now: Time, seconds: u32) -> Delay {
    if seconds > MAX_DELAY {
        Delay::Finished
    } else if seconds_of(now) + seconds >= DAY_SECONDS {
        Delay::UntilRollover {
            start: seconds_of(now) as u32,
            target: (seconds_of(now) + seconds - DAY_SECONDS) as u32,
        }
    } else {
        Delay::Until { target: (seconds_of(now) + seconds) as u32 }
    }
}

impl Delay {
    /// The delay after the clock was read at `now`.
    pub open spec fn step_spec(self, now: Time) -> Delay {
        match self {
            Delay::Finished => Delay::Finished,
            Delay::UntilRollover { start, target } => if seconds_of(now) < start {
                Delay::Until { target }
            } else {
                self
            },
            Delay::Until { target } => if seconds_of(now) < target {
                self
            } else {
                Delay::Finished
            },
        }
    }

    /// The delay after the clock was read at `now`.
    pub fn step(&self, now: &Time) -> (next: Delay)
        ensures
            next == self.step_spec(*now),
    {
        match *self {
            Delay::Finished => Delay::Finished,
            Delay::UntilRollover { start, target } => {
                if now.to_seconds() < start {
                    Delay::Until { target }
                } else {
                    *self
                }
            },
            Delay::Until { target } => {
                if now.to_seconds() < target {
                    *self
                } else {
                    Delay::Finished
                }
            },
        }
    }

    /// Whether nothing is left to wait for.
    pub fn is_finished(&self) -> (finished: bool)
        ensures
            finished == (*self is Finished),
    {
        match self {
            Delay::Finished => true,
            _ => false,
        }
    }
}

impl Rtc {
    /// A clock on the LSI source with its default prescalers.
    pub fn new() -> (rtc: Self)
        ensures
            rtc@ == initial_settings(),
    {
        Self {
            source: ClockSource::LSI,
            prediv: Prediv { a: 99, s: 399 },
            default: true,
        }
    }

    /// Please select your own clock source, by picking it from ClockSource enum.
    /// Unless prescalers were set by hand, they become the default ones of the source.
    pub fn set_clock_source(&mut self, clock_source: ClockSource) -> (rtc: &Self)
        ensures
            final(self)@ == with_clock_source(old(self)@, clock_source),
            rtc@ == final(self)@,
    {
        self.source = clock_source;
        if !self.default {
            return self;
        }
        match self.source {
            ClockSource::LSI => {
                // Default prediv for 40kHz clock
                self.prediv = Prediv { a: 99, s: 399 };
            },
            ClockSource::LSE(_) => {
                // Default prediv for 32.768 kHz clock
                self.prediv = Prediv { a: 127, s: 255 };
            },
            ClockSource::HSE(_) => {
                // Default prediv for 12 MHz clock
                self.prediv = Prediv { a: 199, s: 59999 };
            },
        }
        self
    }

    /// If you want to set up your own precalers you have to define it here
    /// you have to remember that you have to do it following this equation:
    /// **Frequency = (PREDIV_A + 1) * (PREDIV_S + 1)**
    pub fn set_prescalers(&mut self, a: u8, s: u16) -> (rtc: &Self)
        ensures
            final(self)@ == with_prescalers(old(self)@, a, s),
            rtc@ == final(self)@,
    {
        self.default = false;
        self.prediv = Prediv { a, s };
        self
    }

    /// Writes that turn write protection of the RTC registers off (the two unlock keys)
    /// or on again (the lock key).
    pub(crate) fn write_protection(&self, protection: Protection) -> (ops: Vec<RegOp>)
        ensures
            ops@ == match protection {
                Protection::Disable => unlock_ops(unlock_keys()),
                Protection::Enable => lock_ops(),
            },
    {
        let mut ops: Vec<RegOp> = Vec::new();
        match protection {
            Protection::Disable => {
                ops.push(RegOp::Write { reg: Register::RtcWpr, value: UNLOCK_KEY_FIRST as u32 });
                ops.push(RegOp::Write { reg: Register::RtcWpr, value: UNLOCK_KEY_SECOND as u32 });
                assert(ops@ =~= unlock_ops(unlock_keys()));
            },
            Protection::Enable => {
                ops.push(RegOp::Write { reg: Register::RtcWpr, value: WPR_LOCK_KEY });
                assert(ops@ =~= lock_ops());
            },
        }
        ops
    }

    /// Entering (`Start`) or leaving (`Stop`) initialization mode, each only when the RTC
    /// is not already in that state, and waiting until the change has taken effect.
    fn initf(&self, init: Init) -> (ops: Vec<RegOp>)
        ensures
            ops@ == match init {
                Init::Start => enter_init_ops(),
                Init::Stop => exit_init_ops(),
            },
    {
        let mut ops: Vec<RegOp> = Vec::new();
        match init {
            Init::Start => {
                ops.push(RegOp::SkipUnless { reg: Register::RtcIsr, mask: ISR_INIT, value: 0, count: 2 });
                ops.push(RegOp::Modify { reg: Register::RtcIsr, mask: ISR_INIT, value: ISR_INIT });
                ops.push(RegOp::WaitWhile { reg: Register::RtcIsr, mask: ISR_INITF, value: 0 });
                assert(ops@ =~= enter_init_ops());
            },
            Init::Stop => {
                ops.push(
                    RegOp::SkipUnless {
                        reg: Register::RtcIsr,
                        mask: ISR_INIT,
                        value: ISR_INIT,
                        count: 2,
                    },
                );
                ops.push(RegOp::Modify { reg: Register::RtcIsr, mask: ISR_INIT, value: 0 });
                ops.push(RegOp::WaitWhile { reg: Register::RtcIsr, mask: ISR_INITF, value: ISR_INITF });
                assert(ops@ =~= exit_init_ops());
            },
        }
        ops
    }

    /// `body` with write protection off and the RTC in initialization mode around it:
    /// unlock, enter initialization, `body`, leave initialization, lock.
    pub(crate) fn modify(&self, body: Vec<RegOp>) -> (ops: Vec<RegOp>)
        requires
            skips_within(body@),
        ensures
            ops@ == guarded_ops(unlock_keys(), body@),
    {
        let mut body = body;
        let mut ops: Vec<RegOp> = self.write_protection(Protection::Disable);
        let mut enter: Vec<RegOp> = self.initf(Init::Start);
        let mut exit: Vec<RegOp> = self.initf(Init::Stop);
        let mut lock: Vec<RegOp> = self.write_protection(Protection::Enable);
        ops.append(&mut enter);
        ops.append(&mut body);
        ops.append(&mut exit);
        ops.append(&mut lock);
        ops
    }

    /// Turning the chosen clock source on and waiting until it is ready.
    fn enable_clock_source(&self) -> (ops: Vec<RegOp>)
        ensures
            ops@ == clock_source_ops(self@.source),
    {
        let mut ops: Vec<RegOp> = Vec::new();
        match self.source {
            ClockSource::LSI => {
                ops.push(RegOp::Modify { reg: Register::RccCsr, mask: CSR_LSION, value: CSR_LSION });
                ops.push(RegOp::WaitWhile { reg: Register::RccCsr, mask: CSR_LSIRDY, value: 0 });
            },
            ClockSource::LSE(bypass) => {
                let value: u32 = if bypass {
                    BDCR_LSEON | BDCR_LSEBYP
                } else {
                    BDCR_LSEON
                };
                ops.push(RegOp::Modify { reg: Register::RccBdcr, mask: BDCR_LSEON | BDCR_LSEBYP, value });
                ops.push(RegOp::WaitWhile { reg: Register::RccBdcr, mask: BDCR_LSERDY, value: 0 });
            },
            ClockSource::HSE(bypass) => {
                let value: u32 = if bypass {
                    RCC_CR_HSEON | RCC_CR_HSEBYP
                } else {
                    RCC_CR_HSEON
                };
                ops.push(RegOp::Modify { reg: Register::RccCr, mask: RCC_CR_HSEON | RCC_CR_HSEBYP, value });
                ops.push(RegOp::WaitWhile { reg: Register::RccCr, mask: RCC_CR_HSERDY, value: 0 });
            },
        }
        assert(ops@ =~= clock_source_ops(self@.source));
        ops
    }

    /// Turning the power interface clock on and opening the backup domain to writes.
    fn enable_bdr(&self) -> (ops: Vec<RegOp>)
        ensures
            ops@ == backup_domain_ops(),
    {
        let mut ops: Vec<RegOp> = Vec::new();
        ops.push(RegOp::Modify { reg: Register::RccApb1enr, mask: APB1ENR_PWREN, value: APB1ENR_PWREN });
        ops.push(RegOp::Modify { reg: Register::PwrCr, mask: PWR_CR_DBP, value: PWR_CR_DBP });
        ops.push(RegOp::WaitWhile { reg: Register::PwrCr, mask: PWR_CR_DBP, value: 0 });
        assert(ops@ =~= backup_domain_ops());
        ops
    }

    /// Resetting the backup domain: setting RCC_BDCR.BDRST, then releasing it.
    fn reset_backup_domain(&self) -> (ops: Vec<RegOp>)
        ensures
            ops@ == domain_reset_ops(),
    {
        let mut ops: Vec<RegOp> = Vec::new();
        ops.push(RegOp::Modify { reg: Register::RccBdcr, mask: BDCR_BDRST, value: BDCR_BDRST });
        ops.push(RegOp::Modify { reg: Register::RccBdcr, mask: BDCR_BDRST, value: 0 });
        assert(ops@ =~= domain_reset_ops());
        ops
    }

    /// Selecting the clock source and enabling the RTC clock.
    fn enable_rtc(&self) -> (ops: Vec<RegOp>)
        ensures
            ops@ == rtc_enable_ops(self@.source),
    {
        let mut ops: Vec<RegOp> = Vec::new();
        let rtcsel: u32 = match self.source {
            ClockSource::LSI => RTCSEL_LSI,
            ClockSource::LSE(_) => RTCSEL_LSE,
            ClockSource::HSE(_) => RTCSEL_HSE,
        };
        ops.push(
            RegOp::Modify {
                reg: Register::RccBdcr,
                mask: BDCR_RTCSEL | BDCR_RTCEN | BDCR_BDRST,
                value: rtcsel | BDCR_RTCEN,
            },
        );
        assert(ops@ =~= rtc_enable_ops(self@.source));
        ops
    }

    /// Writing the prescalers into RTC_PRER, under unlocked initialization mode.
    fn set_prediv(&self) -> (ops: Vec<RegOp>)
        ensures
            ops@ == guarded_ops(unlock_keys(), seq![prescaler_op(self@.prediv_a, self@.prediv_s)]),
    {
        let a: u8 = self.prediv.a;
        let s: u16 = self.prediv.s;
        let mut body: Vec<RegOp> = Vec::new();
        body.push(RegOp::Modify { reg: Register::RtcPrer, mask: PRER_MASK, value: encode_prescalers(a, s) });
        assert(body@ =~= seq![prescaler_op(self@.prediv_a, self@.prediv_s)]);
        assert(skips_within(body@));
        self.modify(body)
    }

    /// The program that starts the RTC clock: backup domain opened and reset, clock source
    /// started and selected, RTC enabled, hour format, prescalers.
    pub fn start_clock(&self) -> (ops: Vec<RegOp>)
        ensures
            ops@ == start_clock_ops(self@),
    {
        let mut ops: Vec<RegOp> = self.enable_bdr();
        let mut reset: Vec<RegOp> = self.reset_backup_domain();
        let mut source: Vec<RegOp> = self.enable_clock_source();
        let mut rtc: Vec<RegOp> = self.enable_rtc();
        let mut prediv: Vec<RegOp> = self.set_prediv();
        ops.append(&mut reset);
        ops.append(&mut source);
        ops.append(&mut rtc);
        ops.push(RegOp::Modify { reg: Register::RtcCr, mask: CR_FMT, value: CR_FMT });
        ops.append(&mut prediv);
        ops
    }

    /// The program that writes `time` into the clock.
    pub fn set_time(&self, time: Time) -> (ops: Vec<RegOp>)
        ensures
            ops@ == guarded_ops(unlock_keys(), seq![time_op(time)]),
    {
        let bcd_time: BcdTime = BcdTime::from(time);
        let mut body: Vec<RegOp> = Vec::new();
        body.push(RegOp::Modify { reg: Register::RtcTr, mask: TR_TIME_MASK, value: encode_time(&bcd_time) });
        assert(body@ =~= seq![time_op(time)]);
        assert(skips_within(body@));
        self.modify(body)
    }

    /// The program that writes `date` into the clock. It takes year between 2000 and 2154,
    /// if you will pick some other year it is going to reset it to 2000.
    pub fn set_date(&self, date: Date) -> (ops: Vec<RegOp>)
        ensures
            ops@ == guarded_ops(unlock_keys(), seq![date_op(date)]),
    {
        let bcd_date: BcdDate = BcdDate::from(date);
        let mut body: Vec<RegOp> = Vec::new();
        body.push(RegOp::Modify { reg: Register::RtcDr, mask: DR_DATE_MASK, value: encode_date(&bcd_date) });
        assert(body@ =~= seq![date_op(date)]);
        assert(skips_within(body@));
        self.modify(body)
    }

    /// The wakeup timer of this clock, with its default settings.
    pub fn get_wakeup_manager(&self) -> (manager: WakeupManager)
        ensures
            manager@ == (WakeupSettings {
                rtc: self@,
                sel: WakeupRtcDivision::RtcNoDiv.bits_spec(),
                time: 360,
                interrupt: (RtcInterruptOutputSelection::Disabled, RtcInterruptOutputPolarity::High),
                en_interrupt: false,
            }),
    {
        WakeupManager::new(self)
    }

    /// The time that the value `tr` of RTC_TR holds.
    pub fn time_from_register(tr: u32) -> (time: Time)
        ensures
            time == time_of(tr),
    {
        decode_time(tr).time()
    }

    /// The date that the value `dr` of RTC_DR holds.
    pub fn date_from_register(dr: u32) -> (date: Date)
        ensures
            date == date_of(dr),
    {
        decode_date(dr).date()
    }

    /// Whether a delay of `seconds` has any effect: delays longer than 86390 seconds have none.
    pub fn has_delay_effect(seconds: u32) -> (effect: bool)
        ensures
            effect == (seconds <= MAX_DELAY),
    {
        seconds <= MAX_DELAY
    }

    /// A delay of `seconds` that starts at the time of day `now`.
    ///
    /// **Note:** If seconds > 86390 = no delay effect
    pub fn delay(&self, now: &Time, seconds: u32) -> (delay: Delay)
        ensures
            delay == delay_spec(*now, seconds),
    {
        if seconds > MAX_DELAY {
            return Delay::Finished;
        }
        let start: u32 = now.to_seconds();
        let stop_sleep: u32 = start + seconds;
        if stop_sleep >= DAY_SECONDS {
            return Delay::UntilRollover { start, target: stop_sleep - DAY_SECONDS };
        }
        Delay::Until { target: stop_sleep }
    }
}


/// Prescalers set by hand stay when the clock source is changed afterwards; only the
/// source changes.
pub proof fn lemma_prescalers_survive_source_change(
    s: RtcSettings,
    a: u8,
    p: u16,
    source: ClockSource,
)
    ensures
        with_clock_source(with_prescalers(s, a, p), source) == (RtcSettings {
            source,
            ..with_prescalers(s, a, p)
        }),
        with_clock_source(with_prescalers(s, a, p), source).prediv_a == a,
        with_clock_source(with_prescalers(s, a, p), source).prediv_s == p,
{
}

/// While no prescalers were set by hand, choosing a clock source gives the prescalers that
/// suit it, whatever source was chosen before: their product (PREDIV_A + 1) *
/// (PREDIV_S + 1) is the frequency of the source. For LSI and LSE they fit the fields of
/// RTC_PRER; for HSE they do not (the asynchronous prescaler exceeds 7 bits).
pub proof fn lemma_source_sets_default_prescalers(s: RtcSettings, source: ClockSource)
    requires
        s.default,
    ensures
        with_clock_source(s, source).prediv_a == default_prescalers(source).0,
        with_clock_source(s, source).prediv_s == default_prescalers(source).1,
        with_clock_source(s, source).default,
        !(source is HSE) ==> with_clock_source(s, source).prediv_a < 128
            && with_clock_source(s, source).prediv_s < 32768,
        source is HSE ==> with_clock_source(s, source).prediv_a >= 128,
        (with_clock_source(s, source).prediv_a + 1) * (with_clock_source(s, source).prediv_s + 1)
            == rtc_input_hz(source),
{
    let t = with_clock_source(s, source);
    match source {
        ClockSource::LSI => {
            assert((99 + 1) * (399 + 1) == 40_000) by (nonlinear_arith);
        },
        ClockSource::LSE(_) => {
            assert((127 + 1) * (255 + 1) == 32_768) by (nonlinear_arith);
        },
        ClockSource::HSE(_) => {
            assert((199 + 1) * (59999 + 1) == 12_000_000) by (nonlinear_arith);
        },
    }
}

/// A delay whose end lies within the same day (before midnight) is over at the first
/// reading of the clock that is at least `seconds` after the start.
pub proof fn lemma_delay_same_day(now: Time, seconds: u32, later: Time)
    requires
        seconds <= MAX_DELAY,
        seconds_of(now) + seconds < DAY_SECONDS,
    ensures
        delay_spec(now, seconds).step_spec(later) is Finished <==> seconds_of(later)
            >= seconds_of(now) + seconds,
        !(delay_spec(now, seconds).step_spec(later) is Finished) ==> delay_spec(now, seconds).step_spec(
            later,
        ) == delay_spec(now, seconds),
{
}

/// A delay whose end lies at midnight or in the next day goes on until the clock has gone
/// past midnight (reads a time before the start); after that it is over at the first
/// reading that is at least `seconds` after the start, counted across midnight. A delay
/// that ends exactly at midnight is over at the first reading after midnight.
pub proof fn lemma_delay_next_day(now: Time, seconds: u32, before: Time, after: Time, later: Time)
    requires
        seconds <= MAX_DELAY,
        seconds_of(now) + seconds >= DAY_SECONDS,
        seconds_of(before) >= seconds_of(now),
        seconds_of(after) < seconds_of(now),
    ensures
        delay_spec(now, seconds).step_spec(before) == delay_spec(now, seconds),
        delay_spec(now, seconds).step_spec(after).step_spec(later) is Finished <==> seconds_of(
            later,
        ) + DAY_SECONDS >= seconds_of(now) + seconds,
{
}

/// Choosing a clock source keeps exactly the source asked for, bypass included, whether or
/// not the prescalers follow it; the prescalers change only while they were not set by
/// hand, and then become the source's defaults.
pub proof fn lemma_set_clock_source_keeps_source(s: RtcSettings, source: ClockSource)
    ensures
        with_clock_source(s, source).source == source,
        with_clock_source(s, source).default == s.default,
        !s.default ==> with_clock_source(s, source).prediv_a == s.prediv_a
            && with_clock_source(s, source).prediv_s == s.prediv_s,
        s.default ==> (with_clock_source(s, source).prediv_a, with_clock_source(s, source).prediv_s)
            == default_prescalers(source),
{
}

/// Setting the prescalers by hand leaves the clock source as it was, takes the prescalers
/// exactly as given, and stops them from following later changes of source.
pub proof fn lemma_set_prescalers_keeps_source(s: RtcSettings, a: u8, p: u16)
    ensures
        with_prescalers(s, a, p).source == s.source,
        with_prescalers(s, a, p).prediv_a == a,
        with_prescalers(s, a, p).prediv_s == p,
        !with_prescalers(s, a, p).default,
{
}

/// The start-up program turns on the oscillator of the chosen source: for LSE it sets
/// LSEON in RCC_BDCR and sets LSEBYP exactly when bypass was asked for, for HSE it sets
/// HSEON in RCC_CR and HSEBYP exactly when bypass was asked for, for LSI it sets LSION in
/// RCC_CSR; it then waits for that oscillator's ready flag, and selects the same source in
/// RTCSEL (01 LSE, 10 LSI, 11 HSE).
pub proof fn lemma_clock_source_ops_follow_source(source: ClockSource)
    ensures
        clock_source_ops(source).len() == 2,
        clock_source_ops(source)[0] is Modify,
        clock_source_ops(source)[1] is WaitWhile,
        clock_source_ops(source)[1]->WaitWhile_value == 0,
        rtc_enable_ops(source)[0] is Modify,
        (rtc_enable_ops(source)[0]->Modify_value >> 8) & 3 == match source {
            ClockSource::LSE(_) => 1u32,
            ClockSource::LSI => 2u32,
            ClockSource::HSE(_) => 3u32,
        },
        match source {
            ClockSource::LSE(bypass) => {
                let op = clock_source_ops(source)[0];
                &&& op->Modify_reg == Register::RccBdcr
                &&& op->Modify_mask == 0b101
                &&& op->Modify_value & 1 == 1
                &&& (op->Modify_value & 0b100 != 0) == bypass
                &&& clock_source_ops(source)[1]->WaitWhile_reg == Register::RccBdcr
                &&& clock_source_ops(source)[1]->WaitWhile_mask == 0b10
            },
            ClockSource::HSE(bypass) => {
                let op = clock_source_ops(source)[0];
                &&& op->Modify_reg == Register::RccCr
                &&& op->Modify_mask == 0x5_0000
                &&& op->Modify_value & 0x1_0000 != 0
                &&& (op->Modify_value & 0x4_0000 != 0) == bypass
                &&& clock_source_ops(source)[1]->WaitWhile_reg == Register::RccCr
                &&& clock_source_ops(source)[1]->WaitWhile_mask == 0x2_0000
            },
            ClockSource::LSI => {
                let op = clock_source_ops(source)[0];
                &&& op->Modify_reg == Register::RccCsr
                &&& op->Modify_mask == 1
                &&& op->Modify_value == 1
                &&& clock_source_ops(source)[1]->WaitWhile_reg == Register::RccCsr
                &&& clock_source_ops(source)[1]->WaitWhile_mask == 0b10
            },
        },
{
    assert(BDCR_LSEON | BDCR_LSEBYP == 5 && RCC_CR_HSEON | RCC_CR_HSEBYP == 0x50000 && (5u32 & 1
        == 1) && (5u32 & 4 != 0) && (1u32 & 1 == 1) && (1u32 & 4 == 0) && (0x50000u32 & 0x10000 != 0)
        && (0x50000u32 & 0x40000 != 0) && (0x10000u32 & 0x10000 != 0) && (0x10000u32 & 0x40000 == 0)
        && ((0x100u32 | 0x8000u32) >> 8) & 3 == 1 && ((0x200u32 | 0x8000u32) >> 8) & 3 == 2 && ((
    0x300u32 | 0x8000u32) >> 8) & 3 == 3) by (bit_vector);
}

/// A new clock runs on LSI with prescalers that follow the source, at their LSI defaults.
pub proof fn lemma_new_clock()
    ensures
        initial_settings().source == ClockSource::LSI,
        initial_settings().default,
        (initial_settings().prediv_a, initial_settings().prediv_s) == default_prescalers(
            ClockSource::LSI,
        ),
        (initial_settings().prediv_a + 1) * (initial_settings().prediv_s + 1) == 40_000,
{
    assert((99 + 1) * (399 + 1) == 40_000) by (nonlinear_arith);
}

} // verus!
