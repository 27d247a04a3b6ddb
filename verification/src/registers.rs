//! Bit layout of the registers that the driver touches (STM32F303, reference manual RM0316).
//! A field of `width` bits at `offset` is written as the peripheral access crate's field
//! writers do: the value is cut to the field's width and put in place of the old bits.
use vstd::prelude::*;
use crate::datetime::{Bcd, BcdDate, BcdTime};
use crate::program::modified;

verus! {

// RTC_TR: hour tens (2 bits at 20), hour units (4 at 16), minute tens (3 at 12),
// minute units (4 at 8), second tens (3 at 4), second units (4 at 0).
/// The bits of RTC_TR that hold the time.
pub const TR_TIME_MASK: u32 = 0x003f_7f7f;

// RTC_DR: year tens (4 bits at 20), year units (4 at 16), month tens (1 at 12),
// month units (4 at 8), day tens (2 at 4), day units (4 at 0).
/// The bits of RTC_DR that hold the date (the week day is left out).
pub const DR_DATE_MASK: u32 = 0x00ff_1f3f;

// RTC_PRER: asynchronous prescaler (7 bits at 16), synchronous prescaler (15 bits at 0).
/// The bits of RTC_PRER that hold both prescalers.
pub const PRER_MASK: u32 = 0x007f_7fff;

/// RTC_CR: wakeup clock selection, 3 bits at 0.
pub const CR_WUCKSEL: u32 = 0x7;
/// RTC_CR: hour format, bit 6 (set: AM/PM).
pub const CR_FMT: u32 = 0x40;
/// RTC_CR: wakeup timer enable, bit 10.
pub const CR_WUTE: u32 = 0x400;
/// RTC_CR: wakeup timer interrupt enable, bit 14.
pub const CR_WUTIE: u32 = 0x4000;
/// RTC_CR: output polarity, bit 20.
pub const CR_POL: u32 = 0x100000;
/// RTC_CR: output selection, 2 bits at 21.
pub const CR_OSEL: u32 = 0x600000;

/// RTC_ISR: wakeup timer write flag, bit 2.
pub const ISR_WUTWF: u32 = 0x4;
/// RTC_ISR: initialization flag, bit 6.
pub const ISR_INITF: u32 = 0x40;
/// RTC_ISR: initialization mode, bit 7.
pub const ISR_INIT: u32 = 0x80;
/// RTC_ISR: wakeup timer flag, bit 10.
pub const ISR_WUTF: u32 = 0x400;

/// RTC_ISR: the flags of bits 8 to 13, cleared by writing 0.
pub const ISR_FLAGS: u32 = 0x3f00;
/// RTC_ISR: the bits that writes or other registers drive (flags, INIT, INITF, WUTWF).
pub const ISR_DRIVEN: u32 = 0x3fc4;

/// Reset value of RTC_TR (00:00:00).
pub const TR_RESET: u32 = 0;
/// Reset value of RTC_DR (Monday 1 January 2000).
pub const DR_RESET: u32 = 0x2101;
/// Reset value of RTC_CR.
pub const CR_RESET: u32 = 0;
/// Reset value of RTC_ISR (the write flags set).
pub const ISR_RESET: u32 = 0x7;
/// Reset value of RTC_PRER (asynchronous 127, synchronous 255).
pub const PRER_RESET: u32 = 0x007f_00ff;
/// Reset value of RTC_WUTR.
pub const WUTR_RESET: u32 = 0xffff;

/// RTC_WUTR: wakeup auto-reload value, 16 bits at 0.
pub const WUTR_WUT: u32 = 0xffff;

/// The key written to RTC_WPR to turn write protection back on.
pub const WPR_LOCK_KEY: u32 = 0xc0;

/// RCC_CSR: LSI oscillator enable, bit 0.
pub const CSR_LSION: u32 = 1;
/// RCC_CSR: LSI oscillator ready, bit 1.
pub const CSR_LSIRDY: u32 = 0x2;

/// RCC_BDCR: LSE oscillator enable, bit 0.
pub const BDCR_LSEON: u32 = 1;
/// RCC_BDCR: LSE oscillator ready, bit 1.
pub const BDCR_LSERDY: u32 = 0x2;
/// RCC_BDCR: LSE oscillator bypass, bit 2.
pub const BDCR_LSEBYP: u32 = 0x4;
/// RCC_BDCR: RTC clock source selection, 2 bits at 8.
pub const BDCR_RTCSEL: u32 = 0x300;
/// RCC_BDCR: RTC clock source LSE.
pub const RTCSEL_LSE: u32 = 0x100;
/// RCC_BDCR: RTC clock source LSI.
pub const RTCSEL_LSI: u32 = 0x200;
/// RCC_BDCR: RTC clock source HSE divided by a prescaler.
pub const RTCSEL_HSE: u32 = 0x300;
/// RCC_BDCR: RTC clock enable, bit 15.
pub const BDCR_RTCEN: u32 = 0x8000;
/// RCC_BDCR: backup domain software reset, bit 16.
pub const BDCR_BDRST: u32 = 0x10000;

/// RCC_CR: HSE oscillator enable, bit 16.
pub const RCC_CR_HSEON: u32 = 0x10000;
/// RCC_CR: HSE oscillator ready, bit 17.
pub const RCC_CR_HSERDY: u32 = 0x20000;
/// RCC_CR: HSE oscillator bypass, bit 18.
pub const RCC_CR_HSEBYP: u32 = 0x40000;

/// RCC_APB1ENR: power interface clock enable, bit 28.
pub const APB1ENR_PWREN: u32 = 0x10000000;

/// PWR_CR: disable backup domain write protection, bit 8.
pub const PWR_CR_DBP: u32 = 0x100;

/// EXTI line 20, which carries the RTC wakeup event (bit 20 of IMR1, RTSR1 and PR1).
pub const EXTI_LINE20: u32 = 0x100000;

/// The RTC_TR bits for a time given as three digit pairs (hour, minutes, seconds).
pub open spec fn time_fields(h: (u8, u8), m: (u8, u8), s: (u8, u8)) -> u32 {
    (((h.0 as u32) & 3) << 20) | (((h.1 as u32) & 0xf) << 16) | (((m.0 as u32) & 7) << 12) | (((
    m.1 as u32) & 0xf) << 8) | (((s.0 as u32) & 7) << 4) | ((s.1 as u32) & 0xf)
}

/// The three digit pairs (hour, minutes, seconds) that RTC_TR holds.
pub open spec fn time_digits(tr: u32) -> ((u8, u8), (u8, u8), (u8, u8)) {
    (
        (((tr >> 20) & 3) as u8, ((tr >> 16) & 0xf) as u8),
        (((tr >> 12) & 7) as u8, ((tr >> 8) & 0xf) as u8),
        (((tr >> 4) & 7) as u8, (tr & 0xf) as u8),
    )
}

/// The RTC_DR bits for a date given as three digit pairs (day, month, year); the month
/// tens bit is set when the month's tens digit is not zero.
pub open spec fn date_fields(d: (u8, u8), m: (u8, u8), y: (u8, u8)) -> u32 {
    (((y.0 as u32) & 0xf) << 20) | (((y.1 as u32) & 0xf) << 16) | (if m.0 > 0 {
        0x1000u32
    } else {
        0u32
    }) | (((m.1 as u32) & 0xf) << 8) | (((d.0 as u32) & 3) << 4) | ((d.1 as u32) & 0xf)
}

/// The three digit pairs (day, month, year) that RTC_DR holds.
pub open spec fn date_digits(dr: u32) -> ((u8, u8), (u8, u8), (u8, u8)) {
    (
        (((dr >> 4) & 3) as u8, (dr & 0xf) as u8),
        (((dr >> 12) & 1) as u8, ((dr >> 8) & 0xf) as u8),
        (((dr >> 20) & 0xf) as u8, ((dr >> 16) & 0xf) as u8),
    )
}

/// The RTC_PRER bits for the asynchronous prescaler `a` and the synchronous prescaler `s`.
pub open spec fn prescaler_fields(a: u8, s: u16) -> u32 {
    (((a as u32) & 0x7f) << 16) | ((s as u32) & 0x7fff)
}

/// The asynchronous and synchronous prescalers that RTC_PRER holds.
pub open spec fn prescaler_digits(prer: u32) -> (u8, u16) {
    (((prer >> 16) & 0x7f) as u8, (prer & 0x7fff) as u16)
}

/// The digit pairs of a time held as decimal digits.
pub open(crate) spec fn time_pairs(t: BcdTime) -> ((u8, u8), (u8, u8), (u8, u8)) {
    (t.parts().0.digits(), t.parts().1.digits(), t.parts().2.digits())
}

/// The digit pairs of a date held as decimal digits.
pub open(crate) spec fn date_pairs(d: BcdDate) -> ((u8, u8), (u8, u8), (u8, u8)) {
    (d.parts().0.digits(), d.parts().1.digits(), d.parts().2.digits())
}

/// The RTC_TR bits that hold `time`.
pub fn encode_time(time: &BcdTime) -> (bits: u32)
    ensures
        bits == time_fields(time_pairs(*time).0, time_pairs(*time).1, time_pairs(*time).2),
        bits & !TR_TIME_MASK == 0,
{
    let bits: u32 = (((time.hour.tens as u32) & 3) << 20) | (((time.hour.units as u32) & 0xf)
        << 16) | (((time.minutes.tens as u32) & 7) << 12) | (((time.minutes.units as u32) & 0xf)
        << 8) | (((time.seconds.tens as u32) & 7) << 4) | ((time.seconds.units as u32) & 0xf);
    proof {
        lemma_time_fields_in_mask(time_pairs(*time).0, time_pairs(*time).1, time_pairs(*time).2);
    }
    bits
}

/// The time that RTC_TR holds, as decimal digits.
pub fn decode_time(tr: u32) -> (time: BcdTime)
    ensures
        time_pairs(time) == time_digits(tr),
        time.fits(),
{
    let ht: u8 = ((tr >> 20) & 3) as u8;
    let hu: u8 = ((tr >> 16) & 0xf) as u8;
    let mnt: u8 = ((tr >> 12) & 7) as u8;
    let mnu: u8 = ((tr >> 8) & 0xf) as u8;
    let st: u8 = ((tr >> 4) & 7) as u8;
    let su: u8 = (tr & 0xf) as u8;
    proof {
        assert((tr >> 20) & 3 <= 3 && (tr >> 16) & 0xf <= 15 && (tr >> 12) & 7 <= 7 && (tr >> 8)
            & 0xf <= 15 && (tr >> 4) & 7 <= 7 && tr & 0xf <= 15) by (bit_vector);
    }
    BcdTime {
        hour: Bcd { tens: ht, units: hu },
        minutes: Bcd { tens: mnt, units: mnu },
        seconds: Bcd { tens: st, units: su },
    }
}

/// The RTC_DR bits that hold `date`.
pub fn encode_date(date: &BcdDate) -> (bits: u32)
    ensures
        bits == date_fields(date_pairs(*date).0, date_pairs(*date).1, date_pairs(*date).2),
        bits & !DR_DATE_MASK == 0,
{
    let mt: u32 = if date.m.tens > 0 {
        0x1000u32
    } else {
        0u32
    };
    let bits: u32 = (((date.y.tens as u32) & 0xf) << 20) | (((date.y.units as u32) & 0xf) << 16)
        | mt | (((date.m.units as u32) & 0xf) << 8) | (((date.d.tens as u32) & 3) << 4) | ((
    date.d.units as u32) & 0xf);
    proof {
        lemma_date_fields_in_mask(date_pairs(*date).0, date_pairs(*date).1, date_pairs(*date).2);
    }
    bits
}

/// The date that RTC_DR holds, as decimal digits; the month tens digit is the month tens bit.
pub fn decode_date(dr: u32) -> (date: BcdDate)
    ensures
        date_pairs(date) == date_digits(dr),
        date.fits(),
{
    let dt: u8 = ((dr >> 4) & 3) as u8;
    let du: u8 = (dr & 0xf) as u8;
    let mt: u8 = ((dr >> 12) & 1) as u8;
    let mu: u8 = ((dr >> 8) & 0xf) as u8;
    let yt: u8 = ((dr >> 20) & 0xf) as u8;
    let yu: u8 = ((dr >> 16) & 0xf) as u8;
    proof {
        assert((dr >> 4) & 3 <= 3 && dr & 0xf <= 15 && (dr >> 12) & 1 <= 1 && (dr >> 8) & 0xf <= 15
            && (dr >> 20) & 0xf <= 15 && (dr >> 16) & 0xf <= 15) by (bit_vector);
    }
    BcdDate { d: Bcd { tens: dt, units: du }, m: Bcd { tens: mt, units: mu }, y: Bcd { tens: yt, units: yu } }
}

/// The RTC_PRER bits that hold the prescalers `a` and `s`.
pub fn encode_prescalers(a: u8, s: u16) -> (bits: u32)
    ensures
        bits == prescaler_fields(a, s),
        bits & !PRER_MASK == 0,
{
    let bits: u32 = (((a as u32) & 0x7f) << 16) | ((s as u32) & 0x7fff);
    proof {
        let a32: u32 = a as u32;
        let s32: u32 = s as u32;
        assert(((((a32 & 0x7f) << 16) | (s32 & 0x7fff)) & !0x007f_7fffu32) == 0) by (bit_vector);
    }
    bits
}

/// The time bits of RTC_TR lie under the time mask.
proof fn lemma_time_fields_in_mask(h: (u8, u8), m: (u8, u8), s: (u8, u8))
    ensures
        time_fields(h, m, s) & !TR_TIME_MASK == 0,
{
    let (a, b, c, d, e, f) = (
        h.0 as u32,
        h.1 as u32,
        m.0 as u32,
        m.1 as u32,
        s.0 as u32,
        s.1 as u32,
    );
    assert(((((a & 3) << 20) | ((b & 0xf) << 16) | ((c & 7) << 12) | ((d & 0xf) << 8) | ((e & 7)
        << 4) | (f & 0xf)) & !0x003f_7f7fu32) == 0) by (bit_vector);
}

/// The date bits of RTC_DR lie under the date mask.
proof fn lemma_date_fields_in_mask(d: (u8, u8), m: (u8, u8), y: (u8, u8))
    ensures
        date_fields(d, m, y) & !DR_DATE_MASK == 0,
{
    let (a, b, c, e, f) = (y.0 as u32, y.1 as u32, m.1 as u32, d.0 as u32, d.1 as u32);
    let t: u32 = if m.0 > 0 {
        0x1000u32
    } else {
        0u32
    };
    assert(t == 0 || t == 0x1000);
    assert((t == 0 || t == 0x1000) ==> ((((a & 0xf) << 20) | ((b & 0xf) << 16) | t | ((c & 0xf)
        << 8) | ((e & 3) << 4) | (f & 0xf)) & !0x00ff_1f3fu32) == 0) by (bit_vector);
}

/// Writing the time bits into RTC_TR, whatever it held, and reading them back gives the
/// digits that were written, when each digit fits its field: hour tens below 4, minute and
/// second tens below 8, units below 16.
pub proof fn lemma_time_read_back(old: u32, h: (u8, u8), m: (u8, u8), s: (u8, u8))
    requires
        h.0 < 4,
        h.1 < 16,
        m.0 < 8,
        m.1 < 16,
        s.0 < 8,
        s.1 < 16,
    ensures
        time_digits(modified(old, TR_TIME_MASK, time_fields(h, m, s))) == (h, m, s),
{
    let (a, b, c, d, e, f) = (
        h.0 as u32,
        h.1 as u32,
        m.0 as u32,
        m.1 as u32,
        s.0 as u32,
        s.1 as u32,
    );
    let v: u32 = ((a & 3) << 20) | ((b & 0xf) << 16) | ((c & 7) << 12) | ((d & 0xf) << 8) | ((e
        & 7) << 4) | (f & 0xf);
    let n: u32 = (old & !0x003f_7f7fu32) | (v & 0x003f_7f7fu32);
    assert(n == modified(old, TR_TIME_MASK, time_fields(h, m, s)));
    assert((n >> 20) & 3 == a && (n >> 16) & 0xf == b && (n >> 12) & 7 == c && (n >> 8) & 0xf == d
        && (n >> 4) & 7 == e && n & 0xf == f) by (bit_vector)
        requires
            a < 4 && b < 16 && c < 8 && d < 16 && e < 8 && f < 16,
            v == ((a & 3) << 20) | ((b & 0xf) << 16) | ((c & 7) << 12) | ((d & 0xf) << 8) | ((e
                & 7) << 4) | (f & 0xf),
            n == (old & !0x003f_7f7fu32) | (v & 0x003f_7f7fu32),
    ;
}

/// Writing the date bits into RTC_DR, whatever it held, and reading them back gives the
/// digits that were written, when each digit fits its field: day tens below 4, month tens
/// below 2, all others below 16.
pub proof fn lemma_date_read_back(old: u32, d: (u8, u8), m: (u8, u8), y: (u8, u8))
    requires
        d.0 < 4,
        d.1 < 16,
        m.0 < 2,
        m.1 < 16,
        y.0 < 16,
        y.1 < 16,
    ensures
        date_digits(modified(old, DR_DATE_MASK, date_fields(d, m, y))) == (d, m, y),
{
    let (a, b, c, e, f) = (y.0 as u32, y.1 as u32, m.1 as u32, d.0 as u32, d.1 as u32);
    let g: u32 = m.0 as u32;
    let t: u32 = if m.0 > 0 {
        0x1000u32
    } else {
        0u32
    };
    assert(t == g * 0x1000);
    let v: u32 = ((a & 0xf) << 20) | ((b & 0xf) << 16) | t | ((c & 0xf) << 8) | ((e & 3) << 4) | (f
        & 0xf);
    let n: u32 = (old & !0x00ff_1f3fu32) | (v & 0x00ff_1f3fu32);
    assert(n == modified(old, DR_DATE_MASK, date_fields(d, m, y)));
    assert((a < 16 && b < 16 && c < 16 && e < 4 && f < 16 && g < 2 && t == g * 0x1000 && v == ((a
        & 0xf) << 20) | ((b & 0xf) << 16) | t | ((c & 0xf) << 8) | ((e & 3) << 4) | (f & 0xf) && n
        == (old & !0x00ff_1f3fu32) | (v & 0x00ff_1f3fu32)) ==> ((n >> 20) & 0xf == a && (n >> 16)
        & 0xf == b && (n >> 12) & 1 == g && (n >> 8) & 0xf == c && (n >> 4) & 3 == e && n & 0xf
        == f)) by (bit_vector);
}

/// Writing the prescaler bits into RTC_PRER, whatever it held, and reading them back gives
/// the prescalers cut to their fields: 7 bits for `a`, 15 bits for `s`.
pub proof fn lemma_prescaler_read_back(old: u32, a: u8, s: u16)
    ensures
        prescaler_digits(modified(old, PRER_MASK, prescaler_fields(a, s))) == (
            (a % 128) as u8,
            (s % 32768) as u16,
        ),
{
    let a32: u32 = a as u32;
    let s32: u32 = s as u32;
    let v: u32 = ((a32 & 0x7f) << 16) | (s32 & 0x7fff);
    let n: u32 = (old & !0x007f_7fffu32) | (v & 0x007f_7fffu32);
    assert(n == modified(old, PRER_MASK, prescaler_fields(a, s)));
    assert((a32 < 256 && s32 < 65536 && v == ((a32 & 0x7f) << 16) | (s32 & 0x7fff) && n == (old
        & !0x007f_7fffu32) | (v & 0x007f_7fffu32)) ==> ((n >> 16) & 0x7f == a32 % 128 && n
        & 0x7fff == s32 % 32768)) by (bit_vector);
}


} // verus!
