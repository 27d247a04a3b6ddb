use vstd::prelude::*;

verus! {

/// Reading and writing the time of a clock.
pub trait TimeAccess {
    fn time(&self) -> Time;

    fn set_time(&mut self, time: Time);
}

/// Reading and writing the date of a clock.
pub trait DateAccess {
    fn date(&self) -> Date;

    fn set_date(&mut self, date: Date);
}

/// A calendar date: day of the month, month and full year.
#[derive(Clone, Copy, Debug, PartialEq, Eq, Structural)]
pub struct Date {
    pub day: u8,
    pub month: u8,
    pub year: u32,
}

impl Date {
    /// Builds a date from its day, month and year.
    pub fn from(day: u8, month: u8, year: u32) -> (date: Date)
        ensures
            date == (Date { day, month, year }),
    {
        Date { day, month, year }
    }
}

/// A time of day: hour, minute and second.
#[derive(Clone, Copy, Debug, PartialEq, Eq, Structural)]
pub struct Time {
    pub hour: u8,
    pub minute: u8,
    pub second: u8,
}

/// Number of seconds that a time stands for, counted from midnight.
pub open spec fn seconds_of(time: Time) -> int {
    time.hour * 3600 + time.minute * 60 + time.second
}

/// Seconds are counted from midnight, which is second zero: one more hour adds 3600
/// seconds, one more minute 60 and one more second 1, whatever the other fields hold.
pub proof fn lemma_seconds_of_time(time: Time)
    ensures
        ({
            let midnight = Time { hour: 0, minute: 0, second: 0 };
            seconds_of(midnight) == 0
        }),
        time.hour < 255 ==> ({
            let later = Time { hour: (time.hour + 1) as u8, ..time };
            seconds_of(later) == seconds_of(time) + 3600
        }),
        time.minute < 255 ==> ({
            let later = Time { minute: (time.minute + 1) as u8, ..time };
            seconds_of(later) == seconds_of(time) + 60
        }),
        time.second < 255 ==> ({
            let later = Time { second: (time.second + 1) as u8, ..time };
            seconds_of(later) == seconds_of(time) + 1
        }),
        seconds_of(time) == time.hour * 3600 + time.minute * 60 + time.second,
{
}

impl Time {
    /// Builds a time from its hour, minute and second.
    pub fn from(hour: u8, minute: u8, second: u8) -> (time: Time)
        ensures
            time == (Time { hour, minute, second }),
    {
        Time { hour, minute, second }
    }

    /// Seconds elapsed since midnight at this time of day.
    pub fn to_seconds(&self) -> (seconds: u32)
        ensures
            seconds == seconds_of(*self),
    {
        (self.hour as u32) * 3600 + (self.minute as u32) * 60 + (self.second as u32)
    }
}

/// A single value held as two binary coded decimal digits.
pub struct Bcd<T> {
    pub(crate) tens: T,
    pub(crate) units: T,
}

/// The digits that a number in `0..=255` is written with: its tens and its units.
pub open spec fn digits_of(value: u8) -> (u8, u8) {
    ((value / 10) as u8, (value % 10) as u8)
}

impl Bcd<u8> {
    /// The number that the two digits stand for.
    pub open(crate) spec fn value(self) -> int {
        self.tens * 10 + self.units
    }

    /// The two digits, tens first.
    pub open(crate) spec fn digits(self) -> (u8, u8) {
        (self.tens, self.units)
    }

    /// Whether the number that the digits stand for fits in a byte.
    pub open(crate) spec fn fits(self) -> bool {
        self.value() <= 255
    }

    /// The number that the digits stand for.
    pub fn get(&self) -> (value: u8)
        requires
            self.fits(),
        ensures
            value == self.value(),
    {
        Self::bcd_decode(self)
    }

    /// The digits of `value`.
    pub fn set(value: u8) -> (bcd: Self)
        ensures
            bcd.digits() == digits_of(value),
            bcd.value() == value,
            bcd.fits(),
    {
        Self::bcd_encode(value)
    }
}

/// The hour, minutes and seconds of a time, each as two decimal digits.
pub struct BcdTime {
    pub(crate) hour: Bcd<u8>,
    pub(crate) minutes: Bcd<u8>,
    pub(crate) seconds: Bcd<u8>,
}

impl BcdTime {
    /// Whether each of the three numbers fits in a byte.
    pub open(crate) spec fn fits(self) -> bool {
        self.hour.fits() && self.minutes.fits() && self.seconds.fits()
    }

    /// The time that the digits stand for.
    pub open(crate) spec fn time_spec(self) -> Time {
        Time {
            hour: self.hour.value() as u8,
            minute: self.minutes.value() as u8,
            second: self.seconds.value() as u8,
        }
    }

    /// The digits of a time, one pair per field.
    pub open(crate) spec fn encode_spec(time: Time) -> (Bcd<u8>, Bcd<u8>, Bcd<u8>) {
        (
            Bcd { tens: digits_of(time.hour).0, units: digits_of(time.hour).1 },
            Bcd { tens: digits_of(time.minute).0, units: digits_of(time.minute).1 },
            Bcd { tens: digits_of(time.second).0, units: digits_of(time.second).1 },
        )
    }

    /// The three digit pairs, in the order hour, minutes, seconds.
    pub open(crate) spec fn parts(self) -> (Bcd<u8>, Bcd<u8>, Bcd<u8>) {
        (self.hour, self.minutes, self.seconds)
    }

    /// The time that the digits stand for.
    pub fn time(&self) -> (time: Time)
        requires
            self.fits(),
        ensures
            time == self.time_spec(),
    {
        Time { hour: self.hour.get(), minute: self.minutes.get(), second: self.seconds.get() }
    }
}

impl BcdConvert for BcdTime {

}

impl From<Time> for BcdTime {
    /// Writes each field of the time as two decimal digits.
    fn from(time: Time) -> (bcd: Self) {
        BcdTime {
            hour: Self::bcd_encode(time.hour),
            minutes: Self::bcd_encode(time.minute),
            seconds: Self::bcd_encode(time.second),
        }
    }
}

impl vstd::std_specs::convert::FromSpecImpl<Time> for BcdTime {
    open spec fn obeys_from_spec() -> bool {
        true
    }

    open(crate) spec fn from_spec(time: Time) -> BcdTime {
        BcdTime {
            hour: Self::encode_spec(time).0,
            minutes: Self::encode_spec(time).1,
            seconds: Self::encode_spec(time).2,
        }
    }
}

/// The first year that the clock holds; the register keeps the years after it.
pub const CENTURY: u32 = 2000;

/// The last year that a date may carry into the clock.
pub const LAST_YEAR: u32 = 2154;

/// The year that the clock is given for `year`: years before 2000 or after 2154 become 2000.
pub open spec fn stored_year(year: u32) -> u32 {
    if year < CENTURY || year > LAST_YEAR {
        CENTURY
    } else {
        year
    }
}

/// A year from 2000 to 2154 reaches the clock as it is; any other year becomes 2000.
pub proof fn lemma_stored_year(year: u32)
    ensures
        2000 <= year <= 2154 ==> stored_year(year) == year,
        year < 2000 || year > 2154 ==> stored_year(year) == 2000,
        2000 <= stored_year(year) <= 2154,
{
}

/// The day, month and year of a date, each as two decimal digits; the year counts from 2000.
pub struct BcdDate {
    pub(crate) d: Bcd<u8>,
    pub(crate) m: Bcd<u8>,
    pub(crate) y: Bcd<u8>,
}

impl BcdDate {
    /// Whether each of the three numbers fits in a byte.
    pub open(crate) spec fn fits(self) -> bool {
        self.d.fits() && self.m.fits() && self.y.fits()
    }

    /// The date that the digits stand for.
    pub open(crate) spec fn date_spec(self) -> Date {
        Date {
            day: self.d.value() as u8,
            month: self.m.value() as u8,
            year: (self.y.value() + CENTURY) as u32,
        }
    }

    /// The digits of a date, one pair per field; the year is first brought into 2000..=2154.
    pub open(crate) spec fn encode_spec(date: Date) -> (Bcd<u8>, Bcd<u8>, Bcd<u8>) {
        let y: u8 = (stored_year(date.year) - CENTURY) as u8;
        (
            Bcd { tens: digits_of(date.day).0, units: digits_of(date.day).1 },
            Bcd { tens: digits_of(date.month).0, units: digits_of(date.month).1 },
            Bcd { tens: digits_of(y).0, units: digits_of(y).1 },
        )
    }

    /// The three digit pairs, in the order day, month, year.
    pub open(crate) spec fn parts(self) -> (Bcd<u8>, Bcd<u8>, Bcd<u8>) {
        (self.d, self.m, self.y)
    }

    /// The date that the digits stand for; the year is counted from 2000.
    pub fn date(self) -> (date: Date)
        requires
            self.fits(),
        ensures
            date == self.date_spec(),
    {
        let century: u32 = CENTURY;
        Date { day: self.d.get(), month: self.m.get(), year: (self.y.get() as u32) + century }
    }
}

impl From<Date> for BcdDate {
    /// Writes each field of the date as two decimal digits. The clock holds the years
    /// 2000 to 2154 only: any other year is written as 2000.
    fn from(date: Date) -> (bcd: Self) {
        let year: u32 = if date.year < CENTURY || date.year > LAST_YEAR {
            CENTURY
        } else {
            date.year
        };
        Self {
            d: Self::bcd_encode(date.day),
            m: Self::bcd_encode(date.month),
            y: Self::bcd_encode((year - CENTURY) as u8),
        }
    }
}

impl vstd::std_specs::convert::FromSpecImpl<Date> for BcdDate {
    open spec fn obeys_from_spec() -> bool {
        true
    }

    open(crate) spec fn from_spec(date: Date) -> BcdDate {
        BcdDate {
            d: Self::encode_spec(date).0,
            m: Self::encode_spec(date).1,
            y: Self::encode_spec(date).2,
        }
    }
}

impl BcdConvert for BcdDate {

}

impl BcdConvert for Bcd<u8> {

}

/// Conversion between numbers and their two decimal digits.
trait BcdConvert {
    /// The number that two decimal digits stand for.
    fn bcd_decode(time: &Bcd<u8>) -> (value: u8)
        requires
            time.fits(),
        ensures
            value == time.value(),
    {
        if time.tens == 0 && time.units == 0 {
            return 0;
        }
        (time.tens * 10) + time.units
    }

    /// The two decimal digits of a number.
    fn bcd_encode(time: u8) -> (bcd: Bcd<u8>)
        ensures
            bcd.digits() == digits_of(time),
            bcd.value() == time,
            bcd.fits(),
    {
        if time == 0 {
            return Bcd { tens: 0, units: 0 };
        }
        let tens: u8 = time / 10;
        let units: u8 = time % 10;
        Bcd { tens, units }
    }
}

/// Writing a number as two decimal digits and reading them back gives the number: the
/// tens digit times ten plus the units digit, with a units digit below ten.
pub proof fn lemma_bcd_round_trip(value: u8)
    ensures
        digits_of(value).0 * 10 + digits_of(value).1 == value,
        digits_of(value).1 < 10,
        digits_of(value).0 <= 25,
{
}

/// Two decimal digits read as a number and written again give the same digits: decoding
/// then encoding keeps a pair whose units digit is below ten and whose number fits in a
/// byte. With `lemma_bcd_round_trip` (encoding then decoding gives the number back), the
/// two conversions undo each other.
pub proof fn lemma_bcd_digits_round_trip(bcd: Bcd<u8>)
    requires
        bcd.digits().1 < 10,
        bcd.fits(),
    ensures
        digits_of(bcd.value() as u8) == bcd.digits(),
{
}

/// A time written as decimal digits and read back is the same time.
pub proof fn lemma_bcd_time_round_trip(time: Time)
    ensures
        <BcdTime as vstd::std_specs::convert::FromSpec<Time>>::from_spec(time).fits(),
        <BcdTime as vstd::std_specs::convert::FromSpec<Time>>::from_spec(time).time_spec()
            == time,
{
}

/// A date written as decimal digits and read back is the same date, except that a year
/// outside 2000..=2154 comes back as 2000: a date within those years comes back whole.
pub proof fn lemma_bcd_date_round_trip(date: Date)
    ensures
        <BcdDate as vstd::std_specs::convert::FromSpec<Date>>::from_spec(date).fits(),
        <BcdDate as vstd::std_specs::convert::FromSpec<Date>>::from_spec(date).date_spec()
            == (Date { year: stored_year(date.year), ..date }),
        2000 <= date.year <= 2154 ==> <BcdDate as vstd::std_specs::convert::FromSpec<
            Date,
        >>::from_spec(date).date_spec() == date,
{
}

} // verus!
