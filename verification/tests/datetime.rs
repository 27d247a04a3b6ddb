use stm32f3_rtc::datetime::{Bcd, BcdDate, BcdTime, Date, Time};

#[test]
fn date_from_keeps_fields() {
    let date = Date::from(1, 1, 2024);
    assert_eq!(date.day, 1);
    assert_eq!(date.month, 1);
    assert_eq!(date.year, 2024);
}

#[test]
fn time_from_keeps_fields() {
    let time = Time::from(12, 30, 0);
    assert_eq!(time.hour, 12);
    assert_eq!(time.minute, 30);
    assert_eq!(time.second, 0);
}

#[test]
fn to_seconds_counts_from_midnight() {
    assert_eq!(Time::from(12, 30, 0).to_seconds(), 45000);
    assert_eq!(Time::from(0, 0, 0).to_seconds(), 0);
    assert_eq!(Time::from(23, 59, 59).to_seconds(), 86399);
    assert_eq!(Time::from(255, 255, 255).to_seconds(), 255 * 3600 + 255 * 60 + 255);
}

#[test]
fn bcd_set_then_get_gives_every_byte_back() {
    for value in 0..=255u8 {
        assert_eq!(Bcd::set(value).get(), value);
    }
}

#[test]
fn bcd_of_zero_and_largest() {
    assert_eq!(Bcd::set(0).get(), 0);
    assert_eq!(Bcd::set(255).get(), 255);
    assert_eq!(Bcd::set(59).get(), 59);
}

#[test]
fn bcd_time_gives_the_time_back() {
    let time = Time::from(23, 59, 58);
    assert_eq!(BcdTime::from(time).time(), time);
    let odd = Time::from(200, 99, 7);
    assert_eq!(BcdTime::from(odd).time(), odd);
}

#[test]
fn bcd_date_keeps_years_in_range() {
    let date = Date::from(31, 12, 2024);
    assert_eq!(BcdDate::from(date).date(), date);
    assert_eq!(BcdDate::from(Date::from(1, 1, 2000)).date(), Date::from(1, 1, 2000));
    assert_eq!(BcdDate::from(Date::from(1, 1, 2154)).date(), Date::from(1, 1, 2154));
}

#[test]
fn bcd_date_resets_years_out_of_range() {
    assert_eq!(BcdDate::from(Date::from(5, 6, 1999)).date(), Date::from(5, 6, 2000));
    assert_eq!(BcdDate::from(Date::from(5, 6, 2155)).date(), Date::from(5, 6, 2000));
    assert_eq!(BcdDate::from(Date::from(5, 6, 0)).date(), Date::from(5, 6, 2000));
}
