use arvile::Date;
use chrono::{Datelike, NaiveDate};

fn ymd(year: i32, month: u32, day: u32) -> NaiveDate {
    NaiveDate::from_ymd_opt(year, month, day).unwrap()
}

fn get_test_data() -> (Vec<NaiveDate>, Vec<Date>) {
    let dates = vec![
        ymd(2002, 1, 1),
        ymd(2001, 2, 18),
        ymd(2013, 1, 26),
        ymd(2002, 3, 4),
        ymd(2024, 1, 29),
        ymd(2003, 12, 31),
        ymd(2020, 1, 14),  // upper corner case
        ymd(2019, 12, 31), // year day
        ymd(2020, 12, 31), // year day in leap year
        ymd(2020, 12, 30), // leap day
    ];
    let mut arvile_dates = Vec::<Date>::new();
    for i in &dates {
        arvile_dates.push(Date::from(i));
    }
    (dates, arvile_dates)
}

#[test]
fn is_leap_year() {
    let mut dt1 = ymd(1999, 1, 1);
    let mut av1 = Date::from(dt1);
    assert_eq!(av1.is_leap_year(), false);

    dt1 = ymd(2000, 2, 2);
    av1 = Date::from(dt1);
    assert_eq!(av1.is_leap_year(), true);

    dt1 = ymd(2020, 2, 2);
    av1 = Date::from(dt1);
    assert_eq!(av1.is_leap_year(), true);

    dt1 = ymd(2100, 1, 1);
    av1 = Date::from(dt1);
    assert_eq!(av1.is_leap_year(), false);
}

#[test]
fn from_to_chrono() {
    let dt1 = ymd(1984, 2, 2);
    let av1 = Date::from(dt1);
    assert_eq!(av1.into_chrono(), dt1);
}

#[test]
fn day_of_month() {
    let (_, adates) = get_test_data();
    let dom = vec![1, 7, 12, 7, 1, 1, 14, 1, 2, 1];
    for i in 0..adates.len() {
        assert_eq!(adates[i].get_dom(), dom[i]);
    }
}

#[test]
fn month() {
    let (_, adates) = get_test_data();
    let m_u32 = vec![1, 4, 2, 5, 3, 27, 1, 27, 27, 27];
    let m_char = vec!['A', 'D', 'B', 'E', 'C', '+', 'A', '+', '+', '+'];
    for i in 0..adates.len() {
        assert_eq!(adates[i].get_month_u32(), m_u32[i]);
        assert_eq!(adates[i].get_month_char(), m_char[i]);
    }
}

#[test]
fn to_string() {
    let (_, adates) = get_test_data();
    let a_str = vec![
        "02A01", "01D07", "13B12", "02E07", "24C01", "03+01", "20A14", "19+01", "20+01",
        "20+02",
    ];
    for i in 0..adates.len() {
        assert_eq!(adates[i].to_string(), a_str[i]);
    }
}

#[test]
fn round_trip_keeps_every_day_of_two_years() {
    for year in [2019, 2020] {
        let mut day = ymd(year, 1, 1);
        while day.year() == year {
            assert_eq!(Date::from(day).into_chrono(), day);
            assert_eq!(Date::from(&day).into_chrono(), day);
            day = day.succ_opt().unwrap();
        }
    }
}

#[test]
fn date_reads_the_ordinal_of_the_wrapped_day() {
    // 2021-03-01 is day 60; 2020-03-01 is day 61.
    let plain = Date::from(ymd(2021, 3, 1));
    assert_eq!(plain.get_dom(), 4);
    assert_eq!(plain.get_month_u32(), 5);
    assert_eq!(plain.get_month_char(), 'E');
    let leap = Date::from(ymd(2020, 3, 1));
    assert_eq!(leap.get_dom(), 5);
    assert_eq!(leap.get_month_u32(), 5);
}

#[test]
fn date_reads_the_year_of_the_wrapped_day() {
    assert_eq!(Date::from(ymd(1987, 6, 5)).to_string(), "87L02");
    assert_eq!(Date::from(ymd(1904, 7, 1)).is_leap_year(), true);
    assert_eq!(Date::from(ymd(1900, 7, 1)).is_leap_year(), false);
}

#[test]
fn accessor_keeps_the_count_where_the_text_swaps() {
    let leap_day = Date::from(ymd(2020, 12, 30));
    assert_eq!(leap_day.get_dom(), 1);
    assert_eq!(leap_day.to_string(), "20+02");
    let year_day = Date::from(ymd(2020, 12, 31));
    assert_eq!(year_day.get_dom(), 2);
    assert_eq!(year_day.to_string(), "20+01");
    let plain_year_day = Date::from(ymd(2019, 12, 31));
    assert_eq!(plain_year_day.get_dom(), 1);
    assert_eq!(plain_year_day.to_string(), "19+01");
}

#[test]
fn scenarios_of_the_written_form() {
    assert_eq!(Date::from(ymd(2002, 1, 1)).to_string(), "02A01");
    assert_eq!(Date::from(ymd(2001, 2, 18)).to_string(), "01D07");
    assert_eq!(Date::from(ymd(2013, 1, 26)).to_string(), "13B12");
    assert_eq!(Date::from(ymd(2003, 12, 31)).to_string(), "03+01");
    assert_eq!(Date::from(ymd(2020, 12, 30)).to_string(), "20+02");
    assert_eq!(Date::from(ymd(2020, 12, 31)).to_string(), "20+01");
    assert_eq!(Date::from(ymd(2019, 12, 31)).to_string(), "19+01");
}

#[test]
fn last_day_of_the_last_month() {
    let d = Date::from(ymd(2019, 12, 30));
    assert_eq!(d.get_month_u32(), 26);
    assert_eq!(d.get_month_char(), 'Z');
    assert_eq!(d.get_dom(), 14);
    assert_eq!(d.to_string(), "19Z14");
}

#[test]
fn date_is_copied_freely() {
    let d = Date::from(ymd(2002, 3, 4));
    let e = d;
    assert_eq!(d.to_string(), e.clone().to_string());
    assert_eq!(format!("{:?}", d), format!("{:?}", e));
}
