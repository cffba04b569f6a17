use autograph::shared::parsing as time_parsing;
use autograph::shared::utils::parsing as chrono_parsing;
use chrono::{Datelike, NaiveDate};
use time::{Date, Month};

fn chrono_ymd(d: NaiveDate) -> (i32, u32, u32) {
    (d.year(), d.month(), d.day())
}

fn time_ymd(d: Date) -> (i32, u32, u32) {
    (d.year(), u8::from(d.month()) as u32, d.day() as u32)
}

#[test]
fn parsing_parse_date_accepts_valid_iso_date() {
    assert_eq!(
        time_parsing::parse_date("2026-05-10").unwrap().date(),
        time_ymd(Date::from_calendar_date(2026, Month::May, 10).unwrap())
    );
}

#[test]
fn parsing_parse_date_rejects_empty_string() {
    assert!(time_parsing::parse_date("   ").is_err());
}

#[test]
fn parsing_parse_optional_date_accepts_valid_iso_date() {
    assert_eq!(
        time_parsing::parse_optional_date(Some("2026-05-10"))
            .unwrap()
            .map(|d| d.date()),
        Some(time_ymd(Date::from_calendar_date(2026, Month::May, 10).unwrap()))
    );
}

#[test]
fn parsing_parse_optional_date_normalizes_empty_to_none() {
    assert_eq!(time_parsing::parse_optional_date(Some("   ")).unwrap(), None);
}

#[test]
fn parsing_parse_optional_date_rejects_invalid_date() {
    assert!(time_parsing::parse_optional_date(Some("2026-13-10")).is_err());
}

#[test]
fn parse_date_accepts_valid_iso_date() {
    assert_eq!(
        chrono_parsing::parse_date("2026-05-10").unwrap().date(),
        chrono_ymd(NaiveDate::from_ymd_opt(2026, 5, 10).unwrap())
    );
}

#[test]
fn parse_date_rejects_empty_string() {
    assert!(chrono_parsing::parse_date("   ").is_err());
}

#[test]
fn parse_optional_date_accepts_valid_iso_date() {
    assert_eq!(
        chrono_parsing::parse_optional_date(Some("2026-05-10"))
            .unwrap()
            .map(|d| d.date()),
        Some(chrono_ymd(NaiveDate::from_ymd_opt(2026, 5, 10).unwrap()))
    );
}

#[test]
fn parse_optional_date_normalizes_empty_to_none() {
    assert_eq!(chrono_parsing::parse_optional_date(Some("   ")).unwrap(), None);
}

#[test]
fn parse_optional_date_rejects_invalid_date() {
    assert!(chrono_parsing::parse_optional_date(Some("2026-13-10")).is_err());
}

#[test]
fn parse_date_trims_white_space_and_gives_midnight() {
    let d = chrono_parsing::parse_date(" \t2026-05-10\n").unwrap();
    assert_eq!(d, autograph::UtcDateTime::midnight(2026, 5, 10));
    let d = time_parsing::parse_date("\u{3000}2026-05-10 ").unwrap();
    assert_eq!(d, autograph::UtcDateTime::midnight(2026, 5, 10));
}

#[test]
fn parse_date_empty_error_says_date_is_required() {
    match chrono_parsing::parse_date("") {
        Err(autograph::AppErr::Parse(m)) => assert_eq!(m, "date is required"),
        other => panic!("unexpected {:?}", other),
    }
    match time_parsing::parse_date(" ") {
        Err(autograph::AppErr::Parse(m)) => assert_eq!(m, "date is required"),
        other => panic!("unexpected {:?}", other),
    }
}

#[test]
fn parse_date_invalid_error_names_the_format() {
    match chrono_parsing::parse_date("2026-13-10") {
        Err(autograph::AppErr::Parse(m)) => {
            assert!(m.starts_with("invalid date, expected YYYY-MM-DD: "));
            assert!(m.len() > "invalid date, expected YYYY-MM-DD: ".len());
        }
        other => panic!("unexpected {:?}", other),
    }
    match time_parsing::parse_date("not a date") {
        Err(autograph::AppErr::Parse(m)) => assert!(m.starts_with("invalid date, expected YYYY-MM-DD: ")),
        other => panic!("unexpected {:?}", other),
    }
}

#[test]
fn parse_optional_date_missing_is_none() {
    assert_eq!(chrono_parsing::parse_optional_date(None).unwrap(), None);
    assert_eq!(time_parsing::parse_optional_date(None).unwrap(), None);
}

#[test]
fn date_from_parsed_builds_midnight_or_message() {
    assert_eq!(
        chrono_parsing::date_from_parsed(Ok((2024, 2, 29))).unwrap(),
        autograph::UtcDateTime {
            year: 2024,
            month: 2,
            day: 29,
            hour: 0,
            minute: 0,
            second: 0,
            nanosecond: 0
        }
    );
    match chrono_parsing::date_from_parsed(Err("input is out of range".to_owned())) {
        Err(autograph::AppErr::Parse(m)) => {
            assert_eq!(m, "invalid date, expected YYYY-MM-DD: input is out of range")
        }
        other => panic!("unexpected {:?}", other),
    }
    match time_parsing::date_from_parsed(Err("bad".to_owned())) {
        Err(autograph::AppErr::Parse(m)) => assert_eq!(m, "invalid date, expected YYYY-MM-DD: bad"),
        other => panic!("unexpected {:?}", other),
    }
}

#[test]
fn trim_removes_unicode_white_space_only() {
    assert_eq!(autograph::shared::text::trim("\u{2003} a b \u{85}"), "a b");
    assert_eq!(autograph::shared::text::trim("x"), "x");
}
