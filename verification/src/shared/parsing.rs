use crate::shared::datetime::UtcDateTime;
use crate::shared::error::AppErr;
use crate::shared::text::{trim, trimmed};
use time::format_description::well_known::Iso8601;
use vstd::prelude::*;

verus! {

/// What `time::Date::parse(s, &Iso8601::DEFAULT)` gives for `s`: the year,
/// month and day of the date, or the text of the parse error.
pub uninterp spec fn time_parse_iso8601_date(s: Seq<char>) -> Result<(i32, u32, u32), Seq<char>>;

/// Calls `time::Date::parse` with the default ISO 8601 description and
/// hands back the date's year, month (1 to 12) and day, or the error's text.
/// The contract claims only that the outcome is a function of `s`.
#[verifier::external_body]
fn parse_ymd(s: &str) -> (r: Result<(i32, u32, u32), String>)
    ensures
        match r {
            Ok(d) => time_parse_iso8601_date(s@) == Ok::<(i32, u32, u32), Seq<char>>(d),
            Err(e) => time_parse_iso8601_date(s@) == Err::<(i32, u32, u32), Seq<char>>(e@),
        },
{
    match time::Date::parse(s, &Iso8601::DEFAULT) {
        Ok(d) => Ok((d.year(), u8::from(d.month()) as u32, d.day() as u32)),
        Err(e) => Err(e.to_string()),
    }
}

/// The date that a parse outcome stands for: midnight UTC of the parsed day,
/// or a parse error that names the expected format.
pub open spec fn date_outcome(parsed: Result<(i32, u32, u32), Seq<char>>) -> Result<UtcDateTime, Seq<char>> {
    match parsed {
        Ok((y, m, d)) => Ok(UtcDateTime::spec_midnight(y, m, d)),
        Err(e) => Err("invalid date, expected YYYY-MM-DD: "@ + e),
    }
}

/// Turns the outcome of parsing a `YYYY-MM-DD` date into midnight UTC of
/// that day, or into a parse error that names the expected format.
pub fn date_from_parsed(parsed: Result<(i32, u32, u32), String>) -> (r: Result<UtcDateTime, AppErr>)
    ensures
        match date_outcome(match parsed {
            Ok(d) => Ok(d),
            Err(e) => Err(e@),
        }) {
            Ok(t) => r == Ok::<UtcDateTime, AppErr>(t),
            Err(m) => r matches Err(AppErr::Parse(msg)) && msg@ == m,
        },
{
    match parsed {
        Ok((y, m, d)) => Ok(UtcDateTime::midnight(y, m, d)),
        Err(e) => {
            let mut msg = String::from_str("invalid date, expected YYYY-MM-DD: ");
            msg.append(e.as_str());
            Err(AppErr::Parse(msg))
        },
    }
}

/// Parses a required `YYYY-MM-DD` date (white space around it ignored) into
/// midnight UTC of that day. An empty input is refused as missing.
pub fn parse_date(s: &str) -> (r: Result<UtcDateTime, AppErr>)
    ensures
        trimmed(s@).len() == 0 ==> (r matches Err(AppErr::Parse(msg)) && msg@ == "date is required"@),
        trimmed(s@).len() > 0 ==> match date_outcome(time_parse_iso8601_date(trimmed(s@))) {
            Ok(t) => r == Ok::<UtcDateTime, AppErr>(t),
            Err(m) => r matches Err(AppErr::Parse(msg)) && msg@ == m,
        },
{
    let t = trim(s);
    if t.is_empty() {
        return Err(AppErr::Parse("date is required".to_owned()));
    }
    date_from_parsed(parse_ymd(t))
}

/// Parses an optional `YYYY-MM-DD` date: a missing or blank input gives no
/// date, anything else is parsed as by `parse_date`.
pub fn parse_optional_date(s: Option<&str>) -> (r: Result<Option<UtcDateTime>, AppErr>)
    ensures
        match s {
            None => r == Ok::<Option<UtcDateTime>, AppErr>(None),
            Some(s) => if trimmed(s@).len() == 0 {
                r == Ok::<Option<UtcDateTime>, AppErr>(None)
            } else {
                match date_outcome(time_parse_iso8601_date(trimmed(s@))) {
                    Ok(t) => r == Ok::<Option<UtcDateTime>, AppErr>(Some(t)),
                    Err(m) => r matches Err(AppErr::Parse(msg)) && msg@ == m,
                }
            },
        },
{
    let s = match s {
        None => {
            return Ok(None);
        },
        Some(s) => trim(s),
    };
    if s.is_empty() {
        return Ok(None);
    }
    match date_from_parsed(parse_ymd(s)) {
        Ok(t) => Ok(Some(t)),
        Err(e) => Err(e),
    }
}

} // verus!
