use crate::card::entity::{events_of, CardEvent, CardHistory, CardState};
use crate::card::replay::{lemma_run_append, lemma_run_optional_entry, lemma_run_single, rebuild, HistoryError};
use crate::shared::datetime::UtcDateTime;
use crate::shared::id::{parse_uuid, uuid_parse_str, Uuid};
use chrono::{Datelike, Timelike};
use vstd::prelude::*;

verus! {

/// A card row as stored before cards had a history.
#[derive(Debug)]
pub struct LegacyCard {
    pub id: String,
    pub title: String,
    pub description: String,
    pub deadline: Option<String>,
    pub project_id: Option<String>,
    pub section_id: Option<String>,
}

/// What `chrono::DateTime::parse_from_rfc3339(s)` gives for `s`, as UTC
/// fields (`None` when `s` is refused).
pub uninterp spec fn chrono_parse_rfc3339(s: Seq<char>) -> Option<UtcDateTime>;

/// What `chrono::DateTime::parse_from_str(s, "%Y-%m-%d %H:%M:%S%.f %:z")`
/// gives for `s`, as UTC fields (`None` when `s` is refused).
pub uninterp spec fn chrono_parse_offset_datetime(s: Seq<char>) -> Option<UtcDateTime>;

/// What `chrono::NaiveDateTime::parse_from_str(s, "%Y-%m-%d %H:%M:%S%.f")`
/// gives for `s`, read as UTC fields (`None` when `s` is refused).
pub uninterp spec fn chrono_parse_naive_datetime(s: Seq<char>) -> Option<UtcDateTime>;

/// Calls `chrono::DateTime::parse_from_rfc3339` and hands back the instant
/// as UTC fields. The contract claims only that the outcome is a function
/// of `s`.
#[verifier::external_body]
fn parse_rfc3339(s: &str) -> (r: Option<UtcDateTime>)
    ensures
        r == chrono_parse_rfc3339(s@),
{
    match chrono::DateTime::parse_from_rfc3339(s) {
        Ok(d) => {
            let u = d.with_timezone(&chrono::Utc);
            Some(UtcDateTime { year: u.year(), month: u.month(), day: u.day(), hour: u.hour(), minute: u.minute(), second: u.second(), nanosecond: u.nanosecond() })
        },
        Err(_) => None,
    }
}

/// Calls `chrono::DateTime::parse_from_str` with the format
/// `"%Y-%m-%d %H:%M:%S%.f %:z"` and hands back the instant as UTC fields.
/// The contract claims only that the outcome is a function of `s`.
#[verifier::external_body]
fn parse_offset_datetime(s: &str) -> (r: Option<UtcDateTime>)
    ensures
        r == chrono_parse_offset_datetime(s@),
{
    match chrono::DateTime::parse_from_str(s, "%Y-%m-%d %H:%M:%S%.f %:z") {
        Ok(d) => {
            let u = d.with_timezone(&chrono::Utc);
            Some(UtcDateTime { year: u.year(), month: u.month(), day: u.day(), hour: u.hour(), minute: u.minute(), second: u.second(), nanosecond: u.nanosecond() })
        },
        Err(_) => None,
    }
}

/// Calls `chrono::NaiveDateTime::parse_from_str` with the format
/// `"%Y-%m-%d %H:%M:%S%.f"` and hands back its fields, read as UTC. The
/// contract claims only that the outcome is a function of `s`.
#[verifier::external_body]
fn parse_naive_datetime(s: &str) -> (r: Option<UtcDateTime>)
    ensures
        r == chrono_parse_naive_datetime(s@),
{
    match chrono::NaiveDateTime::parse_from_str(s, "%Y-%m-%d %H:%M:%S%.f") {
        Ok(u) => Some(UtcDateTime { year: u.year(), month: u.month(), day: u.day(), hour: u.hour(), minute: u.minute(), second: u.second(), nanosecond: u.nanosecond() }),
        Err(_) => None,
    }
}

/// The instant that a stored deadline stands for: the first of the three
/// readings that succeeds, or an error that quotes the stored text.
pub open spec fn datetime_outcome(
    rfc3339: Option<UtcDateTime>,
    with_offset: Option<UtcDateTime>,
    naive: Option<UtcDateTime>,
    value: Seq<char>,
) -> Result<UtcDateTime, Seq<char>> {
    match (rfc3339, with_offset, naive) {
        (Some(t), _, _) => Ok(t),
        (None, Some(t), _) => Ok(t),
        (None, None, Some(t)) => Ok(t),
        (None, None, None) => Err("Failed to parse card deadline during migration: "@ + value),
    }
}

/// Picks the first successful reading of a stored deadline, in the order
/// RFC 3339, date and time with offset, date and time without offset.
pub fn choose_datetime(
    rfc3339: Option<UtcDateTime>,
    with_offset: Option<UtcDateTime>,
    naive: Option<UtcDateTime>,
    value: &str,
) -> (r: Result<UtcDateTime, String>)
    ensures
        match datetime_outcome(rfc3339, with_offset, naive, value@) {
            Ok(t) => r == Ok::<UtcDateTime, String>(t),
            Err(m) => r matches Err(msg) && msg@ == m,
        },
{
    if let Some(t) = rfc3339 {
        return Ok(t);
    }
    if let Some(t) = with_offset {
        return Ok(t);
    }
    if let Some(t) = naive {
        return Ok(t);
    }
    let mut msg = String::from_str("Failed to parse card deadline during migration: ");
    msg.append(value);
    Err(msg)
}

/// Reads a deadline as SQLite stored it.
pub fn parse_sqlite_datetime(value: &str) -> (r: Result<UtcDateTime, String>)
    ensures
        match datetime_outcome(
            chrono_parse_rfc3339(value@),
            chrono_parse_offset_datetime(value@),
            chrono_parse_naive_datetime(value@),
            value@,
        ) {
            Ok(t) => r == Ok::<UtcDateTime, String>(t),
            Err(m) => r matches Err(msg) && msg@ == m,
        },
{
    let a = parse_rfc3339(value);
    let b = parse_offset_datetime(value);
    let c = parse_naive_datetime(value);
    choose_datetime(a, b, c, value)
}

/// A parse outcome with its error taken by its text.
pub open spec fn text_result<T>(r: Result<T, String>) -> Result<T, Seq<char>> {
    match r {
        Ok(v) => Ok(v),
        Err(e) => Err(e@),
    }
}

/// An optional parse outcome with its error taken by its text.
pub open spec fn optional_text_result<T>(r: Option<Result<T, String>>) -> Option<Result<T, Seq<char>>> {
    match r {
        Some(x) => Some(text_result(x)),
        None => None,
    }
}

/// The identifier that a `uuid` parse outcome stands for.
pub open spec fn id_result(r: Result<u128, Seq<char>>) -> Result<Uuid, Seq<char>> {
    match r {
        Ok(bits) => Ok(Uuid(bits)),
        Err(e) => Err(e),
    }
}

/// The value of an optional outcome that succeeded.
pub open spec fn ok_value<T>(r: Option<Result<T, Seq<char>>>) -> Option<T> {
    match r {
        Some(Ok(v)) => Some(v),
        _ => None,
    }
}

/// The history that a legacy card row is given: `CreateCard`, then the
/// description when it is not empty, the deadline, the project and the
/// section when they are present.
pub open spec fn legacy_events(
    id: Uuid,
    title: Seq<char>,
    description: Seq<char>,
    deadline: Option<UtcDateTime>,
    project_id: Option<Uuid>,
    section_id: Option<Uuid>,
) -> Seq<CardEvent> {
    seq![CardEvent::CreateCard { id, title }]
        + (if description.len() > 0 { seq![CardEvent::ChangeDescription { description }] } else { Seq::empty() })
        + (if deadline is Some { seq![CardEvent::ChangeDeadline { deadline }] } else { Seq::empty() })
        + (if project_id is Some { seq![CardEvent::BindProject { project_id }] } else { Seq::empty() })
        + (if section_id is Some { seq![CardEvent::BindSection { section_id }] } else { Seq::empty() })
}

/// The outcome of migrating a legacy row, given how its identifier,
/// deadline, project and section read: the first failure in that order, or
/// the history of the row.
pub open spec fn legacy_outcome(
    id: Result<Uuid, Seq<char>>,
    title: Seq<char>,
    description: Seq<char>,
    deadline: Option<Result<UtcDateTime, Seq<char>>>,
    project_id: Option<Result<Uuid, Seq<char>>>,
    section_id: Option<Result<Uuid, Seq<char>>>,
) -> Result<Seq<CardEvent>, Seq<char>> {
    match id {
        Err(e) => Err("Failed to parse card id during migration: "@ + e),
        Ok(id) => match deadline {
            Some(Err(e)) => Err(e),
            _ => match project_id {
                Some(Err(e)) => Err("Failed to parse card project id during migration: "@ + e),
                _ => match section_id {
                    Some(Err(e)) => Err("Failed to parse card section id during migration: "@ + e),
                    _ => Ok(legacy_events(id, title, description, ok_value(deadline), ok_value(project_id), ok_value(section_id))),
                },
            },
        },
    }
}

/// Builds the history of a legacy card row from how its fields read.
pub fn legacy_history_from_parsed(
    id: Result<Uuid, String>,
    title: String,
    description: String,
    deadline: Option<Result<UtcDateTime, String>>,
    project_id: Option<Result<Uuid, String>>,
    section_id: Option<Result<Uuid, String>>,
) -> (r: Result<Vec<CardHistory>, String>)
    ensures
        match legacy_outcome(
            text_result(id),
            title@,
            description@,
            optional_text_result(deadline),
            optional_text_result(project_id),
            optional_text_result(section_id),
        ) {
            Ok(evs) => r matches Ok(h) && events_of(h@) == evs,
            Err(m) => r matches Err(msg) && msg@ == m,
        },
{
    let id = match id {
        Ok(id) => id,
        Err(e) => {
            let mut msg = String::from_str("Failed to parse card id during migration: ");
            msg.append(e.as_str());
            return Err(msg);
        },
    };
    let deadline = match deadline {
        Some(Err(e)) => {
            return Err(e);
        },
        Some(Ok(d)) => Some(d),
        None => None,
    };
    let project_id = match project_id {
        Some(Err(e)) => {
            let mut msg = String::from_str("Failed to parse card project id during migration: ");
            msg.append(e.as_str());
            return Err(msg);
        },
        Some(Ok(p)) => Some(p),
        None => None,
    };
    let section_id = match section_id {
        Some(Err(e)) => {
            let mut msg = String::from_str("Failed to parse card section id during migration: ");
            msg.append(e.as_str());
            return Err(msg);
        },
        Some(Ok(s)) => Some(s),
        None => None,
    };
    let ghost t = title@;
    let ghost d = description@;
    let mut history: Vec<CardHistory> = Vec::new();
    history.push(CardHistory::CreateCard { id, title });
    assert(events_of(history@) =~= seq![CardEvent::CreateCard { id, title: t }]);
    let ghost e0 = events_of(history@);
    let has_description = !description.as_str().is_empty();
    if has_description {
        history.push(CardHistory::ChangeDescription { description });
    }
    let ghost p1 = if d.len() > 0 { seq![CardEvent::ChangeDescription { description: d }] } else { Seq::<CardEvent>::empty() };
    assert(events_of(history@) =~= e0 + p1);
    let ghost e1 = events_of(history@);
    if deadline.is_some() {
        history.push(CardHistory::ChangeDeadline { deadline });
    }
    let ghost p2 = if deadline is Some { seq![CardEvent::ChangeDeadline { deadline }] } else { Seq::<CardEvent>::empty() };
    assert(events_of(history@) =~= e1 + p2);
    let ghost e2 = events_of(history@);
    if project_id.is_some() {
        history.push(CardHistory::BindProject { project_id });
    }
    let ghost p3 = if project_id is Some { seq![CardEvent::BindProject { project_id }] } else { Seq::<CardEvent>::empty() };
    assert(events_of(history@) =~= e2 + p3);
    let ghost e3 = events_of(history@);
    if section_id.is_some() {
        history.push(CardHistory::BindSection { section_id });
    }
    let ghost p4 = if section_id is Some { seq![CardEvent::BindSection { section_id }] } else { Seq::<CardEvent>::empty() };
    assert(events_of(history@) =~= e3 + p4);
    Ok(history)
}

/// Builds the history of a legacy card row: its identifier, deadline,
/// project and section are read first, and the first that does not read
/// fails the migration.
pub fn legacy_card_history(card: LegacyCard) -> (r: Result<Vec<CardHistory>, String>)
    ensures
        match legacy_outcome(
            id_result(uuid_parse_str(card.id@)),
            card.title@,
            card.description@,
            match card.deadline {
                Some(v) => Some(datetime_outcome(
                    chrono_parse_rfc3339(v@),
                    chrono_parse_offset_datetime(v@),
                    chrono_parse_naive_datetime(v@),
                    v@,
                )),
                None => None,
            },
            match card.project_id {
                Some(v) => Some(id_result(uuid_parse_str(v@))),
                None => None,
            },
            match card.section_id {
                Some(v) => Some(id_result(uuid_parse_str(v@))),
                None => None,
            },
        ) {
            Ok(evs) => r matches Ok(h) && events_of(h@) == evs,
            Err(m) => r matches Err(msg) && msg@ == m,
        },
{
    let id = parse_uuid(card.id.as_str());
    let deadline = match &card.deadline {
        Some(v) => Some(parse_sqlite_datetime(v.as_str())),
        None => None,
    };
    let project_id = match &card.project_id {
        Some(v) => Some(parse_uuid(v.as_str())),
        None => None,
    };
    let section_id = match &card.section_id {
        Some(v) => Some(parse_uuid(v.as_str())),
        None => None,
    };
    legacy_history_from_parsed(id, card.title, card.description, deadline, project_id, section_id)
}

/// Law: the history given to a legacy row rebuilds that row, not deleted.
pub proof fn lemma_legacy_history_rebuilds(
    id: Uuid,
    title: Seq<char>,
    description: Seq<char>,
    deadline: Option<UtcDateTime>,
    project_id: Option<Uuid>,
    section_id: Option<Uuid>,
)
    ensures
        rebuild(legacy_events(id, title, description, deadline, project_id, section_id))
            == Ok::<CardState, HistoryError>(CardState {
            id,
            title,
            description,
            deadline,
            deleted: false,
            project_id,
            section_id,
        }),
{
    let c = CardEvent::CreateCard { id, title };
    let s0 = CardState {
        id,
        title,
        description: Seq::empty(),
        deadline: None,
        deleted: false,
        project_id: None,
        section_id: None,
    };
    let s1 = CardState { description, ..s0 };
    let s2 = CardState { deadline, ..s1 };
    let s3 = CardState { project_id, ..s2 };
    let s4 = CardState { section_id, ..s3 };
    let p1 = if description.len() > 0 { seq![CardEvent::ChangeDescription { description }] } else { Seq::<CardEvent>::empty() };
    let p2 = if deadline is Some { seq![CardEvent::ChangeDeadline { deadline }] } else { Seq::<CardEvent>::empty() };
    let p3 = if project_id is Some { seq![CardEvent::BindProject { project_id }] } else { Seq::<CardEvent>::empty() };
    let p4 = if section_id is Some { seq![CardEvent::BindSection { section_id }] } else { Seq::<CardEvent>::empty() };
    if description.len() == 0 {
        assert(description =~= Seq::<char>::empty());
    }
    lemma_run_single(Ok(None), c);
    lemma_run_optional_entry(s0, p1, s1);
    lemma_run_optional_entry(s1, p2, s2);
    lemma_run_optional_entry(s2, p3, s3);
    lemma_run_optional_entry(s3, p4, s4);
    let start = Ok::<Option<CardState>, HistoryError>(None);
    let a0 = seq![c];
    lemma_run_append(start, a0, p1);
    lemma_run_append(start, a0 + p1, p2);
    lemma_run_append(start, a0 + p1 + p2, p3);
    lemma_run_append(start, a0 + p1 + p2 + p3, p4);
}

} // verus!
