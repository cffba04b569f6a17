use crate::card::entity::{Card, CardEvent, CardState};
use crate::shared::id::Uuid;
use vstd::prelude::*;

verus! {

/// Why a history does not describe a card.
pub enum HistoryError {
    /// A second `CreateCard` entry.
    RepeatedCreate,
    /// An entry before the first `CreateCard`.
    MissingCreate,
    /// No entry at all.
    NoCreate,
}

/// The card that a `CreateCard` entry starts.
pub open spec fn created_state(id: Uuid, title: Seq<char>) -> CardState {
    CardState {
        id,
        title,
        description: Seq::empty(),
        deadline: None,
        deleted: false,
        project_id: None,
        section_id: None,
    }
}

/// What an entry other than `CreateCard` does to an existing card. Unbinding
/// the project also unbinds the section.
pub open spec fn update_state(c: CardState, e: CardEvent) -> CardState {
    match e {
        CardEvent::CreateCard { .. } => c,
        CardEvent::BindProject { project_id } => CardState {
            project_id,
            section_id: if project_id is None { None } else { c.section_id },
            ..c
        },
        CardEvent::BindSection { section_id } => CardState { section_id, ..c },
        CardEvent::ChangeDescription { description } => CardState { description, ..c },
        CardEvent::ChangeDeadline { deadline } => CardState { deadline, ..c },
        CardEvent::ChangeTitle { title } => CardState { title, ..c },
        CardEvent::DeleteCard => CardState { deleted: true, ..c },
    }
}

/// One step of replaying a history: `CreateCard` must come first and once.
pub open spec fn step(s: Option<CardState>, e: CardEvent) -> Result<Option<CardState>, HistoryError> {
    match e {
        CardEvent::CreateCard { id, title } => if s is Some {
            Err(HistoryError::RepeatedCreate)
        } else {
            Ok(Some(created_state(id, title)))
        },
        _ => match s {
            Some(c) => Ok(Some(update_state(c, e))),
            None => Err(HistoryError::MissingCreate),
        },
    }
}

/// One step after a replay that may already have failed; a failure stays.
pub open spec fn then_step(
    r: Result<Option<CardState>, HistoryError>,
    e: CardEvent,
) -> Result<Option<CardState>, HistoryError> {
    match r {
        Ok(s) => step(s, e),
        Err(x) => Err(x),
    }
}

/// Replays the entries of `h` in order, starting from `start`.
pub open spec fn run(
    start: Result<Option<CardState>, HistoryError>,
    h: Seq<CardEvent>,
) -> Result<Option<CardState>, HistoryError>
    decreases h.len(),
{
    if h.len() == 0 {
        start
    } else {
        then_step(run(start, h.drop_last()), h.last())
    }
}

/// The card that a whole history describes, or why it describes none.
pub open spec fn rebuild(h: Seq<CardEvent>) -> Result<CardState, HistoryError> {
    match run(Ok(None), h) {
        Ok(Some(s)) => Ok(s),
        Ok(None) => Err(HistoryError::NoCreate),
        Err(x) => Err(x),
    }
}

/// The validation message for a history that describes no card.
pub open spec fn history_error_message(e: HistoryError) -> Seq<char> {
    match e {
        HistoryError::RepeatedCreate => "Card history contains more than one CreateCard event"@,
        HistoryError::MissingCreate => "Card history must start with a CreateCard event"@,
        HistoryError::NoCreate => "Card history does not contain a CreateCard event"@,
    }
}

/// The abstract fields of an optional card.
pub open spec fn option_state(c: Option<Card>) -> Option<CardState> {
    match c {
        Some(card) => Some(card.state()),
        None => None,
    }
}

/// Replaying `h` up to entry `i + 1` is one step after replaying it up to `i`.
pub proof fn lemma_run_take_step(start: Result<Option<CardState>, HistoryError>, h: Seq<CardEvent>, i: int)
    requires
        0 <= i < h.len(),
    ensures
        run(start, h.take(i + 1)) == then_step(run(start, h.take(i)), h[i]),
{
    assert(h.take(i + 1).drop_last() =~= h.take(i));
}

/// Once a replay fails, the rest of the history does not change the failure.
pub proof fn lemma_run_error_sticks(
    start: Result<Option<CardState>, HistoryError>,
    h: Seq<CardEvent>,
    j: int,
)
    requires
        0 <= j <= h.len(),
        run(start, h.take(j)) is Err,
    ensures
        run(start, h) == run(start, h.take(j)),
    decreases h.len() - j,
{
    if j == h.len() {
        assert(h.take(j) =~= h);
    } else {
        lemma_run_take_step(start, h, j);
        lemma_run_error_sticks(start, h, j + 1);
    }
}

/// Law: replaying two histories one after the other is replaying their
/// concatenation.
pub proof fn lemma_run_append(
    start: Result<Option<CardState>, HistoryError>,
    a: Seq<CardEvent>,
    b: Seq<CardEvent>,
)
    ensures
        run(start, a + b) == run(run(start, a), b),
    decreases b.len(),
{
    if b.len() == 0 {
        assert(a + b =~= a);
    } else {
        assert((a + b).drop_last() =~= a + b.drop_last());
        assert((a + b).last() == b.last());
        lemma_run_append(start, a, b.drop_last());
    }
}

/// Replaying a single entry is one step.
pub proof fn lemma_run_single(start: Result<Option<CardState>, HistoryError>, e: CardEvent)
    ensures
        run(start, seq![e]) == then_step(start, e),
{
    let one = seq![e];
    assert(one.drop_last() =~= Seq::<CardEvent>::empty());
    assert(one.last() == e);
    assert(run(start, one.drop_last()) == start);
}


/// Replaying one optional entry from `s` gives `t`.
pub proof fn lemma_run_optional_entry(s: CardState, part: Seq<CardEvent>, t: CardState)
    requires
        part.len() == 0 ==> t == s,
        part.len() == 1 ==> !(part[0] is CreateCard) && t == update_state(s, part[0]),
        part.len() <= 1,
    ensures
        run(Ok(Some(s)), part) == Ok::<Option<CardState>, HistoryError>(Some(t)),
{
    if part.len() == 1 {
        assert(part =~= seq![part[0]]);
        lemma_run_single(Ok(Some(s)), part[0]);
    }
}

} // verus!
