use crate::card::entity::{events_of, Card, CardEvent, CardHistory, CardState};
use crate::card::replay::{
    lemma_run_append, lemma_run_optional_entry, lemma_run_single, rebuild, run, update_state, HistoryError,
};
use crate::shared::datetime::same_instant;
use crate::shared::id::{same_id, Uuid};
use vstd::prelude::*;

verus! {

/// The entries that turn card `o` into card `n`, one per changed field, in
/// the order title, description, deadline, project, section, deletion.
pub open spec fn changes(o: CardState, n: CardState) -> Seq<CardEvent> {
    title_changes(o, n) + description_changes(o, n) + deadline_changes(o, n) + project_changes(o, n)
        + section_changes(o, n) + delete_changes(o, n)
}

pub open spec fn title_changes(o: CardState, n: CardState) -> Seq<CardEvent> {
    if n.title != o.title {
        seq![CardEvent::ChangeTitle { title: n.title }]
    } else {
        Seq::empty()
    }
}

pub open spec fn description_changes(o: CardState, n: CardState) -> Seq<CardEvent> {
    if n.description != o.description {
        seq![CardEvent::ChangeDescription { description: n.description }]
    } else {
        Seq::empty()
    }
}

pub open spec fn deadline_changes(o: CardState, n: CardState) -> Seq<CardEvent> {
    if n.deadline != o.deadline {
        seq![CardEvent::ChangeDeadline { deadline: n.deadline }]
    } else {
        Seq::empty()
    }
}

pub open spec fn project_changes(o: CardState, n: CardState) -> Seq<CardEvent> {
    if n.project_id != o.project_id {
        seq![CardEvent::BindProject { project_id: n.project_id }]
    } else {
        Seq::empty()
    }
}

/// The section of `o` once its project has been changed to that of `n`.
pub open spec fn section_after_project(o: CardState, n: CardState) -> Option<Uuid> {
    if n.project_id != o.project_id && n.project_id is None {
        None
    } else {
        o.section_id
    }
}

pub open spec fn section_changes(o: CardState, n: CardState) -> Seq<CardEvent> {
    if n.section_id != section_after_project(o, n) {
        seq![CardEvent::BindSection { section_id: n.section_id }]
    } else {
        Seq::empty()
    }
}

pub open spec fn delete_changes(o: CardState, n: CardState) -> Seq<CardEvent> {
    if n.deleted && !o.deleted {
        seq![CardEvent::DeleteCard]
    } else {
        Seq::empty()
    }
}

/// A card and its history once it is marked deleted: unchanged when it
/// already is, else with `deleted` set and a `DeleteCard` entry appended.
pub open spec fn deleted_version(s: CardState, h: Seq<CardEvent>) -> (CardState, Seq<CardEvent>) {
    if s.deleted {
        (s, h)
    } else {
        (CardState { deleted: true, ..s }, h.push(CardEvent::DeleteCard))
    }
}

/// Replaying the changes from `o` to `n` on `o` gives `n`, when `n` keeps the
/// identifier of `o` and a deleted `o` stays deleted.
pub proof fn lemma_replay_changes(o: CardState, n: CardState)
    requires
        n.id == o.id,
        o.deleted ==> n.deleted,
    ensures
        run(Ok(Some(o)), changes(o, n)) == Ok::<Option<CardState>, HistoryError>(Some(n)),
{
    let s1 = CardState { title: n.title, ..o };
    let s2 = CardState { description: n.description, ..s1 };
    let s3 = CardState { deadline: n.deadline, ..s2 };
    let s4 = CardState { project_id: n.project_id, section_id: section_after_project(o, n), ..s3 };
    let s5 = CardState { section_id: n.section_id, ..s4 };
    lemma_run_optional_entry(o, title_changes(o, n), s1);
    lemma_run_optional_entry(s1, description_changes(o, n), s2);
    lemma_run_optional_entry(s2, deadline_changes(o, n), s3);
    lemma_run_optional_entry(s3, project_changes(o, n), s4);
    lemma_run_optional_entry(s4, section_changes(o, n), s5);
    lemma_run_optional_entry(s5, delete_changes(o, n), n);
    let a1 = title_changes(o, n);
    let a2 = a1 + description_changes(o, n);
    let a3 = a2 + deadline_changes(o, n);
    let a4 = a3 + project_changes(o, n);
    let a5 = a4 + section_changes(o, n);
    let start = Ok::<Option<CardState>, HistoryError>(Some(o));
    lemma_run_append(start, a1, description_changes(o, n));
    lemma_run_append(start, a2, deadline_changes(o, n));
    lemma_run_append(start, a3, project_changes(o, n));
    lemma_run_append(start, a4, section_changes(o, n));
    lemma_run_append(start, a5, delete_changes(o, n));
}

/// Law: appending the changes from card `old` to card `new` to a history
/// that rebuilds `old` gives a history that rebuilds `new`, as long as the
/// identifier is kept and a deleted card stays deleted.
pub proof fn lemma_changes_extend_history(h: Seq<CardEvent>, old: CardState, new: CardState)
    requires
        rebuild(h) == Ok::<CardState, HistoryError>(old),
        new.id == old.id,
        old.deleted ==> new.deleted,
    ensures
        rebuild(h + changes(old, new)) == Ok::<CardState, HistoryError>(new),
{
    lemma_run_append(Ok(None), h, changes(old, new));
    lemma_replay_changes(old, new);
}

/// Law: a card that was stored consistently reads back unchanged: replaying
/// its history (what `Card::apply` does) gives exactly its fields.
pub proof fn lemma_stored_card_reads_back(c: Card)
    requires
        c.is_consistent(),
    ensures
        rebuild(events_of(c.history@)) == Ok::<CardState, HistoryError>(c.state()),
{
}

/// Law: a card that did not change produces no history entries.
pub proof fn lemma_no_change_no_entries(s: CardState)
    ensures
        changes(s, s) =~= Seq::<CardEvent>::empty(),
{
}

/// Law: marking a card deleted twice is marking it deleted once.
pub proof fn lemma_delete_idempotent(s: CardState, h: Seq<CardEvent>)
    ensures
        deleted_version(deleted_version(s, h).0, deleted_version(s, h).1) == deleted_version(s, h),
{
}

/// Law: marking a card deleted leaves it deleted with its other fields
/// unchanged. A card not yet deleted gets exactly one `DeleteCard` entry
/// appended to its history; one already deleted keeps its history. A history
/// that rebuilt the card then rebuilds the deleted card.
pub proof fn lemma_deleted_version_marks(s: CardState, h: Seq<CardEvent>)
    ensures
        deleted_version(s, h).0 == (CardState { deleted: true, ..s }),
        !s.deleted ==> deleted_version(s, h).1 == h.push(CardEvent::DeleteCard),
        s.deleted ==> deleted_version(s, h).1 == h,
        rebuild(h) == Ok::<CardState, HistoryError>(s) ==> rebuild(deleted_version(s, h).1) == Ok::<
            CardState,
            HistoryError,
        >(CardState { deleted: true, ..s }),
{
    if !s.deleted {
        assert(h.push(CardEvent::DeleteCard) =~= h + seq![CardEvent::DeleteCard]);
        lemma_run_append(Ok(None), h, seq![CardEvent::DeleteCard]);
        lemma_run_single(run(Ok(None), h), CardEvent::DeleteCard);
    }
}

/// Every entry of `h`, replayed from `start` after the entries before it,
/// changes the card.
pub open spec fn every_entry_changes(start: CardState, h: Seq<CardEvent>) -> bool {
    forall|i: int|
        #![trigger h[i]]
        0 <= i < h.len() ==> run(Ok(Some(start)), h.take(i + 1)) != run(Ok(Some(start)), h.take(i))
}

/// Where an edit's entry stands in the order in which edits are recorded:
/// title, description, deadline, project, section, deletion.
pub open spec fn entry_rank(e: CardEvent) -> int {
    match e {
        CardEvent::CreateCard { .. } => 0,
        CardEvent::ChangeTitle { .. } => 1,
        CardEvent::ChangeDescription { .. } => 2,
        CardEvent::ChangeDeadline { .. } => 3,
        CardEvent::BindProject { .. } => 4,
        CardEvent::BindSection { .. } => 5,
        CardEvent::DeleteCard => 6,
    }
}

/// The entries of `h` have strictly increasing ranks, all below `bound`.
pub open spec fn ranks_below(h: Seq<CardEvent>, bound: int) -> bool {
    &&& forall|i: int, j: int| 0 <= i < j < h.len() ==> entry_rank(#[trigger] h[i]) < entry_rank(#[trigger] h[j])
    &&& forall|i: int| 0 <= i < h.len() ==> entry_rank(#[trigger] h[i]) < bound
}

/// Extends the two properties above by one optional entry.
proof fn lemma_extend_by_entry(
    start: CardState,
    x: Seq<CardEvent>,
    part: Seq<CardEvent>,
    s: CardState,
    t: CardState,
    rank: int,
)
    requires
        every_entry_changes(start, x),
        ranks_below(x, rank),
        run(Ok(Some(start)), x) == Ok::<Option<CardState>, HistoryError>(Some(s)),
        part.len() <= 1,
        part.len() == 0 ==> t == s,
        part.len() == 1 ==> !(part[0] is CreateCard) && t == update_state(s, part[0]) && t != s && entry_rank(
            part[0],
        ) == rank,
    ensures
        every_entry_changes(start, x + part),
        ranks_below(x + part, rank + 1),
        run(Ok(Some(start)), x + part) == Ok::<Option<CardState>, HistoryError>(Some(t)),
{
    let y = x + part;
    lemma_run_optional_entry(s, part, t);
    lemma_run_append(Ok(Some(start)), x, part);
    assert forall|i: int| 0 <= i < y.len() implies run(Ok(Some(start)), #[trigger] y.take(i + 1)) != run(
        Ok(Some(start)),
        y.take(i),
    ) by {
        if i < x.len() {
            assert(y.take(i + 1) =~= x.take(i + 1));
            assert(y.take(i) =~= x.take(i));
            assert(y[i] == x[i]);
        } else {
            assert(y.take(i + 1) =~= y);
            assert(y.take(i) =~= x);
        }
    }
    assert(forall|i: int| 0 <= i < y.len() ==> y[i] == (if i < x.len() { x[i] } else { part[i - x.len()] }));
}

/// Law: an edit records nothing that does not change the card. Each entry
/// appended for the change from card `o` to card `n`, replayed on `o` after
/// the entries before it, changes the card (so no entry is recorded for a
/// field that does not change, such as a section that stays what it is after
/// the project changes), and the entries come at most one of each kind, in
/// the order title, description, deadline, project, section, deletion.
pub proof fn lemma_changes_all_take_effect(o: CardState, n: CardState)
    ensures
        every_entry_changes(o, changes(o, n)),
        forall|i: int, j: int|
            0 <= i < j < changes(o, n).len() ==> entry_rank(#[trigger] changes(o, n)[i]) < entry_rank(
                #[trigger] changes(o, n)[j],
            ),
{
    let s1 = CardState { title: n.title, ..o };
    let s2 = CardState { description: n.description, ..s1 };
    let s3 = CardState { deadline: n.deadline, ..s2 };
    let s4 = CardState { project_id: n.project_id, section_id: section_after_project(o, n), ..s3 };
    let s5 = CardState { section_id: n.section_id, ..s4 };
    let s6 = if n.deleted && !o.deleted { CardState { deleted: true, ..s5 } } else { s5 };
    let empty = Seq::<CardEvent>::empty();
    assert(run(Ok(Some(o)), empty) == Ok::<Option<CardState>, HistoryError>(Some(o)));
    let a1 = empty + title_changes(o, n);
    let a2 = a1 + description_changes(o, n);
    let a3 = a2 + deadline_changes(o, n);
    let a4 = a3 + project_changes(o, n);
    let a5 = a4 + section_changes(o, n);
    let a6 = a5 + delete_changes(o, n);
    lemma_extend_by_entry(o, empty, title_changes(o, n), o, s1, 1);
    lemma_extend_by_entry(o, a1, description_changes(o, n), s1, s2, 2);
    lemma_extend_by_entry(o, a2, deadline_changes(o, n), s2, s3, 3);
    lemma_extend_by_entry(o, a3, project_changes(o, n), s3, s4, 4);
    lemma_extend_by_entry(o, a4, section_changes(o, n), s4, s5, 5);
    lemma_extend_by_entry(o, a5, delete_changes(o, n), s5, s6, 6);
    assert(a6 =~= changes(o, n));
}

/// Appends one entry to `history`.
fn push_event(history: &mut Vec<CardHistory>, e: CardHistory)
    ensures
        events_of(final(history)@) == events_of(old(history)@).push(e@),
{
    let ghost start = history@;
    history.push(e);
    assert(events_of(history@) =~= events_of(start).push(e@));
}

/// `a + b + c` regrouped.
proof fn lemma_concat_assoc(a: Seq<CardEvent>, b: Seq<CardEvent>, c: Seq<CardEvent>)
    ensures
        a + b + c == a + (b + c),
{
    assert(a + b + c =~= a + (b + c));
}

/// Appending an optional entry: `part` is empty or the single entry pushed.
proof fn lemma_push_part(a: Seq<CardEvent>, part: Seq<CardEvent>, pushed: bool, e: CardEvent)
    requires
        pushed ==> part == seq![e],
        !pushed ==> part.len() == 0,
    ensures
        (if pushed { a.push(e) } else { a }) == a + part,
{
    if pushed {
        assert(a.push(e) =~= a + part);
    } else {
        assert(a =~= a + part);
    }
}

/// Appends to `history` the entries that turn `before` into `after`.
#[verifier::rlimit(40)]
pub(crate) fn push_changes(history: &mut Vec<CardHistory>, before: &Card, after: &Card)
    ensures
        events_of(final(history)@) == events_of(old(history)@) + changes(before.state(), after.state()),
{
    let ghost o = before.state();
    let ghost n = after.state();
    let ghost start = events_of(history@);
    let ghost d1 = title_changes(o, n);
    let ghost d2 = description_changes(o, n);
    let ghost d3 = deadline_changes(o, n);
    let ghost d4 = project_changes(o, n);
    let ghost d5 = section_changes(o, n);
    let ghost d6 = delete_changes(o, n);

    let c1 = !(before.title == after.title);
    if c1 {
        push_event(history, CardHistory::ChangeTitle { title: after.title.clone() });
    }
    proof { lemma_push_part(start, d1, c1, CardEvent::ChangeTitle { title: n.title }); }
    let ghost a1 = events_of(history@);

    let c2 = !(before.description == after.description);
    if c2 {
        push_event(history, CardHistory::ChangeDescription { description: after.description.clone() });
    }
    proof { lemma_push_part(a1, d2, c2, CardEvent::ChangeDescription { description: n.description }); }
    let ghost a2 = events_of(history@);

    let c3 = !same_instant(&before.deadline, &after.deadline);
    if c3 {
        push_event(history, CardHistory::ChangeDeadline { deadline: after.deadline });
    }
    proof { lemma_push_part(a2, d3, c3, CardEvent::ChangeDeadline { deadline: n.deadline }); }
    let ghost a3 = events_of(history@);

    let c4 = !same_id(before.project_id, after.project_id);
    if c4 {
        push_event(history, CardHistory::BindProject { project_id: after.project_id });
    }
    proof { lemma_push_part(a3, d4, c4, CardEvent::BindProject { project_id: n.project_id }); }
    let ghost a4 = events_of(history@);

    let section_before = if c4 && after.project_id.is_none() {
        None
    } else {
        before.section_id
    };
    assert(section_before == section_after_project(o, n));
    let c5 = !same_id(section_before, after.section_id);
    if c5 {
        push_event(history, CardHistory::BindSection { section_id: after.section_id });
    }
    proof { lemma_push_part(a4, d5, c5, CardEvent::BindSection { section_id: n.section_id }); }
    let ghost a5 = events_of(history@);

    let c6 = after.deleted && !before.deleted;
    if c6 {
        push_event(history, CardHistory::DeleteCard);
    }
    proof {
        lemma_push_part(a5, d6, c6, CardEvent::DeleteCard);
        lemma_concat_assoc(start, d1, d2);
        lemma_concat_assoc(start, d1 + d2, d3);
        lemma_concat_assoc(start, d1 + d2 + d3, d4);
        lemma_concat_assoc(start, d1 + d2 + d3 + d4, d5);
        lemma_concat_assoc(start, d1 + d2 + d3 + d4 + d5, d6);
    }
}

/// The history entries that turn card `before` into card `after`.
pub fn history_changes(before: &Card, after: &Card) -> (r: Vec<CardHistory>)
    ensures
        events_of(r@) == changes(before.state(), after.state()),
{
    let mut r = Vec::new();
    assert(events_of(r@) =~= Seq::<CardEvent>::empty());
    push_changes(&mut r, before, after);
    assert(Seq::<CardEvent>::empty() + changes(before.state(), after.state()) =~= changes(before.state(), after.state()));
    r
}

} // verus!
