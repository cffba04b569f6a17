use crate::card::entity::CardState;
use crate::shared::datetime::UtcDateTime;
use crate::shared::filter::QueryFilter;
use crate::shared::id::Uuid;
use crate::shared::sql::{push_clause, SqlParam, SqlQuery};
use vstd::prelude::*;

verus! {

/// The condition that a filter adds to a query that already has one: the
/// equality test for `Val`, the null test for `Null`, nothing for `Ignore`.
pub open spec fn filter_condition<T>(equals: Seq<char>, is_null: Seq<char>, f: QueryFilter<T>) -> Seq<char> {
    match f {
        QueryFilter::Val(_) => " AND "@ + equals,
        QueryFilter::Null => " AND "@ + is_null,
        QueryFilter::Ignore => Seq::empty(),
    }
}

/// The text of the card query: the cards that are not deleted and that the
/// three filters keep, in insertion order, one page of them.
pub open spec fn card_filter_text(
    deadline: QueryFilter<UtcDateTime>,
    project_id: QueryFilter<Uuid>,
    section_id: QueryFilter<Uuid>,
) -> Seq<char> {
    "SELECT id, title, description, deadline, deleted, project_id, section_id FROM cards"@ + " WHERE "@
        + "deleted = 0"@ + filter_condition("project_id = ?"@, "project_id IS NULL"@, project_id) + filter_condition("section_id = ?"@, "section_id IS NULL"@, section_id)
        + filter_condition("deadline = ?"@, "deadline IS NULL"@, deadline) + " ORDER BY rowid LIMIT ? OFFSET ?"@
}

/// The value that a filter binds (none unless it is `Val`).
pub open spec fn filter_params<T>(f: QueryFilter<T>, param: spec_fn(T) -> SqlParam) -> Seq<SqlParam> {
    match f {
        QueryFilter::Val(v) => seq![param(v)],
        _ => Seq::empty(),
    }
}

/// The values bound to the card query, in placeholder order.
pub open spec fn card_filter_params(
    limit: u32,
    offset: u32,
    deadline: QueryFilter<UtcDateTime>,
    project_id: QueryFilter<Uuid>,
    section_id: QueryFilter<Uuid>,
) -> Seq<SqlParam> {
    filter_params(project_id, |p: Uuid| SqlParam::Id(p)) + filter_params(section_id, |s: Uuid| SqlParam::Id(s))
        + filter_params(deadline, |d: UtcDateTime| SqlParam::Instant(d)) + seq![
        SqlParam::Integer(limit as i64),
        SqlParam::Integer(offset as i64),
    ]
}

/// Builds the query for one page (`limit` cards after the first `offset`)
/// of the cards that are not deleted and whose project, section and deadline
/// the filters keep, in the order they were added.
pub fn card_filter_query(
    limit: u32,
    offset: u32,
    deadline: &QueryFilter<UtcDateTime>,
    project_id: &QueryFilter<Uuid>,
    section_id: &QueryFilter<Uuid>,
) -> (q: SqlQuery)
    ensures
        q.text@ == card_filter_text(*deadline, *project_id, *section_id),
        q.params@ == card_filter_params(limit, offset, *deadline, *project_id, *section_id),
{
    let mut text = String::from_str(
        "SELECT id, title, description, deadline, deleted, project_id, section_id FROM cards",
    );
    let mut params: Vec<SqlParam> = Vec::new();
    let mut has_where = false;
    push_clause(&mut text, &mut has_where, "deleted = 0");
    let ghost t0 = text@;
    match project_id {
        QueryFilter::Val(p) => {
            push_clause(&mut text, &mut has_where, "project_id = ?");
            params.push(SqlParam::Id(*p));
        },
        QueryFilter::Null => push_clause(&mut text, &mut has_where, "project_id IS NULL"),
        QueryFilter::Ignore => {},
    }
    assert(text@ =~= t0 + filter_condition("project_id = ?"@, "project_id IS NULL"@, *project_id));
    let ghost t1 = text@;
    match section_id {
        QueryFilter::Val(s) => {
            push_clause(&mut text, &mut has_where, "section_id = ?");
            params.push(SqlParam::Id(*s));
        },
        QueryFilter::Null => push_clause(&mut text, &mut has_where, "section_id IS NULL"),
        QueryFilter::Ignore => {},
    }
    assert(text@ =~= t1 + filter_condition("section_id = ?"@, "section_id IS NULL"@, *section_id));
    let ghost t2 = text@;
    match deadline {
        QueryFilter::Val(d) => {
            push_clause(&mut text, &mut has_where, "deadline = ?");
            params.push(SqlParam::Instant(*d));
        },
        QueryFilter::Null => push_clause(&mut text, &mut has_where, "deadline IS NULL"),
        QueryFilter::Ignore => {},
    }
    assert(text@ =~= t2 + filter_condition("deadline = ?"@, "deadline IS NULL"@, *deadline));
    let ghost t3 = text@;
    text.append(" ORDER BY rowid LIMIT ? OFFSET ?");
    assert(text@ =~= t3 + " ORDER BY rowid LIMIT ? OFFSET ?"@);
    params.push(SqlParam::Integer(limit as i64));
    params.push(SqlParam::Integer(offset as i64));
    assert(params@ =~= card_filter_params(limit, offset, *deadline, *project_id, *section_id));
    SqlQuery { text, params }
}

/// A column of the card table that a filter tests.
pub enum CardColumn {
    Project,
    Section,
    Deadline,
}

/// One condition of the WHERE clause of a card query.
pub enum CardCondition {
    /// The card is not deleted.
    NotDeleted,
    /// The column holds the value bound to the condition's placeholder.
    Equals(CardColumn),
    /// The column holds no value.
    IsNull(CardColumn),
}

/// The name of a column in SQL.
pub open spec fn column_name(c: CardColumn) -> Seq<char> {
    match c {
        CardColumn::Project => "project_id"@,
        CardColumn::Section => "section_id"@,
        CardColumn::Deadline => "deadline"@,
    }
}

/// The SQL text of a condition.
pub open spec fn condition_text(c: CardCondition) -> Seq<char> {
    match c {
        CardCondition::NotDeleted => "deleted = 0"@,
        CardCondition::Equals(col) => column_name(col) + " = ?"@,
        CardCondition::IsNull(col) => column_name(col) + " IS NULL"@,
    }
}

/// The conditions of `cs`, in order, joined by `AND`.
pub open spec fn conjunction_text(cs: Seq<CardCondition>) -> Seq<char>
    decreases cs.len(),
{
    if cs.len() == 0 {
        Seq::empty()
    } else if cs.len() == 1 {
        condition_text(cs[0])
    } else {
        conjunction_text(cs.drop_last()) + " AND "@ + condition_text(cs.last())
    }
}

/// The value that a stored card has in a column, as SQL compares it
/// (`None` for SQL `NULL`).
pub open spec fn column_value(c: CardColumn, row: CardState) -> Option<SqlParam> {
    match c {
        CardColumn::Project => match row.project_id {
            Some(p) => Some(SqlParam::Id(p)),
            None => None,
        },
        CardColumn::Section => match row.section_id {
            Some(s) => Some(SqlParam::Id(s)),
            None => None,
        },
        CardColumn::Deadline => match row.deadline {
            Some(d) => Some(SqlParam::Instant(d)),
            None => None,
        },
    }
}

/// Whether a stored card satisfies a condition, `bound` being the value
/// bound to the condition's placeholder (if it has one).
pub open spec fn condition_holds(c: CardCondition, row: CardState, bound: SqlParam) -> bool {
    match c {
        CardCondition::NotDeleted => !row.deleted,
        CardCondition::Equals(col) => column_value(col, row) == Some(bound),
        CardCondition::IsNull(col) => column_value(col, row) is None,
    }
}

/// The number of placeholders in the conditions of `cs`.
pub open spec fn placeholder_count(cs: Seq<CardCondition>) -> nat
    decreases cs.len(),
{
    if cs.len() == 0 {
        0
    } else {
        placeholder_count(cs.drop_first()) + if cs[0] is Equals {
            1nat
        } else {
            0nat
        }
    }
}

/// Whether a stored card satisfies every condition of `cs`, the
/// placeholders taking the values of `params` in order.
pub open spec fn conditions_hold(cs: Seq<CardCondition>, row: CardState, params: Seq<SqlParam>) -> bool
    decreases cs.len(),
{
    if cs.len() == 0 {
        true
    } else if cs[0] is Equals {
        params.len() > 0 && condition_holds(cs[0], row, params[0]) && conditions_hold(
            cs.drop_first(),
            row,
            params.drop_first(),
        )
    } else {
        condition_holds(cs[0], row, SqlParam::Integer(0)) && conditions_hold(cs.drop_first(), row, params)
    }
}

/// Whether a filter keeps a row whose column holds `v` (`None` for no value).
pub open spec fn filter_keeps<T>(f: QueryFilter<T>, v: Option<T>) -> bool {
    match f {
        QueryFilter::Val(x) => v == Some(x),
        QueryFilter::Null => v is None,
        QueryFilter::Ignore => true,
    }
}

/// The condition that a filter puts on a column, if any.
pub open spec fn column_conditions<T>(col: CardColumn, f: QueryFilter<T>) -> Seq<CardCondition> {
    match f {
        QueryFilter::Val(_) => seq![CardCondition::Equals(col)],
        QueryFilter::Null => seq![CardCondition::IsNull(col)],
        QueryFilter::Ignore => Seq::empty(),
    }
}

/// The conditions of the card query: not deleted, then the project, section
/// and deadline filters.
pub open spec fn card_conditions(
    deadline: QueryFilter<UtcDateTime>,
    project_id: QueryFilter<Uuid>,
    section_id: QueryFilter<Uuid>,
) -> Seq<CardCondition> {
    seq![CardCondition::NotDeleted] + column_conditions(CardColumn::Project, project_id) + column_conditions(
        CardColumn::Section,
        section_id,
    ) + column_conditions(CardColumn::Deadline, deadline)
}

/// Conditions and placeholder values split at a point where each part
/// binds its own values.
proof fn lemma_conditions_hold_append(
    a: Seq<CardCondition>,
    b: Seq<CardCondition>,
    row: CardState,
    pa: Seq<SqlParam>,
    pb: Seq<SqlParam>,
)
    requires
        pa.len() == placeholder_count(a),
    ensures
        conditions_hold(a + b, row, pa + pb) == (conditions_hold(a, row, pa) && conditions_hold(b, row, pb)),
        placeholder_count(a + b) == placeholder_count(a) + placeholder_count(b),
    decreases a.len(),
{
    if a.len() == 0 {
        assert(a + b =~= b);
        assert(pa + pb =~= pb);
    } else {
        assert((a + b).drop_first() =~= a.drop_first() + b);
        assert((a + b)[0] == a[0]);
        if a[0] is Equals {
            assert((pa + pb).drop_first() =~= pa.drop_first() + pb);
            assert((pa + pb)[0] == pa[0]);
            lemma_conditions_hold_append(a.drop_first(), b, row, pa.drop_first(), pb);
        } else {
            lemma_conditions_hold_append(a.drop_first(), b, row, pa, pb);
        }
    }
}

/// The condition of one filter holds exactly on the rows the filter keeps.
proof fn lemma_column_conditions_hold<T>(
    col: CardColumn,
    f: QueryFilter<T>,
    g: spec_fn(T) -> SqlParam,
    v: Option<T>,
    row: CardState,
)
    requires
        column_value(col, row) == (match v {
            Some(x) => Some(g(x)),
            None => None::<SqlParam>,
        }),
        forall|x: T, y: T| #[trigger] g(x) == #[trigger] g(y) ==> x == y,
    ensures
        conditions_hold(column_conditions(col, f), row, filter_params(f, g)) == filter_keeps(f, v),
        placeholder_count(column_conditions(col, f)) == filter_params(f, g).len(),
{
    let cs = column_conditions(col, f);
    let ps = filter_params(f, g);
    let none_c = Seq::<CardCondition>::empty();
    let none_p = Seq::<SqlParam>::empty();
    assert(conditions_hold(none_c, row, none_p));
    assert(placeholder_count(none_c) == 0);
    match f {
        QueryFilter::Val(x) => {
            assert(cs.drop_first() =~= none_c);
            assert(ps.drop_first() =~= none_p);
            match v {
                Some(y) => {
                    if g(y) == g(x) {
                        assert(y == x);
                    }
                },
                None => {},
            }
        },
        QueryFilter::Null => {
            assert(cs.drop_first() =~= none_c);
            assert(ps =~= none_p);
        },
        QueryFilter::Ignore => {},
    }
}

/// Appending the condition of one filter appends its text after `AND`.
proof fn lemma_conjunction_extend<T>(cs: Seq<CardCondition>, col: CardColumn, f: QueryFilter<T>)
    requires
        cs.len() >= 1,
    ensures
        conjunction_text(cs + column_conditions(col, f)) == conjunction_text(cs) + filter_condition(
            column_name(col) + " = ?"@,
            column_name(col) + " IS NULL"@,
            f,
        ),
{
    let e = cs + column_conditions(col, f);
    match f {
        QueryFilter::Ignore => {
            assert(e =~= cs);
            assert(conjunction_text(cs) + Seq::<char>::empty() =~= conjunction_text(cs));
        },
        _ => {
            assert(e.drop_last() =~= cs);
            let c = e.last();
            assert(conjunction_text(cs) + " AND "@ + condition_text(c) =~= conjunction_text(cs) + (" AND "@
                + condition_text(c)));
        },
    }
}

/// Law: the card query selects exactly the cards that are not deleted and
/// whose project, section and deadline the filters keep (`Null` keeping only
/// a missing value), one page of them: its text is the `WHERE` clause of
/// those conditions, each placeholder of a condition is bound to the value
/// that its filter tests, and the last two values bound are the page size
/// `limit` and the number of cards skipped, `offset`.
pub proof fn lemma_card_query_selects(
    limit: u32,
    offset: u32,
    deadline: QueryFilter<UtcDateTime>,
    project_id: QueryFilter<Uuid>,
    section_id: QueryFilter<Uuid>,
    row: CardState,
)
    ensures
        card_filter_text(deadline, project_id, section_id)
            == "SELECT id, title, description, deadline, deleted, project_id, section_id FROM cards"@
            + " WHERE "@ + conjunction_text(card_conditions(deadline, project_id, section_id))
            + " ORDER BY rowid LIMIT ? OFFSET ?"@,
        conditions_hold(
            card_conditions(deadline, project_id, section_id),
            row,
            card_filter_params(limit, offset, deadline, project_id, section_id),
        ) <==> (!row.deleted && filter_keeps(project_id, row.project_id) && filter_keeps(section_id, row.section_id)
            && filter_keeps(deadline, row.deadline)),
        card_filter_params(limit, offset, deadline, project_id, section_id).len() == placeholder_count(
            card_conditions(deadline, project_id, section_id),
        ) + 2,
        card_filter_params(limit, offset, deadline, project_id, section_id).last() == SqlParam::Integer(
            offset as i64,
        ),
        card_filter_params(limit, offset, deadline, project_id, section_id)[card_filter_params(
            limit,
            offset,
            deadline,
            project_id,
            section_id,
        ).len() - 2] == SqlParam::Integer(limit as i64),
{
    let gi = |p: Uuid| SqlParam::Id(p);
    let gd = |d: UtcDateTime| SqlParam::Instant(d);
    let a0 = seq![CardCondition::NotDeleted];
    let cp = column_conditions(CardColumn::Project, project_id);
    let cs = column_conditions(CardColumn::Section, section_id);
    let cd = column_conditions(CardColumn::Deadline, deadline);
    let fp = filter_params(project_id, gi);
    let fs = filter_params(section_id, gi);
    let fd = filter_params(deadline, gd);
    let tail = seq![SqlParam::Integer(limit as i64), SqlParam::Integer(offset as i64)];
    let params = card_filter_params(limit, offset, deadline, project_id, section_id);
    // The text.
    reveal_strlit("project_id = ?");
    reveal_strlit("project_id IS NULL");
    reveal_strlit("project_id");
    reveal_strlit("section_id = ?");
    reveal_strlit("section_id IS NULL");
    reveal_strlit("section_id");
    reveal_strlit("deadline = ?");
    reveal_strlit("deadline IS NULL");
    reveal_strlit("deadline");
    reveal_strlit(" = ?");
    reveal_strlit(" IS NULL");
    assert("project_id = ?"@ =~= "project_id"@ + " = ?"@);
    assert("project_id IS NULL"@ =~= "project_id"@ + " IS NULL"@);
    assert("section_id = ?"@ =~= "section_id"@ + " = ?"@);
    assert("section_id IS NULL"@ =~= "section_id"@ + " IS NULL"@);
    assert("deadline = ?"@ =~= "deadline"@ + " = ?"@);
    assert("deadline IS NULL"@ =~= "deadline"@ + " IS NULL"@);
    assert(conjunction_text(a0) == "deleted = 0"@);
    lemma_conjunction_extend(a0, CardColumn::Project, project_id);
    lemma_conjunction_extend(a0 + cp, CardColumn::Section, section_id);
    lemma_conjunction_extend(a0 + cp + cs, CardColumn::Deadline, deadline);
    let fcp = filter_condition("project_id = ?"@, "project_id IS NULL"@, project_id);
    let fcs = filter_condition("section_id = ?"@, "section_id IS NULL"@, section_id);
    let fcd = filter_condition("deadline = ?"@, "deadline IS NULL"@, deadline);
    let head = "SELECT id, title, description, deadline, deleted, project_id, section_id FROM cards"@;
    let end = " ORDER BY rowid LIMIT ? OFFSET ?"@;
    assert(head + " WHERE "@ + "deleted = 0"@ + fcp + fcs + fcd + end =~= head + " WHERE "@ + ("deleted = 0"@
        + fcp + fcs + fcd) + end);
    // The rows kept.
    assert forall|x: Uuid, y: Uuid| #[trigger] gi(x) == #[trigger] gi(y) implies x == y by {}
    assert forall|x: UtcDateTime, y: UtcDateTime| #[trigger] gd(x) == #[trigger] gd(y) implies x == y by {}
    lemma_column_conditions_hold(CardColumn::Project, project_id, gi, row.project_id, row);
    lemma_column_conditions_hold(CardColumn::Section, section_id, gi, row.section_id, row);
    lemma_column_conditions_hold(CardColumn::Deadline, deadline, gd, row.deadline, row);
    assert(params =~= Seq::<SqlParam>::empty() + (fp + (fs + (fd + tail))));
    assert(card_conditions(deadline, project_id, section_id) =~= a0 + (cp + (cs + cd)));
    assert(a0.drop_first() =~= Seq::<CardCondition>::empty());
    assert(placeholder_count(Seq::<CardCondition>::empty()) == 0);
    assert(placeholder_count(a0) == 0);
    assert(conditions_hold(Seq::<CardCondition>::empty(), row, Seq::<SqlParam>::empty()));
    assert(conditions_hold(a0, row, Seq::<SqlParam>::empty()) == !row.deleted);
    assert(conditions_hold(Seq::<CardCondition>::empty(), row, tail));
    assert(cd + Seq::<CardCondition>::empty() =~= cd);
    lemma_conditions_hold_append(cd, Seq::<CardCondition>::empty(), row, fd, tail);
    lemma_conditions_hold_append(cs, cd, row, fs, fd + tail);
    lemma_conditions_hold_append(cp, cs + cd, row, fp, fs + (fd + tail));
    lemma_conditions_hold_append(a0, cp + (cs + cd), row, Seq::<SqlParam>::empty(), fp + (fs + (fd + tail)));
}

} // verus!
