use crate::shared::datetime::UtcDateTime;
use crate::shared::id::Uuid;
use vstd::prelude::*;

verus! {

/// A value bound to one placeholder of a query, in placeholder order.
#[derive(Debug, PartialEq, Eq, Structural)]
pub enum SqlParam {
    Id(Uuid),
    Instant(UtcDateTime),
    Integer(i64),
}

/// The text of a query and the values bound to its placeholders, in order.
#[derive(Debug)]
pub struct SqlQuery {
    pub text: String,
    pub params: Vec<SqlParam>,
}

/// The joint placed before a condition: `WHERE` before the first one, `AND`
/// before the others.
pub open spec fn clause_joint(has_where: bool) -> Seq<char> {
    if has_where {
        " AND "@
    } else {
        " WHERE "@
    }
}

/// Appends a condition to a query, after `WHERE` when it is the first
/// condition and after `AND` otherwise.
pub fn push_clause(query: &mut String, has_where: &mut bool, clause: &str)
    ensures
        final(query)@ == old(query)@ + clause_joint(*old(has_where)) + clause@,
        *final(has_where),
{
    if *has_where {
        query.append(" AND ");
    } else {
        query.append(" WHERE ");
        *has_where = true;
    }
    query.append(clause);
}

} // verus!
