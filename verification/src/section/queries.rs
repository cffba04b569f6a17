use crate::shared::filter::QueryFilter;
use crate::shared::id::Uuid;
use crate::shared::sql::{SqlParam, SqlQuery};
use vstd::prelude::*;

verus! {

/// The text of the section query for a project filter.
pub open spec fn section_filter_text(project_id: QueryFilter<Uuid>) -> Seq<char> {
    match project_id {
        QueryFilter::Val(_) => "SELECT id, title, project_id FROM sections WHERE project_id = ?1 ORDER BY rowid LIMIT ?2 OFFSET ?3"@,
        QueryFilter::Null => "SELECT id, title, project_id FROM sections WHERE project_id IS NULL ORDER BY rowid LIMIT ?1 OFFSET ?2"@,
        QueryFilter::Ignore => "SELECT id, title, project_id FROM sections ORDER BY rowid LIMIT ?1 OFFSET ?2"@,
    }
}

/// The values bound to the section query, in placeholder order.
pub open spec fn section_filter_params(limit: u32, offset: u32, project_id: QueryFilter<Uuid>) -> Seq<SqlParam> {
    match project_id {
        QueryFilter::Val(p) => seq![SqlParam::Id(p), SqlParam::Integer(limit as i64), SqlParam::Integer(offset as i64)],
        _ => seq![SqlParam::Integer(limit as i64), SqlParam::Integer(offset as i64)],
    }
}

/// Builds the query for one page (`limit` sections after the first
/// `offset`) of the sections whose project the filter keeps, in the order
/// they were added.
pub fn section_filter_query(limit: u32, offset: u32, project_id: &QueryFilter<Uuid>) -> (q: SqlQuery)
    ensures
        q.text@ == section_filter_text(*project_id),
        q.params@ == section_filter_params(limit, offset, *project_id),
{
    let lim = SqlParam::Integer(limit as i64);
    let off = SqlParam::Integer(offset as i64);
    match project_id {
        QueryFilter::Val(p) => SqlQuery {
            text: String::from_str(
                "SELECT id, title, project_id FROM sections WHERE project_id = ?1 ORDER BY rowid LIMIT ?2 OFFSET ?3",
            ),
            params: vec![SqlParam::Id(*p), lim, off],
        },
        QueryFilter::Null => SqlQuery {
            text: String::from_str(
                "SELECT id, title, project_id FROM sections WHERE project_id IS NULL ORDER BY rowid LIMIT ?1 OFFSET ?2",
            ),
            params: vec![lim, off],
        },
        QueryFilter::Ignore => SqlQuery {
            text: String::from_str(
                "SELECT id, title, project_id FROM sections ORDER BY rowid LIMIT ?1 OFFSET ?2",
            ),
            params: vec![lim, off],
        },
    }
}

/// Law: whatever the filter, the last two values bound to the section query
/// are the page size `limit` and then the number of sections skipped,
/// `offset`; a project filter binds its project first, and the other filters
/// bind nothing else.
pub proof fn lemma_section_query_pages(limit: u32, offset: u32, project_id: QueryFilter<Uuid>)
    ensures
        section_filter_params(limit, offset, project_id).len() >= 2,
        section_filter_params(limit, offset, project_id).last() == SqlParam::Integer(offset as i64),
        section_filter_params(limit, offset, project_id)[section_filter_params(limit, offset, project_id).len()
            - 2] == SqlParam::Integer(limit as i64),
        match project_id {
            QueryFilter::Val(p) => section_filter_params(limit, offset, project_id).len() == 3
                && section_filter_params(limit, offset, project_id)[0] == SqlParam::Id(p),
            _ => section_filter_params(limit, offset, project_id).len() == 2,
        },
{
}

} // verus!
