use crate::shared::id::Uuid;
use vstd::prelude::*;

verus! {

/// A column of a project's board; every section belongs to one project.
#[derive(Debug)]
pub struct Section {
    pub id: Uuid,
    pub title: String,
    pub project_id: Uuid,
}

impl Section {
    /// A section that has not been stored yet (its identifier is nil).
    pub fn draft(title: &str, project_id: Uuid) -> (r: Section)
        ensures
            r.id.0 == 0,
            r.title@ == title@,
            r.project_id == project_id,
    {
        Section { id: Uuid::nil(), title: title.to_owned(), project_id }
    }

    /// The same section under a new title.
    pub fn retitled(self, title: &str) -> (r: Section)
        ensures
            r.id == self.id,
            r.title@ == title@,
            r.project_id == self.project_id,
    {
        Section { title: title.to_owned(), ..self }
    }
}

} // verus!
