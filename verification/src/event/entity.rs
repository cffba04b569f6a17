use crate::shared::datetime::UtcDateTime;
use crate::shared::id::Uuid;
use vstd::prelude::*;

verus! {

/// A dated entry of the board, optionally tied to a project.
#[derive(Debug)]
pub struct Event {
    pub id: Uuid,
    pub date: UtcDateTime,
    pub title: String,
    pub description: String,
    pub project_id: Option<Uuid>,
}

} // verus!
