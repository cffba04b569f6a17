use crate::card::entity::Card;
use crate::section::entity::Section;
use crate::shared::id::Uuid;
use vstd::prelude::*;

verus! {

/// A project: a board that holds sections and cards.
#[derive(Debug)]
pub struct Project {
    pub id: Uuid,
    pub title: String,
}

/// A section with the cards that are in it.
#[derive(Debug)]
pub struct SectionWithCards {
    pub section: Section,
    pub cards: Vec<Card>,
}

/// A project with its sections (each with its cards) and the cards of the
/// project that are in no section.
#[derive(Debug)]
pub struct ProjectData {
    pub project: Project,
    pub sections: Vec<SectionWithCards>,
    pub cards_without_section: Vec<Card>,
}

impl Project {
    /// A project that has not been stored yet (its identifier is nil).
    pub fn draft(title: &str) -> (r: Project)
        ensures
            r.id.0 == 0,
            r.title@ == title@,
    {
        Project { id: Uuid::nil(), title: title.to_owned() }
    }
}

} // verus!
