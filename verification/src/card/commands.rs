use crate::section::entity::Section;
use crate::shared::error::AppErr;
use crate::shared::id::Uuid;
use vstd::prelude::*;

verus! {

/// The project and section that a card ends up in, given the project and
/// section asked for and, when a section was asked for, that section as
/// stored (`None` when there is no such section).
pub open spec fn assignment_outcome(
    project_id: Option<Uuid>,
    section_id: Option<Uuid>,
    section: Option<Section>,
) -> Result<(Option<Uuid>, Option<Uuid>), Seq<char>> {
    match section_id {
        None => Ok((project_id, None)),
        Some(sid) => match section {
            None => Err("Section does not exist"@),
            Some(sec) => if project_id is Some && project_id != Some(sec.project_id) {
                Err("Section must belong to the selected project"@)
            } else {
                Ok((Some(sec.project_id), Some(sid)))
            },
        },
    }
}

/// Decides where a card goes. Without a section the card goes to the project
/// asked for. With a section, the section must exist and, when a project was
/// asked for too, belong to it; the card then goes to that section and to the
/// section's project. `section` is the stored section with identifier
/// `section_id` (not read when `section_id` is `None`).
pub fn resolve_assignment(
    project_id: Option<Uuid>,
    section_id: Option<Uuid>,
    section: Option<&Section>,
) -> (r: Result<(Option<Uuid>, Option<Uuid>), AppErr>)
    ensures
        match assignment_outcome(project_id, section_id, match section {
            Some(s) => Some(*s),
            None => None,
        }) {
            Ok(v) => r == Ok::<(Option<Uuid>, Option<Uuid>), AppErr>(v),
            Err(m) => r matches Err(AppErr::Validation(msg)) && msg@ == m,
        },
{
    let sid = match section_id {
        None => {
            return Ok((project_id, None));
        },
        Some(sid) => sid,
    };
    let section = match section {
        None => {
            return Err(AppErr::Validation("Section does not exist".to_owned()));
        },
        Some(s) => s,
    };
    if let Some(p) = project_id {
        if p.0 != section.project_id.0 {
            return Err(AppErr::Validation("Section must belong to the selected project".to_owned()));
        }
    }
    Ok((Some(section.project_id), Some(sid)))
}

/// Law: a card placed in a section is placed in that section's project.
pub proof fn lemma_assigned_section_in_project(
    project_id: Option<Uuid>,
    section_id: Option<Uuid>,
    section: Option<Section>,
)
    requires
        assignment_outcome(project_id, section_id, section) matches Ok((_, Some(_))),
    ensures
        section matches Some(sec) && assignment_outcome(project_id, section_id, section)
            == Ok::<(Option<Uuid>, Option<Uuid>), Seq<char>>((Some(sec.project_id), section_id)),
{
}

/// Law: a request that names a section is refused when no such section is
/// stored, whatever project it names, and when it names a project other than
/// the section's. An accepted request places the card in exactly the section
/// asked for (none if none was asked for); with a section, the card goes to
/// that section's project, which is the project asked for when one was;
/// without one, it goes to the project asked for.
pub proof fn lemma_assignment_respects_request(
    project_id: Option<Uuid>,
    section_id: Option<Uuid>,
    section: Option<Section>,
)
    ensures
        section_id is Some && section is None ==> assignment_outcome(project_id, section_id, section) is Err,
        section_id is Some && section is Some && project_id is Some && project_id != Some(section.unwrap().project_id)
            ==> assignment_outcome(project_id, section_id, section) is Err,
        assignment_outcome(project_id, section_id, section) matches Ok((p, s)) ==> {
            &&& s == section_id
            &&& section_id is None ==> p == project_id
            &&& section_id is Some ==> section is Some && p == Some(section.unwrap().project_id)
            &&& project_id is Some ==> p == project_id
        },
        section_id is None ==> assignment_outcome(project_id, section_id, section) is Ok,
        section_id is Some && section is Some && (project_id is None || project_id == Some(
            section.unwrap().project_id,
        ))
            ==> assignment_outcome(project_id, section_id, section) is Ok,
{
}

} // verus!
