use autograph::card::changes::history_changes;
use autograph::{resolve_assignment, AppErr, Card, CardHistory, Section, Uuid, UtcDateTime};

fn id(n: u128) -> Uuid {
    Uuid::from_u128(n)
}

fn new_card(title: &str, n: u128) -> Card {
    Card::save_new(Card::draft(title, None, None), id(n))
}

fn section(n: u128, title: &str, project: Uuid) -> Section {
    Section { id: id(n), title: title.to_owned(), project_id: project }
}

fn add_with_assignment(
    title: &str,
    project_id: Option<Uuid>,
    section_id: Option<Uuid>,
    stored_section: Option<&Section>,
    n: u128,
) -> Result<Card, AppErr> {
    let (p, s) = resolve_assignment(project_id, section_id, stored_section)?;
    Ok(Card::save_new(Card::draft(title, p, s), id(n)))
}

fn edit(card: Card, title: &str, description: &str, deadline: Option<UtcDateTime>, p: Option<Uuid>, s: Option<Uuid>) -> Card {
    let stored = card.clone();
    let edited = card.edited(title, description, deadline, p, s);
    Card::save_update(&stored, edited)
}

#[test]
fn add_single_card() {
    let card = new_card("buy milk", 7);
    assert_eq!(card.id, id(7));
    assert_eq!(card.title, "buy milk");
    assert_eq!(card.description, "");
    assert_eq!(card.deadline, None);
    assert!(!card.deleted);
    assert_eq!(card.project_id, None);
    assert_eq!(card.section_id, None);
    assert_eq!(
        card.history,
        vec![CardHistory::CreateCard { id: card.id, title: "buy milk".to_owned() }]
    );
}

#[test]
fn delete_marks_card_deleted_and_hides_it_from_queries() {
    let card = new_card("card", 1).mark_deleted();
    assert!(card.deleted);
    assert_eq!(card.history.last(), Some(&CardHistory::DeleteCard));
}

#[test]
fn delete_twice_is_noop() {
    let card = new_card("card", 1).mark_deleted().mark_deleted();
    assert!(card.deleted);
    assert_eq!(card.history.len(), 2);
}

#[test]
fn edit_updates_card_fields() {
    let card = new_card("draft", 3);
    let deadline = UtcDateTime::midnight(2026, 5, 10);
    let card = edit(card, "final title", "expanded card details", Some(deadline), None, None);
    assert_eq!(card.title, "final title");
    assert_eq!(card.description, "expanded card details");
    assert_eq!(card.deadline.map(|d| d.date()), Some((2026, 5, 10)));
    assert_eq!(card.project_id, None);
    assert_eq!(card.section_id, None);
    assert_eq!(card.history.len(), 4);
    assert_eq!(card.history[0], CardHistory::CreateCard { id: id(3), title: "draft".to_owned() });
    assert_eq!(card.history[1], CardHistory::ChangeTitle { title: "final title".to_owned() });
    assert_eq!(
        card.history[2],
        CardHistory::ChangeDescription { description: "expanded card details".to_owned() }
    );
    assert_eq!(card.history[3], CardHistory::ChangeDeadline { deadline: Some(deadline) });
}

#[test]
fn add_card_with_section_assigns_project_and_section() {
    let project = id(100);
    let today = section(200, "Today", project);
    let card = add_with_assignment("fix bug", Some(project), Some(today.id), Some(&today), 1).unwrap();
    assert_eq!(card.title, "fix bug");
    assert_eq!(card.project_id, Some(project));
    assert_eq!(card.section_id, Some(today.id));
    assert_eq!(card.history.len(), 3);
}

#[test]
fn add_card_rejects_section_from_another_project() {
    let project_a = id(100);
    let project_b = id(101);
    let doing = section(200, "Doing", project_a);
    let err = add_with_assignment("wrong place", Some(project_b), Some(doing.id), Some(&doing), 1)
        .unwrap_err();
    assert!(err.to_string().contains("Section must belong to the selected project"));
}

#[test]
fn add_card_rejects_missing_section() {
    let err = add_with_assignment("lost", None, Some(id(9)), None, 1).unwrap_err();
    assert_eq!(err.to_string(), "validation error: Section does not exist");
}

#[test]
fn section_without_project_puts_card_in_the_section_project() {
    let project = id(100);
    let later = section(200, "Later", project);
    assert_eq!(
        resolve_assignment(None, Some(later.id), Some(&later)).unwrap(),
        (Some(project), Some(later.id))
    );
    assert_eq!(resolve_assignment(Some(project), None, None).unwrap(), (Some(project), None));
    assert_eq!(resolve_assignment(None, None, Some(&later)).unwrap(), (None, None));
}

#[test]
fn edit_card_can_move_between_project_and_section() {
    let project = id(100);
    let later = section(200, "Later", project);
    let card = add_with_assignment("prepare notes", Some(project), None, None, 1).unwrap();
    let (p, s) = resolve_assignment(Some(project), Some(later.id), Some(&later)).unwrap();
    let card = edit(card, "prepare notes", "", None, p, s);
    assert_eq!(card.section_id, Some(later.id));
    let (p, s) = resolve_assignment(Some(project), None, None).unwrap();
    let card = edit(card, "prepare notes", "", None, p, s);
    assert_eq!(card.project_id, Some(project));
    assert_eq!(card.section_id, None);
    assert_eq!(card.history.last(), Some(&CardHistory::BindSection { section_id: None }));
}

#[test]
fn deleting_section_keeps_cards_in_project() {
    let project = id(100);
    let soon = section(200, "Soon", project);
    let card = add_with_assignment("ship release", Some(project), Some(soon.id), Some(&soon), 1).unwrap();
    let stored = card.clone();
    let card = Card::save_update(&stored, card.detached_from_section());
    assert_eq!(card.project_id, Some(project));
    assert_eq!(card.section_id, None);
    assert_eq!(card.history.last(), Some(&CardHistory::BindSection { section_id: None }));
}

#[test]
fn full_workflow() {
    let cards: Vec<Card> = ["buy groceries", "write tests", "deploy app"]
        .iter()
        .enumerate()
        .map(|(i, t)| new_card(t, i as u128 + 1))
        .collect();
    let middle = edit(
        cards[1].clone(),
        "write tests thoroughly",
        "cover card history rebuilds",
        None,
        None,
        None,
    );
    let last = cards[2].clone().mark_deleted();
    assert_eq!(cards[0].title, "buy groceries");
    assert_eq!(cards[0].description, "");
    assert!(!cards[0].deleted);
    assert_eq!(middle.title, "write tests thoroughly");
    assert_eq!(middle.description, "cover card history rebuilds");
    assert_eq!(middle.deadline, None);
    assert!(!middle.deleted);
    assert_eq!(middle.history.len(), 3);
    assert!(last.deleted);
}

#[test]
fn apply_rebuilds_a_saved_card() {
    let deadline = UtcDateTime::midnight(2026, 5, 11);
    let card = edit(new_card("a", 5), "b", "c", Some(deadline), Some(id(8)), Some(id(9))).mark_deleted();
    let rebuilt = Card::apply(card.history.clone()).unwrap();
    assert_eq!(rebuilt, card);
}

#[test]
fn apply_unbinding_project_clears_section() {
    let history = vec![
        CardHistory::CreateCard { id: id(1), title: "t".to_owned() },
        CardHistory::BindProject { project_id: Some(id(2)) },
        CardHistory::BindSection { section_id: Some(id(3)) },
        CardHistory::BindProject { project_id: None },
    ];
    let card = Card::apply(history).unwrap();
    assert_eq!(card.project_id, None);
    assert_eq!(card.section_id, None);
}

#[test]
fn apply_rejects_empty_history() {
    match Card::apply(vec![]) {
        Err(AppErr::Validation(m)) => assert_eq!(m, "Card history does not contain a CreateCard event"),
        other => panic!("unexpected {:?}", other),
    }
}

#[test]
fn apply_rejects_history_without_leading_create() {
    let history = vec![
        CardHistory::ChangeTitle { title: "x".to_owned() },
        CardHistory::CreateCard { id: id(1), title: "t".to_owned() },
    ];
    match Card::apply(history) {
        Err(AppErr::Validation(m)) => assert_eq!(m, "Card history must start with a CreateCard event"),
        other => panic!("unexpected {:?}", other),
    }
}

#[test]
fn apply_rejects_second_create() {
    let history = vec![
        CardHistory::CreateCard { id: id(1), title: "t".to_owned() },
        CardHistory::DeleteCard,
        CardHistory::CreateCard { id: id(2), title: "u".to_owned() },
    ];
    match Card::apply(history) {
        Err(AppErr::Validation(m)) => {
            assert_eq!(m, "Card history contains more than one CreateCard event")
        }
        other => panic!("unexpected {:?}", other),
    }
}

#[test]
fn unchanged_card_adds_no_history() {
    let card = new_card("same", 1);
    let stored = card.clone();
    let saved = Card::save_update(&stored, card);
    assert_eq!(saved.history.len(), 1);
    assert!(history_changes(&stored, &saved).is_empty());
}

#[test]
fn history_changes_follow_field_order() {
    let before = new_card("a", 1);
    let after = before.clone().edited("b", "d", Some(UtcDateTime::midnight(2020, 1, 2)), Some(id(4)), Some(id(5)));
    let after = after.mark_deleted();
    let events = history_changes(&before, &after);
    assert_eq!(
        events,
        vec![
            CardHistory::ChangeTitle { title: "b".to_owned() },
            CardHistory::ChangeDescription { description: "d".to_owned() },
            CardHistory::ChangeDeadline { deadline: Some(UtcDateTime::midnight(2020, 1, 2)) },
            CardHistory::BindProject { project_id: Some(id(4)) },
            CardHistory::BindSection { section_id: Some(id(5)) },
            CardHistory::DeleteCard,
        ]
    );
}

#[test]
fn unbinding_project_does_not_repeat_section_unbinding() {
    let card = Card::save_new(Card::draft("t", Some(id(2)), Some(id(3))), id(1));
    let stored = card.clone();
    let moved = card.edited("t", "", None, None, None);
    let events = history_changes(&stored, &moved);
    assert_eq!(events, vec![CardHistory::BindProject { project_id: None }]);
}

#[test]
fn app_err_messages() {
    assert_eq!(AppErr::Parse("p".to_owned()).to_string(), "parse error: p");
    assert_eq!(AppErr::Validation("v".to_owned()).to_string(), "validation error: v");
    let db = AppErr::from(sea_orm::DbErr::Custom("boom".to_owned()));
    assert!(db.to_string().starts_with("database error: "));
    assert!(db.to_string().contains("boom"));
}

#[test]
fn ids_are_unique_after_delete() {
    let first = new_card("first", 1).mark_deleted();
    let second = new_card("second", 2);
    assert_ne!(first.id, second.id);
    assert!(Uuid::nil().is_nil());
    assert!(!second.id.is_nil());
    assert_eq!(Uuid::from_u128(5).as_u128(), 5);
}
