use autograph::card::queries::card_filter_query;
use autograph::project::queries::project_filter_query;
use autograph::section::queries::section_filter_query;
use autograph::shared::sql::{push_clause, SqlParam};
use autograph::{group_project_data, Card, Project, QueryFilter, Section, Uuid, UtcDateTime};

fn id(n: u128) -> Uuid {
    Uuid::from_u128(n)
}

fn card(title: &str, n: u128, project: Option<Uuid>, section: Option<Uuid>) -> Card {
    Card::save_new(Card::draft(title, project, section), id(n))
}

#[test]
fn project_query_returns_sections_and_unsectioned_cards() {
    let project = Project { id: id(1), title: "Website".to_owned() };
    let backlog = Section { id: id(10), title: "Backlog".to_owned(), project_id: id(1) };
    let progress = Section { id: id(11), title: "In Progress".to_owned(), project_id: id(1) };
    let cards = vec![
        card("Investigate bug", 100, Some(id(1)), None),
        card("Draft copy", 101, Some(id(1)), Some(id(10))),
    ];
    let data = group_project_data(project, vec![backlog, progress], cards);
    assert_eq!(data.project.title, "Website");
    assert_eq!(data.sections.len(), 2);
    assert_eq!(data.sections[0].section.title, "Backlog");
    assert_eq!(data.sections[0].cards.len(), 1);
    assert_eq!(data.sections[0].cards[0].title, "Draft copy");
    assert_eq!(data.sections[1].section.title, "In Progress");
    assert!(data.sections[1].cards.is_empty());
    assert_eq!(data.cards_without_section.len(), 1);
    assert_eq!(data.cards_without_section[0].title, "Investigate bug");
}

#[test]
fn grouping_keeps_order_and_drops_unknown_sections() {
    let project = Project { id: id(1), title: "P".to_owned() };
    let a = Section { id: id(10), title: "A".to_owned(), project_id: id(1) };
    let b = Section { id: id(11), title: "B".to_owned(), project_id: id(1) };
    let dup = Section { id: id(10), title: "A again".to_owned(), project_id: id(1) };
    let cards = vec![
        card("b1", 1, Some(id(1)), Some(id(11))),
        card("a1", 2, Some(id(1)), Some(id(10))),
        card("x", 3, Some(id(1)), Some(id(99))),
        card("a2", 4, Some(id(1)), Some(id(10))),
        card("n1", 5, Some(id(1)), None),
    ];
    let data = group_project_data(project, vec![a, b, dup], cards);
    let titles = |v: &Vec<Card>| v.iter().map(|c| c.title.clone()).collect::<Vec<_>>();
    assert_eq!(titles(&data.sections[0].cards), vec!["a1", "a2"]);
    assert_eq!(titles(&data.sections[1].cards), vec!["b1"]);
    assert!(data.sections[2].cards.is_empty());
    assert_eq!(data.sections[2].section.title, "A again");
    assert_eq!(titles(&data.cards_without_section), vec!["n1"]);
}

#[test]
fn card_filter_respects_limit_and_offset() {
    let q = card_filter_query(1, 1, &QueryFilter::Ignore, &QueryFilter::Ignore, &QueryFilter::Ignore);
    assert_eq!(
        q.text,
        "SELECT id, title, description, deadline, deleted, project_id, section_id FROM cards WHERE deleted = 0 ORDER BY rowid LIMIT ? OFFSET ?"
    );
    assert_eq!(q.params, vec![SqlParam::Integer(1), SqlParam::Integer(1)]);
}

#[test]
fn card_filter_can_filter_by_deadline() {
    let d = UtcDateTime::midnight(2026, 5, 10);
    let q = card_filter_query(100, 0, &QueryFilter::Val(d), &QueryFilter::Ignore, &QueryFilter::Ignore);
    assert!(q.text.ends_with("WHERE deleted = 0 AND deadline = ? ORDER BY rowid LIMIT ? OFFSET ?"));
    assert_eq!(q.params, vec![SqlParam::Instant(d), SqlParam::Integer(100), SqlParam::Integer(0)]);
}

#[test]
fn card_filter_orders_conditions() {
    let q = card_filter_query(
        u32::MAX,
        3,
        &QueryFilter::Null,
        &QueryFilter::Val(id(5)),
        &QueryFilter::Null,
    );
    assert!(q.text.ends_with(
        "FROM cards WHERE deleted = 0 AND project_id = ? AND section_id IS NULL AND deadline IS NULL ORDER BY rowid LIMIT ? OFFSET ?"
    ));
    assert_eq!(
        q.params,
        vec![SqlParam::Id(id(5)), SqlParam::Integer(4294967295), SqlParam::Integer(3)]
    );
}

#[test]
fn push_clause_joins_with_where_then_and() {
    let mut q = "SELECT x FROM t".to_owned();
    let mut has_where = false;
    push_clause(&mut q, &mut has_where, "a = 1");
    push_clause(&mut q, &mut has_where, "b IS NULL");
    assert_eq!(q, "SELECT x FROM t WHERE a = 1 AND b IS NULL");
    assert!(has_where);
}

#[test]
fn sections_are_filtered_by_project() {
    let q = section_filter_query(u32::MAX, 0, &QueryFilter::Val(id(7)));
    assert_eq!(
        q.text,
        "SELECT id, title, project_id FROM sections WHERE project_id = ?1 ORDER BY rowid LIMIT ?2 OFFSET ?3"
    );
    assert_eq!(
        q.params,
        vec![SqlParam::Id(id(7)), SqlParam::Integer(4294967295), SqlParam::Integer(0)]
    );
    let q = section_filter_query(2, 1, &QueryFilter::Null);
    assert!(q.text.contains("WHERE project_id IS NULL ORDER BY rowid LIMIT ?1 OFFSET ?2"));
    let q = section_filter_query(2, 1, &QueryFilter::Ignore);
    assert_eq!(q.text, "SELECT id, title, project_id FROM sections ORDER BY rowid LIMIT ?1 OFFSET ?2");
    assert_eq!(q.params, vec![SqlParam::Integer(2), SqlParam::Integer(1)]);
}

#[test]
fn project_filter_respects_limit_and_offset() {
    let q = project_filter_query(1, 1);
    assert_eq!(q.text, "SELECT id, title FROM projects ORDER BY rowid LIMIT ?1 OFFSET ?2");
    assert_eq!(q.params, vec![SqlParam::Integer(1), SqlParam::Integer(1)]);
}

#[test]
fn query_filter_default_is_ignore() {
    let f: QueryFilter<Uuid> = QueryFilter::default();
    assert!(matches!(f, QueryFilter::Ignore));
}

#[test]
fn query_filter_try_map_converts_values() {
    let f: Result<QueryFilter<u32>, String> =
        QueryFilter::Val("12").try_map(|s: &str| s.parse::<u32>().map_err(|e| e.to_string()));
    assert!(matches!(f, Ok(QueryFilter::Val(12))));
    let f: Result<QueryFilter<u32>, String> =
        QueryFilter::Val("x").try_map(|s: &str| s.parse::<u32>().map_err(|e| e.to_string()));
    assert!(f.is_err());
    let f: Result<QueryFilter<u32>, String> =
        QueryFilter::<&str>::Null.try_map(|_s: &str| -> Result<u32, String> { panic!("not called") });
    assert!(matches!(f, Ok(QueryFilter::Null)));
    let f: Result<QueryFilter<u32>, String> =
        QueryFilter::<&str>::Ignore.try_map(|_s: &str| -> Result<u32, String> { panic!("not called") });
    assert!(matches!(f, Ok(QueryFilter::Ignore)));
}

#[test]
fn drafts_of_projects_and_sections() {
    let p = Project::draft("Work");
    assert!(p.id.is_nil());
    assert_eq!(p.title, "Work");
    let s = Section::draft("Ideas", id(3));
    assert!(s.id.is_nil());
    assert_eq!(s.project_id, id(3));
    let s = Section { id: id(4), ..s }.retitled("Ready");
    assert_eq!(s.title, "Ready");
    assert_eq!(s.id, id(4));
    assert_eq!(s.project_id, id(3));
}

#[test]
fn grouping_lists_every_card_once() {
    let project = Project { id: id(1), title: "P".to_owned() };
    let sections = vec![
        Section { id: id(10), title: "A".to_owned(), project_id: id(1) },
        Section { id: id(11), title: "B".to_owned(), project_id: id(1) },
    ];
    let cards = vec![
        card("a", 1, Some(id(1)), Some(id(10))),
        card("n", 2, Some(id(1)), None),
        card("b", 3, Some(id(1)), Some(id(11))),
        card("a2", 4, Some(id(1)), Some(id(10))),
    ];
    let total = cards.len();
    let data = group_project_data(project, sections, cards);
    let listed: usize = data.sections.iter().map(|s| s.cards.len()).sum();
    assert_eq!(listed + data.cards_without_section.len(), total);
    assert!(data.sections[0].cards.iter().all(|c| c.section_id == Some(id(10))));
    assert!(data.sections[1].cards.iter().all(|c| c.section_id == Some(id(11))));
}
