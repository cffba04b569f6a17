use autograph::card::entity::CardHistory;
use autograph::shared::adapters::seaorm::migrator::m20260424_000002_event_source_cards::{
    legacy_card_history, parse_sqlite_datetime, LegacyCard,
};
use autograph::{Card, SeaOrmDatabaseBuilder, SqlxDatabaseBuilder, Uuid, UtcDateTime};

const CARD_ID: &str = "67e55044-10b1-426f-9247-bb680e5fe0c8";
const PROJECT_ID: &str = "a1a2a3a4-b1b2-c1c2-d1d2-d3d4d5d6d7d8";

fn legacy(deadline: Option<&str>, project: Option<&str>, section: Option<&str>, description: &str) -> LegacyCard {
    LegacyCard {
        id: CARD_ID.to_owned(),
        title: "old card".to_owned(),
        description: description.to_owned(),
        deadline: deadline.map(str::to_owned),
        project_id: project.map(str::to_owned),
        section_id: section.map(str::to_owned),
    }
}

#[test]
fn legacy_card_gets_history_that_rebuilds_it() {
    let history = legacy_card_history(legacy(
        Some("2026-05-10 00:00:00"),
        Some(PROJECT_ID),
        Some(CARD_ID),
        "details",
    ))
    .unwrap();
    let card_id = Uuid::from_u128(uuid::Uuid::parse_str(CARD_ID).unwrap().as_u128());
    let project_id = Uuid::from_u128(uuid::Uuid::parse_str(PROJECT_ID).unwrap().as_u128());
    assert_eq!(history.len(), 5);
    assert_eq!(history[0], CardHistory::CreateCard { id: card_id, title: "old card".to_owned() });
    assert_eq!(history[1], CardHistory::ChangeDescription { description: "details".to_owned() });
    assert_eq!(
        history[2],
        CardHistory::ChangeDeadline { deadline: Some(UtcDateTime::midnight(2026, 5, 10)) }
    );
    assert_eq!(history[3], CardHistory::BindProject { project_id: Some(project_id) });
    assert_eq!(history[4], CardHistory::BindSection { section_id: Some(card_id) });
    let card = Card::apply(history).unwrap();
    assert_eq!(card.description, "details");
    assert_eq!(card.project_id, Some(project_id));
}

#[test]
fn legacy_card_without_details_has_only_create() {
    let history = legacy_card_history(legacy(None, None, None, "")).unwrap();
    assert_eq!(history.len(), 1);
}

#[test]
fn legacy_card_errors_name_the_field() {
    let mut bad = legacy(None, None, None, "");
    bad.id = "nope".to_owned();
    let err = legacy_card_history(bad).unwrap_err();
    assert!(err.starts_with("Failed to parse card id during migration: "));
    let err = legacy_card_history(legacy(Some("soon"), Some("x"), None, "")).unwrap_err();
    assert_eq!(err, "Failed to parse card deadline during migration: soon");
    let err = legacy_card_history(legacy(None, Some("x"), None, "")).unwrap_err();
    assert!(err.starts_with("Failed to parse card project id during migration: "));
    let err = legacy_card_history(legacy(None, None, Some("y"), "")).unwrap_err();
    assert!(err.starts_with("Failed to parse card section id during migration: "));
}

#[test]
fn sqlite_datetimes_in_three_forms() {
    let expected = UtcDateTime {
        year: 2026,
        month: 5,
        day: 10,
        hour: 12,
        minute: 30,
        second: 0,
        nanosecond: 0,
    };
    assert_eq!(parse_sqlite_datetime("2026-05-10T14:30:00+02:00").unwrap(), expected);
    assert_eq!(parse_sqlite_datetime("2026-05-10 14:30:00 +02:00").unwrap(), expected);
    assert_eq!(parse_sqlite_datetime("2026-05-10 12:30:00").unwrap(), expected);
    assert!(parse_sqlite_datetime("10/05/2026").is_err());
}

#[test]
fn seaorm_builder_plans_memory_and_file_databases() {
    let plan = SeaOrmDatabaseBuilder::open(":memory:").migrate().connection_plan();
    assert_eq!(plan.url, "sqlite::memory:");
    assert_eq!(plan.max_connections, 1);
    assert!(plan.foreign_keys);
    assert!(!plan.wal_journal);
    assert!(plan.run_migrations);
    let plan = SeaOrmDatabaseBuilder::open("board.db").connection_plan();
    assert_eq!(plan.url, "sqlite://board.db?mode=rwc");
    assert_eq!(plan.max_connections, 4);
    assert!(plan.wal_journal);
    assert!(plan.create_if_missing);
    assert!(!plan.run_migrations);
}

#[test]
fn sqlx_builder_plans_memory_and_file_databases() {
    let plan = SqlxDatabaseBuilder::open(":memory:").connection_plan();
    assert_eq!(plan.url, "sqlite::memory:");
    assert_eq!(plan.max_connections, 1);
    assert!(!plan.create_if_missing);
    let plan = SqlxDatabaseBuilder::open("board.db").migrate().connection_plan();
    assert_eq!(plan.url, "sqlite://board.db");
    assert_eq!(plan.max_connections, 4);
    assert!(plan.run_migrations);
    assert!(plan.foreign_keys);
}
