//! Task board domain: projects, sections and cards whose state is rebuilt
//! from an append-only history, with the query plans and parsing rules that
//! the storage adapters follow.

pub mod card;
pub mod event;
pub mod project;
pub mod section;
pub mod shared;

pub use card::commands::resolve_assignment;
pub use card::entity::{Card, CardHistory};
pub use event::entity::Event;
pub use project::entity::{Project, ProjectData, SectionWithCards};
pub use project::queries::group_project_data;
pub use section::entity::Section;
pub use shared::datetime::UtcDateTime;
pub use shared::error::AppErr;
pub use shared::filter::QueryFilter;
pub use shared::id::Uuid;
pub use shared::adapters::seaorm::database::SeaOrmDatabaseBuilder;
pub use shared::adapters::sqlx::database::SqlxDatabaseBuilder;
