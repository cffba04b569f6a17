use crate::shared::adapters::plan::{is_memory_path, names_memory, ConnectionPlan};
use vstd::prelude::*;

verus! {

/// Collects how the SeaORM-backed database is to be opened.
#[derive(Debug)]
pub struct SeaOrmDatabaseBuilder {
    path: String,
    run_migrations: bool,
}

impl SeaOrmDatabaseBuilder {
    /// The path of the database file (or `":memory:"`).
    pub closed spec fn spec_path(&self) -> Seq<char> {
        self.path@
    }

    /// Whether the schema migrations are run once the database is open.
    pub closed spec fn spec_runs_migrations(&self) -> bool {
        self.run_migrations
    }

    /// Starts a builder for the database at `path`, without migrations.
    pub fn open(path: &str) -> (r: Self)
        ensures
            r.spec_path() == path@,
            !r.spec_runs_migrations(),
    {
        SeaOrmDatabaseBuilder { path: path.to_owned(), run_migrations: false }
    }

    /// The same builder, with the migrations to be run.
    pub fn migrate(self) -> (r: Self)
        ensures
            r.spec_path() == self.spec_path(),
            r.spec_runs_migrations(),
    {
        SeaOrmDatabaseBuilder { run_migrations: true, ..self }
    }

    /// How to open the database: the in-memory database (`":memory:"`) with
    /// a single connection, or the file at the path, created when missing,
    /// with four connections and a write-ahead journal; foreign keys are
    /// always enforced.
    pub fn connection_plan(&self) -> (p: ConnectionPlan)
        ensures
            p.url@ == if is_memory_path(self.spec_path()) {
                "sqlite::memory:"@
            } else {
                "sqlite://"@ + self.spec_path() + "?mode=rwc"@
            },
            p.max_connections == if is_memory_path(self.spec_path()) { 1u32 } else { 4u32 },
            p.foreign_keys,
            p.wal_journal == !is_memory_path(self.spec_path()),
            p.create_if_missing == !is_memory_path(self.spec_path()),
            p.run_migrations == self.spec_runs_migrations(),
    {
        let is_memory = names_memory(&self.path);
        let url = if is_memory {
            String::from_str("sqlite::memory:")
        } else {
            let mut url = String::from_str("sqlite://");
            url.append(self.path.as_str());
            url.append("?mode=rwc");
            url
        };
        ConnectionPlan {
            url,
            max_connections: if is_memory { 1 } else { 4 },
            foreign_keys: true,
            wal_journal: !is_memory,
            create_if_missing: !is_memory,
            run_migrations: self.run_migrations,
        }
    }
}

} // verus!
