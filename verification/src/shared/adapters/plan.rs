use vstd::prelude::*;

verus! {

/// How to open the SQLite database: where it is, how many connections to
/// keep, and which settings and migrations to apply once it is open.
#[derive(Debug)]
pub struct ConnectionPlan {
    pub url: String,
    pub max_connections: u32,
    pub foreign_keys: bool,
    pub wal_journal: bool,
    pub create_if_missing: bool,
    pub run_migrations: bool,
}

/// Whether the path names the in-memory database.
pub open spec fn is_memory_path(path: Seq<char>) -> bool {
    path == ":memory:"@
}

/// Whether `path` is `":memory:"`, the name of the in-memory database.
pub fn names_memory(path: &String) -> (r: bool)
    ensures
        r == is_memory_path(path@),
{
    let memory = String::from_str(":memory:");
    *path == memory
}

} // verus!
