# autograph

A task board: projects hold sections, and cards sit in a project and
optionally in one of its sections. A card is never edited in place: every
change is appended to its history, and the card is whatever its history
replays to.

`src/` is the library, verified with Verus:

- `card/entity.rs`: cards, their history entries, rebuilding a card from its
  history (`Card::apply`), and storing a new or changed card
  (`save_new`, `save_update`, `mark_deleted`), which keep every stored card
  equal to what its history rebuilds.
- `card/replay.rs`, `card/changes.rs`: the model of replaying a history and
  of the entries that one version of a card adds over another, with the laws
  that connect them.
- `card/commands.rs`: where a card goes when it is given a project and a
  section.
- `project/`, `section/`, `card/queries.rs`: grouping a project's cards by
  section, and the SQL of the paged, filtered queries.
- `shared/`: identifiers, instants, errors, filters, date parsing, and the
  migration that gives legacy card rows their history.

`app/` holds what runs against SQLite (SeaORM and sqlx adapters, transactions,
migrations, async commands); it calls the library for every decision.
