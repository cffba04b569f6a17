pub mod database;
pub mod migrator;
