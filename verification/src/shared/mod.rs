pub mod adapters;
pub mod datetime;
pub mod error;
pub mod filter;
pub mod id;
pub mod parsing;
pub mod sql;
pub mod text;
pub mod utils;
