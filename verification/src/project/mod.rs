pub mod entity;
pub mod queries;
