pub mod changes;
pub mod commands;
pub mod entity;
pub mod queries;
pub mod replay;
