pub mod plan;
pub mod seaorm;
pub mod sqlx;
