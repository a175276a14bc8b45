pub mod seele;
pub mod types;
