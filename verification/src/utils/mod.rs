//! Text helpers shared by the parsers and the report builders.

pub mod clock;
pub mod decimal;
pub mod string_optimizer;
pub mod text;
