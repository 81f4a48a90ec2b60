//! Randomised tests: making the inputs, and keeping score.

pub mod fuzz_data;
pub mod fuzz_testing;
