//! The names of the characters.

pub mod character_names;
