//! The exchange format's keys.

pub mod good;
