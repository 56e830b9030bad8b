//! Locale utilities.

pub mod subtag;
