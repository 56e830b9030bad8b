//! Font independent text analysis support for shaping and layout.
//!
//! The library groups a run of characters of one script into shaping
//! clusters. Every character is annotated with Unicode properties by the
//! caller; the table lookup that produces those properties lives outside
//! this crate and reaches it as a plain [`unicode::Record`].

pub mod cluster;
pub mod locale;
pub mod paragraph;
pub mod unicode;
