//! Rendering and validation for archive restore commands of a write-ahead log.
//!
//! A restore command is an operator-supplied template. The templater fills its
//! placeholders with the values of one restore attempt; the restorer's rules
//! decide, from what the command and the file system reported, whether the
//! fetched segment can be handed on.

pub mod laws;
pub mod path;
pub mod restore;
pub mod template;
pub mod text;
