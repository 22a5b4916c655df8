//! A metadata registry for source-code repositories.
//!
//! The registry tracks repository ownership, collaborator lists, and named
//! branch pointers to externally stored commit content, together with a
//! separate "star" relation between users and repositories. Records live at
//! deterministic addresses derived from identity tuples, so any party holding
//! the tuple can locate a record without a central index.

pub mod address;
pub mod bytes;
pub mod errors;
pub mod laws;
pub mod repo;
pub mod slots;
pub mod star;
