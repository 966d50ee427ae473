//! Ownership-scoped journal records stored at deterministic addresses.
//!
//! A record pairs a short title with a longer message and remembers the
//! identity that created it. The storage address of a record is derived
//! from its title and its owner, so the pair `(title, owner)` acts as the
//! primary key: the title can never change without moving the record, and
//! only the owner may update or delete it.

pub mod addressing;
pub mod errors;
pub mod journal;
pub mod laws;
pub mod record;
pub mod store;
pub mod validator;
