//! A content-addressed bucket store with human-pronounceable aliases.
//!
//! A bucket is a piece of text kept under the SHA-256 of its bytes. Short
//! aliases ("slangs") point at a bucket; an alias index keeps both directions
//! of that relation in a key-value backend.
//!
//! The crate performs no I/O. Every operation is a small state machine: it
//! names the next backend command, takes the backend's reply, and either
//! names another command or is done. Whoever drives an operation carries
//! out each command and hands back the reply. What is verified is every
//! decision between two commands, the order of the commands, and, against a
//! model of the backend, what the operations do to the store as a whole.
//!
//! # What a caller must know
//!
//! * An operation sends several commands, and nothing ties them together. A
//!   command that fails ends the operation at once; the commands before it
//!   have taken effect and are not undone. A bucket may then be left with a
//!   record and no alias, or with an alias entry that its alias set does not
//!   list.
//! * Two operations that run at the same time may interleave their
//!   commands. Two callers who attach the same free alias may both pass the
//!   check and both write; the later write wins and neither is told.
//! * Creating a bucket looks nothing up. It sets the record of the content
//!   to what it was given, the public key included: a key stored by an
//!   earlier creation is replaced or removed. Then it points the derived
//!   alias at the content, whatever the alias named before.

pub mod alias;
pub mod backend;
pub mod bucket;
pub mod create;
pub mod delete;
pub mod hash;
pub mod index;
pub mod laws;
pub mod mutation;
pub mod query;
pub mod store;
