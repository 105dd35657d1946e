//! Days until the OpenPGP keys published for a set of email addresses expire.
//!
//! The crate holds the decisions of a polling plugin: where a key is looked
//! up, what a directory's reply means, which expiration is the soonest, and
//! how the answers are laid out for the collector. Network and file access
//! are left to the caller, which hands replies in as plain values.

pub mod batch;
pub mod cli;
pub mod directory;
pub mod evaluator;
pub mod failure;
pub mod fieldname;
pub mod formatter;
pub mod outcome;
pub mod settings;
pub mod store;
pub mod text;
pub mod time;
