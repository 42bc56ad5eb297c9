//! Verified core of a small viewer for encrypted password databases.
//!
//! The library scans directory listings for database files, opens a selected
//! file's bytes with a master password through the `keepass` decoder, and
//! flattens the decoded group tree into a list of display-ready records whose
//! titles carry the full navigation path from the root group.

pub mod errors;
pub mod store;
pub mod tree;
