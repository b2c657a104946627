//! Activity ledger: entries that reference tags by position, a registry of
//! uniquely named and colored tags, and the allocator that picks tag colors.

pub mod color;
pub mod config;
pub mod entry;
pub mod tags;
pub mod error;
pub mod ledger;
pub mod screen;
pub mod session;
pub mod text;
