//! The commands of the vault. Each takes what was read from the vault file
//! and returns what to show or what to write back; none of them performs
//! the reading or the writing.

pub mod add;
pub mod copy;
pub mod create;
pub mod list;
pub mod remove;
pub mod view;
