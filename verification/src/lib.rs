//! A local secret store: one encrypted vault file that holds a list of
//! credential entries and is unlocked by a single master password.
//!
//! The library never touches the file system, the terminal or the clipboard.
//! Every operation takes the bytes that were read and returns the bytes to
//! write, so that its whole behaviour is stated in its contracts.

pub mod codec;
pub mod commands;
pub mod crypto;
pub mod entries;
pub mod helpers;
pub mod json;

