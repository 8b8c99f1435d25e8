//! Copy the password of a specific entry in the vault.

use crate::commands::view::{looked_up, view};
use crate::helpers::errors::FortressError;
use crate::helpers::structs::{GeneralArgs, PasswordEntry};
use vstd::prelude::*;

verus! {

/// Finds the entry whose password is to be copied: the first one that
/// carries the identifier in the vault that was read.
pub fn copy(identifier: String, args: GeneralArgs, read: Result<Vec<u8>, std::io::Error>) -> (outcome:
    Result<PasswordEntry, FortressError>)
    ensures
        looked_up(outcome, identifier@, args.password@, read),
{
    view(identifier, args, read)
}

/// How a copy ends, once the clipboard was asked to take the password of
/// `entry`: `placed` tells whether it took it. A clipboard that refused
/// gives `Clipboard` with the password.
pub fn copy_outcome(entry: &PasswordEntry, placed: bool) -> (outcome: Result<(), FortressError>)
    ensures
        match outcome {
            Ok(_) => placed,
            Err(error) => {
                &&& !placed
                &&& error matches FortressError::Clipboard(password)
                &&& password@ == entry.password@
            },
        },
{
    if placed {
        Ok(())
    } else {
        Err(FortressError::Clipboard(entry.password.clone()))
    }
}

} // verus!
