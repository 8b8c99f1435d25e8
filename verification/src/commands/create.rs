//! Create a new vault.

use crate::crypto::sealable;
use crate::helpers::errors::FortressError;
use crate::helpers::structs::{entry_views, EntryView, GeneralArgs, PasswordEntry};
use crate::helpers::{save_vault, saved};
use vstd::prelude::*;

verus! {

/// Creates a new, empty vault and returns the bytes of its file.
/// `exists` tells whether a file already stands at the vault path: then the
/// vault is created only if `force` is set, and replaces that file.
pub fn create(force: bool, exists: bool, args: GeneralArgs) -> (outcome: Result<
    Vec<u8>,
    FortressError,
>)
    ensures
        match outcome {
            Ok(vault) => {
                &&& force || !exists
                &&& sealable(Seq::<EntryView>::empty(), args.password@)
                &&& saved(vault@, Seq::<EntryView>::empty(), args.password@)
            },
            Err(error) => if exists && !force {
                error == FortressError::VaultAlreadyExists
            } else {
                &&& !sealable(Seq::<EntryView>::empty(), args.password@)
                &&& error == FortressError::EncryptionFailed
            },
        },
{
    if exists && !force {
        Err(FortressError::VaultAlreadyExists)
    } else {
        let empty_entries: Vec<PasswordEntry> = Vec::new();
        assert(entry_views(empty_entries@) =~= Seq::<EntryView>::empty());
        save_vault(args, empty_entries.as_slice())
    }
}

} // verus!
