//! Remove a specific entry from the vault.

use crate::crypto::sealable;
use crate::entries::{absent, first_match, remove_entry};
use crate::helpers::errors::{read_failure, FortressError};
use crate::helpers::structs::GeneralArgs;
use crate::helpers::{load_vault, loaded, save_vault, saved};
use vstd::prelude::*;

verus! {

/// Removes the first entry that carries the identifier from the vault that
/// was read, and returns the bytes of the updated vault file. Where no entry
/// carries the identifier the outcome is `IdNotFound` and nothing is to be
/// written.
pub fn remove(identifier: String, args: GeneralArgs, read: Result<Vec<u8>, std::io::Error>) -> (outcome:
    Result<Vec<u8>, FortressError>)
    ensures
        match read {
            Ok(data) => match loaded(data@, args.password@) {
                Ok(entries) => if absent(entries, identifier@) {
                    outcome matches Err(FortressError::IdNotFound(missing)) && missing@
                        == identifier@
                } else {
                    exists|index: int|
                        {
                            &&& #[trigger] first_match(entries, identifier@, index)
                            &&& match outcome {
                                Ok(vault) => sealable(entries.remove(index), args.password@)
                                    && saved(vault@, entries.remove(index), args.password@),
                                Err(error) => !sealable(entries.remove(index), args.password@)
                                    && error == FortressError::EncryptionFailed,
                            }
                        }
                },
                Err(failure) => outcome == Err::<Vec<u8>, _>(failure),
            },
            Err(failure) => outcome == Err::<Vec<u8>, _>(read_failure(failure)),
        },
{
    let entries = match load_vault(args.clone(), read) {
        Ok(entries) => entries,
        Err(error) => { return Err(error); },
    };
    let updated = match remove_entry(entries, identifier.as_str()) {
        Ok(updated) => updated,
        Err(error) => { return Err(error); },
    };
    save_vault(args, updated.as_slice())
}

} // verus!
