//! View a specific entry in the vault.

use crate::entries::{absent, first_match, lookup_entry};
use crate::helpers::errors::{read_failure, FortressError};
use crate::helpers::structs::{entry_views, GeneralArgs, PasswordEntry};
use crate::helpers::{load_vault, loaded};
use vstd::prelude::*;
use vstd::string::StringExecFns;

verus! {

/// What looking an identifier up in a vault file gives: the first entry that
/// carries it, `IdNotFound` where none does, or the error of loading.
pub open spec fn looked_up(
    outcome: Result<PasswordEntry, FortressError>,
    identifier: Seq<char>,
    password: Seq<char>,
    read: Result<Vec<u8>, std::io::Error>,
) -> bool {
    match read {
        Ok(data) => match loaded(data@, password) {
            Ok(entries) => match outcome {
                Ok(entry) => exists|index: int| #[trigger]
                    first_match(entries, identifier, index) && entry@ == entries[index],
                Err(error) => {
                    &&& absent(entries, identifier)
                    &&& error matches FortressError::IdNotFound(missing)
                    &&& missing@ == identifier
                },
            },
            Err(failure) => outcome == Err::<PasswordEntry, _>(failure),
        },
        Err(failure) => outcome == Err::<PasswordEntry, _>(read_failure(failure)),
    }
}

/// Finds the entry to display: the first one that carries the identifier in
/// the vault that was read.
pub fn view(identifier: String, args: GeneralArgs, read: Result<Vec<u8>, std::io::Error>) -> (outcome:
    Result<PasswordEntry, FortressError>)
    ensures
        looked_up(outcome, identifier@, args.password@, read),
{
    let entries = match load_vault(args, read) {
        Ok(entries) => entries,
        Err(error) => { return Err(error); },
    };
    let outcome = lookup_entry(entries.as_slice(), identifier.as_str());
    assert(loaded(read->Ok_0@, args.password@)->Ok_0 == entry_views(entries@));
    outcome
}

/// The line that shows the password of a viewed entry in clear.
pub fn password_line(entry: &PasswordEntry) -> (line: String)
    ensures
        line@ == "The decoded password is: `"@ + entry.password@ + "`"@,
{
    let mut line = "The decoded password is: `".to_owned();
    line.append(entry.password.as_str());
    line.append("`");
    line
}

} // verus!
