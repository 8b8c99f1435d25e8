//! Add an entry to the vault.

use crate::crypto::sealable;
use crate::entries::add_entry;
use crate::helpers::errors::{read_failure, FortressError};
use crate::helpers::structs::{EntryView, GeneralArgs, PasswordEntry};
use crate::helpers::{
    charset, is_draw, lemma_spelled_draw, lemma_spelled_injective, load_vault, loaded, save_vault,
    saved, spelled,
};
use vstd::prelude::*;

verus! {

/// Length of a generated password.
pub const GENERATED_PASSWORD_LEN: usize = 32;

/// Where the password of a new entry comes from.
pub enum PasswordSource {
    /// A fresh password of `GENERATED_PASSWORD_LEN` characters is generated.
    Generated,
    /// The password was given on the command line.
    Given(String),
    /// The password is taken from the clipboard.
    Clipboard,
}

/// Decides where the password of a new entry comes from: generation wins,
/// then a password that was given, and the clipboard is the last resort.
pub fn password_source(password: Option<String>, generate: bool) -> (source: PasswordSource)
    ensures
        source == (if generate {
            PasswordSource::Generated
        } else {
            match password {
                Some(given) => PasswordSource::Given(given),
                None => PasswordSource::Clipboard,
            }
        }),
{
    if generate {
        PasswordSource::Generated
    } else {
        match password {
            Some(given) => PasswordSource::Given(given),
            None => PasswordSource::Clipboard,
        }
    }
}

/// Adds an entry at the end of the vault that was read and returns the bytes
/// of the updated vault file. Whether an entry already carries the
/// identifier is not checked.
pub fn add(
    identifier: String,
    username: String,
    password: String,
    args: GeneralArgs,
    read: Result<Vec<u8>, std::io::Error>,
) -> (outcome: Result<Vec<u8>, FortressError>)
    ensures
        match read {
            Ok(data) => match loaded(data@, args.password@) {
                Ok(entries) => {
                    let updated = entries.push(
                        EntryView {
                            identifier: identifier@,
                            username: username@,
                            password: password@,
                        },
                    );
                    match outcome {
                        Ok(vault) => sealable(updated, args.password@) && saved(
                            vault@,
                            updated,
                            args.password@,
                        ),
                        Err(error) => !sealable(updated, args.password@) && error
                            == FortressError::EncryptionFailed,
                    }
                },
                Err(failure) => outcome == Err::<Vec<u8>, _>(failure),
            },
            Err(failure) => outcome == Err::<Vec<u8>, _>(read_failure(failure)),
        },
{
    let entry = PasswordEntry { identifier, username, password };
    let entries = match load_vault(args.clone(), read) {
        Ok(entries) => entries,
        Err(error) => { return Err(error); },
    };
    let updated = add_entry(entries, entry);
    save_vault(args, updated.as_slice())
}

/// The list after an entry with a generated password was added: the entries
/// that were there, in order, then the new entry, whose password has
/// `GENERATED_PASSWORD_LEN` characters, each a symbol of the character set.
/// The password is fixed by the draw: another draw gives another list.
pub proof fn lemma_generated_entry_appended(
    entries: Seq<EntryView>,
    identifier: Seq<char>,
    username: Seq<char>,
    draw: Seq<usize>,
    other_draw: Seq<usize>,
)
    requires
        is_draw(draw, GENERATED_PASSWORD_LEN as nat),
        is_draw(other_draw, GENERATED_PASSWORD_LEN as nat),
    ensures
        ({
            let entry = EntryView { identifier, username, password: spelled(draw) };
            let other = EntryView { identifier, username, password: spelled(other_draw) };
            &&& entries.push(entry).len() == entries.len() + 1
            &&& entries.push(entry).subrange(0, entries.len() as int) == entries
            &&& entries.push(entry)[entries.len() as int] == entry
            &&& entry.password.len() == GENERATED_PASSWORD_LEN
            &&& forall|i: int|
                0 <= i < GENERATED_PASSWORD_LEN ==> charset().contains(#[trigger] entry.password[i])
            &&& draw != other_draw ==> entries.push(entry) != entries.push(other)
        }),
{
    let entry = EntryView { identifier, username, password: spelled(draw) };
    let other = EntryView { identifier, username, password: spelled(other_draw) };
    lemma_spelled_draw(draw, GENERATED_PASSWORD_LEN as nat);
    assert(entries.push(entry).subrange(0, entries.len() as int) =~= entries);
    if draw != other_draw {
        lemma_spelled_injective(draw, other_draw);
        assert(entries.push(entry)[entries.len() as int] == entry);
        assert(entries.push(other)[entries.len() as int] == other);
    }
}

} // verus!
