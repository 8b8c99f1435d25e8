//! The operations on the list of entries of an unlocked vault.
//!
//! Identifiers are lookup keys, but nothing makes them unique: adding never
//! looks for an existing entry, and looking up or removing acts on the first
//! entry that carries the identifier.

use crate::helpers::errors::FortressError;
use crate::helpers::structs::{entry_views, EntryView, PasswordEntry};
use vstd::prelude::*;

verus! {

/// No entry carries the identifier.
pub open spec fn absent(entries: Seq<EntryView>, identifier: Seq<char>) -> bool {
    forall|i: int| 0 <= i < entries.len() ==> (#[trigger] entries[i]).identifier != identifier
}

/// The entry at `index` is the first one that carries the identifier.
pub open spec fn first_match(entries: Seq<EntryView>, identifier: Seq<char>, index: int) -> bool {
    &&& 0 <= index < entries.len()
    &&& entries[index].identifier == identifier
    &&& absent(entries.subrange(0, index), identifier)
}

/// The position of the first entry that carries the identifier.
pub fn find_entry(entries: &[PasswordEntry], identifier: &str) -> (found: Option<usize>)
    ensures
        match found {
            Some(index) => first_match(entry_views(entries@), identifier@, index as int),
            None => absent(entry_views(entries@), identifier@),
        },
{
    let wanted = identifier.to_owned();
    let mut i: usize = 0;
    while i < entries.len()
        invariant
            i <= entries@.len(),
            wanted@ == identifier@,
            absent(entry_views(entries@).subrange(0, i as int), identifier@),
        decreases entries@.len() - i,
    {
        if entries[i].identifier == wanted {
            return Some(i);
        }
        proof {
            let views = entry_views(entries@);
            assert forall|k: int| 0 <= k < i + 1 implies (#[trigger] views.subrange(
                0,
                i + 1,
            )[k]).identifier != identifier@ by {
                if k < i {
                    assert(views.subrange(0, i as int)[k].identifier != identifier@);
                }
            }
        }
        i += 1;
    }
    assert(entry_views(entries@).subrange(0, i as int) =~= entry_views(entries@));
    None
}

/// Appends an entry. No existing entry is looked at: an identifier may
/// occur any number of times.
pub fn add_entry(entries: Vec<PasswordEntry>, entry: PasswordEntry) -> (updated: Vec<PasswordEntry>)
    ensures
        entry_views(updated@) == entry_views(entries@).push(entry@),
{
    let mut updated = entries;
    updated.push(entry);
    assert(entry_views(updated@) =~= entry_views(entries@).push(entry@));
    updated
}

/// Removes the first entry that carries the identifier and keeps the others
/// in order; `IdNotFound` where no entry carries it.
pub fn remove_entry(entries: Vec<PasswordEntry>, identifier: &str) -> (outcome: Result<
    Vec<PasswordEntry>,
    FortressError,
>)
    ensures
        match outcome {
            Ok(rest) => exists|index: int| #[trigger]
                first_match(entry_views(entries@), identifier@, index) && entry_views(rest@)
                    == entry_views(entries@).remove(index),
            Err(error) => {
                &&& absent(entry_views(entries@), identifier@)
                &&& error matches FortressError::IdNotFound(missing)
                &&& missing@ == identifier@
            },
        },
{
    match find_entry(entries.as_slice(), identifier) {
        Some(index) => {
            let mut rest = entries;
            rest.remove(index);
            assert(entry_views(rest@) =~= entry_views(entries@).remove(index as int));
            Ok(rest)
        },
        None => Err(FortressError::IdNotFound(identifier.to_owned())),
    }
}

/// A copy of the first entry that carries the identifier; `IdNotFound` where
/// no entry carries it.
pub fn lookup_entry(entries: &[PasswordEntry], identifier: &str) -> (outcome: Result<
    PasswordEntry,
    FortressError,
>)
    ensures
        match outcome {
            Ok(entry) => exists|index: int| #[trigger]
                first_match(entry_views(entries@), identifier@, index) && entry@ == entry_views(
                    entries@,
                )[index],
            Err(error) => {
                &&& absent(entry_views(entries@), identifier@)
                &&& error matches FortressError::IdNotFound(missing)
                &&& missing@ == identifier@
            },
        },
{
    match find_entry(entries, identifier) {
        Some(index) => Ok(entries[index].clone()),
        None => Err(FortressError::IdNotFound(identifier.to_owned())),
    }
}

/// Identifiers are not unique. After two entries with one identifier were
/// added to a list that had none with it, the first of the two is the one
/// that a lookup finds, and removing by the identifier takes that one away
/// and leaves the second.
pub proof fn lemma_duplicates_first_wins(entries: Seq<EntryView>, first: EntryView, second: EntryView)
    requires
        first.identifier == second.identifier,
        absent(entries, first.identifier),
    ensures
        first_match(entries.push(first).push(second), first.identifier, entries.len() as int),
        entries.push(first).push(second)[entries.len() as int] == first,
        entries.push(first).push(second).remove(entries.len() as int) == entries.push(second),
{
    let all = entries.push(first).push(second);
    let at = entries.len() as int;
    assert(all.subrange(0, at) =~= entries);
    assert(all.remove(at) =~= entries.push(second));
}

} // verus!
