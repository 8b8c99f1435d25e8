//! List all entries in the vault.

use crate::helpers::errors::{read_failure, FortressError};
use crate::helpers::structs::{entry_views, EntryView, GeneralArgs, PasswordEntry};
use crate::helpers::{load_vault, loaded};
use vstd::prelude::*;
use vstd::string::StringExecFns;

verus! {

/// The lines of a listing: an opening bracket, one indented line for each
/// entry in the order of the vault, and a closing bracket.
pub open spec fn listing(entries: Seq<EntryView>) -> Seq<Seq<char>> {
    Seq::new(
        (entries.len() + 2) as nat,
        |i: int|
            if i == 0 {
                "["@
            } else if i <= entries.len() {
                "\t"@ + entries[i - 1].line()
            } else {
                "]"@
            },
    )
}

/// What a list of strings holds, string by string.
pub open spec fn texts(lines: Seq<String>) -> Seq<Seq<char>> {
    Seq::new(lines.len(), |i: int| lines[i]@)
}

/// The lines that show the given entries.
pub fn listing_lines(entries: &[PasswordEntry]) -> (lines: Vec<String>)
    ensures
        texts(lines@) == listing(entry_views(entries@)),
{
    let mut lines: Vec<String> = Vec::new();
    lines.push("[".to_owned());
    let mut i: usize = 0;
    while i < entries.len()
        invariant
            i <= entries@.len(),
            lines@.len() == i + 1,
            lines@[0]@ == "["@,
            forall|k: int| 1 <= k <= i ==> (#[trigger] lines@[k])@ == "\t"@ + entries@[k - 1]@.line(),
        decreases entries@.len() - i,
    {
        let mut line = "\t".to_owned();
        line.append(entries[i].to_string().as_str());
        lines.push(line);
        i += 1;
    }
    lines.push("]".to_owned());
    assert(texts(lines@) =~= listing(entry_views(entries@)));
    lines
}

/// The lines that show every entry of the vault that was read, in the order
/// of the vault.
pub fn list(args: GeneralArgs, read: Result<Vec<u8>, std::io::Error>) -> (outcome: Result<
    Vec<String>,
    FortressError,
>)
    ensures
        match read {
            Ok(data) => match outcome {
                Ok(lines) => loaded(data@, args.password@) matches Ok(entries) && texts(lines@)
                    == listing(entries),
                Err(error) => loaded(data@, args.password@) == Err::<Seq<EntryView>, _>(error),
            },
            Err(failure) => outcome == Err::<Vec<String>, _>(read_failure(failure)),
        },
{
    let entries = match load_vault(args, read) {
        Ok(entries) => entries,
        Err(error) => { return Err(error); },
    };
    Ok(listing_lines(entries.as_slice()))
}

} // verus!
