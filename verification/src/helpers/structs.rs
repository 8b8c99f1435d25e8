//! The credential entry and the per-invocation context.

use vstd::prelude::*;
use vstd::string::StringExecFns;
use vstd::utf8::encode_utf8;

verus! {

/// One credential record of the vault.
pub struct PasswordEntry {
    pub identifier: String,
    pub username: String,
    pub password: String,
}

/// What a `PasswordEntry` holds, as sequences of characters.
pub ghost struct EntryView {
    pub identifier: Seq<char>,
    pub username: Seq<char>,
    pub password: Seq<char>,
}

impl View for PasswordEntry {
    type V = EntryView;

    open spec fn view(&self) -> EntryView {
        EntryView {
            identifier: self.identifier@,
            username: self.username@,
            password: self.password@,
        }
    }
}

/// A run of `count` asterisks.
pub open spec fn stars(count: nat) -> Seq<char> {
    Seq::new(count, |i: int| '*')
}

impl EntryView {
    /// The line that shows an entry: identifier and username in full, and
    /// one asterisk for each byte of the password.
    pub open spec fn line(self) -> Seq<char> {
        "[ENTRY]: '"@ + self.identifier + "': '"@ + self.username + "' - '"@ + stars(
            encode_utf8(self.password).len(),
        ) + "'"@
    }
}

impl PasswordEntry {
    /// The line that shows this entry, with the password masked.
    pub fn to_string(&self) -> (line: String)
        ensures
            line@ == self@.line(),
    {
        let mut line = "[ENTRY]: '".to_owned();
        line.append(self.identifier.as_str());
        line.append("': '");
        line.append(self.username.as_str());
        line.append("' - '");
        let ghost shown = line@;
        let count = self.password.as_str().as_bytes().len();
        let mut i: usize = 0;
        while i < count
            invariant
                i <= count,
                line@ == shown + stars(i as nat),
            decreases count - i,
        {
            line.append("*");
            proof {
                reveal_strlit("*");
                assert(line@ =~= shown + stars((i + 1) as nat));
            }
            i += 1;
        }
        line.append("'");
        assert(line@ =~= self@.line());
        line
    }
}

/// What a list of entries holds, entry by entry.
pub open spec fn entry_views(entries: Seq<PasswordEntry>) -> Seq<EntryView> {
    Seq::new(entries.len(), |i: int| entries[i]@)
}

impl Clone for PasswordEntry {
    fn clone(&self) -> (copy: Self)
        ensures
            copy == *self,
    {
        PasswordEntry {
            identifier: self.identifier.clone(),
            username: self.username.clone(),
            password: self.password.clone(),
        }
    }
}

/// The context of one invocation: verbosity, vault path and master password.
pub struct GeneralArgs {
    pub verbose: bool,
    pub file: String,
    pub password: String,
}

impl Clone for GeneralArgs {
    fn clone(&self) -> (copy: Self)
        ensures
            copy == *self,
    {
        GeneralArgs {
            verbose: self.verbose,
            file: self.file.clone(),
            password: self.password.clone(),
        }
    }
}

impl GeneralArgs {
    pub fn new(verbose: bool, file: String, password: String) -> (args: Self)
        ensures
            args.verbose == verbose,
            args.file == file,
            args.password == password,
    {
        GeneralArgs { verbose, file, password }
    }
}

} // verus!
