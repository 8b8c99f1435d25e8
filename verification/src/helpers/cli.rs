//! The command line as plain values: what was asked for, before anything is
//! read or written.

use crate::helpers::structs::GeneralArgs;
use vstd::prelude::*;

verus! {

/// The parsed command line.
pub struct Cli {
    /// The command to run
    pub command: Option<Commands>,
    /// Enable verbose output
    pub verbose: bool,
    /// The vault file path
    pub file: Option<String>,
    /// Get the master password from stdin instead of prompting for it
    pub stdin: bool,
}

/// The commands of the command line.
pub enum Commands {
    /// Create a new vault
    Create {
        /// Overwrite the vault if it already exists
        force: bool,
    },
    /// Add a new entry to the vault
    Add {
        /// The identifier for the entry
        identifier: String,
        /// The username for the entry
        username: String,
        /// Generate a new password
        generate: bool,
        /// Direct password input
        password: Option<String>,
    },
    /// List all entries in the vault
    List {},
}

/// The vault path used when the command line names none.
pub open spec fn default_vault_path() -> Seq<char> {
    "/tmp/vault.frt"@
}

impl Cli {
    /// The command to run: the one given, or `List` when none was given.
    pub fn selected(self) -> (command: Commands)
        ensures
            command == (match self.command {
                Some(given) => given,
                None => Commands::List {  },
            }),
    {
        match self.command {
            Some(given) => given,
            None => Commands::List {  },
        }
    }

    /// The context of this invocation, once the master password is known.
    /// The vault path is the one given, or the default path.
    pub fn general_args(&self, password: String) -> (args: GeneralArgs)
        ensures
            args.verbose == self.verbose,
            args.password == password,
            args.file@ == (match self.file {
                Some(path) => path@,
                None => default_vault_path(),
            }),
    {
        let file = match &self.file {
            Some(path) => path.clone(),
            None => "/tmp/vault.frt".to_owned(),
        };
        GeneralArgs::new(self.verbose, file, password)
    }
}

} // verus!
