//! The errors a vault operation can end with, and their messages.

use vstd::prelude::*;
use vstd::std_specs::convert::FromSpecImpl;
use vstd::string::StringExecFns;

verus! {

#[verifier::external_type_specification]
#[verifier::external_body]
pub struct ExIoError(std::io::Error);

/// The different errors that can be raised by the program.
#[derive(Debug)]
pub enum FortressError {
    VaultAlreadyExists,
    VaultNotFound,
    InvalidVaultPath,
    InvalidCommand,
    DecryptionFailed,
    EncryptionFailed,
    IoError(std::io::Error),
    SerializationError(serde_json::Error),
    InvalidMasterPassword,
    CorruptedVault,
    /// No entry carries the identifier that was asked for.
    IdNotFound(String),
    /// The clipboard refused the password, which the error carries.
    Clipboard(String),
    /// Reserved: no operation checks the strength of a password.
    WeakPassword,
}

impl FortressError {
    /// The message of an error. `detail` stands for the text of the outside
    /// error that `IoError` and `SerializationError` carry; the other
    /// variants ignore it.
    pub open spec fn message(self, detail: Seq<char>) -> Seq<char> {
        match self {
            FortressError::CorruptedVault =>
                "CorruptedVault: The selected vault is corrupted or has been tampered."@,
            FortressError::InvalidMasterPassword =>
                "InvalidMasterPassword: The provided master password is incorrect."@,
            FortressError::VaultAlreadyExists =>
                "VaultAlreadyExists: The vault already exists at the specified path."@,
            FortressError::VaultNotFound =>
                "VaultNotFound: The vault file was not found at the specified path."@,
            FortressError::InvalidVaultPath =>
                "InvalidVaultPath: The specified vault path is invalid."@,
            FortressError::InvalidCommand => "InvalidCommand: The provided command is invalid."@,
            FortressError::DecryptionFailed =>
                "DecryptionFailed: Failed to decrypt the vault. Possible reasons include an incorrect master password or corrupted data."@,
            FortressError::EncryptionFailed =>
                "EncryptionFailed: Failed to encrypt the vault data."@,
            FortressError::IoError(_) => "IoError: "@ + detail,
            FortressError::SerializationError(_) => "SerializationError: "@ + detail,
            FortressError::IdNotFound(identifier) =>
                "IdNotFound: No entry with this identifier was found: "@ + identifier@,
            FortressError::Clipboard(_) =>
                "Clipboard: The password could not be copied to the clipboard."@,
            FortressError::WeakPassword => "WeakPassword: The provided password is too weak."@,
        }
    }

    /// Whether the error carries an error of the outside world, whose text
    /// is part of the message.
    pub open spec fn has_detail(self) -> bool {
        self is IoError || self is SerializationError
    }

    /// The message of this error, given the text of the outside error it
    /// carries (if any).
    pub fn describe(&self, detail: &str) -> (text: String)
        ensures
            text@ == self.message(detail@),
    {
        match self {
            FortressError::CorruptedVault =>
                "CorruptedVault: The selected vault is corrupted or has been tampered.".to_owned(),
            FortressError::InvalidMasterPassword =>
                "InvalidMasterPassword: The provided master password is incorrect.".to_owned(),
            FortressError::VaultAlreadyExists =>
                "VaultAlreadyExists: The vault already exists at the specified path.".to_owned(),
            FortressError::VaultNotFound =>
                "VaultNotFound: The vault file was not found at the specified path.".to_owned(),
            FortressError::InvalidVaultPath =>
                "InvalidVaultPath: The specified vault path is invalid.".to_owned(),
            FortressError::InvalidCommand =>
                "InvalidCommand: The provided command is invalid.".to_owned(),
            FortressError::DecryptionFailed =>
                "DecryptionFailed: Failed to decrypt the vault. Possible reasons include an incorrect master password or corrupted data.".to_owned(),
            FortressError::EncryptionFailed =>
                "EncryptionFailed: Failed to encrypt the vault data.".to_owned(),
            FortressError::IoError(_) => "IoError: ".to_owned().concat(detail),
            FortressError::SerializationError(_) => "SerializationError: ".to_owned().concat(
                detail,
            ),
            FortressError::IdNotFound(identifier) =>
                "IdNotFound: No entry with this identifier was found: ".to_owned().concat(
                    identifier.as_str(),
                ),
            FortressError::Clipboard(_) =>
                "Clipboard: The password could not be copied to the clipboard.".to_owned(),
            FortressError::WeakPassword =>
                "WeakPassword: The provided password is too weak.".to_owned(),
        }
    }

    /// The message of this error. Where the error carries an outside error,
    /// the message ends with whatever text that error prints.
    pub fn to_string(&self) -> (text: String)
        ensures
            !self.has_detail() ==> text@ == self.message(Seq::empty()),
            exists|detail: Seq<char>| text@ == self.message(detail),
    {
        match self {
            FortressError::IoError(error) => {
                let detail = error.to_string();
                self.describe(detail.as_str())
            },
            FortressError::SerializationError(error) => {
                let detail = error.to_string();
                self.describe(detail.as_str())
            },
            _ => {
                let text = self.describe("");
                proof {
                    reveal_strlit("");
                    assert(""@ =~= Seq::<char>::empty());
                }
                text
            },
        }
    }

    /// The error for a failed read of the vault file: a missing file is
    /// `VaultNotFound`, any other failure is passed on.
    pub fn from_read_failure(not_found: bool, error: std::io::Error) -> (failure: FortressError)
        ensures
            failure == (if not_found {
                FortressError::VaultNotFound
            } else {
                FortressError::IoError(error)
            }),
    {
        if not_found {
            FortressError::VaultNotFound
        } else {
            FortressError::IoError(error)
        }
    }
}

/// Whether the kind of an `std::io::Error` is `ErrorKind::NotFound`.
pub uninterp spec fn kind_is_not_found(error: std::io::Error) -> bool;

/// The error that a failed read of the vault file becomes: `VaultNotFound`
/// where the file is missing, `IoError` with the failure for any other.
pub open spec fn read_failure(error: std::io::Error) -> FortressError {
    if kind_is_not_found(error) {
        FortressError::VaultNotFound
    } else {
        FortressError::IoError(error)
    }
}

/// `std::io::Error::kind`: whether the kind is `ErrorKind::NotFound`. The
/// kind is a property of the error alone, named `kind_is_not_found`.
#[verifier::external_body]
fn io_error_is_not_found(error: &std::io::Error) -> (found: bool)
    ensures
        found == kind_is_not_found(*error),
{
    matches!(error.kind(), std::io::ErrorKind::NotFound)
}

impl From<std::io::Error> for FortressError {
    /// A missing file becomes `VaultNotFound`; any other error is carried
    /// in `IoError`.
    fn from(error: std::io::Error) -> (failure: FortressError)
        ensures
            failure == read_failure(error),
    {
        let not_found = io_error_is_not_found(&error);
        FortressError::from_read_failure(not_found, error)
    }
}

impl FromSpecImpl<std::io::Error> for FortressError {
    open spec fn obeys_from_spec() -> bool {
        true
    }

    open spec fn from_spec(error: std::io::Error) -> FortressError {
        read_failure(error)
    }
}

impl From<serde_json::Error> for FortressError {
    fn from(error: serde_json::Error) -> (failure: FortressError) {
        FortressError::SerializationError(error)
    }
}

impl FromSpecImpl<serde_json::Error> for FortressError {
    open spec fn obeys_from_spec() -> bool {
        true
    }

    open spec fn from_spec(error: serde_json::Error) -> FortressError {
        FortressError::SerializationError(error)
    }
}

} // verus!
