//! Types and helpers shared by every command: loading and saving the vault,
//! and generating passwords.

pub mod cli;
pub mod errors;
pub mod structs;

use crate::crypto::{
    aes256gcm_opened, decrypt_database, decrypted, encrypt_database, master_key,
    password_accepted, plaintext_of, sealable, sealed_vault, HEADER_LEN, MIN_VAULT_LEN, NONCE_LEN,
    SALT_LEN, TAG_LEN,
};
use crate::helpers::errors::{read_failure, FortressError};
use crate::helpers::structs::{entry_views, EntryView, GeneralArgs, PasswordEntry};
use rand::Rng;
use vstd::prelude::*;
use vstd::string::{StrSliceExecFns, StringExecFns};

verus! {

/// Number of symbols a generated password is drawn from.
pub const CHARSET_LEN: usize = 73;

/// The symbols a generated password is drawn from: letters, digits and
/// eleven punctuation marks.
pub open spec fn charset() -> Seq<char> {
    "ABCDEFGHIJKLMNOPQRSTUVWXYZabcdefghijklmnopqrstuvwxyz0123456789)(*&^%$#@!~"@
}

/// What loading a vault file with a password gives: what decrypting it
/// gives, except that a failure of the key derivation is reported as
/// `DecryptionFailed`.
pub open spec fn loaded(data: Seq<u8>, password: Seq<char>) -> Result<
    Seq<EntryView>,
    FortressError,
> {
    match decrypted(data, password) {
        Err(FortressError::EncryptionFailed) => Err(FortressError::DecryptionFailed),
        outcome => outcome,
    }
}

/// Loading a vault whose sealed part does not authenticate under the key
/// derived from the password gives `InvalidMasterPassword`: a wrong password
/// and a tampered file meet the same error, and no entry is handed out.
pub proof fn lemma_unauthentic_load(data: Seq<u8>, password: Seq<char>)
    requires
        data.len() >= MIN_VAULT_LEN,
        password_accepted(password),
        aes256gcm_opened(
            master_key(password, data.subrange(0, SALT_LEN as int)),
            data.subrange(SALT_LEN as int, HEADER_LEN as int),
            data.subrange(HEADER_LEN as int, data.len() as int),
        ) is None,
    ensures
        loaded(data, password) == Err::<Seq<EntryView>, _>(FortressError::InvalidMasterPassword),
{
}

/// `vault` is a saved form of `entries` under `password`: the vault file of
/// the entries for some salt and nonce, 60 bytes longer than their plaintext,
/// which loads back to the same entries.
pub open spec fn saved(vault: Seq<u8>, entries: Seq<EntryView>, password: Seq<char>) -> bool {
    &&& exists|salt: Seq<u8>, nonce: Seq<u8>|
        salt.len() == SALT_LEN && nonce.len() == NONCE_LEN && vault == sealed_vault(
            entries,
            password,
            salt,
            nonce,
        )
    &&& vault.len() == HEADER_LEN + plaintext_of(entries).len() + TAG_LEN
    &&& loaded(vault, password) == Ok::<_, FortressError>(entries)
}

/// Encrypts the entries under the password of `args` and returns the bytes
/// to write to the vault file, replacing what it held. Any failure to
/// encrypt is `EncryptionFailed`.
pub fn save_vault(args: GeneralArgs, entries: &[PasswordEntry]) -> (outcome: Result<
    Vec<u8>,
    FortressError,
>)
    ensures
        match outcome {
            Ok(vault) => {
                &&& sealable(entry_views(entries@), args.password@)
                &&& saved(vault@, entry_views(entries@), args.password@)
            },
            Err(error) => {
                &&& !sealable(entry_views(entries@), args.password@)
                &&& error == FortressError::EncryptionFailed
            },
        },
{
    match encrypt_database(entries, args.password.as_str()) {
        Ok(vault) => Ok(vault),
        Err(_) => Err(FortressError::EncryptionFailed),
    }
}

/// Decrypts what was read from the vault file of `args`. `read` is the
/// outcome of reading the file: a failure to read becomes the error that
/// `read_failure` gives (`VaultNotFound` for a missing file, `IoError` for
/// any other), and bytes are decrypted as `loaded` says.
pub fn load_vault(args: GeneralArgs, read: Result<Vec<u8>, std::io::Error>) -> (outcome: Result<
    Vec<PasswordEntry>,
    FortressError,
>)
    ensures
        match read {
            Ok(data) => match outcome {
                Ok(entries) => loaded(data@, args.password@) == Ok::<_, FortressError>(
                    entry_views(entries@),
                ),
                Err(error) => loaded(data@, args.password@) == Err::<Seq<EntryView>, _>(error),
            },
            Err(failure) => outcome == Err::<Vec<PasswordEntry>, _>(read_failure(failure)),
        },
{
    let data = match read {
        Ok(data) => data,
        Err(failure) => { return Err(FortressError::from(failure)); },
    };
    match decrypt_database(data.as_slice(), args.password.as_str()) {
        Ok(entries) => Ok(entries),
        Err(FortressError::EncryptionFailed) => Err(FortressError::DecryptionFailed),
        Err(error) => Err(error),
    }
}

/// The line that reports `message` when `args` asks for verbose output.
pub fn debug(args: &GeneralArgs, message: String) -> (line: Option<String>)
    ensures
        match line {
            Some(text) => args.verbose && text@ == "[DEBUG]: "@ + message@,
            None => !args.verbose,
        },
{
    if args.verbose {
        Some("[DEBUG]: ".to_owned().concat(message.as_str()))
    } else {
        None
    }
}

/// `Rng::random_range` on `rand::rng()`, for the range from 0 up to, not
/// including, `bound`: a random number in that range.
#[verifier::external_body]
fn random_below(bound: usize) -> (index: usize)
    requires
        bound > 0,
    ensures
        index < bound,
{
    rand::rng().random_range(0..bound)
}

/// The password spelled by positions in the character set.
pub open spec fn spelled(indices: Seq<usize>) -> Seq<char> {
    Seq::new(indices.len(), |i: int| charset()[indices[i] as int])
}

/// A draw of `length` positions in the character set.
pub open spec fn is_draw(indices: Seq<usize>, length: nat) -> bool {
    &&& indices.len() == length
    &&& forall|i: int| 0 <= i < indices.len() ==> (#[trigger] indices[i]) < CHARSET_LEN
}

/// The character set has `CHARSET_LEN` symbols, no two of them alike.
pub proof fn lemma_charset_distinct()
    ensures
        charset().len() == CHARSET_LEN,
        forall|i: int, j: int|
            0 <= i < j < CHARSET_LEN ==> (#[trigger] charset()[i]) != (#[trigger] charset()[j]),
{
    reveal_strlit("ABCDEFGHIJKLMNOPQRSTUVWXYZabcdefghijklmnopqrstuvwxyz0123456789)(*&^%$#@!~");
}

/// A draw of `length` positions spells a password of `length` characters,
/// each a symbol of the character set.
pub proof fn lemma_spelled_draw(indices: Seq<usize>, length: nat)
    requires
        is_draw(indices, length),
    ensures
        spelled(indices).len() == length,
        forall|i: int| 0 <= i < length ==> charset().contains(#[trigger] spelled(indices)[i]),
{
    lemma_charset_distinct();
    assert forall|i: int| 0 <= i < length implies charset().contains(
        #[trigger] spelled(indices)[i],
    ) by {
        assert(indices[i] < CHARSET_LEN);
        assert(spelled(indices)[i] == charset()[indices[i] as int]);
    }
}

/// The password is fixed by the draw alone, and two different draws spell
/// two different passwords.
pub proof fn lemma_spelled_injective(first: Seq<usize>, second: Seq<usize>)
    requires
        is_draw(first, first.len()),
        is_draw(second, second.len()),
        first != second,
    ensures
        spelled(first) != spelled(second),
{
    lemma_charset_distinct();
    if spelled(first) == spelled(second) {
        assert(first.len() == spelled(first).len());
        assert(second.len() == spelled(second).len());
        assert forall|k: int| 0 <= k < first.len() implies first[k] == second[k] by {
            assert(first[k] < CHARSET_LEN);
            assert(second[k] < CHARSET_LEN);
            assert(spelled(first)[k] == charset()[first[k] as int]);
            assert(spelled(second)[k] == charset()[second[k] as int]);
        }
        assert(first =~= second);
    }
}

/// Spells a password: one symbol of the character set for each position
/// given.
pub fn password_from_indices(indices: &[usize]) -> (password: String)
    requires
        forall|i: int| 0 <= i < indices@.len() ==> indices@[i] < CHARSET_LEN,
    ensures
        password@ == spelled(indices@),
{
    let symbols = "ABCDEFGHIJKLMNOPQRSTUVWXYZabcdefghijklmnopqrstuvwxyz0123456789)(*&^%$#@!~";
    proof {
        reveal_strlit("ABCDEFGHIJKLMNOPQRSTUVWXYZabcdefghijklmnopqrstuvwxyz0123456789)(*&^%$#@!~");
    }
    let mut password = String::new();
    let mut i: usize = 0;
    while i < indices.len()
        invariant
            i <= indices@.len(),
            symbols@ == charset(),
            symbols@.len() == CHARSET_LEN,
            forall|k: int| 0 <= k < indices@.len() ==> indices@[k] < CHARSET_LEN,
            password@ == spelled(indices@.subrange(0, i as int)),
        decreases indices@.len() - i,
    {
        let at = indices[i];
        password.append(symbols.substring_char(at, at + 1));
        assert(password@ =~= spelled(indices@.subrange(0, i + 1)));
        i += 1;
    }
    assert(indices@.subrange(0, i as int) =~= indices@);
    password
}

/// Generates a random password of the given length: the password spelled
/// by a random draw of `length` positions, so that each character is a
/// symbol of the character set.
pub fn generate_password(length: usize) -> (password: String)
    ensures
        password@.len() == length,
        forall|i: int| 0 <= i < length ==> charset().contains(#[trigger] password@[i]),
        exists|indices: Seq<usize>|
            is_draw(indices, length as nat) && password@ == #[trigger] spelled(indices),
{
    let mut indices: Vec<usize> = Vec::new();
    let mut i: usize = 0;
    while i < length
        invariant
            i <= length,
            indices@.len() == i,
            forall|k: int| 0 <= k < i ==> (#[trigger] indices@[k]) < CHARSET_LEN,
        decreases length - i,
    {
        indices.push(random_below(CHARSET_LEN));
        i += 1;
    }
    let password = password_from_indices(indices.as_slice());
    proof {
        assert(is_draw(indices@, length as nat));
        lemma_spelled_draw(indices@, length as nat);
    }
    password
}

} // verus!
