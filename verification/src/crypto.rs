//! The cryptographic engine of the vault: key derivation, authenticated
//! encryption, and the byte layout of the vault file.
//!
//! A vault file is `salt || nonce || sealed`, where `sealed` is the AES-256-GCM
//! ciphertext of the vault's contents with its 16-byte tag, under the key that
//! Argon2id derives from the master password and the salt.

use crate::codec::{
    contents_tree, decode_contents, decoded_contents, encode_contents, lemma_contents_round_trip,
};
use crate::helpers::errors::FortressError;
use crate::helpers::structs::{entry_views, EntryView, PasswordEntry};
use crate::json::{json_parsed, json_written};
use aes_gcm::aead::{Aead, KeyInit};
use rand::RngCore;
use vstd::prelude::*;
use vstd::slice::slice_subrange;
use vstd::utf8::{encode_utf8, encode_utf8_decode_utf8, encode_utf8_valid_utf8};

verus! {

/// Length of the salt at the start of a vault file.
pub const SALT_LEN: usize = 32;

/// Length of the nonce that follows the salt.
pub const NONCE_LEN: usize = 12;

/// Length of the authentication tag that ends the sealed part.
pub const TAG_LEN: usize = 16;

/// Offset at which the sealed part starts.
pub const HEADER_LEN: usize = 44;

/// The shortest vault file: salt, nonce, and the tag of an empty plaintext.
pub const MIN_VAULT_LEN: usize = 60;

/// Argon2id memory cost, in KiB.
pub const KDF_MEMORY_KIB: u32 = 65536;

/// Argon2id number of passes.
pub const KDF_ITERATIONS: u32 = 3;

/// Argon2id degree of parallelism.
pub const KDF_LANES: u32 = 4;

/// The longest password, in bytes, that Argon2 accepts.
pub const MAX_PASSWORD_BYTES: u64 = 0xFFFF_FFFF;

/// The longest plaintext, in bytes, that AES-GCM seals.
pub const MAX_PLAINTEXT_BYTES: u64 = 0x10_0000_0000;

/// The 32-byte Argon2id hash (version 0x13) of a password under a salt, with
/// the given memory cost in KiB, number of passes and number of lanes.
pub uninterp spec fn argon2id_hash(
    password: Seq<char>,
    salt: Seq<u8>,
    memory_kib: u32,
    iterations: u32,
    lanes: u32,
) -> Seq<u8>;

/// The AES-256-GCM ciphertext of a plaintext, followed by its tag, under a
/// key and a 96-bit nonce, with no associated data.
pub uninterp spec fn aes256gcm_sealed(key: Seq<u8>, nonce: Seq<u8>, plaintext: Seq<u8>) -> Seq<u8>;

/// The plaintext that AES-256-GCM recovers from a sealed message under a key
/// and a nonce, or `None` where the tag does not authenticate the message.
pub uninterp spec fn aes256gcm_opened(key: Seq<u8>, nonce: Seq<u8>, sealed: Seq<u8>) -> Option<
    Seq<u8>,
>;

/// The cost parameters that Argon2 accepts, with a working memory that fits
/// in one allocation.
pub open spec fn kdf_costs_accepted(memory_kib: u32, iterations: u32, lanes: u32) -> bool {
    &&& 1 <= lanes <= 0xFF_FFFF
    &&& 8 * lanes <= memory_kib
    &&& memory_kib * 1024 <= isize::MAX
    &&& 1 <= iterations
}

/// `Argon2::hash_password_into`, on an `Argon2` made for Argon2id, version
/// 0x13, from `Params::new` with a 32-byte output. With accepted costs and a
/// 32-byte salt the call fails only for a password longer than
/// `MAX_PASSWORD_BYTES`; what it computes is a function of the arguments,
/// named `argon2id_hash`. The call allocates `memory_kib` KiB of working
/// memory.
#[verifier::external_body]
fn argon2id_derive(
    password: &str,
    salt: &[u8; 32],
    memory_kib: u32,
    iterations: u32,
    lanes: u32,
) -> (derived: Option<[u8; 32]>)
    requires
        kdf_costs_accepted(memory_kib, iterations, lanes),
    ensures
        derived is Some <==> encode_utf8(password@).len() <= MAX_PASSWORD_BYTES,
        derived matches Some(key) ==> key@ == argon2id_hash(
            password@,
            salt@,
            memory_kib,
            iterations,
            lanes,
        ),
{
    let params = argon2::Params::new(memory_kib, iterations, lanes, Some(32)).ok()?;
    let hasher = argon2::Argon2::new(argon2::Algorithm::Argon2id, argon2::Version::V0x13, params);
    let mut key = [0u8; 32];
    hasher.hash_password_into(password.as_bytes(), salt, &mut key).ok()?;
    Some(key)
}

/// `Aead::encrypt` of `Aes256Gcm`, with no associated data. The call
/// allocates room for the plaintext and the tag, so both must fit in one
/// allocation; it then fails only for a plaintext longer than
/// `MAX_PLAINTEXT_BYTES`. What it returns is a function of the arguments,
/// named `aes256gcm_sealed`: the ciphertext, as long as the plaintext,
/// followed by the 16-byte tag. Opened under the same key and nonce, it gives
/// the plaintext back.
#[verifier::external_body]
fn aes256gcm_encrypt(key: &[u8; 32], nonce: &[u8; 12], plaintext: &[u8]) -> (sealed: Option<
    Vec<u8>,
>)
    requires
        plaintext@.len() + TAG_LEN <= isize::MAX,
    ensures
        sealed is Some <==> plaintext@.len() <= MAX_PLAINTEXT_BYTES,
        sealed matches Some(bytes) ==> {
            &&& bytes@ == aes256gcm_sealed(key@, nonce@, plaintext@)
            &&& bytes@.len() == plaintext@.len() + TAG_LEN
            &&& aes256gcm_opened(key@, nonce@, bytes@) == Some(plaintext@)
        },
{
    let cipher = aes_gcm::Aes256Gcm::new(aes_gcm::Key::<aes_gcm::Aes256Gcm>::from_slice(key));
    cipher.encrypt(aes_gcm::Nonce::from_slice(nonce), plaintext).ok()
}

/// `Aead::decrypt` of `Aes256Gcm`, with no associated data. The outcome is a
/// function of the arguments, named `aes256gcm_opened`; a plaintext that
/// comes out is 16 bytes shorter than the sealed message.
#[verifier::external_body]
fn aes256gcm_decrypt(key: &[u8; 32], nonce: &[u8; 12], sealed: &[u8]) -> (opened: Option<Vec<u8>>)
    ensures
        match opened {
            Some(bytes) => {
                &&& aes256gcm_opened(key@, nonce@, sealed@) == Some(bytes@)
                &&& bytes@.len() + TAG_LEN == sealed@.len()
            },
            None => aes256gcm_opened(key@, nonce@, sealed@) is None,
        },
{
    let cipher = aes_gcm::Aes256Gcm::new(aes_gcm::Key::<aes_gcm::Aes256Gcm>::from_slice(key));
    cipher.decrypt(aes_gcm::Nonce::from_slice(nonce), sealed).ok()
}

/// `RngCore::fill_bytes` on `rand::rng()`: an array of random bytes. Nothing
/// is claimed of the bytes.
#[verifier::external_body]
fn random_bytes<const N: usize>() -> [u8; N] {
    let mut bytes = [0u8; N];
    rand::rng().fill_bytes(&mut bytes);
    bytes
}

/// The key that unlocks a vault: the Argon2id hash of the master password
/// under the vault's salt, with the fixed cost parameters.
pub open spec fn master_key(password: Seq<char>, salt: Seq<u8>) -> Seq<u8> {
    argon2id_hash(password, salt, KDF_MEMORY_KIB, KDF_ITERATIONS, KDF_LANES)
}

/// Whether the key derivation accepts a password: its UTF-8 encoding is at
/// most `MAX_PASSWORD_BYTES` long.
pub open spec fn password_accepted(password: Seq<char>) -> bool {
    encode_utf8(password).len() <= MAX_PASSWORD_BYTES
}

/// Derives the 256-bit master key from the password and a salt.
pub fn derive_key(password: &str, salt: &[u8; 32]) -> (derived: Result<[u8; 32], FortressError>)
    ensures
        match derived {
            Ok(key) => password_accepted(password@) && key@ == master_key(password@, salt@),
            Err(error) => !password_accepted(password@) && error
                == FortressError::EncryptionFailed,
        },
{
    match argon2id_derive(password, salt, KDF_MEMORY_KIB, KDF_ITERATIONS, KDF_LANES) {
        Some(key) => Ok(key),
        None => Err(FortressError::EncryptionFailed),
    }
}

/// The bytes of a vault file with the given parts.
pub open spec fn vault_layout(salt: Seq<u8>, nonce: Seq<u8>, sealed: Seq<u8>) -> Seq<u8> {
    salt + nonce + sealed
}

/// Lays out a vault file: salt, nonce, then the sealed contents.
pub fn encode_vault(salt: &[u8; 32], nonce: &[u8; 12], sealed: &[u8]) -> (bytes: Vec<u8>)
    ensures
        bytes@ == vault_layout(salt@, nonce@, sealed@),
{
    let mut bytes: Vec<u8> = Vec::new();
    bytes.extend_from_slice(salt.as_slice());
    bytes.extend_from_slice(nonce.as_slice());
    bytes.extend_from_slice(sealed);
    bytes
}

/// Copies `N` bytes of `data`, from offset `start` on, into an array.
fn array_from<const N: usize>(data: &[u8], start: usize) -> (bytes: [u8; N])
    requires
        start + N <= data@.len(),
    ensures
        bytes@ == data@.subrange(start as int, start + N),
{
    let mut bytes = [0u8; N];
    let len = data.len();
    let mut i: usize = 0;
    while i < N
        invariant
            i <= N,
            len == data@.len(),
            start + N <= len,
            bytes@.len() == N,
            forall|k: int| 0 <= k < i ==> bytes@[k] == data@[start + k],
        decreases N - i,
    {
        bytes[i] = data[start + i];
        i += 1;
    }
    bytes
}

/// The three parts of a vault file.
pub struct VaultParts {
    pub salt: [u8; 32],
    pub nonce: [u8; 12],
    pub sealed: Vec<u8>,
}

/// Splits a vault file into salt, nonce and sealed contents. A file shorter
/// than `MIN_VAULT_LEN` is corrupted; nothing else is checked here.
pub fn decode_vault(data: &[u8]) -> (parts: Result<VaultParts, FortressError>)
    ensures
        match parts {
            Ok(parts) => {
                &&& data@.len() >= MIN_VAULT_LEN
                &&& parts.salt@ == data@.subrange(0, SALT_LEN as int)
                &&& parts.nonce@ == data@.subrange(SALT_LEN as int, HEADER_LEN as int)
                &&& parts.sealed@ == data@.subrange(HEADER_LEN as int, data@.len() as int)
            },
            Err(error) => data@.len() < MIN_VAULT_LEN && error == FortressError::CorruptedVault,
        },
{
    if data.len() < MIN_VAULT_LEN {
        return Err(FortressError::CorruptedVault);
    }
    let salt: [u8; 32] = array_from(data, 0);
    let nonce: [u8; 12] = array_from(data, SALT_LEN);
    let sealed = vstd::slice::slice_to_vec(slice_subrange(data, HEADER_LEN, data.len()));
    Ok(VaultParts { salt, nonce, sealed })
}

/// The plaintext of a vault with the given entries: the UTF-8 bytes of the
/// JSON text written for them.
pub open spec fn plaintext_of(entries: Seq<EntryView>) -> Seq<u8> {
    encode_utf8(json_written(contents_tree(entries))->0)
}

/// Whether a list of entries can be sealed under a password: the entries
/// can be written as JSON, the key derivation accepts the password, and the
/// plaintext is not longer than AES-GCM allows and fits, with its tag, in one
/// allocation.
pub open spec fn sealable(entries: Seq<EntryView>, password: Seq<char>) -> bool {
    &&& json_written(contents_tree(entries)) is Some
    &&& password_accepted(password)
    &&& plaintext_of(entries).len() <= MAX_PLAINTEXT_BYTES
    &&& plaintext_of(entries).len() + TAG_LEN <= isize::MAX
}

/// The vault file that holds the given entries under a password, for a
/// given salt and nonce.
pub open spec fn sealed_vault(
    entries: Seq<EntryView>,
    password: Seq<char>,
    salt: Seq<u8>,
    nonce: Seq<u8>,
) -> Seq<u8> {
    vault_layout(
        salt,
        nonce,
        aes256gcm_sealed(master_key(password, salt), nonce, plaintext_of(entries)),
    )
}

/// The JSON text written for the entries parses back to their document.
pub open spec fn reads_back(entries: Seq<EntryView>) -> bool {
    json_parsed(json_written(contents_tree(entries))->0) == Some(contents_tree(entries))
}

/// What was sealed under a key and a nonce is 16 bytes longer than the
/// plaintext and opens, under the same key and nonce, to the plaintext.
pub open spec fn opens_back(key: Seq<u8>, nonce: Seq<u8>, plaintext: Seq<u8>) -> bool {
    &&& aes256gcm_sealed(key, nonce, plaintext).len() == plaintext.len() + TAG_LEN
    &&& aes256gcm_opened(key, nonce, aes256gcm_sealed(key, nonce, plaintext)) == Some(plaintext)
}

/// What decrypting a vault file with a password gives:
/// - `CorruptedVault` for a file shorter than `MIN_VAULT_LEN`, before any
///   key is derived;
/// - `EncryptionFailed` where the key derivation refuses the password;
/// - `InvalidMasterPassword` where the sealed part does not authenticate
///   under the derived key, be it for a wrong password or for tampering;
/// - otherwise what `decoded_contents` reads from the plaintext.
pub open spec fn decrypted(data: Seq<u8>, password: Seq<char>) -> Result<
    Seq<EntryView>,
    FortressError,
> {
    if data.len() < MIN_VAULT_LEN {
        Err(FortressError::CorruptedVault)
    } else if !password_accepted(password) {
        Err(FortressError::EncryptionFailed)
    } else {
        let salt = data.subrange(0, SALT_LEN as int);
        let nonce = data.subrange(SALT_LEN as int, HEADER_LEN as int);
        let sealed = data.subrange(HEADER_LEN as int, data.len() as int);
        match aes256gcm_opened(master_key(password, salt), nonce, sealed) {
            Some(plaintext) => decoded_contents(plaintext),
            None => Err(FortressError::InvalidMasterPassword),
        }
    }
}

/// Round trip. Take entries that can be sealed under a password, a salt and
/// a nonce, and let the JSON text of the entries read back and their sealed
/// plaintext open back, as `serde_json` and AES-GCM make them do. Then the
/// vault file of the entries decrypts, under the same password, to the same
/// entries in the same order.
pub proof fn lemma_round_trip(
    entries: Seq<EntryView>,
    password: Seq<char>,
    salt: Seq<u8>,
    nonce: Seq<u8>,
)
    requires
        salt.len() == SALT_LEN,
        nonce.len() == NONCE_LEN,
        sealable(entries, password),
        reads_back(entries),
        opens_back(master_key(password, salt), nonce, plaintext_of(entries)),
    ensures
        decrypted(sealed_vault(entries, password, salt, nonce), password) == Ok::<
            _,
            FortressError,
        >(entries),
{
    let text = json_written(contents_tree(entries))->0;
    let body = aes256gcm_sealed(master_key(password, salt), nonce, plaintext_of(entries));
    let vault = sealed_vault(entries, password, salt, nonce);
    assert(vault.subrange(0, SALT_LEN as int) =~= salt);
    assert(vault.subrange(SALT_LEN as int, HEADER_LEN as int) =~= nonce);
    assert(vault.subrange(HEADER_LEN as int, vault.len() as int) =~= body);
    encode_utf8_valid_utf8(text);
    encode_utf8_decode_utf8(text);
    lemma_contents_round_trip(entries);
}

/// Encrypts the entries under the master password with the given salt and
/// nonce. The vault that comes out is 60 bytes longer than the plaintext and
/// decrypts, under the same password, to the same entries in the same order.
pub fn seal_database(
    entries: &[PasswordEntry],
    master_password: &str,
    salt: &[u8; 32],
    nonce: &[u8; 12],
) -> (sealed: Result<Vec<u8>, FortressError>)
    ensures
        sealed is Ok <==> sealable(entry_views(entries@), master_password@),
        match sealed {
            Ok(vault) => {
                &&& vault@ == sealed_vault(
                    entry_views(entries@),
                    master_password@,
                    salt@,
                    nonce@,
                )
                &&& vault@.len() == HEADER_LEN + plaintext_of(entry_views(entries@)).len()
                    + TAG_LEN
                &&& decrypted(vault@, master_password@) == Ok::<_, FortressError>(
                    entry_views(entries@),
                )
            },
            Err(error) => if json_written(contents_tree(entry_views(entries@))) is None {
                error is SerializationError
            } else {
                error == FortressError::EncryptionFailed
            },
        },
{
    let text = match encode_contents(entries) {
        Ok(text) => text,
        Err(error) => { return Err(error); },
    };
    let plaintext = text.as_str().as_bytes();
    let key = match derive_key(master_password, salt) {
        Ok(key) => key,
        Err(error) => { return Err(error); },
    };
    if plaintext.len() > (isize::MAX as usize) - TAG_LEN {
        return Err(FortressError::EncryptionFailed);
    }
    let body = match aes256gcm_encrypt(&key, nonce, plaintext) {
        Some(body) => body,
        None => { return Err(FortressError::EncryptionFailed); },
    };
    let vault = encode_vault(salt, nonce, body.as_slice());
    proof {
        lemma_round_trip(entry_views(entries@), master_password@, salt@, nonce@);
    }
    Ok(vault)
}

/// Encrypts the entries under the master password, with a fresh random salt
/// and a fresh random nonce. The vault that comes out is 60 bytes longer than
/// the plaintext and decrypts, under the same password, to the same entries
/// in the same order.
pub fn encrypt_database(entries: &[PasswordEntry], master_password: &str) -> (encrypted: Result<
    Vec<u8>,
    FortressError,
>)
    ensures
        encrypted is Ok <==> sealable(entry_views(entries@), master_password@),
        match encrypted {
            Ok(vault) => {
                &&& exists|salt: Seq<u8>, nonce: Seq<u8>|
                    salt.len() == SALT_LEN && nonce.len() == NONCE_LEN && vault@ == sealed_vault(
                        entry_views(entries@),
                        master_password@,
                        salt,
                        nonce,
                    )
                &&& vault@.len() == HEADER_LEN + plaintext_of(entry_views(entries@)).len()
                    + TAG_LEN
                &&& decrypted(vault@, master_password@) == Ok::<_, FortressError>(
                    entry_views(entries@),
                )
            },
            Err(error) => if json_written(contents_tree(entry_views(entries@))) is None {
                error is SerializationError
            } else {
                error == FortressError::EncryptionFailed
            },
        },
{
    let salt: [u8; 32] = random_bytes();
    let nonce: [u8; 12] = random_bytes();
    seal_database(entries, master_password, &salt, &nonce)
}

/// Decrypts a vault file with the master password: the entries it holds, in
/// order, or the error that `decrypted` gives.
pub fn decrypt_database(encrypted_data: &[u8], master_password: &str) -> (outcome: Result<
    Vec<PasswordEntry>,
    FortressError,
>)
    ensures
        match outcome {
            Ok(entries) => decrypted(encrypted_data@, master_password@) == Ok::<_, FortressError>(
                entry_views(entries@),
            ),
            Err(error) => decrypted(encrypted_data@, master_password@) == Err::<Seq<EntryView>, _>(
                error,
            ),
        },
        encrypted_data@.len() < MIN_VAULT_LEN ==> outcome == Err::<Vec<PasswordEntry>, _>(
            FortressError::CorruptedVault,
        ),
{
    let parts = match decode_vault(encrypted_data) {
        Ok(parts) => parts,
        Err(error) => { return Err(error); },
    };
    let key = match derive_key(master_password, &parts.salt) {
        Ok(key) => key,
        Err(error) => { return Err(error); },
    };
    let plaintext = match aes256gcm_decrypt(&key, &parts.nonce, parts.sealed.as_slice()) {
        Some(plaintext) => plaintext,
        None => { return Err(FortressError::InvalidMasterPassword); },
    };
    decode_contents(plaintext.as_slice())
}

/// A vault whose sealed part does not authenticate under the key derived
/// from the password is answered with `InvalidMasterPassword`, whatever the
/// reason: a wrong password and a tampered file are not told apart.
pub proof fn lemma_unauthentic_is_invalid_password(data: Seq<u8>, password: Seq<char>)
    requires
        data.len() >= MIN_VAULT_LEN,
        password_accepted(password),
        aes256gcm_opened(
            master_key(password, data.subrange(0, SALT_LEN as int)),
            data.subrange(SALT_LEN as int, HEADER_LEN as int),
            data.subrange(HEADER_LEN as int, data.len() as int),
        ) is None,
    ensures
        decrypted(data, password) == Err::<Seq<EntryView>, _>(FortressError::InvalidMasterPassword),
{
}

/// A byte sequence shorter than `MIN_VAULT_LEN` is a corrupted vault under
/// every password.
pub proof fn lemma_truncated_is_corrupted(data: Seq<u8>, password: Seq<char>)
    requires
        data.len() < MIN_VAULT_LEN,
    ensures
        decrypted(data, password) == Err::<Seq<EntryView>, _>(FortressError::CorruptedVault),
{
}

} // verus!
