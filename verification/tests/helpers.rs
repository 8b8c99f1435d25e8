use fortress::crypto::decrypt_database;
use fortress::helpers::errors::FortressError;
use fortress::helpers::structs::{GeneralArgs, PasswordEntry};
use fortress::helpers::{
    debug, generate_password, load_vault, password_from_indices, save_vault, CHARSET_LEN,
};
use std::io;

const SYMBOLS: &str = "ABCDEFGHIJKLMNOPQRSTUVWXYZabcdefghijklmnopqrstuvwxyz0123456789)(*&^%$#@!~";

fn entry(identifier: &str, username: &str, password: &str) -> PasswordEntry {
    PasswordEntry {
        identifier: identifier.to_string(),
        username: username.to_string(),
        password: password.to_string(),
    }
}

#[test]
fn test_generate_password_length() {
    let pw = generate_password(16);
    assert_eq!(pw.len(), 16);
}

#[test]
fn test_debug_output() {
    let args = GeneralArgs::new(true, "file".to_string(), "pw".to_string());
    debug(&args, "test message".to_string());
    // No assertion, just ensure no panic
}

#[test]
fn debug_line_only_when_verbose() {
    let verbose = GeneralArgs::new(true, "file".to_string(), "pw".to_string());
    assert_eq!(
        debug(&verbose, "test message".to_string()),
        Some("[DEBUG]: test message".to_string())
    );
    let quiet = GeneralArgs::new(false, "file".to_string(), "pw".to_string());
    assert_eq!(debug(&quiet, "test message".to_string()), None);
}

#[test]
fn generated_passwords_use_the_character_set() {
    assert_eq!(SYMBOLS.len(), CHARSET_LEN);
    for length in [0usize, 1, 32, 500] {
        let password = generate_password(length);
        assert_eq!(password.chars().count(), length);
        assert!(password.chars().all(|c| SYMBOLS.contains(c)));
    }
}

#[test]
fn generated_passwords_differ() {
    let first = generate_password(32);
    let second = generate_password(32);
    assert_ne!(first, second);
}

#[test]
fn passwords_are_spelled_from_positions() {
    assert_eq!(password_from_indices(&[]), "");
    assert_eq!(password_from_indices(&[0, 25, 26, 51, 52, 61, 62, 72]), "AZaz09)~");
    assert_eq!(password_from_indices(&[63, 64, 65, 66, 67, 68, 69, 70, 71]), "(*&^%$#@!");
    let all: Vec<usize> = (0..CHARSET_LEN).collect();
    assert_eq!(password_from_indices(&all), SYMBOLS);
}

#[test]
fn different_positions_spell_different_passwords() {
    let first: Vec<usize> = (0..32).collect();
    let mut second = first.clone();
    second[31] = 72;
    let mut third = first.clone();
    third[0] = 1;
    let one = password_from_indices(&first);
    let two = password_from_indices(&second);
    let three = password_from_indices(&third);
    assert_eq!(one, "ABCDEFGHIJKLMNOPQRSTUVWXYZabcdef");
    assert_eq!(two, "ABCDEFGHIJKLMNOPQRSTUVWXYZabcde~");
    assert_eq!(three, "BBCDEFGHIJKLMNOPQRSTUVWXYZabcdef");
    assert_eq!(password_from_indices(&first), one);
    let mut symbols: Vec<char> = SYMBOLS.chars().collect();
    symbols.sort();
    symbols.dedup();
    assert_eq!(symbols.len(), CHARSET_LEN);
}

#[test]
fn saved_vault_loads_back() {
    let args = GeneralArgs::new(false, "vault.frt".to_string(), "master".to_string());
    let entries = vec![entry("mail", "u", "p"), entry("bank", "me", "1234")];
    let vault = save_vault(args.clone(), &entries).expect("saving should succeed");
    let back = load_vault(args.clone(), Ok(vault.clone())).expect("loading should succeed");
    assert_eq!(back.len(), 2);
    assert_eq!(back[0].identifier, "mail");
    assert_eq!(back[1].identifier, "bank");
    assert_eq!(back[1].username, "me");
    assert_eq!(back[1].password, "1234");
    let direct = decrypt_database(&vault, "master").expect("decryption should succeed");
    assert_eq!(direct.len(), 2);
}

#[test]
fn loading_reports_why_it_failed() {
    let args = GeneralArgs::new(false, "vault.frt".to_string(), "master".to_string());
    let missing = io::Error::new(io::ErrorKind::NotFound, "no such file");
    assert!(matches!(
        load_vault(args.clone(), Err(missing)),
        Err(FortressError::VaultNotFound)
    ));
    let denied = io::Error::new(io::ErrorKind::PermissionDenied, "denied");
    assert!(matches!(
        load_vault(args.clone(), Err(denied)),
        Err(FortressError::IoError(_))
    ));
    assert!(matches!(
        load_vault(args.clone(), Ok(vec![1u8; 59])),
        Err(FortressError::CorruptedVault)
    ));
    assert!(matches!(
        load_vault(args.clone(), Ok(Vec::new())),
        Err(FortressError::CorruptedVault)
    ));
    let vault = save_vault(args.clone(), &[entry("mail", "u", "p")]).unwrap();
    let other = GeneralArgs::new(false, "vault.frt".to_string(), "Master".to_string());
    assert!(matches!(
        load_vault(other, Ok(vault)),
        Err(FortressError::InvalidMasterPassword)
    ));
}
