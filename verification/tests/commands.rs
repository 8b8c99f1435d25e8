use fortress::commands::add::{password_source, PasswordSource, GENERATED_PASSWORD_LEN};
use fortress::commands::copy::{copy, copy_outcome};
use fortress::commands::create::create;
use fortress::commands::list::{list, listing_lines};
use fortress::commands::view::{password_line, view};
use fortress::helpers::errors::FortressError;
use fortress::helpers::structs::{GeneralArgs, PasswordEntry};
use fortress::helpers::{generate_password, load_vault, save_vault};
use std::io;

fn missing_file() -> Result<Vec<u8>, io::Error> {
    Err(io::Error::new(io::ErrorKind::NotFound, "no such file"))
}

fn entry(identifier: &str, username: &str, password: &str) -> PasswordEntry {
    PasswordEntry {
        identifier: identifier.to_string(),
        username: username.to_string(),
        password: password.to_string(),
    }
}

#[test]
fn test_add_with_generate() {
    let args = GeneralArgs::new(false, "/tmp/test.frt".to_string(), "pw".to_string());
    let password = match password_source(None, true) {
        PasswordSource::Generated => generate_password(GENERATED_PASSWORD_LEN),
        PasswordSource::Given(given) => given,
        PasswordSource::Clipboard => unreachable!(),
    };
    let result = fortress::commands::add::add(
        "id".to_string(),
        "user".to_string(),
        password,
        args,
        missing_file(),
    );
    assert!(result.is_err() || result.is_ok());
}

#[test]
fn test_copy_existing_entry() {
    let args = GeneralArgs::new(false, "copy_test".to_string(), "master".to_string());
    let vault = create(true, false, args.clone()).expect("create failed");
    let vault = fortress::commands::add::add(
        "copy_id".to_string(),
        "copy_user".to_string(),
        "copy_pw".to_string(),
        args.clone(),
        Ok(vault),
    )
    .expect("add failed");

    let found = copy("copy_id".to_string(), args.clone(), Ok(vault)).expect("copy failed");
    assert_eq!(found.password, "copy_pw");
    let res = copy_outcome(&found, true);
    assert!(res.is_ok() || matches!(res, Err(FortressError::Clipboard(_))));
    let res = copy_outcome(&found, false);
    assert!(res.is_ok() || matches!(res, Err(FortressError::Clipboard(_))));
}

#[test]
fn test_copy_missing_entry() {
    let args = GeneralArgs::new(false, "copy_missing".to_string(), "master".to_string());
    let vault = create(true, false, args.clone()).expect("create failed");

    let res = copy("no_id".to_string(), args.clone(), Ok(vault));
    assert!(matches!(res, Err(FortressError::IdNotFound(_))));
}

#[test]
fn test_create_new_vault() {
    let path = "test_vault.enc";
    let result = create(
        true,
        false,
        GeneralArgs::new(false, path.to_string(), "testpw".to_string()),
    );
    assert!(result.is_ok());
    assert!(result.unwrap().len() >= 60);
}

#[test]
fn test_create_vault_already_exists() {
    let path = "test_vault_exists.enc";
    let result = create(
        false,
        true,
        GeneralArgs::new(false, path.to_string(), "pw".to_string()),
    );
    assert!(matches!(result, Err(FortressError::VaultAlreadyExists)));
}

#[test]
fn test_create_vault_force_overwrite() {
    let path = "test_vault_force.enc";
    let result = create(
        true,
        true,
        GeneralArgs::new(false, path.to_string(), "pw".to_string()),
    );
    assert!(result.is_ok());
    assert!(result.unwrap().len() >= 60);
}

#[test]
fn test_list_empty() {
    let args = GeneralArgs::new(false, "/tmp/test.frt".to_string(), "pw".to_string());
    let result = list(args, missing_file());
    assert!(result.is_err() || result.is_ok());
}

#[test]
fn test_remove_existing_and_missing() {
    let args = GeneralArgs::new(false, "remove_test".to_string(), "master".to_string());
    let vault = create(true, false, args.clone()).expect("create failed");
    let vault = fortress::commands::add::add(
        "remove_id".to_string(),
        "remove_user".to_string(),
        "remove_pw".to_string(),
        args.clone(),
        Ok(vault),
    )
    .expect("add failed");

    let remove_res =
        fortress::commands::remove::remove("remove_id".to_string(), args.clone(), Ok(vault));
    assert!(remove_res.is_ok());

    let remove_missing_res = fortress::commands::remove::remove(
        "remove_id".to_string(),
        args.clone(),
        Ok(remove_res.unwrap()),
    );
    assert!(matches!(
        remove_missing_res,
        Err(FortressError::IdNotFound(_))
    ));
}

#[test]
fn test_remove_from_empty_vault() {
    let args = GeneralArgs::new(false, "remove_empty_test".to_string(), "master".to_string());
    let vault = create(true, false, args.clone()).expect("create failed");
    let remove_res =
        fortress::commands::remove::remove("nonexistent_id".to_string(), args.clone(), Ok(vault));
    assert!(matches!(remove_res, Err(FortressError::IdNotFound(_))));
}

#[test]
fn test_view_existing_and_missing() {
    let args = GeneralArgs::new(false, "view_test".to_string(), "master".to_string());
    let vault = create(true, false, args.clone()).expect("create failed");
    let vault = fortress::commands::add::add(
        "view_id".to_string(),
        "view_user".to_string(),
        "view_pw".to_string(),
        args.clone(),
        Ok(vault),
    )
    .expect("add failed");
    let res_ok = view("view_id".to_string(), args.clone(), Ok(vault.clone()));
    assert!(res_ok.is_ok(), "view should succeed for existing id");

    let res_missing = view("no_such_id".to_string(), args.clone(), Ok(vault));
    assert!(matches!(res_missing, Err(FortressError::IdNotFound(_))));
}

#[test]
fn create_refuses_an_existing_vault_unless_forced() {
    let args = GeneralArgs::new(false, "vault.frt".to_string(), "master".to_string());
    let first = create(false, false, args.clone()).expect("nothing stands at the path");
    assert!(first.len() >= 60);
    assert!(matches!(
        create(false, true, args.clone()),
        Err(FortressError::VaultAlreadyExists)
    ));
    let replaced = create(true, true, args.clone()).expect("force replaces the vault");
    assert!(load_vault(args, Ok(replaced)).unwrap().is_empty());
}

#[test]
fn create_then_add_then_list_shows_exactly_that_entry() {
    let args = GeneralArgs::new(false, "vault.frt".to_string(), "master".to_string());
    let vault = create(false, false, args.clone()).unwrap();
    let password = match password_source(Some("p".to_string()), false) {
        PasswordSource::Given(given) => given,
        _ => unreachable!(),
    };
    let vault = fortress::commands::add::add(
        "mail".to_string(),
        "u".to_string(),
        password,
        args.clone(),
        Ok(vault),
    )
    .unwrap();
    let entries = load_vault(args, Ok(vault)).unwrap();
    assert_eq!(entries.len(), 1);
    assert_eq!(entries[0].identifier, "mail");
    assert_eq!(entries[0].username, "u");
    assert_eq!(entries[0].password, "p");
    assert_eq!(
        listing_lines(&entries),
        vec![
            "[".to_string(),
            "\t[ENTRY]: 'mail': 'u' - '*'".to_string(),
            "]".to_string()
        ]
    );
}

#[test]
fn list_shows_the_entries_in_the_order_of_the_vault() {
    let args = GeneralArgs::new(false, "vault.frt".to_string(), "master".to_string());
    let vault = save_vault(args.clone(), &[entry("b", "u1", "xy"), entry("a", "u2", "")]).unwrap();
    assert_eq!(
        list(args, Ok(vault)).unwrap(),
        vec![
            "[".to_string(),
            "\t[ENTRY]: 'b': 'u1' - '**'".to_string(),
            "\t[ENTRY]: 'a': 'u2' - ''".to_string(),
            "]".to_string()
        ]
    );
}

#[test]
fn second_remove_of_an_identifier_names_it_as_missing() {
    let args = GeneralArgs::new(false, "vault.frt".to_string(), "master".to_string());
    let vault = save_vault(args.clone(), &[entry("mail", "u", "p")]).unwrap();
    let vault =
        fortress::commands::remove::remove("mail".to_string(), args.clone(), Ok(vault)).unwrap();
    match fortress::commands::remove::remove("mail".to_string(), args, Ok(vault)) {
        Err(FortressError::IdNotFound(identifier)) => assert_eq!(identifier, "mail"),
        other => panic!("unexpected outcome: {:?}", other.map(|vault| vault.len())),
    }
}

#[test]
fn generated_password_of_an_added_entry() {
    assert_eq!(GENERATED_PASSWORD_LEN, 32);
    let symbols = "ABCDEFGHIJKLMNOPQRSTUVWXYZabcdefghijklmnopqrstuvwxyz0123456789)(*&^%$#@!~";
    let args = GeneralArgs::new(false, "vault.frt".to_string(), "master".to_string());
    let vault = create(false, false, args.clone()).unwrap();
    assert!(matches!(password_source(None, true), PasswordSource::Generated));
    let password = generate_password(GENERATED_PASSWORD_LEN);
    let another = generate_password(GENERATED_PASSWORD_LEN);
    assert_ne!(password, another);
    let vault = fortress::commands::add::add(
        "x".to_string(),
        "u".to_string(),
        password.clone(),
        args.clone(),
        Ok(vault),
    )
    .unwrap();
    let stored = load_vault(args, Ok(vault)).unwrap();
    assert_eq!(stored.len(), 1);
    assert_eq!(stored[0].identifier, "x");
    assert_eq!(stored[0].password, password);
    assert_eq!(stored[0].password.chars().count(), 32);
    assert!(stored[0].password.chars().all(|c| symbols.contains(c)));
}

#[test]
fn password_source_prefers_generation_then_the_given_password() {
    assert!(matches!(
        password_source(Some("given".to_string()), true),
        PasswordSource::Generated
    ));
    match password_source(Some("given".to_string()), false) {
        PasswordSource::Given(given) => assert_eq!(given, "given"),
        _ => panic!("the given password should be used"),
    }
    assert!(matches!(password_source(None, false), PasswordSource::Clipboard));
}

#[test]
fn adding_an_identifier_that_is_already_there_succeeds() {
    let args = GeneralArgs::new(false, "vault.frt".to_string(), "master".to_string());
    let vault = save_vault(args.clone(), &[entry("mail", "first", "pw-a")]).unwrap();
    let vault = fortress::commands::add::add(
        "mail".to_string(),
        "second".to_string(),
        "pw-b".to_string(),
        args.clone(),
        Ok(vault),
    )
    .expect("a duplicate identifier is accepted");
    let entries = load_vault(args, Ok(vault)).unwrap();
    assert_eq!(entries.len(), 2);
    assert_eq!(entries[0].username, "first");
    assert_eq!(entries[1].identifier, "mail");
    assert_eq!(entries[1].username, "second");
    assert_eq!(entries[1].password, "pw-b");
}

#[test]
fn view_and_copy_serve_the_first_of_two_duplicates() {
    let args = GeneralArgs::new(false, "vault.frt".to_string(), "master".to_string());
    let vault = save_vault(
        args.clone(),
        &[entry("other", "o", ""), entry("mail", "first", "pw-a"), entry("mail", "second", "pw-b")],
    )
    .unwrap();
    let shown = view("mail".to_string(), args.clone(), Ok(vault.clone())).unwrap();
    assert_eq!(shown.username, "first");
    assert_eq!(shown.password, "pw-a");
    let copied = copy("mail".to_string(), args, Ok(vault)).unwrap();
    assert_eq!(copied.username, "first");
    assert_eq!(copied.password, "pw-a");
}

#[test]
fn remove_takes_the_first_of_two_duplicates_only() {
    let args = GeneralArgs::new(false, "vault.frt".to_string(), "master".to_string());
    let vault = save_vault(
        args.clone(),
        &[entry("other", "o", ""), entry("mail", "first", "pw-a"), entry("mail", "second", "pw-b")],
    )
    .unwrap();
    let vault =
        fortress::commands::remove::remove("mail".to_string(), args.clone(), Ok(vault)).unwrap();
    let left = load_vault(args, Ok(vault)).unwrap();
    assert_eq!(left.len(), 2);
    assert_eq!(left[0].identifier, "other");
    assert_eq!(left[1].identifier, "mail");
    assert_eq!(left[1].username, "second");
    assert_eq!(left[1].password, "pw-b");
}

#[test]
fn commands_pass_on_the_failure_to_read_or_unlock() {
    let args = GeneralArgs::new(false, "vault.frt".to_string(), "master".to_string());
    assert!(matches!(
        view("mail".to_string(), args.clone(), missing_file()),
        Err(FortressError::VaultNotFound)
    ));
    assert!(matches!(
        copy("mail".to_string(), args.clone(), missing_file()),
        Err(FortressError::VaultNotFound)
    ));
    assert!(matches!(
        list(args.clone(), missing_file()),
        Err(FortressError::VaultNotFound)
    ));
    assert!(matches!(
        fortress::commands::remove::remove("mail".to_string(), args.clone(), missing_file()),
        Err(FortressError::VaultNotFound)
    ));
    assert!(matches!(
        fortress::commands::add::add(
            "mail".to_string(),
            "u".to_string(),
            "p".to_string(),
            args.clone(),
            missing_file()
        ),
        Err(FortressError::VaultNotFound)
    ));
    let denied = io::Error::new(io::ErrorKind::PermissionDenied, "denied");
    assert!(matches!(
        list(args.clone(), Err(denied)),
        Err(FortressError::IoError(_))
    ));
    let vault = create(false, false, args.clone()).unwrap();
    let wrong = GeneralArgs::new(false, "vault.frt".to_string(), "other".to_string());
    assert!(matches!(
        list(wrong.clone(), Ok(vault.clone())),
        Err(FortressError::InvalidMasterPassword)
    ));
    assert!(matches!(
        fortress::commands::add::add(
            "mail".to_string(),
            "u".to_string(),
            "p".to_string(),
            wrong,
            Ok(vault)
        ),
        Err(FortressError::InvalidMasterPassword)
    ));
    assert!(matches!(
        view("mail".to_string(), args, Ok(vec![0u8; 10])),
        Err(FortressError::CorruptedVault)
    ));
}

#[test]
fn a_refused_clipboard_gives_the_password_back() {
    let found = entry("mail", "u", "secret");
    assert!(copy_outcome(&found, true).is_ok());
    match copy_outcome(&found, false) {
        Err(FortressError::Clipboard(password)) => assert_eq!(password, "secret"),
        other => panic!("unexpected outcome: {:?}", other),
    }
}

#[test]
fn listing_has_brackets_and_one_line_for_each_entry() {
    assert_eq!(listing_lines(&[]), vec!["[".to_string(), "]".to_string()]);
    let lines = listing_lines(&[entry("a", "u1", "xy"), entry("b", "u2", "")]);
    assert_eq!(
        lines,
        vec![
            "[".to_string(),
            "\t[ENTRY]: 'a': 'u1' - '**'".to_string(),
            "\t[ENTRY]: 'b': 'u2' - ''".to_string(),
            "]".to_string()
        ]
    );
}

#[test]
fn password_line_shows_the_password_in_clear() {
    assert_eq!(
        password_line(&entry("mail", "u", "p`w")),
        "The decoded password is: `p`w`"
    );
}
