use ollama_controls_api::auth::{
    enroll, generate_strong_api_key, has_user, hash_api_key, hash_api_key_with_salt,
    key_hash_for_username, normalize_username, resolve_username_for_api_key, settle_entry,
    verify_api_key, AuthenticatedUser, EntryVerdict, KeyEntry, KeyStoreData, KeyStoreError,
    KEYSTORE_VERSION,
};
use ollama_controls_api::encoding::api_key_text;
use ollama_controls_api::hashing::too_many_lanes;

fn entry(username: &str, key_hash: &str) -> KeyEntry {
    KeyEntry {
        username: username.to_owned(),
        key_hash: key_hash.to_owned(),
    }
}

fn refusal(raw: &str) -> String {
    match normalize_username(raw) {
        Err(KeyStoreError::InvalidUsername(why)) => why,
        other => panic!("{other:?}"),
    }
}

const PASSWORD_HASH: &str =
    "$argon2id$v=19$m=65536,t=2,p=1$c29tZXNhbHQ$CTFhFdXPJO1aFaMaO6Mm5c8y7cJHAph8ArZWb2GRPPc";

#[test]
fn resolve_username_for_api_key_matches() {
    let mut data = KeyStoreData::empty();
    let k = generate_strong_api_key();
    let h = hash_api_key(&k).unwrap();
    data.entries.push(KeyEntry {
        username: "bob".into(),
        key_hash: h,
    });
    assert_eq!(
        resolve_username_for_api_key(&data, &k).unwrap(),
        Some("bob".into())
    );
    assert_eq!(resolve_username_for_api_key(&data, "wrong").unwrap(), None);
}

#[test]
fn verify_round_trip_hash() {
    let key = generate_strong_api_key();
    let h = hash_api_key(&key).unwrap();
    assert!(verify_api_key(&key, &h).unwrap());
    assert!(!verify_api_key("wrong", &h).unwrap());
}

#[test]
fn normalize_username_accepts_expected_chars() {
    assert_eq!(normalize_username(" alice_1 ").unwrap(), "alice_1");
    assert!(normalize_username("bad name").is_err());
}

#[test]
fn usernames_are_refused_with_a_reason() {
    assert_eq!(refusal(""), "username must not be empty");
    assert_eq!(refusal(" \t\u{3000}"), "username must not be empty");
    assert_eq!(
        refusal("bad name"),
        "username may only contain ASCII letters, digits, '.', '_', and '-'"
    );
    assert_eq!(
        refusal("\u{e9}"),
        "username may only contain ASCII letters, digits, '.', '_', and '-'"
    );
    assert_eq!(
        refusal(&"a".repeat(129)),
        "username must be at most 128 characters"
    );
}

#[test]
fn the_length_of_a_username_is_taken_after_trimming_and_in_bytes() {
    let longest = "Z".repeat(128);
    assert_eq!(
        normalize_username(&format!("  {longest} ")).unwrap(),
        longest
    );
    assert_eq!(
        refusal(&"\u{e9}".repeat(65)),
        "username must be at most 128 characters"
    );
}

#[test]
fn all_username_characters_are_accepted() {
    let all = "abcdefghijklmnopqrstuvwxyzABCDEFGHIJKLMNOPQRSTUVWXYZ0123456789._-";
    assert_eq!(normalize_username(all).unwrap(), all);
    for c in ['/', ':', '@', '[', '`', '{', '+', ',', '\u{131}'] {
        assert!(normalize_username(&format!("a{c}b")).is_err());
    }
}

#[test]
fn a_normalized_username_stays_as_it_is() {
    let once = normalize_username("\n a.b-c \t").unwrap();
    assert_eq!(once, "a.b-c");
    assert_eq!(normalize_username(&once).unwrap(), once);
}

#[test]
fn lookups_take_the_first_record_of_the_normalized_name() {
    let mut data = KeyStoreData::empty();
    data.entries.push(entry("ann", "h1"));
    data.entries.push(entry("bob", "h2"));
    data.entries.push(entry("bob", "h3"));
    assert_eq!(key_hash_for_username(&data, " bob "), Some("h2"));
    assert_eq!(key_hash_for_username(&data, "bob"), Some("h2"));
    assert_eq!(key_hash_for_username(&data, "ann"), Some("h1"));
    assert_eq!(key_hash_for_username(&data, "Ann"), None);
    assert_eq!(key_hash_for_username(&data, "not a name"), None);
}

#[test]
fn an_empty_keystore_has_nothing_but_a_version() {
    let data = KeyStoreData::empty();
    assert_eq!(data.version, 1);
    assert_eq!(data.version, KEYSTORE_VERSION);
    assert!(data.entries.is_empty());
    assert_eq!(resolve_username_for_api_key(&data, "x").unwrap(), None);
    assert_eq!(key_hash_for_username(&data, "x"), None);
}

#[test]
fn users_are_enrolled_once_and_others_stay() {
    let data = enroll(KeyStoreData::empty(), "ann".to_owned(), Ok("h1".to_owned())).unwrap();
    let data = enroll(data, "bob".to_owned(), Ok("h2".to_owned())).unwrap();
    assert_eq!(data.version, KEYSTORE_VERSION);
    assert_eq!(data.entries, vec![entry("ann", "h1"), entry("bob", "h2")]);
    assert!(has_user(&data, "ann"));
    assert!(!has_user(&data, "carol"));
    assert_eq!(key_hash_for_username(&data, "bob"), Some("h2"));
    match enroll(data.clone(), "ann".to_owned(), Ok("h3".to_owned())) {
        Err(KeyStoreError::DuplicateUsername(u)) => assert_eq!(u, "ann"),
        other => panic!("{other:?}"),
    }
    let failed = enroll(
        data,
        "carol".to_owned(),
        Err(KeyStoreError::EmptyPassphrase),
    );
    assert!(matches!(failed, Err(KeyStoreError::EmptyPassphrase)));
}

#[test]
fn entries_are_settled_by_the_check() {
    let e = entry("ann", "h");
    assert!(matches!(
        settle_entry(&e, Ok(false)),
        EntryVerdict::Continue
    ));
    match settle_entry(&e, Ok(true)) {
        EntryVerdict::Found(name) => assert_eq!(name, "ann"),
        other => panic!("{other:?}"),
    }
    assert!(matches!(
        settle_entry(&e, Err(KeyStoreError::EmptyPassphrase)),
        EntryVerdict::Failed(KeyStoreError::EmptyPassphrase)
    ));
}

#[test]
fn the_first_record_that_a_key_does_not_miss_decides() {
    let mine = hash_api_key("mine").unwrap();
    let mut data = KeyStoreData::empty();
    data.entries
        .push(entry("other", &hash_api_key("theirs").unwrap()));
    data.entries.push(entry("first", &mine));
    data.entries.push(entry("second", &mine));
    data.entries.push(entry("broken", "no hash"));
    assert_eq!(
        resolve_username_for_api_key(&data, "mine").unwrap(),
        Some("first".to_owned())
    );
    assert!(matches!(
        resolve_username_for_api_key(&data, "unknown"),
        Err(KeyStoreError::PasswordHash(_))
    ));
}

#[test]
fn adding_a_user_keeps_keys_that_are_decided() {
    let data = enroll(KeyStoreData::empty(), "ann".to_owned(), hash_api_key("k1")).unwrap();
    let more = enroll(data.clone(), "bob".to_owned(), hash_api_key("k2")).unwrap();
    assert_eq!(
        resolve_username_for_api_key(&data, "k1").unwrap(),
        Some("ann".to_owned())
    );
    assert_eq!(
        resolve_username_for_api_key(&more, "k1").unwrap(),
        Some("ann".to_owned())
    );
    assert_eq!(resolve_username_for_api_key(&data, "k2").unwrap(), None);
    assert_eq!(
        resolve_username_for_api_key(&more, "k2").unwrap(),
        Some("bob".to_owned())
    );
}

#[test]
fn a_known_hash_is_verified_by_its_secret_alone() {
    assert!(verify_api_key("password", PASSWORD_HASH).unwrap());
    assert!(!verify_api_key("sassword", PASSWORD_HASH).unwrap());
    assert!(!verify_api_key(PASSWORD_HASH, PASSWORD_HASH).unwrap());
}

#[test]
fn a_malformed_hash_is_an_error() {
    match verify_api_key("x", "no hash") {
        Err(e) => assert!(e.message().starts_with("password hash error: ")),
        Ok(r) => panic!("{r}"),
    }
    assert!(matches!(
        verify_api_key("x", ""),
        Err(KeyStoreError::PasswordHash(_))
    ));
}

#[test]
fn a_hash_holds_its_parameters_and_salt() {
    let h = hash_api_key_with_salt("secret", "c29tZXNhbHRzb21lc2FsdA").unwrap();
    let head = "$argon2id$v=19$m=19456,t=2,p=1$c29tZXNhbHRzb21lc2FsdA$";
    assert!(h.starts_with(head));
    assert_eq!(h.len(), head.len() + 43);
    assert_eq!(
        hash_api_key_with_salt("secret", "c29tZXNhbHRzb21lc2FsdA").unwrap(),
        h
    );
    assert_ne!(
        hash_api_key_with_salt("Secret", "c29tZXNhbHRzb21lc2FsdA").unwrap(),
        h
    );
    assert!(verify_api_key("secret", &h).unwrap());
    assert!(matches!(
        hash_api_key_with_salt("secret", "not a salt"),
        Err(KeyStoreError::PasswordHash(_))
    ));
}

#[test]
fn two_hashes_of_one_secret_have_different_salts() {
    let a = hash_api_key("secret").unwrap();
    let b = hash_api_key("secret").unwrap();
    assert_ne!(a, b);
    assert!(a.starts_with("$argon2id$"));
    assert!(b.starts_with("$argon2id$"));
    assert_ne!(a, "secret");
    let salt = a.split('$').nth(4).unwrap();
    assert_eq!(salt.len(), 22);
    assert!(verify_api_key("secret", &a).unwrap());
    assert!(verify_api_key("secret", &b).unwrap());
}

#[test]
fn a_hash_with_too_many_lanes_belongs_to_no_secret() {
    let asks = |lanes: &str| format!("$argon2id$v=19$m=65536,t=2,p={lanes}$c29tZXNhbHQ$CTFhFdXPJO1aFaMaO6Mm5c8y7cJHAph8ArZWb2GRPPc");
    assert!(too_many_lanes(&asks("536870912")));
    assert!(too_many_lanes(&asks("4294967295")));
    assert!(!too_many_lanes(&asks("536870911")));
    assert!(!too_many_lanes(&asks("1")));
    assert!(!too_many_lanes(""));
    assert!(!too_many_lanes("p=536870912"));
    assert!(too_many_lanes("$p=536870912"));
    assert!(!too_many_lanes("$p=536870912,p=1"));
    assert!(!verify_api_key("password", &asks("536870912")).unwrap());
    assert!(!verify_api_key("password", &asks("16777216")).unwrap());
}

#[test]
fn an_api_key_is_base64_that_is_safe_in_urls() {
    assert_eq!(
        api_key_text(&[0u8; 32]),
        "AAAAAAAAAAAAAAAAAAAAAAAAAAAAAAAAAAAAAAAAAAA"
    );
    assert_eq!(
        api_key_text(&[0xffu8; 32]),
        "__________________________________________8"
    );
    let mut bytes = [0u8; 32];
    for (i, b) in bytes.iter_mut().enumerate() {
        *b = i as u8;
    }
    assert_eq!(
        api_key_text(&bytes),
        "AAECAwQFBgcICQoLDA0ODxAREhMUFRYXGBkaGxwdHh8"
    );
    let mut plus = [0u8; 32];
    plus[0] = 0xf8;
    assert!(api_key_text(&plus).starts_with("-AAA"));
}

#[test]
fn an_api_key_is_not_its_own_hash() {
    let key = generate_strong_api_key();
    assert_ne!(hash_api_key(&key).unwrap(), key);
    assert!(!key.contains('$'));
}

#[test]
fn different_bytes_make_different_api_keys() {
    let mut other = [7u8; 32];
    other[31] = 6;
    assert_ne!(api_key_text(&[7u8; 32]), api_key_text(&other));
}

#[test]
fn generated_keys_are_fresh_and_long() {
    let a = generate_strong_api_key();
    let b = generate_strong_api_key();
    assert_ne!(a, b);
    assert_eq!(a.len(), 43);
    assert!(a
        .chars()
        .all(|c| c.is_ascii_alphanumeric() || c == '-' || c == '_'));
}

#[test]
fn entries_are_compared_by_both_fields() {
    assert_eq!(entry("a", "h"), entry("a", "h"));
    assert_ne!(entry("a", "h"), entry("b", "h"));
    assert_ne!(entry("a", "h"), entry("a", "g"));
    assert_eq!(entry("a", "h").clone(), entry("a", "h"));
    let user = AuthenticatedUser {
        username: "ann".to_owned(),
    };
    assert_eq!(user.clone().username, "ann");
}

#[test]
fn errors_have_messages() {
    assert_eq!(
        KeyStoreError::InvalidUsername("why".to_owned()).message(),
        "invalid username: why"
    );
    assert_eq!(
        KeyStoreError::DuplicateUsername("ann".to_owned()).message(),
        "username `ann` already has a key in this keystore"
    );
    assert_eq!(
        KeyStoreError::UnsupportedKeystoreVersion(42).message(),
        "unsupported keystore version 42 (expected 1)"
    );
    assert_eq!(
        KeyStoreError::EmptyPassphrase.message(),
        "keystore passphrase must not be empty"
    );
    let io = std::io::Error::new(std::io::ErrorKind::Other, "disk on fire");
    assert_eq!(KeyStoreError::from(io).message(), "disk on fire");
    let json = serde_json::from_slice::<serde_json::Value>(b"{").unwrap_err();
    let words = json.to_string();
    assert_eq!(
        KeyStoreError::from(json).message(),
        format!("keystore JSON error: {words}")
    );
    let hash = argon2::password_hash::Error::Password;
    assert_eq!(
        KeyStoreError::PasswordHash(hash).message(),
        format!("password hash error: {hash}")
    );
    assert_eq!(
        KeyStoreError::AgeDecrypt(age::DecryptError::InvalidHeader).message(),
        format!(
            "keystore decryption failed: {}",
            age::DecryptError::InvalidHeader
        )
    );
    assert_eq!(
        KeyStoreError::AgeEncrypt(age::EncryptError::MissingRecipients).message(),
        format!(
            "keystore encryption failed: {}",
            age::EncryptError::MissingRecipients
        )
    );
}
