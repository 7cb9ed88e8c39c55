use ollama_controls_api::auth::{
    add_user_api_key, hash_api_key, load_keystore, resolve_username_for_api_key, save_keystore,
    KeyEntry, KeyStoreData, KeyStoreError,
};
use ollama_controls_api::keystore::{
    AddEvent, AddStep, LoadEvent, LoadStep, PendingKey, SaveEvent, SaveStep,
};
use ollama_controls_api::paths::{
    default_keystore_path, keystore_path_in, JoinedPath, PathBase,
};
use ollama_controls_api::sealing::{decrypt_bytes, encrypt_bytes, settle_decryption, Unreadable};
use std::io::{Read, Seek, SeekFrom, Write};
use std::path::PathBuf;
use tempfile::NamedTempFile;

const PASSPHRASE: &str = "unit-test-passphrase";

fn io_error() -> std::io::Error {
    std::io::Error::new(std::io::ErrorKind::Other, "disk on fire")
}

fn json_error(words: &str) -> serde_json::Error {
    <serde_json::Error as serde::de::Error>::custom(words)
}

fn to_json(data: &KeyStoreData) -> Result<Vec<u8>, serde_json::Error> {
    let entries = data
        .entries
        .iter()
        .map(|e| {
            let mut m = serde_json::Map::new();
            m.insert("username".to_owned(), e.username.as_str().into());
            m.insert("key_hash".to_owned(), e.key_hash.as_str().into());
            serde_json::Value::Object(m)
        })
        .collect();
    let mut m = serde_json::Map::new();
    m.insert("version".to_owned(), data.version.into());
    m.insert("entries".to_owned(), serde_json::Value::Array(entries));
    serde_json::to_vec(&serde_json::Value::Object(m))
}

fn text_of(v: &serde_json::Value, field: &str) -> Result<String, serde_json::Error> {
    match v.get(field).and_then(|f| f.as_str()) {
        Some(s) => Ok(s.to_owned()),
        None => Err(json_error("missing text")),
    }
}

fn from_json(bytes: &[u8]) -> Result<KeyStoreData, serde_json::Error> {
    let v: serde_json::Value = serde_json::from_slice(bytes)?;
    let version = match v.get("version").and_then(|n| n.as_u64()) {
        Some(n) => n as u32,
        None => return Err(json_error("missing version")),
    };
    let list = match v.get("entries").and_then(|l| l.as_array()) {
        Some(list) => list,
        None => return Err(json_error("missing entries")),
    };
    let mut entries = Vec::new();
    for e in list {
        entries.push(KeyEntry {
            username: text_of(e, "username")?,
            key_hash: text_of(e, "key_hash")?,
        });
    }
    Ok(KeyStoreData { version, entries })
}

/// A file in memory that may be absent, and how often it was written.
struct Disk {
    file: Option<Vec<u8>>,
    writes: usize,
}

impl Disk {
    fn empty() -> Disk {
        Disk {
            file: None,
            writes: 0,
        }
    }

    fn write(&mut self, file: Vec<u8>) {
        self.file = Some(file);
        self.writes += 1;
    }
}

fn load(disk: &Disk, passphrase: &str) -> Result<KeyStoreData, KeyStoreError> {
    let mut event = LoadEvent::Start;
    loop {
        event = match load_keystore(passphrase, event) {
            LoadStep::ReadFile => LoadEvent::File(Ok(disk.file.clone())),
            LoadStep::Parse(plaintext) => LoadEvent::Parsed(from_json(&plaintext)),
            LoadStep::Done(r) => return r,
        };
    }
}

fn save(disk: &mut Disk, passphrase: &str, data: &KeyStoreData) -> Result<(), KeyStoreError> {
    let mut event = SaveEvent::Start;
    loop {
        event = match save_keystore(passphrase, event) {
            SaveStep::CreateParent => SaveEvent::Parent(Ok(())),
            SaveStep::Serialize => SaveEvent::Serialized(to_json(data)),
            SaveStep::Write(file) => {
                disk.write(file);
                SaveEvent::Written(Ok(()))
            }
            SaveStep::Done(r) => return r,
        };
    }
}

fn add(disk: &mut Disk, username: &str, passphrase: &str) -> Result<String, KeyStoreError> {
    let mut event = AddEvent::Start;
    loop {
        event = match add_user_api_key(username, passphrase, event) {
            AddStep::Load(LoadStep::ReadFile) => {
                AddEvent::Load(LoadEvent::File(Ok(disk.file.clone())))
            }
            AddStep::Load(LoadStep::Parse(plaintext)) => {
                AddEvent::Load(LoadEvent::Parsed(from_json(&plaintext)))
            }
            AddStep::Save(pending, SaveStep::CreateParent) => {
                AddEvent::Save(pending, SaveEvent::Parent(Ok(())))
            }
            AddStep::Save(pending, SaveStep::Serialize) => {
                let json = to_json(&pending.data);
                AddEvent::Save(pending, SaveEvent::Serialized(json))
            }
            AddStep::Save(pending, SaveStep::Write(file)) => {
                disk.write(file);
                AddEvent::Save(pending, SaveEvent::Written(Ok(())))
            }
            AddStep::Done(r) => return r,
            step => panic!("{step:?}"),
        };
    }
}

#[test]
fn load_save_keystore_roundtrip() {
    let mut tmp = NamedTempFile::new().unwrap();
    let path = tmp.path().to_path_buf();
    let mut data = KeyStoreData::empty();
    data.entries.push(KeyEntry {
        username: "u1".into(),
        key_hash: hash_api_key("secret").unwrap(),
    });

    let mut event = SaveEvent::Start;
    let saved = loop {
        event = match save_keystore("unit-test-passphrase", event) {
            SaveStep::CreateParent => SaveEvent::Parent(Ok(())),
            SaveStep::Serialize => SaveEvent::Serialized(to_json(&data)),
            SaveStep::Write(file) => {
                let out = tmp.as_file_mut();
                out.set_len(0).unwrap();
                out.seek(SeekFrom::Start(0)).unwrap();
                SaveEvent::Written(out.write_all(&file))
            }
            SaveStep::Done(r) => break r,
        };
    };
    saved.unwrap();

    let load_file = |tmp: &NamedTempFile| {
        let mut event = LoadEvent::Start;
        loop {
            event = match load_keystore("unit-test-passphrase", event) {
                LoadStep::ReadFile => {
                    if path.exists() {
                        let mut bytes = Vec::new();
                        let read = tmp.reopen().and_then(|mut f| f.read_to_end(&mut bytes));
                        LoadEvent::File(read.map(|_| Some(bytes)))
                    } else {
                        LoadEvent::File(Ok(None))
                    }
                }
                LoadStep::Parse(plaintext) => LoadEvent::Parsed(from_json(&plaintext)),
                LoadStep::Done(r) => break r,
            };
        }
    };
    let loaded = load_file(&tmp).unwrap();
    assert_eq!(loaded.entries.len(), 1);
    assert_eq!(loaded.entries[0].username, "u1");
    assert_eq!(loaded.entries, data.entries);
    tmp.as_file_mut().seek(SeekFrom::Start(0)).unwrap();
    tmp.as_file_mut().write_all(b"nope").unwrap();
    assert!(load_file(&tmp).is_err());
}

#[test]
fn an_absent_file_is_an_empty_keystore() {
    let data = load(&Disk::empty(), PASSPHRASE).unwrap();
    assert_eq!(data.version, 1);
    assert!(data.entries.is_empty());
}

#[test]
fn an_empty_passphrase_is_refused_before_anything_is_asked_for() {
    assert!(matches!(
        load_keystore("", LoadEvent::Start),
        LoadStep::Done(Err(KeyStoreError::EmptyPassphrase))
    ));
    assert!(matches!(
        save_keystore("", SaveEvent::Start),
        SaveStep::Done(Err(KeyStoreError::EmptyPassphrase))
    ));
    assert!(matches!(
        add_user_api_key("ann", "", AddEvent::Start),
        AddStep::Done(Err(KeyStoreError::EmptyPassphrase))
    ));
}

#[test]
fn a_username_is_judged_before_the_passphrase() {
    assert!(matches!(
        add_user_api_key("bad name", "", AddEvent::Start),
        AddStep::Done(Err(KeyStoreError::InvalidUsername(_)))
    ));
}

#[test]
fn loading_passes_errors_on() {
    assert!(matches!(
        load_keystore(PASSPHRASE, LoadEvent::File(Err(io_error()))),
        LoadStep::Done(Err(KeyStoreError::Io(_)))
    ));
    assert!(matches!(
        load_keystore(PASSPHRASE, LoadEvent::File(Ok(Some(b"nope".to_vec())))),
        LoadStep::Done(Err(KeyStoreError::AgeDecrypt(_)))
    ));
    assert!(matches!(
        load_keystore(PASSPHRASE, LoadEvent::Parsed(Err(json_error("x")))),
        LoadStep::Done(Err(KeyStoreError::Json(_)))
    ));
}

#[test]
fn another_version_is_refused() {
    let data = KeyStoreData {
        version: 2,
        entries: Vec::new(),
    };
    match load_keystore(PASSPHRASE, LoadEvent::Parsed(Ok(data))) {
        LoadStep::Done(Err(KeyStoreError::UnsupportedKeystoreVersion(v))) => assert_eq!(v, 2),
        other => panic!("{other:?}"),
    }
}

#[test]
fn saving_passes_errors_on() {
    assert!(matches!(
        save_keystore(PASSPHRASE, SaveEvent::Parent(Err(io_error()))),
        SaveStep::Done(Err(KeyStoreError::Io(_)))
    ));
    assert!(matches!(
        save_keystore(PASSPHRASE, SaveEvent::Serialized(Err(json_error("x")))),
        SaveStep::Done(Err(KeyStoreError::Json(_)))
    ));
    assert!(matches!(
        save_keystore(PASSPHRASE, SaveEvent::Written(Err(io_error()))),
        SaveStep::Done(Err(KeyStoreError::Io(_)))
    ));
}

#[test]
fn what_is_saved_is_loaded_back_under_its_passphrase_alone() {
    let mut data = KeyStoreData::empty();
    data.entries.push(KeyEntry {
        username: "ann".to_owned(),
        key_hash: "h1".to_owned(),
    });
    let mut disk = Disk::empty();
    save(&mut disk, PASSPHRASE, &data).unwrap();
    assert_eq!(disk.writes, 1);
    let loaded = load(&disk, PASSPHRASE).unwrap();
    assert_eq!(loaded.version, data.version);
    assert_eq!(loaded.entries, data.entries);
    assert!(matches!(
        load(&disk, "another"),
        Err(KeyStoreError::AgeDecrypt(_))
    ));
}

#[test]
fn encryption_hides_and_decryption_shows() {
    let file = encrypt_bytes(PASSPHRASE, b"plain text").unwrap();
    assert!(file.starts_with(b"age-encryption.org/v1"));
    assert!(!file.windows(5).any(|w| w == b"plain"));
    assert_eq!(decrypt_bytes(PASSPHRASE, &file).unwrap(), b"plain text");
}

#[test]
fn decryptions_are_settled_by_their_outcome() {
    assert_eq!(settle_decryption(Ok(vec![1, 2])).unwrap(), vec![1, 2]);
    assert!(matches!(
        settle_decryption(Err(Unreadable::Refused(age::DecryptError::InvalidMac))),
        Err(KeyStoreError::AgeDecrypt(age::DecryptError::InvalidMac))
    ));
    let limit = age::DecryptError::ExcessiveWork {
        required: 30,
        target: 18,
    };
    let words = limit.to_string();
    match settle_decryption(Err(Unreadable::WorkLimit(limit))) {
        Err(KeyStoreError::AgeDecrypt(e)) => {
            assert!(matches!(
                e,
                age::DecryptError::ExcessiveWork {
                    required: 30,
                    target: 18
                }
            ));
            assert_eq!(
                KeyStoreError::AgeDecrypt(e).message(),
                format!("keystore decryption failed: {words}")
            );
        }
        other => panic!("{other:?}"),
    }
}

#[test]
fn a_file_that_asks_for_too_much_work_is_not_decrypted() {
    let file = encrypt_bytes(PASSPHRASE, b"plain text").unwrap();
    let header = file.iter().position(|&b| b == b'\n').unwrap() + 1;
    let stanza = header + file[header..].iter().position(|&b| b == b'\n').unwrap();
    let mut asking = file[..stanza - 2].to_vec();
    asking.extend_from_slice(b"49");
    asking.extend_from_slice(&file[stanza..]);
    for passphrase in [PASSPHRASE, "another"] {
        assert!(matches!(
            decrypt_bytes(passphrase, &asking),
            Err(KeyStoreError::AgeDecrypt(
                age::DecryptError::ExcessiveWork { required: 49, .. }
            ))
        ));
    }
}

#[test]
fn an_added_user_is_in_the_file_with_the_key_that_was_handed_out() {
    let mut disk = Disk::empty();
    let key = add(&mut disk, " ann ", PASSPHRASE).unwrap();
    assert_eq!(disk.writes, 1);
    assert_eq!(key.len(), 43);
    let data = load(&disk, PASSPHRASE).unwrap();
    assert_eq!(data.entries.len(), 1);
    assert_eq!(data.entries[0].username, "ann");
    assert_eq!(
        resolve_username_for_api_key(&data, &key).unwrap(),
        Some("ann".to_owned())
    );
    assert!(!String::from_utf8_lossy(disk.file.as_ref().unwrap()).contains(&key));
}

#[test]
fn a_second_user_joins_the_first() {
    let mut disk = Disk::empty();
    let mut data = KeyStoreData::empty();
    data.entries.push(KeyEntry {
        username: "ann".to_owned(),
        key_hash: hash_api_key("k1").unwrap(),
    });
    save(&mut disk, PASSPHRASE, &data).unwrap();
    let key = add(&mut disk, "bob", PASSPHRASE).unwrap();
    let data = load(&disk, PASSPHRASE).unwrap();
    assert_eq!(
        resolve_username_for_api_key(&data, "k1").unwrap(),
        Some("ann".to_owned())
    );
    assert_eq!(
        resolve_username_for_api_key(&data, &key).unwrap(),
        Some("bob".to_owned())
    );
}

#[test]
fn a_taken_username_is_refused_and_nothing_is_written() {
    let mut data = KeyStoreData::empty();
    data.entries.push(KeyEntry {
        username: "ann".to_owned(),
        key_hash: "h1".to_owned(),
    });
    match add_user_api_key(
        " ann",
        PASSPHRASE,
        AddEvent::Load(LoadEvent::Parsed(Ok(data))),
    ) {
        AddStep::Done(Err(KeyStoreError::DuplicateUsername(u))) => assert_eq!(u, "ann"),
        other => panic!("{other:?}"),
    }
    let mut disk = Disk {
        file: Some(b"nope".to_vec()),
        writes: 0,
    };
    assert!(matches!(
        add(&mut disk, "ann", PASSPHRASE),
        Err(KeyStoreError::AgeDecrypt(_))
    ));
    assert_eq!(disk.writes, 0);
    assert!(matches!(
        add(&mut disk, "", PASSPHRASE),
        Err(KeyStoreError::InvalidUsername(_))
    ));
    assert_eq!(disk.writes, 0);
}

#[test]
fn a_user_who_was_added_is_not_added_again() {
    let mut disk = Disk::empty();
    let key = add(&mut disk, "bob", PASSPHRASE).unwrap();
    let file = disk.file.clone();
    match add(&mut disk, " bob ", PASSPHRASE) {
        Err(KeyStoreError::DuplicateUsername(u)) => assert_eq!(u, "bob"),
        other => panic!("{other:?}"),
    }
    assert_eq!(disk.writes, 1);
    assert_eq!(disk.file, file);
    let data = load(&disk, PASSPHRASE).unwrap();
    assert_eq!(
        resolve_username_for_api_key(&data, &key).unwrap(),
        Some("bob".to_owned())
    );
    assert!(data.entries[0].key_hash.starts_with("$argon2id$"));
}

#[test]
fn a_saved_keystore_of_another_version_is_refused_when_it_is_loaded() {
    let mut disk = Disk::empty();
    let data = KeyStoreData {
        version: 7,
        entries: Vec::new(),
    };
    save(&mut disk, PASSPHRASE, &data).unwrap();
    assert!(matches!(
        load(&disk, PASSPHRASE),
        Err(KeyStoreError::UnsupportedKeystoreVersion(7))
    ));
}

#[test]
fn the_bytes_that_were_saved_are_the_bytes_that_are_read() {
    let json = to_json(&KeyStoreData::empty()).unwrap();
    let file = match save_keystore(PASSPHRASE, SaveEvent::Serialized(Ok(json.clone()))) {
        SaveStep::Write(file) => file,
        other => panic!("{other:?}"),
    };
    match load_keystore(PASSPHRASE, LoadEvent::File(Ok(Some(file)))) {
        LoadStep::Parse(plaintext) => assert_eq!(plaintext, json),
        other => panic!("{other:?}"),
    }
}

#[test]
fn a_file_that_the_passphrase_does_not_open_is_refused_and_kept() {
    let mut disk = Disk::empty();
    save(&mut disk, PASSPHRASE, &KeyStoreData::empty()).unwrap();
    let file = disk.file.clone();
    assert!(matches!(
        load_keystore("another", LoadEvent::File(Ok(file.clone()))),
        LoadStep::Done(Err(KeyStoreError::AgeDecrypt(_)))
    ));
    assert!(matches!(
        add(&mut disk, "ann", "another"),
        Err(KeyStoreError::AgeDecrypt(_))
    ));
    assert_eq!(disk.writes, 1);
    assert_eq!(disk.file, file);
}

#[test]
fn no_key_is_handed_out_unless_the_file_is_written() {
    let pending = || PendingKey {
        data: KeyStoreData::empty(),
        api_key: "key".to_owned(),
    };
    assert!(matches!(
        add_user_api_key(
            "ann",
            PASSPHRASE,
            AddEvent::Save(pending(), SaveEvent::Written(Err(io_error())))
        ),
        AddStep::Done(Err(KeyStoreError::Io(_)))
    ));
    match add_user_api_key(
        "ann",
        PASSPHRASE,
        AddEvent::Save(pending(), SaveEvent::Written(Ok(()))),
    ) {
        AddStep::Done(Ok(key)) => assert_eq!(key, "key"),
        other => panic!("{other:?}"),
    }
}

#[test]
fn operations_end_within_their_steps() {
    let mut disk = Disk::empty();
    save(&mut disk, PASSPHRASE, &KeyStoreData::empty()).unwrap();
    let mut steps = 1;
    let mut event = LoadEvent::Start;
    loop {
        event = match load_keystore(PASSPHRASE, event) {
            LoadStep::ReadFile => LoadEvent::File(Ok(disk.file.clone())),
            LoadStep::Parse(plaintext) => LoadEvent::Parsed(from_json(&plaintext)),
            LoadStep::Done(r) => {
                assert!(r.is_ok());
                break;
            }
        };
        steps += 1;
    }
    assert_eq!(steps, 3);
}

fn put_together(path: JoinedPath) -> PathBuf {
    let mut out = match path.base {
        PathBase::Dir(dir) => dir,
        PathBase::Text(text) => PathBuf::from(text),
    };
    for part in path.parts {
        out = out.join(part);
    }
    out
}

#[test]
fn the_keystore_is_in_the_configuration_directory() {
    assert_eq!(
        put_together(keystore_path_in(Some(PathBuf::from("/home/ann/.config")))),
        PathBuf::from("/home/ann/.config/ollama-controls/api-keys.age")
    );
    assert_eq!(
        put_together(keystore_path_in(None)),
        PathBuf::from("./ollama-controls/api-keys.age")
    );
    let base = dirs::config_dir().unwrap_or_else(|| PathBuf::from("."));
    assert_eq!(
        put_together(default_keystore_path()),
        base.join("ollama-controls").join("api-keys.age")
    );
}
