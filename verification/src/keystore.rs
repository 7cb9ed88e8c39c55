//! Reading, writing and extending the encrypted keystore file.
//!
//! Each operation is a function from what has happened to what is to be done next. It asks its
//! caller for one thing at a time (a read, a write, a conversion from or to JSON) until it has a
//! result.

use crate::auth::{enroll, has_user, normalize_username, KeyStoreData};
use crate::error::{KeyStoreError, KEYSTORE_VERSION};
use crate::hashing::{generate_strong_api_key, hash_api_key};
use crate::sealing::{decrypt_bytes, encrypt_bytes, Unreadable};
use vstd::prelude::*;

verus! {

/// What has happened while a keystore is loaded.
#[derive(Debug)]
pub enum LoadEvent {
    Start,
    /// The file was read, or is not there.
    File(Result<Option<Vec<u8>>, std::io::Error>),
    /// The plaintext was read as JSON.
    Parsed(Result<KeyStoreData, serde_json::Error>),
}

/// What is to be done next to load a keystore.
#[derive(Debug)]
pub enum LoadStep {
    ReadFile,
    Parse(Vec<u8>),
    Done(Result<KeyStoreData, KeyStoreError>),
}

/// What loading goes on with after a decryption.
pub open spec fn opened(outcome: Result<Vec<u8>, Unreadable>) -> LoadStep {
    match crate::sealing::settled(outcome) {
        Ok(plaintext) => LoadStep::Parse(plaintext),
        Err(e) => LoadStep::Done(Err(e)),
    }
}

/// Says what loading goes on with after an event.
pub open spec fn load_leads_to(passphrase: Seq<char>, event: LoadEvent, step: LoadStep) -> bool {
    if passphrase.len() == 0 {
        step == LoadStep::Done(Err(KeyStoreError::EmptyPassphrase))
    } else {
        match event {
            LoadEvent::Start => step == LoadStep::ReadFile,
            LoadEvent::File(Err(e)) => step == LoadStep::Done(Err(KeyStoreError::Io(e))),
            LoadEvent::File(Ok(None)) => step matches LoadStep::Done(Ok(data)) && data@
                == crate::auth::KeyRecords::none(),
            LoadEvent::File(Ok(Some(file))) => exists|outcome: Result<Vec<u8>, Unreadable>|
                #[trigger] crate::sealing::age_gives(passphrase, file@, outcome) && step == opened(
                    outcome,
                ),
            LoadEvent::Parsed(Err(e)) => step == LoadStep::Done(Err(KeyStoreError::Json(e))),
            LoadEvent::Parsed(Ok(data)) => if data.version == KEYSTORE_VERSION {
                step == LoadStep::Done(Ok(data))
            } else {
                step == LoadStep::Done(
                    Err(KeyStoreError::UnsupportedKeystoreVersion(data.version)),
                )
            },
        }
    }
}

/// Decrypts and loads a keystore. A file that is not there is a keystore without entries.
pub fn load_keystore(passphrase: &str, event: LoadEvent) -> (step: LoadStep)
    ensures
        load_leads_to(passphrase@, event, step),
{
    if passphrase.is_empty() {
        return LoadStep::Done(Err(KeyStoreError::EmptyPassphrase));
    }
    match event {
        LoadEvent::Start => LoadStep::ReadFile,
        LoadEvent::File(Err(e)) => LoadStep::Done(Err(KeyStoreError::from(e))),
        LoadEvent::File(Ok(None)) => LoadStep::Done(Ok(KeyStoreData::empty())),
        LoadEvent::File(Ok(Some(file))) => match decrypt_bytes(passphrase, file.as_slice()) {
            Ok(plaintext) => LoadStep::Parse(plaintext),
            Err(e) => LoadStep::Done(Err(e)),
        },
        LoadEvent::Parsed(Err(e)) => LoadStep::Done(Err(KeyStoreError::from(e))),
        LoadEvent::Parsed(Ok(data)) => {
            if data.version != KEYSTORE_VERSION {
                LoadStep::Done(Err(KeyStoreError::UnsupportedKeystoreVersion(data.version)))
            } else {
                LoadStep::Done(Ok(data))
            }
        },
    }
}

/// What has happened while a keystore is saved.
#[derive(Debug)]
pub enum SaveEvent {
    Start,
    /// The directory of the file was made, if it has one.
    Parent(Result<(), std::io::Error>),
    /// The keystore was written as JSON.
    Serialized(Result<Vec<u8>, serde_json::Error>),
    /// The file was written.
    Written(Result<(), std::io::Error>),
}

/// What is to be done next to save a keystore.
#[derive(Debug)]
pub enum SaveStep {
    CreateParent,
    Serialize,
    Write(Vec<u8>),
    Done(Result<(), KeyStoreError>),
}

/// Says what saving goes on with after an event.
pub open spec fn save_leads_to(passphrase: Seq<char>, event: SaveEvent, step: SaveStep) -> bool {
    if passphrase.len() == 0 {
        step == SaveStep::Done(Err(KeyStoreError::EmptyPassphrase))
    } else {
        match event {
            SaveEvent::Start => step == SaveStep::CreateParent,
            SaveEvent::Parent(Ok(_)) => step == SaveStep::Serialize,
            SaveEvent::Parent(Err(e)) => step == SaveStep::Done(Err(KeyStoreError::Io(e))),
            SaveEvent::Serialized(Ok(plaintext)) => step matches SaveStep::Write(file)
                && crate::sealing::encrypts_to(passphrase, plaintext@, Ok(file)),
            SaveEvent::Serialized(Err(e)) => step == SaveStep::Done(Err(KeyStoreError::Json(e))),
            SaveEvent::Written(Ok(_)) => step == SaveStep::Done(Ok(())),
            SaveEvent::Written(Err(e)) => step == SaveStep::Done(Err(KeyStoreError::Io(e))),
        }
    }
}

/// Encrypts and saves a keystore.
pub fn save_keystore(passphrase: &str, event: SaveEvent) -> (step: SaveStep)
    ensures
        save_leads_to(passphrase@, event, step),
{
    if passphrase.is_empty() {
        return SaveStep::Done(Err(KeyStoreError::EmptyPassphrase));
    }
    match event {
        SaveEvent::Start => SaveStep::CreateParent,
        SaveEvent::Parent(Ok(_)) => SaveStep::Serialize,
        SaveEvent::Parent(Err(e)) => SaveStep::Done(Err(KeyStoreError::from(e))),
        SaveEvent::Serialized(Ok(plaintext)) => match encrypt_bytes(
            passphrase,
            plaintext.as_slice(),
        ) {
            Ok(file) => SaveStep::Write(file),
            Err(e) => SaveStep::Done(Err(e)),
        },
        SaveEvent::Serialized(Err(e)) => SaveStep::Done(Err(KeyStoreError::from(e))),
        SaveEvent::Written(Ok(_)) => SaveStep::Done(Ok(())),
        SaveEvent::Written(Err(e)) => SaveStep::Done(Err(KeyStoreError::from(e))),
    }
}

/// A user's new key, while the keystore that holds its hash is being saved.
#[derive(Debug)]
pub struct PendingKey {
    /// The keystore to save.
    pub data: KeyStoreData,
    /// The key itself, which is in no file.
    pub api_key: String,
}

/// What has happened while a user is added.
#[derive(Debug)]
pub enum AddEvent {
    Start,
    Load(LoadEvent),
    Save(PendingKey, SaveEvent),
}

/// What is to be done next to add a user. A step of loading or saving is never `Done` here.
#[derive(Debug)]
pub enum AddStep {
    Load(LoadStep),
    Save(PendingKey, SaveStep),
    Done(Result<String, KeyStoreError>),
}

/// Says whether a text is an API key as this crate makes them: the text of bytes that the random
/// source gave.
pub open spec fn is_api_key(text: Seq<char>) -> bool {
    exists|bytes: Seq<u8>|
        crate::origin::is_drawn(bytes) && bytes.len() == crate::encoding::RANDOM_KEY_LEN && text
            == #[trigger] crate::encoding::base64_text(bytes, crate::encoding::url_safe())
}

/// Says whether a new key is pending for a user: the keystore has one more record, whose hash
/// was made from the key.
pub open spec fn is_pending(
    before: crate::auth::KeyRecords,
    name: Seq<char>,
    pending: PendingKey,
) -> bool {
    &&& is_api_key(pending.api_key@)
    &&& exists|hash: Seq<char>|
        pending.data@ == #[trigger] before.with(name, hash) && crate::hashing::is_key_hash(
            vstd::utf8::encode_utf8(pending.api_key@),
            hash,
        )
}

/// Says what adding a user goes on with after a step of loading.
pub open spec fn add_after_load(name: Seq<char>, loaded: LoadStep, step: AddStep) -> bool {
    match loaded {
        LoadStep::Done(Err(e)) => step == AddStep::Done(Err(e)),
        LoadStep::Done(Ok(data)) => if data@.has(name) {
            step matches AddStep::Done(Err(KeyStoreError::DuplicateUsername(u))) && u@ == name
        } else {
            step matches AddStep::Save(pending, SaveStep::CreateParent) && is_pending(
                data@,
                name,
                pending,
            )
        },
        _ => step == AddStep::Load(loaded),
    }
}

/// Says what adding a user goes on with after a step of saving.
pub open spec fn add_after_save(pending: PendingKey, saved: SaveStep, step: AddStep) -> bool {
    match saved {
        SaveStep::Done(Ok(_)) => step == AddStep::Done(Ok(pending.api_key)),
        SaveStep::Done(Err(e)) => step == AddStep::Done(Err(e)),
        _ => step == AddStep::Save(pending, saved),
    }
}

/// Says what adding a user goes on with after an event.
pub open spec fn add_leads_to(
    username: Seq<char>,
    passphrase: Seq<char>,
    event: AddEvent,
    step: AddStep,
) -> bool {
    match crate::auth::normalized(username) {
        Err(why) => step matches AddStep::Done(Err(KeyStoreError::InvalidUsername(s))) && s@ == why,
        Ok(name) => match event {
            AddEvent::Start => exists|loaded: LoadStep| #[trigger]
                load_leads_to(passphrase, LoadEvent::Start, loaded) && add_after_load(
                    name,
                    loaded,
                    step,
                ),
            AddEvent::Load(e) => exists|loaded: LoadStep| #[trigger]
                load_leads_to(passphrase, e, loaded) && add_after_load(name, loaded, step),
            AddEvent::Save(pending, e) => exists|saved: SaveStep| #[trigger]
                save_leads_to(passphrase, e, saved) && add_after_save(pending, saved, step),
        },
    }
}

/// Draws a key for a user and puts its hash into the keystore.
fn new_key(data: KeyStoreData, name: String) -> (r: Result<PendingKey, KeyStoreError>)
    requires
        !data@.has(name@),
    ensures
        r matches Ok(pending) && is_pending(data@, name@, pending),
{
    let api_key: String = generate_strong_api_key();
    proof {
        let bytes = choose|bytes: Seq<u8>|
            bytes.len() == crate::encoding::RANDOM_KEY_LEN && api_key@
                == #[trigger] crate::encoding::base64_text(bytes, crate::encoding::url_safe());
        crate::encoding::lemma_api_key_is_ascii(bytes);
    }
    let hashed: Result<String, KeyStoreError> = hash_api_key(api_key.as_str());
    match enroll(data, name, hashed) {
        Ok(data) => Ok(PendingKey { data, api_key }),
        Err(e) => Err(e),
    }
}

fn go_on_after_load(passphrase: &str, name: String, loaded: LoadStep) -> (step: AddStep)
    requires
        loaded matches LoadStep::Done(Ok(_)) ==> passphrase@.len() > 0,
    ensures
        add_after_load(name@, loaded, step),
{
    match loaded {
        LoadStep::Done(Err(e)) => AddStep::Done(Err(e)),
        LoadStep::Done(Ok(data)) => {
            if has_user(&data, name.as_str()) {
                return AddStep::Done(Err(KeyStoreError::DuplicateUsername(name)));
            }
            match new_key(data, name) {
                Ok(pending) => go_on_after_save(
                    pending,
                    save_keystore(passphrase, SaveEvent::Start),
                ),
                Err(e) => AddStep::Done(Err(e)),
            }
        },
        _ => AddStep::Load(loaded),
    }
}

fn go_on_after_save(pending: PendingKey, saved: SaveStep) -> (step: AddStep)
    ensures
        add_after_save(pending, saved, step),
{
    match saved {
        SaveStep::Done(Ok(_)) => AddStep::Done(Ok(pending.api_key)),
        SaveStep::Done(Err(e)) => AddStep::Done(Err(e)),
        _ => AddStep::Save(pending, saved),
    }
}

/// Generates a new API key, appends an Argon2 hash for `username`, and writes the encrypted file.
/// Returns the raw API key exactly once (print it for the operator; it cannot be recovered from
/// the keystore).
pub fn add_user_api_key(username: &str, passphrase: &str, event: AddEvent) -> (step: AddStep)
    ensures
        add_leads_to(username@, passphrase@, event, step),
{
    let name: String = match normalize_username(username) {
        Ok(name) => name,
        Err(e) => {
            return AddStep::Done(Err(e));
        },
    };
    match event {
        AddEvent::Start => go_on_after_load(
            passphrase,
            name,
            load_keystore(passphrase, LoadEvent::Start),
        ),
        AddEvent::Load(e) => go_on_after_load(passphrase, name, load_keystore(passphrase, e)),
        AddEvent::Save(pending, e) => go_on_after_save(pending, save_keystore(passphrase, e)),
    }
}

/// Answers to what an operation on a keystore can ask for.
pub struct Surroundings {
    /// The file, as it is before the operation.
    pub file: Result<Option<Vec<u8>>, std::io::Error>,
    /// What a plaintext reads as.
    pub parse: spec_fn(Seq<u8>) -> Result<KeyStoreData, serde_json::Error>,
    /// Whether the directory of the file can be made.
    pub parent: Result<(), std::io::Error>,
    /// What a keystore is written as.
    pub serialize: spec_fn(KeyStoreData) -> Result<Vec<u8>, serde_json::Error>,
    /// Whether the file can be written.
    pub write: Result<(), std::io::Error>,
}

impl Surroundings {
    /// The answer to a step of loading.
    pub open spec fn load_answer(self, step: LoadStep) -> LoadEvent {
        match step {
            LoadStep::ReadFile => LoadEvent::File(self.file),
            LoadStep::Parse(plaintext) => LoadEvent::Parsed((self.parse)(plaintext@)),
            LoadStep::Done(_) => LoadEvent::Start,
        }
    }

    /// The answer to a step of saving.
    pub open spec fn save_answer(self, data: KeyStoreData, step: SaveStep) -> SaveEvent {
        match step {
            SaveStep::CreateParent => SaveEvent::Parent(self.parent),
            SaveStep::Serialize => SaveEvent::Serialized((self.serialize)(data)),
            SaveStep::Write(_) => SaveEvent::Written(self.write),
            SaveStep::Done(_) => SaveEvent::Start,
        }
    }
}

/// Says whether loading can go from an event to a result in at most `steps` steps.
pub open spec fn load_reaches(
    passphrase: Seq<char>,
    around: Surroundings,
    event: LoadEvent,
    r: Result<KeyStoreData, KeyStoreError>,
    steps: nat,
) -> bool
    decreases steps,
{
    steps > 0 && exists|step: LoadStep| #[trigger]
        load_leads_to(passphrase, event, step) && match step {
            LoadStep::Done(x) => r == x,
            _ => load_reaches(
                passphrase,
                around,
                around.load_answer(step),
                r,
                (steps - 1) as nat,
            ),
        }
}

/// Says what loading a keystore comes to: no passphrase, an unreadable file, no file, or a file
/// whose plaintext is a keystore of the right format. `outcome` is what age makes of the file, if
/// there is one.
pub open spec fn load_result(
    passphrase: Seq<char>,
    around: Surroundings,
    outcome: Result<Vec<u8>, Unreadable>,
    r: Result<KeyStoreData, KeyStoreError>,
) -> bool {
    if passphrase.len() == 0 {
        r == Err::<KeyStoreData, KeyStoreError>(KeyStoreError::EmptyPassphrase)
    } else {
        match around.file {
            Err(e) => r == Err::<KeyStoreData, KeyStoreError>(KeyStoreError::Io(e)),
            Ok(None) => r matches Ok(data) && data@ == crate::auth::KeyRecords::none(),
            Ok(Some(file)) => crate::sealing::age_gives(passphrase, file@, outcome)
                && match crate::sealing::settled(outcome) {
                Err(e) => r == Err::<KeyStoreData, KeyStoreError>(e),
                Ok(plaintext) => match (around.parse)(plaintext@) {
                    Err(e) => r == Err::<KeyStoreData, KeyStoreError>(KeyStoreError::Json(e)),
                    Ok(data) => if data.version == KEYSTORE_VERSION {
                        r == Ok::<KeyStoreData, KeyStoreError>(data)
                    } else {
                        r == Err::<KeyStoreData, KeyStoreError>(
                            KeyStoreError::UnsupportedKeystoreVersion(data.version),
                        )
                    },
                },
            },
        }
    }
}

/// Loading, taken to its end, comes to its result.
pub proof fn law_loading_comes_to_its_result(
    passphrase: Seq<char>,
    around: Surroundings,
    r: Result<KeyStoreData, KeyStoreError>,
    steps: nat,
) -> (outcome: Result<Vec<u8>, Unreadable>)
    requires
        load_reaches(passphrase, around, LoadEvent::Start, r, steps),
    ensures
        load_result(passphrase, around, outcome, r),
{
    reveal_with_fuel(load_reaches, 4);
    if let Ok(Some(file)) = around.file {
        choose|outcome: Result<Vec<u8>, Unreadable>| #[trigger]
            crate::sealing::age_gives(passphrase, file@, outcome) && load_result(
                passphrase,
                around,
                outcome,
                r,
            )
    } else {
        arbitrary()
    }
}

/// Says whether loading can go on from an event for a number of steps without a result.
pub open spec fn load_runs_on(
    passphrase: Seq<char>,
    around: Surroundings,
    event: LoadEvent,
    steps: nat,
) -> bool
    decreases steps,
{
    if steps == 0 {
        true
    } else {
        exists|step: LoadStep| #[trigger]
            load_leads_to(passphrase, event, step) && !(step is Done) && load_runs_on(
                passphrase,
                around,
                around.load_answer(step),
                (steps - 1) as nat,
            )
    }
}

/// Loading ends: it never goes on for three steps without a result.
pub proof fn law_loading_ends(passphrase: Seq<char>, around: Surroundings, steps: nat)
    requires
        load_runs_on(passphrase, around, LoadEvent::Start, steps),
    ensures
        steps < 3,
{
    reveal_with_fuel(load_runs_on, 4);
}

/// Whatever is loaded has the format of this crate.
pub proof fn law_loaded_format(
    passphrase: Seq<char>,
    around: Surroundings,
    outcome: Result<Vec<u8>, Unreadable>,
    r: Result<KeyStoreData, KeyStoreError>,
)
    requires
        load_result(passphrase, around, outcome, r),
    ensures
        r matches Ok(data) ==> data.version == KEYSTORE_VERSION,
{
}

/// With an empty passphrase nothing is asked for: each operation is refused at every point.
pub proof fn law_empty_passphrase_is_refused(
    load_event: LoadEvent,
    load_step: LoadStep,
    save_event: SaveEvent,
    save_step: SaveStep,
    username: Seq<char>,
    add_event: AddEvent,
    add_step: AddStep,
)
    requires
        load_leads_to(Seq::empty(), load_event, load_step),
        save_leads_to(Seq::empty(), save_event, save_step),
        add_leads_to(username, Seq::empty(), add_event, add_step),
        crate::auth::normalized(username) is Ok,
    ensures
        load_step == LoadStep::Done(Err(KeyStoreError::EmptyPassphrase)),
        save_step == SaveStep::Done(Err(KeyStoreError::EmptyPassphrase)),
        add_step == AddStep::Done(Err(KeyStoreError::EmptyPassphrase)),
{
}

/// Says whether saving can go from an event to a result in at most `steps` steps. `written` is
/// what is in the file so far, `end` what is in it then.
pub open spec fn save_reaches(
    passphrase: Seq<char>,
    data: KeyStoreData,
    around: Surroundings,
    event: SaveEvent,
    written: Option<Vec<u8>>,
    r: Result<(), KeyStoreError>,
    end: Option<Vec<u8>>,
    steps: nat,
) -> bool
    decreases steps,
{
    steps > 0 && exists|step: SaveStep| #[trigger]
        save_leads_to(passphrase, event, step) && match step {
            SaveStep::Done(x) => r == x && end == written,
            _ => save_reaches(
                passphrase,
                data,
                around,
                around.save_answer(data, step),
                match step {
                    SaveStep::Write(file) => Some(file),
                    _ => written,
                },
                r,
                end,
                (steps - 1) as nat,
            ),
        }
}

/// Says what saving a keystore comes to, and what file is handed out to be written.
pub open spec fn save_result(
    passphrase: Seq<char>,
    data: KeyStoreData,
    around: Surroundings,
    r: Result<(), KeyStoreError>,
    end: Option<Vec<u8>>,
) -> bool {
    if passphrase.len() == 0 {
        r == Err::<(), KeyStoreError>(KeyStoreError::EmptyPassphrase) && end is None
    } else {
        match around.parent {
            Err(e) => r == Err::<(), KeyStoreError>(KeyStoreError::Io(e)) && end is None,
            Ok(_) => match (around.serialize)(data) {
                Err(e) => r == Err::<(), KeyStoreError>(KeyStoreError::Json(e)) && end is None,
                Ok(json) => {
                    &&& end matches Some(file) && crate::sealing::encrypts_to(
                        passphrase,
                        json@,
                        Ok(file),
                    )
                    &&& match around.write {
                        Ok(_) => r == Ok::<(), KeyStoreError>(()),
                        Err(e) => r == Err::<(), KeyStoreError>(KeyStoreError::Io(e)),
                    }
                },
            },
        }
    }
}

/// Saving, taken to its end, comes to its result.
pub proof fn law_saving_comes_to_its_result(
    passphrase: Seq<char>,
    data: KeyStoreData,
    around: Surroundings,
    r: Result<(), KeyStoreError>,
    end: Option<Vec<u8>>,
    steps: nat,
)
    requires
        save_reaches(passphrase, data, around, SaveEvent::Start, None, r, end, steps),
    ensures
        save_result(passphrase, data, around, r, end),
{
    reveal_with_fuel(save_reaches, 5);
}

/// Says whether saving can go on from an event for a number of steps without a result.
pub open spec fn save_runs_on(
    passphrase: Seq<char>,
    data: KeyStoreData,
    around: Surroundings,
    event: SaveEvent,
    steps: nat,
) -> bool
    decreases steps,
{
    if steps == 0 {
        true
    } else {
        exists|step: SaveStep| #[trigger]
            save_leads_to(passphrase, event, step) && !(step is Done) && save_runs_on(
                passphrase,
                data,
                around,
                around.save_answer(data, step),
                (steps - 1) as nat,
            )
    }
}

/// Saving ends: it never goes on for four steps without a result.
pub proof fn law_saving_ends(
    passphrase: Seq<char>,
    data: KeyStoreData,
    around: Surroundings,
    steps: nat,
)
    requires
        save_runs_on(passphrase, data, around, SaveEvent::Start, steps),
    ensures
        steps < 4,
{
    reveal_with_fuel(save_runs_on, 5);
}

/// Says whether JSON reads back the keystore that it wrote.
pub open spec fn reads_back(before: Surroundings, after: Surroundings, data: KeyStoreData) -> bool {
    (before.serialize)(data) matches Ok(json) ==> ((after.parse)(json@) matches Ok(parsed)
        && parsed@ == data@)
}

/// The bytes that a keystore was written as are the bytes that are read as a keystore when the
/// file is loaded under the same passphrase: nothing else can come of the file but a stop at age's
/// work limit, whose error is handed on.
pub proof fn law_saved_bytes_are_read(
    passphrase: Seq<char>,
    data: KeyStoreData,
    json: Vec<u8>,
    file: Vec<u8>,
    around: Surroundings,
    r: Result<(), KeyStoreError>,
    outcome: Result<Vec<u8>, Unreadable>,
)
    requires
        (around.serialize)(data) == Ok::<Vec<u8>, serde_json::Error>(json),
        save_result(passphrase, data, around, r, Some(file)),
        crate::sealing::age_gives(passphrase, file@, outcome),
    ensures
        load_leads_to(passphrase, LoadEvent::File(Ok(Some(file))), opened(outcome)),
        match outcome {
            Err(Unreadable::WorkLimit(e)) => opened(outcome) == LoadStep::Done(
                Err(KeyStoreError::AgeDecrypt(e)),
            ),
            _ => opened(outcome) matches LoadStep::Parse(plaintext) && plaintext@ == json@,
        },
{
}

/// What was saved under a passphrase is loaded back under it, if JSON reads back what it wrote. A
/// keystore of another version is refused with that version. Nothing else can come of it but a
/// stop at age's work limit, whose error is handed on.
pub proof fn law_loading_undoes_saving(
    passphrase: Seq<char>,
    data: KeyStoreData,
    file: Vec<u8>,
    before: Surroundings,
    after: Surroundings,
    outcome: Result<Vec<u8>, Unreadable>,
    r: Result<KeyStoreData, KeyStoreError>,
)
    requires
        save_result(passphrase, data, before, Ok(()), Some(file)),
        reads_back(before, after, data),
        after.file == Ok::<Option<Vec<u8>>, std::io::Error>(Some(file)),
        load_result(passphrase, after, outcome, r),
    ensures
        match outcome {
            Err(Unreadable::WorkLimit(e)) => r == Err::<KeyStoreData, KeyStoreError>(
                KeyStoreError::AgeDecrypt(e),
            ),
            _ => if data.version == KEYSTORE_VERSION {
                r matches Ok(loaded) && loaded@ == data@
            } else {
                r == Err::<KeyStoreData, KeyStoreError>(
                    KeyStoreError::UnsupportedKeystoreVersion(data.version),
                )
            },
        },
{
    let parsed = (after.parse)((before.serialize)(data)->Ok_0@)->Ok_0;
    assert(parsed@.version == data@.version);
}

/// A file that the passphrase does not open is refused as soon as it is read: nothing is handed
/// out to be parsed.
pub proof fn law_unreadable_file_is_refused(passphrase: Seq<char>, file: Vec<u8>, step: LoadStep)
    requires
        passphrase.len() > 0,
        crate::sealing::age_plaintext(passphrase, file@) is None,
        load_leads_to(passphrase, LoadEvent::File(Ok(Some(file))), step),
    ensures
        step matches LoadStep::Done(Err(KeyStoreError::AgeDecrypt(_))),
{
}

/// A keystore that the passphrase does not open is not loaded.
pub proof fn law_unreadable_keystore_is_not_loaded(
    passphrase: Seq<char>,
    file: Vec<u8>,
    around: Surroundings,
    outcome: Result<Vec<u8>, Unreadable>,
    r: Result<KeyStoreData, KeyStoreError>,
)
    requires
        passphrase.len() > 0,
        around.file == Ok::<Option<Vec<u8>>, std::io::Error>(Some(file)),
        crate::sealing::age_plaintext(passphrase, file@) is None,
        load_result(passphrase, around, outcome, r),
    ensures
        r matches Err(KeyStoreError::AgeDecrypt(_)),
{
}

/// Says whether adding a user can go from an event to a result in at most `steps` steps.
/// `written` is what is in the file so far, `end` what is in it then.
pub open spec fn add_reaches(
    username: Seq<char>,
    passphrase: Seq<char>,
    around: Surroundings,
    event: AddEvent,
    written: Option<Vec<u8>>,
    r: Result<String, KeyStoreError>,
    end: Option<Vec<u8>>,
    steps: nat,
) -> bool
    decreases steps, 0int,
{
    steps > 0 && exists|step: AddStep| #[trigger]
        add_leads_to(username, passphrase, event, step) && add_goes_on(
            username,
            passphrase,
            around,
            step,
            written,
            r,
            end,
            (steps - 1) as nat,
        )
}

/// Says whether adding a user can go from a step to a result in at most `steps` further steps.
pub open spec fn add_goes_on(
    username: Seq<char>,
    passphrase: Seq<char>,
    around: Surroundings,
    step: AddStep,
    written: Option<Vec<u8>>,
    r: Result<String, KeyStoreError>,
    end: Option<Vec<u8>>,
    steps: nat,
) -> bool
    decreases steps, 1int,
{
    match step {
        AddStep::Done(x) => r == x && end == written,
        AddStep::Load(load) => add_reaches(
            username,
            passphrase,
            around,
            AddEvent::Load(around.load_answer(load)),
            written,
            r,
            end,
            steps,
        ),
        AddStep::Save(pending, save) => add_reaches(
            username,
            passphrase,
            around,
            AddEvent::Save(pending, around.save_answer(pending.data, save)),
            match save {
                SaveStep::Write(file) => Some(file),
                _ => written,
            },
            r,
            end,
            steps,
        ),
    }
}

/// The outcome of adding a user, once the keystore with the new record is saved or not.
pub open spec fn key_or_error(
    pending: PendingKey,
    saved: Result<(), KeyStoreError>,
) -> Result<String, KeyStoreError> {
    match saved {
        Ok(_) => Ok(pending.api_key),
        Err(e) => Err(e),
    }
}

/// Says what adding a user to a loaded keystore comes to, and what file is handed out to be
/// written.
pub open spec fn extend_result(
    name: Seq<char>,
    passphrase: Seq<char>,
    data: KeyStoreData,
    around: Surroundings,
    r: Result<String, KeyStoreError>,
    end: Option<Vec<u8>>,
) -> bool {
    if data@.has(name) {
        (r matches Err(KeyStoreError::DuplicateUsername(u)) && u@ == name) && end is None
    } else {
        exists|pending: PendingKey, saved: Result<(), KeyStoreError>|
            is_pending(data@, name, pending) && #[trigger] save_result(
                passphrase,
                pending.data,
                around,
                saved,
                end,
            ) && r == key_or_error(pending, saved)
    }
}

/// Says what adding a user comes to, and what file is handed out to be written. `outcome` is what
/// age makes of the file that was there before, if there was one.
pub open spec fn add_result(
    username: Seq<char>,
    passphrase: Seq<char>,
    around: Surroundings,
    outcome: Result<Vec<u8>, Unreadable>,
    r: Result<String, KeyStoreError>,
    end: Option<Vec<u8>>,
) -> bool {
    match crate::auth::normalized(username) {
        Err(why) => (r matches Err(KeyStoreError::InvalidUsername(s)) && s@ == why) && end is None,
        Ok(name) => exists|loaded: Result<KeyStoreData, KeyStoreError>| #[trigger]
            load_result(passphrase, around, outcome, loaded) && match loaded {
                Err(e) => r == Err::<String, KeyStoreError>(e) && end is None,
                Ok(data) => extend_result(name, passphrase, data, around, r, end),
            },
    }
}

proof fn lemma_add_saves(
    username: Seq<char>,
    passphrase: Seq<char>,
    around: Surroundings,
    pending: PendingKey,
    event: SaveEvent,
    written: Option<Vec<u8>>,
    r: Result<String, KeyStoreError>,
    end: Option<Vec<u8>>,
    steps: nat,
) -> (saved: Result<(), KeyStoreError>)
    requires
        crate::auth::normalized(username) is Ok,
        add_reaches(
            username,
            passphrase,
            around,
            AddEvent::Save(pending, event),
            written,
            r,
            end,
            steps,
        ),
    ensures
        save_reaches(passphrase, pending.data, around, event, written, saved, end, steps),
        r == key_or_error(pending, saved),
    decreases steps,
{
    let step = choose|step: AddStep| #[trigger]
        add_leads_to(username, passphrase, AddEvent::Save(pending, event), step) && add_goes_on(
            username,
            passphrase,
            around,
            step,
            written,
            r,
            end,
            (steps - 1) as nat,
        );
    let saved = choose|saved: SaveStep| #[trigger]
        save_leads_to(passphrase, event, saved) && add_after_save(pending, saved, step);
    match saved {
        SaveStep::Done(x) => x,
        _ => lemma_add_saves(
            username,
            passphrase,
            around,
            pending,
            around.save_answer(pending.data, saved),
            match saved {
                SaveStep::Write(file) => Some(file),
                _ => written,
            },
            r,
            end,
            (steps - 1) as nat,
        ),
    }
}

proof fn lemma_add_loads(
    username: Seq<char>,
    passphrase: Seq<char>,
    around: Surroundings,
    event: LoadEvent,
    r: Result<String, KeyStoreError>,
    end: Option<Vec<u8>>,
    steps: nat,
) -> (loaded: Result<KeyStoreData, KeyStoreError>)
    requires
        crate::auth::normalized(username) is Ok,
        add_reaches(username, passphrase, around, AddEvent::Load(event), None, r, end, steps),
    ensures
        load_reaches(passphrase, around, event, loaded, steps),
        match loaded {
            Err(e) => r == Err::<String, KeyStoreError>(e) && end is None,
            Ok(data) => extend_result(
                crate::auth::normalized(username)->Ok_0,
                passphrase,
                data,
                around,
                r,
                end,
            ),
        },
    decreases steps,
{
    let name = crate::auth::normalized(username)->Ok_0;
    let step = choose|step: AddStep| #[trigger]
        add_leads_to(username, passphrase, AddEvent::Load(event), step) && add_goes_on(
            username,
            passphrase,
            around,
            step,
            None,
            r,
            end,
            (steps - 1) as nat,
        );
    let load = choose|load: LoadStep| #[trigger]
        load_leads_to(passphrase, event, load) && add_after_load(name, load, step);
    match load {
        LoadStep::Done(x) => {
            if let Ok(data) = x {
                if let AddStep::Save(pending, save) = step {
                    let saved = lemma_add_saves(
                        username,
                        passphrase,
                        around,
                        pending,
                        SaveEvent::Parent(around.parent),
                        None,
                        r,
                        end,
                        (steps - 1) as nat,
                    );
                    assert(save_leads_to(passphrase, SaveEvent::Start, SaveStep::CreateParent));
                    law_saving_comes_to_its_result(
                        passphrase,
                        pending.data,
                        around,
                        saved,
                        end,
                        steps,
                    );
                }
            }
            x
        },
        _ => lemma_add_loads(
            username,
            passphrase,
            around,
            around.load_answer(load),
            r,
            end,
            (steps - 1) as nat,
        ),
    }
}

/// Adding a user, taken to its end, comes to its result.
pub proof fn law_adding_comes_to_its_result(
    username: Seq<char>,
    passphrase: Seq<char>,
    around: Surroundings,
    r: Result<String, KeyStoreError>,
    end: Option<Vec<u8>>,
    steps: nat,
) -> (outcome: Result<Vec<u8>, Unreadable>)
    requires
        add_reaches(username, passphrase, around, AddEvent::Start, None, r, end, steps),
    ensures
        add_result(username, passphrase, around, outcome, r, end),
{
    if crate::auth::normalized(username) is Ok {
        // Starting is loading's start.
        assert(add_reaches(
            username,
            passphrase,
            around,
            AddEvent::Load(LoadEvent::Start),
            None,
            r,
            end,
            steps,
        )) by {
            let step = choose|step: AddStep| #[trigger]
                add_leads_to(username, passphrase, AddEvent::Start, step) && add_goes_on(
                    username,
                    passphrase,
                    around,
                    step,
                    None,
                    r,
                    end,
                    (steps - 1) as nat,
                );
            assert(add_leads_to(username, passphrase, AddEvent::Load(LoadEvent::Start), step));
        }
        let loaded = lemma_add_loads(
            username,
            passphrase,
            around,
            LoadEvent::Start,
            r,
            end,
            steps,
        );
        law_loading_comes_to_its_result(passphrase, around, loaded, steps)
    } else {
        arbitrary()
    }
}

/// Adding a user writes a file only when all checks are passed: after any error but one in
/// writing, the file is as it was.
pub proof fn law_refused_user_changes_no_file(
    username: Seq<char>,
    passphrase: Seq<char>,
    around: Surroundings,
    outcome: Result<Vec<u8>, Unreadable>,
    r: Result<String, KeyStoreError>,
    end: Option<Vec<u8>>,
)
    requires
        add_result(username, passphrase, around, outcome, r, end),
    ensures
        r matches Err(e) ==> end is None || (around.write is Err && e is Io),
{
}

/// A keystore that the passphrase does not open gets no user and is not written: with a good
/// username the decryption is what fails.
pub proof fn law_unreadable_keystore_is_not_extended(
    username: Seq<char>,
    passphrase: Seq<char>,
    file: Vec<u8>,
    around: Surroundings,
    outcome: Result<Vec<u8>, Unreadable>,
    r: Result<String, KeyStoreError>,
    end: Option<Vec<u8>>,
)
    requires
        passphrase.len() > 0,
        around.file == Ok::<Option<Vec<u8>>, std::io::Error>(Some(file)),
        crate::sealing::age_plaintext(passphrase, file@) is None,
        add_result(username, passphrase, around, outcome, r, end),
    ensures
        end is None,
        r is Err,
        crate::auth::normalized(username) is Ok ==> r matches Err(KeyStoreError::AgeDecrypt(_)),
{
}

/// A username that the loaded keystore has is refused at once: no key is drawn and nothing more
/// is asked for.
pub proof fn law_taken_username_is_refused(
    username: Seq<char>,
    passphrase: Seq<char>,
    data: KeyStoreData,
    step: AddStep,
)
    requires
        passphrase.len() > 0,
        data.version == KEYSTORE_VERSION,
        crate::auth::normalized(username) matches Ok(name) && data@.has(name),
        add_leads_to(username, passphrase, AddEvent::Load(LoadEvent::Parsed(Ok(data))), step),
    ensures
        step matches AddStep::Done(Err(KeyStoreError::DuplicateUsername(u))) && Ok::<
            Seq<char>,
            Seq<char>,
        >(u@) == crate::auth::normalized(username),
{
}

/// Says whether a keystore is the one that was there before a user was added, with the user's new
/// record at the end: older records keep their place, and the new one has the normalized username
/// and a hash of the key.
pub open spec fn extends(
    old_data: KeyStoreData,
    username: Seq<char>,
    key: Seq<char>,
    data: KeyStoreData,
) -> bool {
    crate::auth::normalized(username) matches Ok(name) && !old_data@.has(name) && exists|
        hash: Seq<char>,
    |
        data@ == #[trigger] old_data@.with(name, hash) && crate::hashing::is_key_hash(
            vstd::utf8::encode_utf8(key),
            hash,
        )
}

/// The key that is handed out when a user is added belongs to the user in the file that was
/// written: if JSON reads back what it wrote, the keystore that is loaded from the file has one
/// record more than the one before, under the normalized username, and its hash verifies the
/// key. Nothing else can come of loading it but a stop at age's work limit, whose error is handed
/// on.
pub proof fn law_added_key_is_in_the_file(
    username: Seq<char>,
    passphrase: Seq<char>,
    before: Surroundings,
    seen: Result<Vec<u8>, Unreadable>,
    key: String,
    end: Option<Vec<u8>>,
    after: Surroundings,
    outcome: Result<Vec<u8>, Unreadable>,
    r: Result<KeyStoreData, KeyStoreError>,
)
    requires
        add_result(username, passphrase, before, seen, Ok(key), end),
        end matches Some(file) ==> after.file == Ok::<Option<Vec<u8>>, std::io::Error>(Some(file)),
        forall|data: KeyStoreData| #[trigger] reads_back(before, after, data),
        load_result(passphrase, after, outcome, r),
    ensures
        end is Some,
        is_api_key(key@),
        match outcome {
            Err(Unreadable::WorkLimit(e)) => r == Err::<KeyStoreData, KeyStoreError>(
                KeyStoreError::AgeDecrypt(e),
            ),
            _ => r matches Ok(data) && exists|loaded: KeyStoreData| #[trigger]
                load_result(passphrase, before, seen, Ok(loaded)) && extends(
                    loaded,
                    username,
                    key@,
                    data,
                ),
        },
{
    let name = crate::auth::normalized(username)->Ok_0;
    let loaded = choose|loaded: Result<KeyStoreData, KeyStoreError>| #[trigger]
        load_result(passphrase, before, seen, loaded) && match loaded {
            Err(e) => Ok::<String, KeyStoreError>(key) == Err::<String, KeyStoreError>(e)
                && end is None,
            Ok(data) => extend_result(name, passphrase, data, before, Ok(key), end),
        };
    let data = loaded->Ok_0;
    let (pending, saved) = choose|pending: PendingKey, saved: Result<(), KeyStoreError>|
        is_pending(data@, name, pending) && #[trigger] save_result(
            passphrase,
            pending.data,
            before,
            saved,
            end,
        ) && Ok::<String, KeyStoreError>(key) == key_or_error(pending, saved);
    law_loaded_format(passphrase, before, seen, loaded);
    assert(pending.data@.version == data@.version);
    assert(reads_back(before, after, pending.data));
    law_loading_undoes_saving(passphrase, pending.data, end->0, before, after, outcome, r);
    if !(outcome matches Err(Unreadable::WorkLimit(_))) {
        assert(r->Ok_0@ == pending.data@);
        assert(extends(data, username, key@, r->Ok_0));
        assert(load_result(passphrase, before, seen, Ok(data)));
    }
}

/// The key that is handed out when a user is added authenticates the user: looked up in the
/// keystore that is loaded from the file that was written, it gives the normalized username, if
/// it misses all records that were there before. Nothing else can come of it but a stop at age's
/// work limit, whose error is handed on.
pub proof fn law_added_key_authenticates(
    username: Seq<char>,
    passphrase: Seq<char>,
    before: Surroundings,
    seen: Result<Vec<u8>, Unreadable>,
    key: String,
    end: Option<Vec<u8>>,
    after: Surroundings,
    outcome: Result<Vec<u8>, Unreadable>,
    r: Result<KeyStoreData, KeyStoreError>,
    resolved: Result<Option<String>, KeyStoreError>,
)
    requires
        add_result(username, passphrase, before, seen, Ok(key), end),
        end matches Some(file) ==> after.file == Ok::<Option<Vec<u8>>, std::io::Error>(Some(file)),
        forall|data: KeyStoreData| #[trigger] reads_back(before, after, data),
        forall|data: KeyStoreData| #[trigger]
            load_result(passphrase, before, seen, Ok(data)) ==> crate::auth::misses(
                data@,
                vstd::utf8::encode_utf8(key@),
            ),
        load_result(passphrase, after, outcome, r),
        r matches Ok(data) ==> crate::auth::resolves_to(
            data@,
            vstd::utf8::encode_utf8(key@),
            resolved,
        ),
    ensures
        match outcome {
            Err(Unreadable::WorkLimit(e)) => r == Err::<KeyStoreData, KeyStoreError>(
                KeyStoreError::AgeDecrypt(e),
            ),
            _ => r is Ok && (resolved matches Ok(Some(name)) && crate::auth::normalized(username)
                == Ok::<Seq<char>, Seq<char>>(name@)),
        },
{
    law_added_key_is_in_the_file(
        username,
        passphrase,
        before,
        seen,
        key,
        end,
        after,
        outcome,
        r,
    );
    if !(outcome matches Err(Unreadable::WorkLimit(_))) {
        let bytes = vstd::utf8::encode_utf8(key@);
        let name = crate::auth::normalized(username)->Ok_0;
        let data = r->Ok_0;
        let loaded = choose|loaded: KeyStoreData| #[trigger]
            load_result(passphrase, before, seen, Ok(loaded)) && extends(
                loaded,
                username,
                key@,
                data,
            );
        let hash = choose|hash: Seq<char>|
            data@ == #[trigger] loaded@.with(name, hash) && crate::hashing::is_key_hash(
                bytes,
                hash,
            );
        crate::auth::law_added_key_resolves(loaded@, name, bytes, hash, resolved);
    }
}

/// A user who was added is not added again: under a username with the same normalized form, a
/// second call on the file that the first one wrote is refused with that form, and writes
/// nothing. Nothing else can come of it but a stop at age's work limit, whose error is handed on
/// and which writes nothing either.
pub proof fn law_added_user_is_not_added_again(
    first: Seq<char>,
    second: Seq<char>,
    passphrase: Seq<char>,
    before: Surroundings,
    seen: Result<Vec<u8>, Unreadable>,
    key: String,
    end: Option<Vec<u8>>,
    after: Surroundings,
    outcome: Result<Vec<u8>, Unreadable>,
    r: Result<String, KeyStoreError>,
    second_end: Option<Vec<u8>>,
)
    requires
        crate::auth::normalized(first) == crate::auth::normalized(second),
        add_result(first, passphrase, before, seen, Ok(key), end),
        end matches Some(file) ==> after.file == Ok::<Option<Vec<u8>>, std::io::Error>(Some(file)),
        forall|data: KeyStoreData| #[trigger] reads_back(before, after, data),
        add_result(second, passphrase, after, outcome, r, second_end),
    ensures
        second_end is None,
        match outcome {
            Err(Unreadable::WorkLimit(e)) => r == Err::<String, KeyStoreError>(
                KeyStoreError::AgeDecrypt(e),
            ),
            _ => r matches Err(KeyStoreError::DuplicateUsername(u)) && crate::auth::normalized(
                second,
            ) == Ok::<Seq<char>, Seq<char>>(u@),
        },
{
    let name = crate::auth::normalized(second)->Ok_0;
    let loaded = choose|loaded: Result<KeyStoreData, KeyStoreError>| #[trigger]
        load_result(passphrase, after, outcome, loaded) && match loaded {
            Err(e) => r == Err::<String, KeyStoreError>(e) && second_end is None,
            Ok(data) => extend_result(name, passphrase, data, after, r, second_end),
        };
    law_added_key_is_in_the_file(
        first,
        passphrase,
        before,
        seen,
        key,
        end,
        after,
        outcome,
        loaded,
    );
    if let Ok(data) = loaded {
        let old_data = choose|old_data: KeyStoreData| #[trigger]
            load_result(passphrase, before, seen, Ok(old_data)) && extends(
                old_data,
                first,
                key@,
                data,
            );
        assert(data@.entries.last().username == name);
        assert(data@.has(name));
    }
}

/// What a pending key brings about, entry by entry.
proof fn lemma_pending(old_data: KeyStoreData, name: Seq<char>, pending: PendingKey)
    requires
        is_pending(old_data@, name, pending),
    ensures
        pending.data.version == old_data.version,
        pending.data.entries@.len() == old_data.entries@.len() + 1,
        forall|i: int|
            0 <= i < old_data.entries@.len() ==> (#[trigger] pending.data.entries@[i]).username@
                == old_data.entries@[i].username@ && pending.data.entries@[i].key_hash@
                == old_data.entries@[i].key_hash@,
        pending.data.entries@.last().username@ == name,
        crate::hashing::is_key_hash(
            vstd::utf8::encode_utf8(pending.api_key@),
            pending.data.entries@.last().key_hash@,
        ),
{
    let hash = choose|hash: Seq<char>|
        pending.data@ == #[trigger] old_data@.with(name, hash) && crate::hashing::is_key_hash(
            vstd::utf8::encode_utf8(pending.api_key@),
            hash,
        );
    let n = old_data.entries@.len() as int;
    crate::auth::law_view_shows_the_entries(old_data);
    crate::auth::law_view_shows_the_entries(pending.data);
    assert(pending.data@.entries.len() == n + 1);
    assert(pending.data@.entries[n].username == name);
    assert forall|i: int| 0 <= i < n implies (#[trigger] pending.data.entries@[i]).username@
        == old_data.entries@[i].username@ && pending.data.entries@[i].key_hash@
        == old_data.entries@[i].key_hash@ by {
        assert(pending.data@.entries[i] == old_data@.entries[i]);
    }
    assert(pending.data.entries@.last().key_hash@ == hash);
}

/// A user who is not in the loaded keystore gets a key: the text of bytes that the random source
/// gave for it. The keystore to save has one entry more, for the normalized username, with a hash
/// that the key verifies against and that was made under a salt drawn for it. All other entries
/// stay as they are.
pub proof fn law_new_user_gets_a_drawn_key(
    username: Seq<char>,
    passphrase: Seq<char>,
    data: KeyStoreData,
    step: AddStep,
)
    requires
        passphrase.len() > 0,
        data.version == 1,
        crate::auth::is_good_username(crate::text::trimmed(username)),
        forall|i: int|
            0 <= i < data.entries@.len() ==> #[trigger] data.entries@[i].username@
                != crate::text::trimmed(username),
        add_leads_to(username, passphrase, AddEvent::Load(LoadEvent::Parsed(Ok(data))), step),
    ensures
        step is Save,
        step->Save_1 == SaveStep::CreateParent,
        exists|bytes: Seq<u8>|
            crate::origin::is_drawn(bytes) && bytes.len() == 32 && step->Save_0.api_key@
                == #[trigger] crate::encoding::base64_text(bytes, crate::encoding::url_safe()),
        step->Save_0.data.version == 1,
        step->Save_0.data.entries@.len() == data.entries@.len() + 1,
        forall|i: int|
            0 <= i < data.entries@.len() ==> (
            #[trigger] step->Save_0.data.entries@[i]).username@ == data.entries@[i].username@
                && step->Save_0.data.entries@[i].key_hash@ == data.entries@[i].key_hash@,
        step->Save_0.data.entries@.last().username@ == crate::text::trimmed(username),
        crate::hashing::phc_parses(step->Save_0.data.entries@.last().key_hash@),
        crate::hashing::argon2_verifies(
            vstd::utf8::encode_utf8(step->Save_0.api_key@),
            step->Save_0.data.entries@.last().key_hash@,
        ),
        exists|salt: Seq<char>|
            crate::origin::is_drawn_salt(salt) && #[trigger] crate::hashing::argon2_phc(
                vstd::utf8::encode_utf8(step->Save_0.api_key@),
                salt,
            ) == Some(step->Save_0.data.entries@.last().key_hash@),
{
    let name = crate::text::trimmed(username);
    crate::auth::law_accepted_exactly_if_good(username);
    crate::auth::law_record_exactly_if_entry(data, name);
    lemma_pending(data, name, step->Save_0);
    crate::hashing::law_key_hash_is_salted(
        vstd::utf8::encode_utf8(step->Save_0.api_key@),
        step->Save_0.data.entries@.last().key_hash@,
    );
}

/// Where there is no file yet, the user who is added is the only one in the keystore to save, with
/// a key that was drawn for it.
pub proof fn law_first_user_gets_a_drawn_key(
    username: Seq<char>,
    passphrase: Seq<char>,
    step: AddStep,
)
    requires
        passphrase.len() > 0,
        crate::auth::is_good_username(crate::text::trimmed(username)),
        add_leads_to(username, passphrase, AddEvent::Load(LoadEvent::File(Ok(None))), step),
    ensures
        step is Save,
        step->Save_1 == SaveStep::CreateParent,
        exists|bytes: Seq<u8>|
            crate::origin::is_drawn(bytes) && bytes.len() == 32 && step->Save_0.api_key@
                == #[trigger] crate::encoding::base64_text(bytes, crate::encoding::url_safe()),
        step->Save_0.data.version == 1,
        step->Save_0.data.entries@.len() == 1,
        step->Save_0.data.entries@[0].username@ == crate::text::trimmed(username),
        crate::hashing::phc_parses(step->Save_0.data.entries@[0].key_hash@),
        crate::hashing::argon2_verifies(
            vstd::utf8::encode_utf8(step->Save_0.api_key@),
            step->Save_0.data.entries@[0].key_hash@,
        ),
{
    let name = crate::text::trimmed(username);
    crate::auth::law_accepted_exactly_if_good(username);
    let loaded = choose|loaded: LoadStep| #[trigger]
        load_leads_to(passphrase, LoadEvent::File(Ok(None)), loaded) && add_after_load(
            name,
            loaded,
            step,
        );
    let data = loaded->Done_0->Ok_0;
    crate::auth::law_view_shows_the_entries(data);
    lemma_pending(data, name, step->Save_0);
    crate::hashing::law_key_hash_is_salted(
        vstd::utf8::encode_utf8(step->Save_0.api_key@),
        step->Save_0.data.entries@.last().key_hash@,
    );
}

/// Whenever a key is made for a user, it is the text of bytes that the random source gave: two
/// users get the same key only where the source gave the same bytes twice.
pub proof fn law_keys_are_as_different_as_their_draws(
    username1: Seq<char>,
    passphrase1: Seq<char>,
    event1: LoadEvent,
    pending1: PendingKey,
    save1: SaveStep,
    username2: Seq<char>,
    passphrase2: Seq<char>,
    event2: LoadEvent,
    pending2: PendingKey,
    save2: SaveStep,
)
    requires
        add_leads_to(
            username1,
            passphrase1,
            AddEvent::Load(event1),
            AddStep::Save(pending1, save1),
        ),
        add_leads_to(
            username2,
            passphrase2,
            AddEvent::Load(event2),
            AddStep::Save(pending2, save2),
        ),
    ensures
        exists|bytes1: Seq<u8>, bytes2: Seq<u8>|
            {
                &&& crate::origin::is_drawn(bytes1) && crate::origin::is_drawn(bytes2)
                &&& pending1.api_key@ == #[trigger] crate::encoding::base64_text(
                    bytes1,
                    crate::encoding::url_safe(),
                )
                &&& pending2.api_key@ == #[trigger] crate::encoding::base64_text(
                    bytes2,
                    crate::encoding::url_safe(),
                )
                &&& pending1.api_key@ == pending2.api_key@ <==> bytes1 == bytes2
            },
{
    let bytes1 = choose|bytes: Seq<u8>|
        crate::origin::is_drawn(bytes) && bytes.len() == crate::encoding::RANDOM_KEY_LEN
            && pending1.api_key@ == #[trigger] crate::encoding::base64_text(
            bytes,
            crate::encoding::url_safe(),
        );
    let bytes2 = choose|bytes: Seq<u8>|
        crate::origin::is_drawn(bytes) && bytes.len() == crate::encoding::RANDOM_KEY_LEN
            && pending2.api_key@ == #[trigger] crate::encoding::base64_text(
            bytes,
            crate::encoding::url_safe(),
        );
    if pending1.api_key@ == pending2.api_key@ {
        crate::encoding::law_api_keys_keep_apart(bytes1, bytes2);
    }
    assert(pending1.api_key@ == crate::encoding::base64_text(bytes1, crate::encoding::url_safe()));
    assert(pending2.api_key@ == crate::encoding::base64_text(bytes2, crate::encoding::url_safe()));
}

/// Loading asks for the file, decrypts it as age does, and gives the keystore that was read from
/// it if its version is 1. Errors are handed on, and an absent file is a keystore without entries.
pub proof fn law_loading_goes_by_what_it_is_told(
    passphrase: Seq<char>,
    event: LoadEvent,
    step: LoadStep,
)
    requires
        passphrase.len() > 0,
        load_leads_to(passphrase, event, step),
    ensures
        match event {
            LoadEvent::Start => step == LoadStep::ReadFile,
            LoadEvent::File(Err(e)) => step == LoadStep::Done(Err(KeyStoreError::Io(e))),
            LoadEvent::File(Ok(None)) => step matches LoadStep::Done(Ok(data)) && data.version == 1
                && data.entries@.len() == 0,
            LoadEvent::File(Ok(Some(file))) => match step {
                LoadStep::Parse(plaintext) => crate::sealing::age_plaintext(passphrase, file@)
                    == Some(plaintext@),
                LoadStep::Done(r) => r matches Err(KeyStoreError::AgeDecrypt(_)),
                LoadStep::ReadFile => false,
            },
            LoadEvent::Parsed(Err(e)) => step == LoadStep::Done(Err(KeyStoreError::Json(e))),
            LoadEvent::Parsed(Ok(data)) => if data.version == 1 {
                step == LoadStep::Done(Ok(data))
            } else {
                step == LoadStep::Done(
                    Err(KeyStoreError::UnsupportedKeystoreVersion(data.version)),
                )
            },
        },
{
    if let LoadStep::Done(Ok(data)) = step {
        crate::auth::law_view_shows_the_entries(data);
    }
}

/// Saving asks for the directory, then for the bytes of the keystore, and hands out a file that age
/// reads as these bytes under the passphrase. Errors are handed on.
pub proof fn law_saving_goes_by_what_it_is_told(
    passphrase: Seq<char>,
    event: SaveEvent,
    step: SaveStep,
)
    requires
        passphrase.len() > 0,
        save_leads_to(passphrase, event, step),
    ensures
        match event {
            SaveEvent::Start => step == SaveStep::CreateParent,
            SaveEvent::Parent(Ok(_)) => step == SaveStep::Serialize,
            SaveEvent::Parent(Err(e)) => step == SaveStep::Done(Err(KeyStoreError::Io(e))),
            SaveEvent::Serialized(Ok(json)) => step matches SaveStep::Write(file)
                && crate::sealing::age_plaintext(passphrase, file@) == Some(json@),
            SaveEvent::Serialized(Err(e)) => step == SaveStep::Done(Err(KeyStoreError::Json(e))),
            SaveEvent::Written(Ok(_)) => step == SaveStep::Done(Ok(())),
            SaveEvent::Written(Err(e)) => step == SaveStep::Done(Err(KeyStoreError::Io(e))),
        },
{
}

/// Adding a user loads the keystore first. It gives a username that is no good back with the
/// reason, a name that is taken as taken, and hands errors of loading on.
pub proof fn law_adding_loads_first(
    username: Seq<char>,
    passphrase: Seq<char>,
    event: LoadEvent,
    step: AddStep,
)
    requires
        passphrase.len() > 0,
        add_leads_to(username, passphrase, AddEvent::Load(event), step) || (event is Start
            && add_leads_to(username, passphrase, AddEvent::Start, step)),
    ensures
        !crate::auth::is_good_username(crate::text::trimmed(username)) ==> step matches AddStep::Done(
            Err(KeyStoreError::InvalidUsername(_)),
        ),
        crate::auth::is_good_username(crate::text::trimmed(username)) ==> match event {
            LoadEvent::Start => step == AddStep::Load(LoadStep::ReadFile),
            LoadEvent::File(Err(e)) => step == AddStep::Done(Err(KeyStoreError::Io(e))),
            LoadEvent::File(Ok(None)) => step matches AddStep::Save(_, SaveStep::CreateParent),
            LoadEvent::File(Ok(Some(file))) => match step {
                AddStep::Load(LoadStep::Parse(plaintext)) => crate::sealing::age_plaintext(
                    passphrase,
                    file@,
                ) == Some(plaintext@),
                AddStep::Done(r) => r matches Err(KeyStoreError::AgeDecrypt(_)),
                _ => false,
            },
            LoadEvent::Parsed(Err(e)) => step == AddStep::Done(Err(KeyStoreError::Json(e))),
            LoadEvent::Parsed(Ok(data)) => if data.version != 1 {
                step == AddStep::Done(
                    Err(KeyStoreError::UnsupportedKeystoreVersion(data.version)),
                )
            } else if exists|i: int|
                0 <= i < data.entries@.len() && #[trigger] data.entries@[i].username@
                    == crate::text::trimmed(username) {
                step matches AddStep::Done(Err(KeyStoreError::DuplicateUsername(u))) && u@
                    == crate::text::trimmed(username)
            } else {
                step matches AddStep::Save(_, SaveStep::CreateParent)
            },
        },
{
    crate::auth::law_accepted_exactly_if_good(username);
    if let LoadEvent::Parsed(Ok(data)) = event {
        crate::auth::law_record_exactly_if_entry(data, crate::text::trimmed(username));
    }
    if crate::auth::is_good_username(crate::text::trimmed(username)) {
        let name = crate::text::trimmed(username);
        let loaded = choose|loaded: LoadStep| #[trigger]
            load_leads_to(passphrase, event, loaded) && add_after_load(name, loaded, step);
        law_loading_goes_by_what_it_is_told(passphrase, event, loaded);
        if let LoadStep::Done(Ok(data)) = loaded {
            crate::auth::law_view_shows_the_entries(data);
        }
    }
}

/// A pending key is saved as any keystore is, and handed out when the file is written.
pub proof fn law_pending_key_is_saved(
    username: Seq<char>,
    passphrase: Seq<char>,
    pending: PendingKey,
    event: SaveEvent,
    step: AddStep,
)
    requires
        passphrase.len() > 0,
        crate::auth::is_good_username(crate::text::trimmed(username)),
        add_leads_to(username, passphrase, AddEvent::Save(pending, event), step),
    ensures
        match event {
            SaveEvent::Start => step == AddStep::Save(pending, SaveStep::CreateParent),
            SaveEvent::Parent(Ok(_)) => step == AddStep::Save(pending, SaveStep::Serialize),
            SaveEvent::Parent(Err(e)) => step == AddStep::Done(Err(KeyStoreError::Io(e))),
            SaveEvent::Serialized(Ok(json)) => step matches AddStep::Save(
                still,
                SaveStep::Write(file),
            ) && still == pending && crate::sealing::age_plaintext(passphrase, file@) == Some(json@),
            SaveEvent::Serialized(Err(e)) => step == AddStep::Done(Err(KeyStoreError::Json(e))),
            SaveEvent::Written(Ok(_)) => step == AddStep::Done(Ok(pending.api_key)),
            SaveEvent::Written(Err(e)) => step == AddStep::Done(Err(KeyStoreError::Io(e))),
        },
{
    crate::auth::law_accepted_exactly_if_good(username);
    let saved = choose|saved: SaveStep| #[trigger]
        save_leads_to(passphrase, event, saved) && add_after_save(pending, saved, step);
    law_saving_goes_by_what_it_is_told(passphrase, event, saved);
}

/// A keystore that was extended has the old entries as they were, and behind them one for the
/// normalized username with a hash that the key verifies against.
pub proof fn law_extended_keystore_has_one_more_entry(
    old_data: KeyStoreData,
    username: Seq<char>,
    key: Seq<char>,
    data: KeyStoreData,
)
    requires
        extends(old_data, username, key, data),
    ensures
        data.version == old_data.version,
        data.entries@.len() == old_data.entries@.len() + 1,
        forall|i: int|
            0 <= i < old_data.entries@.len() ==> (#[trigger] data.entries@[i]).username@
                == old_data.entries@[i].username@ && data.entries@[i].key_hash@
                == old_data.entries@[i].key_hash@,
        data.entries@.last().username@ == crate::text::trimmed(username),
        crate::hashing::phc_parses(data.entries@.last().key_hash@),
        crate::hashing::argon2_verifies(
            vstd::utf8::encode_utf8(key),
            data.entries@.last().key_hash@,
        ),
{
    crate::auth::law_accepted_exactly_if_good(username);
    let name = crate::text::trimmed(username);
    let hash = choose|hash: Seq<char>|
        data@ == #[trigger] old_data@.with(name, hash) && crate::hashing::is_key_hash(
            vstd::utf8::encode_utf8(key),
            hash,
        );
    let n = old_data.entries@.len() as int;
    crate::auth::law_view_shows_the_entries(old_data);
    crate::auth::law_view_shows_the_entries(data);
    crate::hashing::law_key_hash_is_salted(vstd::utf8::encode_utf8(key), hash);
    assert(data@.entries.len() == n + 1);
    assert(data@.entries[n].username == name);
    assert forall|i: int| 0 <= i < n implies (#[trigger] data.entries@[i]).username@
        == old_data.entries@[i].username@ && data.entries@[i].key_hash@
        == old_data.entries@[i].key_hash@ by {
        assert(data@.entries[i] == old_data@.entries[i]);
    }
    assert(data.entries@.last().key_hash@ == hash);
}

/// Adding a good username that is not taken succeeds where the file can be read, made into JSON and
/// written: a key is handed out, and a file is written.
pub proof fn law_new_user_is_added(
    username: Seq<char>,
    passphrase: Seq<char>,
    around: Surroundings,
    outcome: Result<Vec<u8>, Unreadable>,
    data: KeyStoreData,
    r: Result<String, KeyStoreError>,
    end: Option<Vec<u8>>,
)
    requires
        crate::auth::is_good_username(crate::text::trimmed(username)),
        load_result(passphrase, around, outcome, Ok(data)),
        forall|i: int|
            0 <= i < data.entries@.len() ==> #[trigger] data.entries@[i].username@
                != crate::text::trimmed(username),
        around.parent is Ok,
        forall|d: KeyStoreData| #[trigger] (around.serialize)(d) is Ok,
        around.write is Ok,
        add_result(username, passphrase, around, outcome, r, end),
    ensures
        r matches Ok(key) && exists|bytes: Seq<u8>|
            crate::origin::is_drawn(bytes) && key@ == #[trigger] crate::encoding::base64_text(
                bytes,
                crate::encoding::url_safe(),
            ),
        end is Some,
{
    let name = crate::text::trimmed(username);
    crate::auth::law_accepted_exactly_if_good(username);
    crate::auth::law_record_exactly_if_entry(data, name);
    let loaded = choose|loaded: Result<KeyStoreData, KeyStoreError>| #[trigger]
        load_result(passphrase, around, outcome, loaded) && match loaded {
            Err(e) => r == Err::<String, KeyStoreError>(e) && end is None,
            Ok(d) => extend_result(name, passphrase, d, around, r, end),
        };
    assert(loaded is Ok && loaded->Ok_0@ == data@);
    let (pending, saved) = choose|pending: PendingKey, saved: Result<(), KeyStoreError>|
        is_pending(data@, name, pending) && #[trigger] save_result(
            passphrase,
            pending.data,
            around,
            saved,
            end,
        ) && r == key_or_error(pending, saved);
    assert((around.serialize)(pending.data) is Ok);
}

/// What comes after a step of adding a user that is not its last.
pub open spec fn add_answer(around: Surroundings, step: AddStep) -> AddEvent {
    match step {
        AddStep::Load(load) => AddEvent::Load(around.load_answer(load)),
        AddStep::Save(pending, save) => AddEvent::Save(
            pending,
            around.save_answer(pending.data, save),
        ),
        AddStep::Done(_) => AddEvent::Start,
    }
}

/// Says whether adding a user can go on from an event for a number of steps without a result.
pub open spec fn add_runs_on(
    username: Seq<char>,
    passphrase: Seq<char>,
    around: Surroundings,
    event: AddEvent,
    steps: nat,
) -> bool
    decreases steps,
{
    if steps == 0 {
        true
    } else {
        exists|step: AddStep| #[trigger]
            add_leads_to(username, passphrase, event, step) && !(step is Done) && add_runs_on(
                username,
                passphrase,
                around,
                add_answer(around, step),
                (steps - 1) as nat,
            )
    }
}

/// How many steps adding a user can still take after an event.
spec fn add_steps_left(event: AddEvent) -> nat {
    match event {
        AddEvent::Start => 6,
        AddEvent::Load(LoadEvent::Start) => 6,
        AddEvent::Load(LoadEvent::File(_)) => 5,
        AddEvent::Load(LoadEvent::Parsed(_)) => 4,
        AddEvent::Save(_, SaveEvent::Start) => 4,
        AddEvent::Save(_, SaveEvent::Parent(_)) => 3,
        AddEvent::Save(_, SaveEvent::Serialized(_)) => 2,
        AddEvent::Save(_, SaveEvent::Written(_)) => 1,
    }
}

proof fn lemma_add_ends(
    username: Seq<char>,
    passphrase: Seq<char>,
    around: Surroundings,
    event: AddEvent,
    steps: nat,
)
    requires
        add_runs_on(username, passphrase, around, event, steps),
    ensures
        steps < add_steps_left(event),
    decreases steps,
{
    if steps > 0 {
        let step = choose|step: AddStep| #[trigger]
            add_leads_to(username, passphrase, event, step) && !(step is Done) && add_runs_on(
                username,
                passphrase,
                around,
                add_answer(around, step),
                (steps - 1) as nat,
            );
        lemma_add_ends(
            username,
            passphrase,
            around,
            add_answer(around, step),
            (steps - 1) as nat,
        );
    }
}

/// Adding a user ends: it never goes on for six steps without a result.
pub proof fn law_adding_ends(
    username: Seq<char>,
    passphrase: Seq<char>,
    around: Surroundings,
    steps: nat,
)
    requires
        add_runs_on(username, passphrase, around, AddEvent::Start, steps),
    ensures
        steps < 6,
{
    lemma_add_ends(username, passphrase, around, AddEvent::Start, steps);
}

} // verus!
