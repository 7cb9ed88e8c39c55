//! API key material for gateway authentication: usernames, and the keystore that holds an
//! Argon2id hash for each of them.

pub use crate::error::{KeyStoreError, KEYSTORE_VERSION};
pub use crate::hashing::{
    generate_strong_api_key, hash_api_key, hash_api_key_with_salt, verify_api_key,
};
pub use crate::keystore::{add_user_api_key, load_keystore, save_keystore};
pub use crate::paths::default_keystore_path;
use crate::text::{chars_of, same_text, trim};
use vstd::prelude::*;
use vstd::string::StringSliceAdditionalSpecFns;

verus! {

/// The longest username, in bytes.
pub const MAX_USERNAME_LEN: usize = 128;

/// One user's entry in the keystore.
#[derive(Debug)]
pub struct KeyEntry {
    pub username: String,
    /// Argon2 PHC string of the API key (never store the raw key).
    pub key_hash: String,
}

/// The content of a keystore.
#[derive(Debug)]
pub struct KeyStoreData {
    pub version: u32,
    pub entries: Vec<KeyEntry>,
}

/// Set on the request by the API-key middleware after a successful lookup.
#[derive(Debug)]
pub struct AuthenticatedUser {
    pub username: String,
}

/// What an entry stands for.
pub struct KeyRecord {
    pub username: Seq<char>,
    pub key_hash: Seq<char>,
}

/// What a keystore stands for: its format, and one record after the other.
#[verifier::ext_equal]
pub struct KeyRecords {
    pub version: u32,
    pub entries: Seq<KeyRecord>,
}

impl View for KeyEntry {
    type V = KeyRecord;

    open spec fn view(&self) -> KeyRecord {
        KeyRecord { username: self.username@, key_hash: self.key_hash@ }
    }
}

impl View for KeyStoreData {
    type V = KeyRecords;

    open spec fn view(&self) -> KeyRecords {
        KeyRecords {
            version: self.version,
            entries: self.entries@.map_values(|e: KeyEntry| e@),
        }
    }
}

impl Clone for KeyEntry {
    fn clone(&self) -> (r: Self)
        ensures
            r@ == self@,
    {
        KeyEntry { username: self.username.clone(), key_hash: self.key_hash.clone() }
    }
}

impl Clone for KeyStoreData {
    fn clone(&self) -> (r: Self)
        ensures
            r@ == self@,
    {
        KeyStoreData { version: self.version, entries: self.entries.clone() }
    }
}

impl Clone for AuthenticatedUser {
    fn clone(&self) -> (r: Self)
        ensures
            r.username@ == self.username@,
    {
        AuthenticatedUser { username: self.username.clone() }
    }
}

impl PartialEq for KeyEntry {
    fn eq(&self, other: &Self) -> (r: bool) {
        self.username == other.username && self.key_hash == other.key_hash
    }
}

impl vstd::std_specs::cmp::PartialEqSpecImpl for KeyEntry {
    open spec fn obeys_eq_spec() -> bool {
        true
    }

    open spec fn eq_spec(&self, other: &Self) -> bool {
        self@ == other@
    }
}

impl Eq for KeyEntry {

}

impl KeyStoreData {
    /// A keystore without entries, in the format of this crate.
    pub fn empty() -> (r: Self)
        ensures
            r@ == KeyRecords::none(),
            r.version == 1,
            r.entries@.len() == 0,
    {
        KeyStoreData { version: KEYSTORE_VERSION, entries: Vec::new() }
    }
}

impl KeyRecords {
    /// No records, in the format of this crate.
    pub open spec fn none() -> KeyRecords {
        KeyRecords { version: KEYSTORE_VERSION, entries: Seq::empty() }
    }

    /// Says whether a user has a record.
    pub open spec fn has(self, name: Seq<char>) -> bool {
        exists|i: int| 0 <= i < self.entries.len() && #[trigger] self.entries[i].username == name
    }

    /// Says whether a position holds a user's first record.
    pub open spec fn is_first(self, name: Seq<char>, i: int) -> bool {
        &&& 0 <= i < self.entries.len()
        &&& self.entries[i].username == name
        &&& forall|j: int| 0 <= j < i ==> #[trigger] self.entries[j].username != name
    }

    /// The records with one more at the end.
    pub open spec fn with(self, name: Seq<char>, hash: Seq<char>) -> KeyRecords {
        KeyRecords {
            version: self.version,
            entries: self.entries.push(KeyRecord { username: name, key_hash: hash }),
        }
    }

    /// What adding users alone brings about: each username is normalized, and no two records
    /// have the same.
    pub open spec fn well_formed(self) -> bool {
        &&& self.version == KEYSTORE_VERSION
        &&& forall|i: int|
            0 <= i < self.entries.len() ==> normalized(#[trigger] self.entries[i].username)
                == Ok::<Seq<char>, Seq<char>>(self.entries[i].username)
        &&& forall|i: int, j: int|
            0 <= i < j < self.entries.len() ==> #[trigger] self.entries[i].username
                != #[trigger] self.entries[j].username
    }
}

/// The characters that a username may hold.
pub open spec fn is_username_char(c: char) -> bool {
    ||| 'a' <= c <= 'z'
    ||| 'A' <= c <= 'Z'
    ||| '0' <= c <= '9'
    ||| c == '.'
    ||| c == '_'
    ||| c == '-'
}

/// A username without the white space around it, or why it is refused.
pub open spec fn normalized(raw: Seq<char>) -> Result<Seq<char>, Seq<char>> {
    let name = crate::text::trimmed(raw);
    if name.len() == 0 {
        Err("username must not be empty"@)
    } else if vstd::utf8::encode_utf8(name).len() > MAX_USERNAME_LEN {
        Err("username must be at most 128 characters"@)
    } else if exists|i: int| 0 <= i < name.len() && !is_username_char(#[trigger] name[i]) {
        Err("username may only contain ASCII letters, digits, '.', '_', and '-'"@)
    } else {
        Ok(name)
    }
}

/// Says whether a text can be a username: 1 to 128 characters, each of them an ASCII letter, a
/// digit, a dot, an underscore or a hyphen.
pub open spec fn is_good_username(name: Seq<char>) -> bool {
    1 <= name.len() <= 128 && forall|i: int|
        0 <= i < name.len() ==> {
            ||| 'a' <= #[trigger] name[i] <= 'z'
            ||| 'A' <= name[i] <= 'Z'
            ||| '0' <= name[i] <= '9'
            ||| name[i] == '.'
            ||| name[i] == '_'
            ||| name[i] == '-'
        }
}

/// A text is accepted exactly if it is a good username once it is trimmed.
pub proof fn law_accepted_exactly_if_good(raw: Seq<char>)
    ensures
        normalized(raw) is Ok <==> is_good_username(crate::text::trimmed(raw)),
        normalized(raw) matches Ok(name) ==> name == crate::text::trimmed(raw),
{
    let name = crate::text::trimmed(raw);
    if forall|i: int| 0 <= i < name.len() ==> is_username_char(#[trigger] name[i]) {
        assert(vstd::utf8::is_ascii_chars(name));
        vstd::utf8::is_ascii_chars_encode_utf8(name);
    }
}

fn username_char(c: char) -> (r: bool)
    ensures
        r == is_username_char(c),
{
    ('a' <= c && c <= 'z') || ('A' <= c && c <= 'Z') || ('0' <= c && c <= '9') || c == '.' || c
        == '_' || c == '-'
}

/// Normalizes and validates a username label for the keystore.
pub fn normalize_username(raw: &str) -> (r: Result<String, KeyStoreError>)
    ensures
        match normalized(raw@) {
            Ok(name) => r matches Ok(s) && s@ == name,
            Err(why) => r matches Err(KeyStoreError::InvalidUsername(s)) && s@ == why,
        },
        r is Ok <==> is_good_username(crate::text::trimmed(raw@)),
        r matches Ok(s) ==> s@ == crate::text::trimmed(raw@),
{
    proof {
        law_accepted_exactly_if_good(raw@);
    }
    let name: &str = trim(raw);
    if name.is_empty() {
        return Err(KeyStoreError::InvalidUsername("username must not be empty".to_owned()));
    }
    if name.as_bytes().len() > MAX_USERNAME_LEN {
        return Err(
            KeyStoreError::InvalidUsername("username must be at most 128 characters".to_owned()),
        );
    }
    let chars: Vec<char> = chars_of(name);
    let mut i: usize = 0;
    while i < chars.len()
        invariant
            i <= chars.len(),
            chars@ == name@,
            name@ == crate::text::trimmed(raw@),
            0 < name@.len(),
            vstd::utf8::encode_utf8(name@).len() <= MAX_USERNAME_LEN,
            forall|j: int| 0 <= j < i ==> is_username_char(#[trigger] name@[j]),
        decreases chars.len() - i,
    {
        if !username_char(chars[i]) {
            return Err(
                KeyStoreError::InvalidUsername(
                    "username may only contain ASCII letters, digits, '.', '_', and '-'".to_owned(),
                ),
            );
        }
        i = i + 1;
    }
    Ok(name.to_owned())
}

/// Says what a lookup by username finds: the hash in the user's first record.
pub open spec fn looks_up(store: KeyRecords, raw: Seq<char>, found: Option<Seq<char>>) -> bool {
    match normalized(raw) {
        Err(_) => found is None,
        Ok(name) => match found {
            Some(hash) => exists|i: int| #[trigger]
                store.is_first(name, i) && store.entries[i].key_hash == hash,
            None => !store.has(name),
        },
    }
}

/// The position of a user's first record.
fn position_of(data: &KeyStoreData, name: &str) -> (r: Option<usize>)
    ensures
        match r {
            Some(i) => data@.is_first(name@, i as int),
            None => !data@.has(name@),
        },
{
    let mut i: usize = 0;
    while i < data.entries.len()
        invariant
            i <= data.entries.len(),
            forall|j: int| 0 <= j < i ==> #[trigger] data@.entries[j].username != name@,
        decreases data.entries.len() - i,
    {
        if same_text(data.entries[i].username.as_str(), name) {
            return Some(i);
        }
        i = i + 1;
    }
    None
}

/// Looks up the stored Argon2 PHC string for a normalized username.
pub fn key_hash_for_username<'a>(data: &'a KeyStoreData, username: &str) -> (r: Option<&'a str>)
    ensures
        looks_up(
            data@,
            username@,
            match r {
                Some(hash) => Some(hash@),
                None => None,
            },
        ),
{
    match normalize_username(username) {
        Err(_) => None,
        Ok(name) => match position_of(data, name.as_str()) {
            Some(i) => Some(data.entries[i].key_hash.as_str()),
            None => None,
        },
    }
}

/// What holding an API key against one entry leads to.
#[derive(Debug)]
pub enum EntryVerdict {
    /// The key is not this entry's.
    Continue,
    /// The key belongs to this user.
    Found(String),
    /// The stored hash cannot be read.
    Failed(KeyStoreError),
}

/// Decides on one entry, given how the key compares to its hash.
pub fn settle_entry(entry: &KeyEntry, check: Result<bool, KeyStoreError>) -> (r: EntryVerdict)
    ensures
        match check {
            Ok(true) => r matches EntryVerdict::Found(name) && name@ == entry@.username,
            Ok(false) => r == EntryVerdict::Continue,
            Err(e) => r == EntryVerdict::Failed(e),
        },
{
    match check {
        Ok(true) => EntryVerdict::Found(entry.username.clone()),
        Ok(false) => EntryVerdict::Continue,
        Err(e) => EntryVerdict::Failed(e),
    }
}

/// Says whether a record is the first that an API key does not simply miss: it holds the hash of
/// this key, or a hash that cannot be read.
pub open spec fn decides(store: KeyRecords, secret: Seq<u8>, i: int) -> bool {
    &&& 0 <= i < store.entries.len()
    &&& crate::hashing::key_check(secret, store.entries[i].key_hash) != Some(false)
    &&& forall|j: int|
        0 <= j < i ==> crate::hashing::key_check(secret, #[trigger] store.entries[j].key_hash)
            == Some(false)
}

/// Says whether an API key misses all records.
pub open spec fn misses(store: KeyRecords, secret: Seq<u8>) -> bool {
    forall|j: int|
        0 <= j < store.entries.len() ==> crate::hashing::key_check(
            secret,
            #[trigger] store.entries[j].key_hash,
        ) == Some(false)
}

/// Says what a lookup by API key leads to.
pub open spec fn resolves_to(
    store: KeyRecords,
    secret: Seq<u8>,
    r: Result<Option<String>, KeyStoreError>,
) -> bool {
    match r {
        Ok(None) => misses(store, secret),
        Ok(Some(name)) => exists|i: int| #[trigger]
            decides(store, secret, i) && crate::hashing::key_check(
                secret,
                store.entries[i].key_hash,
            ) == Some(true) && store.entries[i].username == name@,
        Err(e) => e is PasswordHash && exists|i: int| #[trigger]
            decides(store, secret, i) && crate::hashing::key_check(
                secret,
                store.entries[i].key_hash,
            ) is None,
    }
}

/// Returns the keystore username whose Argon2 hash matches `secret`, if any.
pub fn resolve_username_for_api_key(data: &KeyStoreData, secret: &str) -> (r: Result<
    Option<String>,
    KeyStoreError,
>)
    ensures
        resolves_to(data@, secret.spec_bytes(), r),
{
    let ghost bytes = secret.spec_bytes();
    let mut i: usize = 0;
    while i < data.entries.len()
        invariant
            i <= data.entries.len(),
            bytes == secret.spec_bytes(),
            forall|j: int|
                0 <= j < i ==> crate::hashing::key_check(
                    bytes,
                    #[trigger] data@.entries[j].key_hash,
                ) == Some(false),
        decreases data.entries.len() - i,
    {
        let entry: &KeyEntry = &data.entries[i];
        match settle_entry(entry, verify_api_key(secret, entry.key_hash.as_str())) {
            EntryVerdict::Continue => {},
            EntryVerdict::Found(name) => {
                assert(decides(data@, bytes, i as int));
                return Ok(Some(name));
            },
            EntryVerdict::Failed(e) => {
                assert(decides(data@, bytes, i as int));
                return Err(e);
            },
        }
        i = i + 1;
    }
    Ok(None)
}

/// A user has a record exactly if an entry has the username.
pub proof fn law_record_exactly_if_entry(data: KeyStoreData, name: Seq<char>)
    ensures
        data@.has(name) <==> exists|i: int|
            0 <= i < data.entries@.len() && #[trigger] data.entries@[i].username@ == name,
{
    if data@.has(name) {
        let i = choose|i: int|
            0 <= i < data@.entries.len() && #[trigger] data@.entries[i].username == name;
        assert(data.entries@[i].username@ == name);
    }
    if exists|i: int| 0 <= i < data.entries@.len() && #[trigger] data.entries@[i].username@ == name {
        let i = choose|i: int|
            0 <= i < data.entries@.len() && #[trigger] data.entries@[i].username@ == name;
        assert(data@.entries[i].username == name);
    }
}

/// Tells whether a user has an entry.
pub fn has_user(data: &KeyStoreData, name: &str) -> (r: bool)
    ensures
        r == data@.has(name@),
        r <==> exists|i: int|
            0 <= i < data.entries@.len() && #[trigger] data.entries@[i].username@ == name@,
{
    proof {
        law_record_exactly_if_entry(*data, name@);
    }
    position_of(data, name).is_some()
}

/// Adds an entry for a user who has none, with the hash of the user's key.
pub fn enroll(
    data: KeyStoreData,
    username: String,
    hashed: Result<String, KeyStoreError>,
) -> (r: Result<KeyStoreData, KeyStoreError>)
    ensures
        if data@.has(username@) {
            r == Err::<KeyStoreData, KeyStoreError>(KeyStoreError::DuplicateUsername(username))
        } else {
            match hashed {
                Ok(hash) => r matches Ok(d) && d@ == data@.with(username@, hash@),
                Err(e) => r == Err::<KeyStoreData, KeyStoreError>(e),
            }
        },
        r matches Ok(d) ==> {
            &&& d.version == data.version
            &&& d.entries@.drop_last() == data.entries@
            &&& d.entries@.len() == data.entries@.len() + 1
            &&& d.entries@.last().username == username
            &&& hashed == Ok::<String, KeyStoreError>(d.entries@.last().key_hash)
        },
{
    if has_user(&data, username.as_str()) {
        return Err(KeyStoreError::DuplicateUsername(username));
    }
    match hashed {
        Err(e) => Err(e),
        Ok(key_hash) => {
            let mut out: KeyStoreData = data;
            out.entries.push(KeyEntry { username, key_hash });
            Ok(out)
        },
    }
}

/// A good username is accepted and comes back unchanged, with or without white space around it.
pub proof fn law_good_username_is_accepted(before: Seq<char>, name: Seq<char>, after: Seq<char>)
    requires
        forall|i: int|
            0 <= i < before.len() ==> crate::text::is_white_space(#[trigger] before[i]),
        forall|i: int| 0 <= i < after.len() ==> crate::text::is_white_space(#[trigger] after[i]),
        1 <= name.len() <= 128,
        forall|i: int|
            0 <= i < name.len() ==> ('a' <= #[trigger] name[i] <= 'z' || 'A' <= name[i] <= 'Z'
                || '0' <= name[i] <= '9' || name[i] == '.' || name[i] == '_' || name[i] == '-'),
    ensures
        normalized(before + name + after) == Ok::<Seq<char>, Seq<char>>(name),
{
    assert(!crate::text::is_white_space(name[0]));
    assert(!crate::text::is_white_space(name[name.len() - 1]));
    crate::text::law_trim_takes_off_white_space(before, name, after);
    assert(is_good_username(name));
    law_accepted_exactly_if_good(before + name + after);
}

/// A text that is no good username is refused: with nothing but white space as empty, with more
/// than 128 bytes as too long, and else for a character that it may not hold.
pub proof fn law_bad_username_is_refused(before: Seq<char>, name: Seq<char>, after: Seq<char>)
    requires
        forall|i: int|
            0 <= i < before.len() ==> crate::text::is_white_space(#[trigger] before[i]),
        forall|i: int| 0 <= i < after.len() ==> crate::text::is_white_space(#[trigger] after[i]),
        name.len() > 0 ==> !crate::text::is_white_space(name.first())
            && !crate::text::is_white_space(name.last()),
    ensures
        name.len() == 0 ==> normalized(before + name + after) == Err::<Seq<char>, Seq<char>>(
            "username must not be empty"@,
        ),
        name.len() > 0 && vstd::utf8::encode_utf8(name).len() > 128 ==> normalized(
            before + name + after,
        ) == Err::<Seq<char>, Seq<char>>("username must be at most 128 characters"@),
        name.len() > 0 && vstd::utf8::encode_utf8(name).len() <= 128 && (exists|i: int|
            0 <= i < name.len() && !('a' <= #[trigger] name[i] <= 'z' || 'A' <= name[i] <= 'Z'
                || '0' <= name[i] <= '9' || name[i] == '.' || name[i] == '_' || name[i] == '-'))
            ==> normalized(before + name + after) == Err::<Seq<char>, Seq<char>>(
            "username may only contain ASCII letters, digits, '.', '_', and '-'"@,
        ),
{
    crate::text::law_trim_takes_off_white_space(before, name, after);
    if exists|i: int|
        0 <= i < name.len() && !('a' <= #[trigger] name[i] <= 'z' || 'A' <= name[i] <= 'Z' || '0'
            <= name[i] <= '9' || name[i] == '.' || name[i] == '_' || name[i] == '-') {
        let i = choose|i: int|
            0 <= i < name.len() && !('a' <= #[trigger] name[i] <= 'z' || 'A' <= name[i] <= 'Z'
                || '0' <= name[i] <= '9' || name[i] == '.' || name[i] == '_' || name[i] == '-');
        assert(!is_username_char(name[i]));
    }
}

/// What a keystore stands for is what it holds, entry by entry.
pub proof fn law_view_shows_the_entries(data: KeyStoreData)
    ensures
        data@.version == data.version,
        data@.entries.len() == data.entries@.len(),
        forall|i: int|
            #![trigger data.entries@[i]]
            #![trigger data@.entries[i]]
            0 <= i < data.entries@.len() ==> data@.entries[i].username
                == data.entries@[i].username@ && data@.entries[i].key_hash
                == data.entries@[i].key_hash@,
{
}

/// A lookup by username finds the hash of the first entry with the normalized username.
pub proof fn law_lookup_finds_the_first_entry(
    data: KeyStoreData,
    raw: Seq<char>,
    found: Option<Seq<char>>,
    i: int,
)
    requires
        looks_up(data@, raw, found),
        is_good_username(crate::text::trimmed(raw)),
        0 <= i < data.entries@.len(),
        data.entries@[i].username@ == crate::text::trimmed(raw),
        forall|j: int|
            0 <= j < i ==> #[trigger] data.entries@[j].username@ != crate::text::trimmed(raw),
    ensures
        found == Some(data.entries@[i].key_hash@),
{
    let name = crate::text::trimmed(raw);
    law_accepted_exactly_if_good(raw);
    law_view_shows_the_entries(data);
    assert(data@.entries[i].username == name);
    assert(data@.has(name));
    let k = choose|k: int| #[trigger]
        data@.is_first(name, k) && data@.entries[k].key_hash == found->0;
    assert(data.entries@[k].username@ == name);
    assert(k == i);
}

/// A lookup by username finds nothing where no entry has the normalized username, or where the
/// text is no good username.
pub proof fn law_lookup_of_a_stranger_finds_nothing(
    data: KeyStoreData,
    raw: Seq<char>,
    found: Option<Seq<char>>,
)
    requires
        looks_up(data@, raw, found),
        !is_good_username(crate::text::trimmed(raw)) || forall|j: int|
            0 <= j < data.entries@.len() ==> #[trigger] data.entries@[j].username@
                != crate::text::trimmed(raw),
    ensures
        found is None,
{
    law_accepted_exactly_if_good(raw);
    law_view_shows_the_entries(data);
    if found is Some && is_good_username(crate::text::trimmed(raw)) {
        let name = crate::text::trimmed(raw);
        let k = choose|k: int| #[trigger]
            data@.is_first(name, k) && data@.entries[k].key_hash == found->0;
        assert(data.entries@[k].username@ == name);
    }
}

/// A user that an API key resolves to has an entry whose hash Argon2 verifies by the key.
pub proof fn law_resolved_user_has_the_key(data: KeyStoreData, secret: Seq<u8>, name: String)
    requires
        resolves_to(data@, secret, Ok(Some(name))),
    ensures
        exists|i: int|
            0 <= i < data.entries@.len() && (#[trigger] data.entries@[i]).username@ == name@
                && crate::hashing::phc_parses(data.entries@[i].key_hash@)
                && crate::hashing::argon2_verifies(secret, data.entries@[i].key_hash@),
{
    law_view_shows_the_entries(data);
    let i = choose|i: int| #[trigger]
        decides(data@, secret, i) && crate::hashing::key_check(secret, data@.entries[i].key_hash)
            == Some(true) && data@.entries[i].username == name@;
    crate::hashing::law_check_is_that_of_argon2(secret, data@.entries[i].key_hash);
    assert(data.entries@[i].username@ == name@);
}

/// A key that Argon2 verifies against no entry is nobody's, however many entries there are.
pub proof fn law_unknown_key_is_nobodys(
    data: KeyStoreData,
    secret: Seq<u8>,
    r: Result<Option<String>, KeyStoreError>,
)
    requires
        resolves_to(data@, secret, r),
        forall|i: int|
            0 <= i < data.entries@.len() ==> crate::hashing::phc_parses(
                (#[trigger] data.entries@[i]).key_hash@,
            ) && !crate::hashing::argon2_verifies(secret, data.entries@[i].key_hash@),
    ensures
        r matches Ok(None),
{
    law_view_shows_the_entries(data);
    assert forall|i: int| 0 <= i < data@.entries.len() implies crate::hashing::key_check(
        secret,
        #[trigger] data@.entries[i].key_hash,
    ) == Some(false) by {
        assert(crate::hashing::phc_parses(data.entries@[i].key_hash@));
        crate::hashing::law_check_is_that_of_argon2(secret, data.entries@[i].key_hash@);
    }
}

/// A key that is nobody's is verified against no entry, but for those that ask for too many lanes.
pub proof fn law_key_of_nobody_verifies_nowhere(data: KeyStoreData, secret: Seq<u8>, i: int)
    requires
        resolves_to(data@, secret, Ok(None)),
        0 <= i < data.entries@.len(),
    ensures
        crate::hashing::phc_parses(data.entries@[i].key_hash@),
        crate::hashing::argon2_verifies(secret, data.entries@[i].key_hash@)
            ==> crate::hashing::asks_too_many_lanes(data.entries@[i].key_hash@),
{
    law_view_shows_the_entries(data);
    assert(data@.entries[i].key_hash == data.entries@[i].key_hash@);
    crate::hashing::law_check_is_that_of_argon2(secret, data.entries@[i].key_hash@);
}

/// A key resolves to the user of the first entry that it verifies against, if the entries before
/// it can be read. An entry that cannot be read stops the lookup with an error instead.
pub proof fn law_first_entry_that_is_not_missed_decides(
    data: KeyStoreData,
    secret: Seq<u8>,
    i: int,
    r: Result<Option<String>, KeyStoreError>,
)
    requires
        resolves_to(data@, secret, r),
        0 <= i < data.entries@.len(),
        forall|j: int|
            0 <= j < i ==> crate::hashing::phc_parses((#[trigger] data.entries@[j]).key_hash@)
                && !crate::hashing::argon2_verifies(secret, data.entries@[j].key_hash@),
    ensures
        crate::hashing::phc_parses(data.entries@[i].key_hash@) && crate::hashing::argon2_verifies(
            secret,
            data.entries@[i].key_hash@,
        ) && !crate::hashing::asks_too_many_lanes(data.entries@[i].key_hash@) ==> (r matches Ok(
            Some(name),
        ) && name@ == data.entries@[i].username@),
        !crate::hashing::phc_parses(data.entries@[i].key_hash@) ==> r matches Err(
            KeyStoreError::PasswordHash(_),
        ),
{
    law_view_shows_the_entries(data);
    assert forall|j: int| 0 <= j < i implies crate::hashing::key_check(
        secret,
        #[trigger] data@.entries[j].key_hash,
    ) == Some(false) by {
        assert(crate::hashing::phc_parses(data.entries@[j].key_hash@));
        crate::hashing::law_check_is_that_of_argon2(secret, data.entries@[j].key_hash@);
    }
    crate::hashing::law_check_is_that_of_argon2(secret, data.entries@[i].key_hash@);
    assert(data@.entries[i].key_hash == data.entries@[i].key_hash@);
    assert forall|k: int| #[trigger]
        decides(data@, secret, k) && crate::hashing::key_check(
            secret,
            data@.entries[i].key_hash,
        ) != Some(false) implies k == i by {
        assert(data@.entries[k].key_hash == data.entries@[k].key_hash@);
    }
}

/// Adding a record puts it behind the others and changes none of them.
pub proof fn law_added_record_comes_last(store: KeyRecords, name: Seq<char>, hash: Seq<char>)
    ensures
        store.with(name, hash).version == store.version,
        store.with(name, hash).entries.len() == store.entries.len() + 1,
        store.with(name, hash).entries.drop_last() == store.entries,
        store.with(name, hash).entries.last().username == name,
        store.with(name, hash).entries.last().key_hash == hash,
{
    assert(store.with(name, hash).entries.drop_last() =~= store.entries);
}

/// A normalized username stays as it is when it is normalized again.
pub proof fn law_normalizing_is_idempotent(raw: Seq<char>)
    ensures
        normalized(raw) matches Ok(name) ==> normalized(name) == Ok::<Seq<char>, Seq<char>>(name),
{
    crate::text::law_trim_is_idempotent(raw);
}

/// An accepted username has 1 to 128 characters, each of them an ASCII letter, a digit, a dot,
/// an underscore or a hyphen.
pub proof fn law_accepted_usernames(raw: Seq<char>)
    ensures
        normalized(raw) matches Ok(name) ==> 0 < name.len() <= MAX_USERNAME_LEN && (forall|i: int|
            0 <= i < name.len() ==> is_username_char(#[trigger] name[i])),
{
    if let Ok(name) = normalized(raw) {
        assert(vstd::utf8::is_ascii_chars(name));
        vstd::utf8::is_ascii_chars_encode_utf8(name);
    }
}

/// A lookup finds the same under a username and under its normalized form.
pub proof fn law_lookup_by_normalized_name(
    store: KeyRecords,
    raw: Seq<char>,
    found: Option<Seq<char>>,
)
    ensures
        normalized(raw) matches Ok(name) ==> (looks_up(store, raw, found) <==> looks_up(
            store,
            name,
            found,
        )),
{
    law_normalizing_is_idempotent(raw);
}

/// A lookup by username has one answer.
pub proof fn law_lookup_has_one_answer(
    store: KeyRecords,
    raw: Seq<char>,
    a: Option<Seq<char>>,
    b: Option<Seq<char>>,
)
    requires
        looks_up(store, raw, a),
        looks_up(store, raw, b),
    ensures
        a == b,
{
    if let Ok(name) = normalized(raw) {
        if a is Some && b is Some {
            let i = choose|i: int| #[trigger]
                store.is_first(name, i) && store.entries[i].key_hash == a->0;
            let j = choose|j: int| #[trigger]
                store.is_first(name, j) && store.entries[j].key_hash == b->0;
            assert(store.entries[i].username == name && store.entries[j].username == name);
            assert(i == j);
        }
    }
}

/// Once a user is added, a lookup finds the hash that was added.
pub proof fn law_added_user_is_found(store: KeyRecords, name: Seq<char>, hash: Seq<char>)
    requires
        normalized(name) == Ok::<Seq<char>, Seq<char>>(name),
        !store.has(name),
    ensures
        looks_up(store.with(name, hash), name, Some(hash)),
{
    let after = store.with(name, hash);
    let last = store.entries.len() as int;
    assert forall|j: int| 0 <= j < last implies #[trigger] after.entries[j].username != name by {
        assert(after.entries[j] == store.entries[j]);
    }
    assert(after.entries[last] == (KeyRecord { username: name, key_hash: hash }));
    assert(after.is_first(name, last));
    assert(after.entries[last].key_hash == hash);
    assert(normalized(name)->Ok_0 == name);
}

/// Adding a user changes no other user's lookup.
pub proof fn law_adding_keeps_other_users(
    store: KeyRecords,
    name: Seq<char>,
    hash: Seq<char>,
    other: Seq<char>,
    found: Option<Seq<char>>,
)
    requires
        normalized(other) != Ok::<Seq<char>, Seq<char>>(name),
    ensures
        looks_up(store, other, found) <==> looks_up(store.with(name, hash), other, found),
{
    let after = store.with(name, hash);
    if let Ok(o) = normalized(other) {
        assert forall|i: int| after.is_first(o, i) <==> #[trigger] store.is_first(o, i) by {
            if store.is_first(o, i) {
                assert(after.entries[i] == store.entries[i]);
                assert forall|j: int| 0 <= j < i implies #[trigger] after.entries[j].username
                    != o by {
                    assert(after.entries[j] == store.entries[j]);
                }
            }
            if after.is_first(o, i) {
                assert(i < store.entries.len());
                assert(after.entries[i] == store.entries[i]);
                assert forall|j: int| 0 <= j < i implies #[trigger] store.entries[j].username
                    != o by {
                    assert(after.entries[j] == store.entries[j]);
                }
            }
        }
        assert(store.has(o) <==> after.has(o)) by {
            if store.has(o) {
                let i = choose|i: int|
                    0 <= i < store.entries.len() && #[trigger] store.entries[i].username == o;
                assert(after.entries[i].username == o);
            }
            if after.has(o) {
                let i = choose|i: int|
                    0 <= i < after.entries.len() && #[trigger] after.entries[i].username == o;
                assert(store.entries[i].username == o);
            }
        }
        if let Some(h) = found {
            if looks_up(store, other, found) {
                let i = choose|i: int| #[trigger]
                    store.is_first(o, i) && store.entries[i].key_hash == h;
                assert(after.is_first(o, i) && after.entries[i].key_hash == h);
            }
            if looks_up(after, other, found) {
                let i = choose|i: int| #[trigger]
                    after.is_first(o, i) && after.entries[i].key_hash == h;
                assert(store.is_first(o, i) && store.entries[i].key_hash == h);
            }
        }
    }
}

/// A keystore without entries is well formed.
pub proof fn law_empty_is_well_formed()
    ensures
        KeyRecords::none().well_formed(),
{
}

/// Adding a user who has no record keeps a keystore well formed.
pub proof fn law_adding_keeps_well_formed(store: KeyRecords, raw: Seq<char>, hash: Seq<char>)
    requires
        store.well_formed(),
    ensures
        normalized(raw) matches Ok(name) ==> !store.has(name) ==> store.with(
            name,
            hash,
        ).well_formed(),
{
    if let Ok(name) = normalized(raw) {
        law_normalizing_is_idempotent(raw);
        let after = store.with(name, hash);
        if !store.has(name) {
            assert forall|i: int| 0 <= i < after.entries.len() implies normalized(
                #[trigger] after.entries[i].username,
            ) == Ok::<Seq<char>, Seq<char>>(after.entries[i].username) by {
                if i < store.entries.len() {
                    assert(after.entries[i] == store.entries[i]);
                }
            }
            assert forall|i: int, j: int|
                0 <= i < j < after.entries.len() implies #[trigger] after.entries[i].username
                != #[trigger] after.entries[j].username by {
                assert(after.entries[i] == store.entries[i]);
                if j < store.entries.len() {
                    assert(after.entries[j] == store.entries[j]);
                }
            }
        }
    }
}

/// An API key that was added resolves to its user, if the key misses all records that were there
/// before.
pub proof fn law_added_key_resolves(
    store: KeyRecords,
    name: Seq<char>,
    secret: Seq<u8>,
    hash: Seq<char>,
    r: Result<Option<String>, KeyStoreError>,
)
    requires
        misses(store, secret),
        crate::hashing::key_check(secret, hash) == Some(true),
        resolves_to(store.with(name, hash), secret, r),
    ensures
        r matches Ok(Some(user)) && user@ == name,
{
    let after = store.with(name, hash);
    let last = store.entries.len() as int;
    assert(after.entries[last].key_hash == hash);
    assert forall|j: int| 0 <= j < last implies crate::hashing::key_check(
        secret,
        #[trigger] after.entries[j].key_hash,
    ) == Some(false) by {
        assert(after.entries[j] == store.entries[j]);
    }
    assert forall|i: int| #[trigger] decides(after, secret, i) implies i == last by {
        if i < last {
            assert(after.entries[i] == store.entries[i]);
        }
    }
    assert(!misses(after, secret));
}

/// Adding a user changes nothing for a key that is already decided.
pub proof fn law_adding_keeps_decided_keys(
    store: KeyRecords,
    name: Seq<char>,
    hash: Seq<char>,
    secret: Seq<u8>,
    r: Result<Option<String>, KeyStoreError>,
)
    requires
        !misses(store, secret),
    ensures
        resolves_to(store, secret, r) <==> resolves_to(store.with(name, hash), secret, r),
{
    let after = store.with(name, hash);
    let miss = choose|j: int|
        0 <= j < store.entries.len() && crate::hashing::key_check(
            secret,
            #[trigger] store.entries[j].key_hash,
        ) != Some(false);
    assert(after.entries[miss] == store.entries[miss]);
    assert(!misses(after, secret));
    assert forall|i: int| #[trigger] decides(store, secret, i) <==> decides(after, secret, i) by {
        if decides(after, secret, i) {
            assert(i <= miss);
            assert(after.entries[i] == store.entries[i]);
            assert forall|j: int| 0 <= j < i implies crate::hashing::key_check(
                secret,
                #[trigger] store.entries[j].key_hash,
            ) == Some(false) by {
                assert(after.entries[j] == store.entries[j]);
            }
        }
        if decides(store, secret, i) {
            assert(after.entries[i] == store.entries[i]);
            assert forall|j: int| 0 <= j < i implies crate::hashing::key_check(
                secret,
                #[trigger] after.entries[j].key_hash,
            ) == Some(false) by {
                assert(after.entries[j] == store.entries[j]);
            }
        }
    }
    if resolves_to(store, secret, r) {
        let i = choose|i: int| #[trigger] decides(store, secret, i);
        assert(decides(after, secret, i) && after.entries[i] == store.entries[i]);
    }
    if resolves_to(after, secret, r) {
        let i = choose|i: int| #[trigger] decides(after, secret, i);
        assert(decides(store, secret, i) && after.entries[i] == store.entries[i]);
    }
}

} // verus!
