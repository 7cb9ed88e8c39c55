//! What can go wrong with a keystore, and the outside error types that say why.

use crate::text::{decimal_text, joined, joined3};
use vstd::prelude::*;

verus! {

/// `std::io::Error`, carried as it is.
#[verifier::external_type_specification]
#[verifier::external_body]
pub struct ExIoError(std::io::Error);

/// `age::EncryptError`, carried as it is.
#[verifier::external_type_specification]
#[verifier::external_body]
pub struct ExEncryptError(age::EncryptError);

/// `age::DecryptError`, carried as it is.
#[verifier::external_type_specification]
#[verifier::external_body]
pub struct ExDecryptError(age::DecryptError);

/// `serde_json::Error`, carried as it is.
#[verifier::external_type_specification]
#[verifier::external_body]
pub struct ExJsonError(serde_json::Error);

/// `argon2::password_hash::Error`, carried as it is.
#[verifier::external_type_specification]
#[verifier::external_body]
pub struct ExPasswordHashError(argon2::password_hash::Error);

/// The keystore format that this crate reads and writes.
pub const KEYSTORE_VERSION: u32 = 1;

/// Why a keystore operation was refused or failed.
#[derive(Debug)]
pub enum KeyStoreError {
    Io(std::io::Error),
    AgeEncrypt(age::EncryptError),
    AgeDecrypt(age::DecryptError),
    Json(serde_json::Error),
    InvalidUsername(String),
    DuplicateUsername(String),
    UnsupportedKeystoreVersion(u32),
    PasswordHash(argon2::password_hash::Error),
    EmptyPassphrase,
}

impl From<std::io::Error> for KeyStoreError {
    fn from(value: std::io::Error) -> (r: Self) {
        KeyStoreError::Io(value)
    }
}

impl vstd::std_specs::convert::FromSpecImpl<std::io::Error> for KeyStoreError {
    open spec fn obeys_from_spec() -> bool {
        true
    }

    open spec fn from_spec(value: std::io::Error) -> Self {
        KeyStoreError::Io(value)
    }
}

impl From<serde_json::Error> for KeyStoreError {
    fn from(value: serde_json::Error) -> (r: Self) {
        KeyStoreError::Json(value)
    }
}

impl vstd::std_specs::convert::FromSpecImpl<serde_json::Error> for KeyStoreError {
    open spec fn obeys_from_spec() -> bool {
        true
    }

    open spec fn from_spec(value: serde_json::Error) -> Self {
        KeyStoreError::Json(value)
    }
}

impl KeyStoreError {
    /// Says whether `text` is the message for this error. Where the error holds one of another
    /// crate, that one's own text stands at the end.
    pub open spec fn has_message(self, text: Seq<char>) -> bool {
        match self {
            KeyStoreError::Io(e) => exists|t: String|
                #[trigger] vstd::string::to_string_from_display_ensures::<std::io::Error>(&e, t)
                    && text == t@,
            KeyStoreError::AgeEncrypt(e) => exists|t: String|
                #[trigger] vstd::string::to_string_from_display_ensures::<age::EncryptError>(&e, t)
                    && text == "keystore encryption failed: "@ + t@,
            KeyStoreError::AgeDecrypt(e) => exists|t: String|
                #[trigger] vstd::string::to_string_from_display_ensures::<age::DecryptError>(&e, t)
                    && text == "keystore decryption failed: "@ + t@,
            KeyStoreError::Json(e) => exists|t: String|
                #[trigger] vstd::string::to_string_from_display_ensures::<serde_json::Error>(&e, t)
                    && text == "keystore JSON error: "@ + t@,
            KeyStoreError::InvalidUsername(s) => text == "invalid username: "@ + s@,
            KeyStoreError::DuplicateUsername(u) => text == "username `"@ + u@
                + "` already has a key in this keystore"@,
            KeyStoreError::UnsupportedKeystoreVersion(v) => text
                == "unsupported keystore version "@ + crate::text::decimal(v as nat)
                + " (expected "@ + crate::text::decimal(KEYSTORE_VERSION as nat) + ")"@,
            KeyStoreError::PasswordHash(e) => exists|t: String|
                #[trigger] vstd::string::to_string_from_display_ensures::<
                    argon2::password_hash::Error,
                >(&e, t) && text == "password hash error: "@ + t@,
            KeyStoreError::EmptyPassphrase => text == "keystore passphrase must not be empty"@,
        }
    }

    /// The message for this error.
    ///
    /// For a stop at its work limit age tells a time in seconds, which it gets by a shift in 32
    /// bits: a file that asks for 2^32 seconds or more overflows it. That is a panic in age where
    /// the build checks for overflow.
    pub fn message(&self) -> (r: String)
        ensures
            self.has_message(r@),
    {
        match self {
            KeyStoreError::Io(e) => {
                let t: String = e.to_string();
                t
            },
            KeyStoreError::AgeEncrypt(e) => {
                let t: String = e.to_string();
                joined("keystore encryption failed: ", t.as_str())
            },
            KeyStoreError::AgeDecrypt(e) => {
                let t: String = e.to_string();
                joined("keystore decryption failed: ", t.as_str())
            },
            KeyStoreError::Json(e) => {
                let t: String = e.to_string();
                joined("keystore JSON error: ", t.as_str())
            },
            KeyStoreError::InvalidUsername(s) => joined("invalid username: ", s.as_str()),
            KeyStoreError::DuplicateUsername(u) => joined3(
                "username `",
                u.as_str(),
                "` already has a key in this keystore",
            ),
            KeyStoreError::UnsupportedKeystoreVersion(v) => {
                let found: String = decimal_text(*v);
                let known: String = decimal_text(KEYSTORE_VERSION);
                let head: String = joined3(
                    "unsupported keystore version ",
                    found.as_str(),
                    " (expected ",
                );
                joined3(head.as_str(), known.as_str(), ")")
            },
            KeyStoreError::PasswordHash(e) => {
                let t: String = e.to_string();
                joined("password hash error: ", t.as_str())
            },
            KeyStoreError::EmptyPassphrase => "keystore passphrase must not be empty".to_owned(),
        }
    }
}

/// A message holds the name, the number or the reason that its error was made with.
pub proof fn law_messages_name_their_cause(name: String, version: u32, text: Seq<char>)
    ensures
        KeyStoreError::InvalidUsername(name).has_message(text) <==> text == "invalid username: "@
            + name@,
        KeyStoreError::DuplicateUsername(name).has_message(text) <==> text == "username `"@ + name@
            + "` already has a key in this keystore"@,
        KeyStoreError::UnsupportedKeystoreVersion(version).has_message(text) <==> text
            == "unsupported keystore version "@ + crate::text::decimal(version as nat)
            + " (expected "@ + crate::text::decimal(1) + ")"@,
        KeyStoreError::EmptyPassphrase.has_message(text) <==> text
            == "keystore passphrase must not be empty"@,
{
}

/// The message for an error of another crate ends with that error's own text.
pub proof fn law_messages_end_with_the_outside_text(
    io: std::io::Error,
    encrypt: age::EncryptError,
    decrypt: age::DecryptError,
    json: serde_json::Error,
    hash: argon2::password_hash::Error,
    text: Seq<char>,
)
    ensures
        KeyStoreError::Io(io).has_message(text) ==> exists|t: String|
            #[trigger] vstd::string::to_string_from_display_ensures::<std::io::Error>(&io, t)
                && text == t@,
        KeyStoreError::AgeEncrypt(encrypt).has_message(text) ==> exists|t: String|
            #[trigger] vstd::string::to_string_from_display_ensures::<age::EncryptError>(
                &encrypt,
                t,
            ) && text == "keystore encryption failed: "@ + t@,
        KeyStoreError::AgeDecrypt(decrypt).has_message(text) ==> exists|t: String|
            #[trigger] vstd::string::to_string_from_display_ensures::<age::DecryptError>(
                &decrypt,
                t,
            ) && text == "keystore decryption failed: "@ + t@,
        KeyStoreError::Json(json).has_message(text) ==> exists|t: String|
            #[trigger] vstd::string::to_string_from_display_ensures::<serde_json::Error>(&json, t)
                && text == "keystore JSON error: "@ + t@,
        KeyStoreError::PasswordHash(hash).has_message(text) ==> exists|t: String|
            #[trigger] vstd::string::to_string_from_display_ensures::<
                argon2::password_hash::Error,
            >(&hash, t) && text == "password hash error: "@ + t@,
{
}

} // verus!
