//! Passphrase encryption of the keystore file, in the age format.

use crate::error::KeyStoreError;
use age::secrecy::SecretString;
use age::DecryptError;
use vstd::prelude::*;

verus! {

/// What age reads out of a file under a passphrase, where the work that the file asks for is
/// accepted: its plaintext, or nothing if the file is damaged, is no age file or was written
/// under another passphrase.
pub uninterp spec fn age_plaintext(passphrase: Seq<char>, file: Seq<u8>) -> Option<Seq<u8>>;

/// How a decryption can fail, with the error that age gives.
#[derive(Debug)]
pub enum Unreadable {
    /// The file asks for more scrypt work than age accepts on this machine.
    WorkLimit(DecryptError),
    /// Any other failure.
    Refused(DecryptError),
}

/// Says what may come of handing a file to age: its plaintext if there is one, a refusal if there
/// is none, and on either a stop at the work limit.
pub open spec fn age_gives(
    passphrase: Seq<char>,
    file: Seq<u8>,
    outcome: Result<Vec<u8>, Unreadable>,
) -> bool {
    match outcome {
        Ok(plaintext) => age_plaintext(passphrase, file) == Some(plaintext@),
        Err(Unreadable::Refused(_)) => age_plaintext(passphrase, file) is None,
        Err(Unreadable::WorkLimit(_)) => true,
    }
}

/// Calls `age::encrypt` with a single `age::scrypt::Recipient`.
///
/// The file is different at each call: age draws a salt, a file key and a nonce, and picks the
/// work factor by timing the machine. Whatever they are, the same passphrase reads the plaintext
/// back. With one passphrase recipient and a file kept in memory, no step of age's returns an
/// error.
#[verifier::external_body]
fn age_encrypt(passphrase: &str, plaintext: &[u8]) -> (r: Result<Vec<u8>, age::EncryptError>)
    ensures
        r is Ok,
        age_plaintext(passphrase@, r->Ok_0@) == Some(plaintext@),
{
    let recipient = age::scrypt::Recipient::new(SecretString::from(passphrase.to_owned()));
    age::encrypt(&recipient, plaintext)
}

/// Calls `age::decrypt` with an `age::scrypt::Identity`.
///
/// age times the machine and gives up on a file that asks for far more work; which files these
/// are is not stated. On all others the outcome depends on the passphrase and the file alone.
#[verifier::external_body]
fn age_decrypt(passphrase: &str, file: &[u8]) -> (r: Result<Vec<u8>, Unreadable>)
    ensures
        age_gives(passphrase@, file@, r),
{
    let identity = age::scrypt::Identity::new(SecretString::from(passphrase.to_owned()));
    match age::decrypt(&identity, file) {
        Ok(plaintext) => Ok(plaintext),
        Err(e @ DecryptError::ExcessiveWork { .. }) => Err(Unreadable::WorkLimit(e)),
        Err(e) => Err(Unreadable::Refused(e)),
    }
}

/// The outcome of a decryption as the keystore's own: age's error is handed on.
pub open spec fn settled(outcome: Result<Vec<u8>, Unreadable>) -> Result<Vec<u8>, KeyStoreError> {
    match outcome {
        Ok(plaintext) => Ok(plaintext),
        Err(Unreadable::WorkLimit(e)) => Err(KeyStoreError::AgeDecrypt(e)),
        Err(Unreadable::Refused(e)) => Err(KeyStoreError::AgeDecrypt(e)),
    }
}

/// Turns the outcome of a decryption into the keystore's own.
pub fn settle_decryption(outcome: Result<Vec<u8>, Unreadable>) -> (r: Result<
    Vec<u8>,
    KeyStoreError,
>)
    ensures
        r == settled(outcome),
{
    match outcome {
        Ok(plaintext) => Ok(plaintext),
        Err(Unreadable::WorkLimit(e)) => Err(KeyStoreError::AgeDecrypt(e)),
        Err(Unreadable::Refused(e)) => Err(KeyStoreError::AgeDecrypt(e)),
    }
}

/// Says what may come of encrypting a plaintext: a file that the same passphrase reads back.
pub open spec fn encrypts_to(
    passphrase: Seq<char>,
    plaintext: Seq<u8>,
    r: Result<Vec<u8>, KeyStoreError>,
) -> bool {
    r matches Ok(file) && age_plaintext(passphrase, file@) == Some(plaintext)
}

/// Encrypts bytes under a passphrase.
pub fn encrypt_bytes(passphrase: &str, plaintext: &[u8]) -> (r: Result<Vec<u8>, KeyStoreError>)
    ensures
        encrypts_to(passphrase@, plaintext@, r),
{
    match age_encrypt(passphrase, plaintext) {
        Ok(file) => Ok(file),
        Err(e) => Err(KeyStoreError::AgeEncrypt(e)),
    }
}

/// Says what may come of reading a file under a passphrase: what age gives, settled.
pub open spec fn decrypts_to(
    passphrase: Seq<char>,
    file: Seq<u8>,
    r: Result<Vec<u8>, KeyStoreError>,
) -> bool {
    exists|outcome: Result<Vec<u8>, Unreadable>| #[trigger]
        age_gives(passphrase, file, outcome) && r == settled(outcome)
}

/// Decrypts bytes under a passphrase.
pub fn decrypt_bytes(passphrase: &str, file: &[u8]) -> (r: Result<Vec<u8>, KeyStoreError>)
    ensures
        decrypts_to(passphrase@, file@, r),
{
    settle_decryption(age_decrypt(passphrase, file))
}

/// Encryption gives a file that age reads as the plaintext under the same passphrase.
pub proof fn law_encrypted_file_holds_the_plaintext(
    passphrase: Seq<char>,
    plaintext: Seq<u8>,
    r: Result<Vec<u8>, KeyStoreError>,
)
    requires
        encrypts_to(passphrase, plaintext, r),
    ensures
        r matches Ok(file) && age_plaintext(passphrase, file@) == Some(plaintext),
{
}

/// Decryption gives what age reads out of the file under the passphrase, or age's own error.
pub proof fn law_decryption_gives_what_age_reads(
    passphrase: Seq<char>,
    file: Seq<u8>,
    r: Result<Vec<u8>, KeyStoreError>,
)
    requires
        decrypts_to(passphrase, file, r),
    ensures
        match r {
            Ok(plaintext) => age_plaintext(passphrase, file) == Some(plaintext@),
            Err(e) => e is AgeDecrypt,
        },
{
}

/// What age reads and the error that age gives are handed on as they are.
pub proof fn law_outcome_is_handed_on(outcome: Result<Vec<u8>, Unreadable>)
    ensures
        outcome matches Ok(plaintext) ==> settled(outcome) == Ok::<Vec<u8>, KeyStoreError>(
            plaintext,
        ),
        outcome matches Err(Unreadable::WorkLimit(e)) ==> settled(outcome) == Err::<
            Vec<u8>,
            KeyStoreError,
        >(KeyStoreError::AgeDecrypt(e)),
        outcome matches Err(Unreadable::Refused(e)) ==> settled(outcome) == Err::<
            Vec<u8>,
            KeyStoreError,
        >(KeyStoreError::AgeDecrypt(e)),
{
}

/// What was encrypted under a passphrase is read back under it: nothing else can come of it but a
/// stop at age's work limit.
pub proof fn law_decryption_undoes_encryption(
    passphrase: Seq<char>,
    plaintext: Seq<u8>,
    file: Vec<u8>,
    outcome: Result<Vec<u8>, Unreadable>,
)
    requires
        encrypts_to(passphrase, plaintext, Ok(file)),
        age_gives(passphrase, file@, outcome),
    ensures
        match outcome {
            Err(Unreadable::WorkLimit(_)) => true,
            _ => settled(outcome) matches Ok(p) && p@ == plaintext,
        },
{
}

} // verus!
