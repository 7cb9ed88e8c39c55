//! Argon2id hashes of API keys, as PHC strings.

use crate::encoding::{api_key_text, RANDOM_KEY_LEN};
use crate::error::KeyStoreError;
use crate::text::chars_of;
use argon2::password_hash::rand_core::{OsRng, RngCore};
use argon2::password_hash::{PasswordHash, PasswordHasher, PasswordVerifier, SaltString};
use argon2::Argon2;
use vstd::prelude::*;
use vstd::string::StringSliceAdditionalSpecFns;

verus! {

/// The longest secret that Argon2 takes, in bytes.
pub const MAX_SECRET_LEN: u64 = 0xffff_ffff;

/// The number of lanes from which on Argon2's check of its parameters no longer fits 32 bits.
pub const LANES_LIMIT: u64 = 0x2000_0000;

/// Says whether a text is a PHC string: the outcome of `PasswordHash::new`.
pub uninterp spec fn phc_parses(phc: Seq<char>) -> bool;

/// Says whether a secret is the one behind a PHC string: the outcome of `verify_password`.
pub uninterp spec fn argon2_verifies(secret: Seq<u8>, phc: Seq<char>) -> bool;

/// The PHC string of a secret under a salt, if there is one: the outcome of `hash_password`.
pub uninterp spec fn argon2_phc(secret: Seq<u8>, salt: Seq<char>) -> Option<Seq<char>>;

/// A salt as it is drawn: sixteen bytes in base64.
pub open spec fn is_salt(salt: Seq<char>) -> bool {
    exists|bytes: Seq<u8>|
        bytes.len() == 16 && salt == #[trigger] crate::encoding::base64_text(
            bytes,
            crate::encoding::standard(),
        )
}

/// Says whether a text has the form of a hash under a salt: Argon2id with its default parameters,
/// the salt, and thirty-two bytes in base64.
pub open spec fn has_hash_form(salt: Seq<char>, phc: Seq<char>) -> bool {
    exists|tail: Seq<char>|
        tail.len() == 43 && phc == #[trigger] ("$argon2id$v=19$m=19456,t=2,p=1$"@ + salt + "$"@
            + tail)
}

/// Says whether the parameter for the number of lanes stands at a position.
pub open spec fn lanes_at(phc: Seq<char>, i: int) -> bool {
    &&& 0 < i < phc.len() - 1
    &&& phc[i - 1] == '$' || phc[i - 1] == ','
    &&& phc[i] == 'p'
    &&& phc[i + 1] == '='
}

/// The number whose digits go on at a position, after digits that make `so_far`.
pub open spec fn number_at(s: Seq<char>, i: int, so_far: nat) -> nat
    decreases s.len() - i,
{
    if 0 <= i < s.len() && '0' <= s[i] <= '9' {
        number_at(s, i + 1, so_far * 10 + (s[i] as nat - '0' as nat) as nat)
    } else {
        so_far
    }
}

/// Says whether a PHC string asks for more lanes than 32 bits can check. The last mention of
/// the parameter is the one that counts. Argon2 knows no such number of lanes, so no secret
/// belongs to such a string.
pub open spec fn asks_too_many_lanes(phc: Seq<char>) -> bool {
    exists|i: int| #[trigger]
        lanes_at(phc, i) && number_at(phc, i + 2, 0) >= LANES_LIMIT && (forall|j: int|
            i < j ==> !lanes_at(phc, j))
}

/// What comes of holding a secret against a PHC string: nothing if the string is malformed.
pub open spec fn key_check(secret: Seq<u8>, phc: Seq<char>) -> Option<bool> {
    if !phc_parses(phc) {
        None
    } else {
        Some(!asks_too_many_lanes(phc) && argon2_verifies(secret, phc))
    }
}

/// Calls `OsRng::fill_bytes`. The bytes may be any. It panics only where the operating system
/// has no random bytes to give.
#[verifier::external_body]
fn random_bytes() -> (r: [u8; RANDOM_KEY_LEN])
    ensures
        crate::origin::is_drawn(r@),
{
    let mut bytes = [0u8; RANDOM_KEY_LEN];
    OsRng.fill_bytes(&mut bytes);
    bytes
}

/// Calls `SaltString::generate` on `OsRng`: sixteen random bytes, in base64.
#[verifier::external_body]
fn random_salt() -> (r: String)
    ensures
        is_salt(r@),
        crate::origin::is_drawn_salt(r@),
{
    SaltString::generate(&mut OsRng).as_str().to_owned()
}

/// Calls `hash_password` on `Argon2::default`, and writes the hash as a PHC string.
///
/// A drawn salt is always good, and a secret is unless it is longer than Argon2 takes. The
/// string that comes out holds Argon2's default parameters and the salt as given, is one that
/// `PasswordHash::new` reads, asks for one lane, and is verified by the secret that it was made
/// from.
#[verifier::external_body]
fn argon2_hash(secret: &[u8], salt: &str) -> (r: Result<String, argon2::password_hash::Error>)
    ensures
        match r {
            Ok(phc) => argon2_phc(secret@, salt@) == Some(phc@),
            Err(_) => argon2_phc(secret@, salt@) is None,
        },
        is_salt(salt@) ==> (r is Ok <==> secret@.len() <= MAX_SECRET_LEN),
        match r {
            Ok(phc) => has_hash_form(salt@, phc@),
            Err(_) => true,
        },
        match r {
            Ok(phc) => phc_parses(phc@) && !asks_too_many_lanes(phc@) && argon2_verifies(
                secret@,
                phc@,
            ),
            Err(_) => true,
        },
{
    let salt = SaltString::from_b64(salt)?;
    Argon2::default().hash_password(secret, &salt).map(|hash| hash.to_string())
}

/// Calls `PasswordHash::new`, and keeps whether it could read the string.
#[verifier::external_body]
fn parse_phc(phc: &str) -> (r: Result<(), argon2::password_hash::Error>)
    ensures
        r is Ok <==> phc_parses(phc@),
{
    PasswordHash::new(phc).map(|_| ())
}

/// Calls `verify_password` on `Argon2::default`, for a string that `PasswordHash::new` reads.
///
/// Argon2 takes as much memory and time as the string asks for. It multiplies the number of
/// lanes by eight in 32 bits, so the string may not ask for more than fit.
#[verifier::external_body]
fn argon2_verify(secret: &[u8], phc: &str) -> (r: bool)
    requires
        phc_parses(phc@),
        !asks_too_many_lanes(phc@),
    ensures
        r == argon2_verifies(secret@, phc@),
{
    match PasswordHash::new(phc) {
        Ok(parsed) => Argon2::default().verify_password(secret, &parsed).is_ok(),
        Err(_) => false,
    }
}

proof fn lemma_number_grows(s: Seq<char>, i: int, so_far: nat)
    ensures
        number_at(s, i, so_far) >= so_far,
    decreases s.len() - i,
{
    if 0 <= i < s.len() && '0' <= s[i] <= '9' {
        lemma_number_grows(s, i + 1, so_far * 10 + (s[i] as nat - '0' as nat) as nat);
    }
}

/// Tells whether a number in a text reaches the limit on lanes.
fn reaches_lanes_limit(chars: &Vec<char>, start: usize) -> (r: bool)
    requires
        start <= chars.len(),
    ensures
        r == (number_at(chars@, start as int, 0) >= LANES_LIMIT),
{
    let mut i: usize = start;
    let mut value: u64 = 0;
    while i < chars.len() && '0' <= chars[i] && chars[i] <= '9'
        invariant
            i <= chars.len(),
            value < LANES_LIMIT,
            number_at(chars@, start as int, 0) == number_at(chars@, i as int, value as nat),
        decreases chars.len() - i,
    {
        value = value * 10 + (chars[i] as u64 - '0' as u64);
        i = i + 1;
        if value >= LANES_LIMIT {
            proof {
                lemma_number_grows(chars@, i as int, value as nat);
            }
            return true;
        }
    }
    false
}

/// Tells whether a PHC string asks for too many lanes.
pub fn too_many_lanes(phc: &str) -> (r: bool)
    ensures
        r == asks_too_many_lanes(phc@),
{
    let chars: Vec<char> = chars_of(phc);
    let n: usize = chars.len();
    let mut i: usize = n;
    while i > 0
        invariant
            n == chars.len(),
            chars@ == phc@,
            i <= n,
            forall|j: int| i <= j ==> !lanes_at(phc@, j),
        decreases i,
    {
        i = i - 1;
        if 0 < i && i < n - 1 && (chars[i - 1] == '$' || chars[i - 1] == ',') && chars[i] == 'p'
            && chars[i + 1] == '=' {
            assert(lanes_at(phc@, i as int));
            return reaches_lanes_limit(&chars, i + 2);
        }
    }
    false
}

/// Returns a high-entropy URL-safe key (32 random bytes, base64url without padding).
pub fn generate_strong_api_key() -> (r: String)
    ensures
        exists|bytes: Seq<u8>|
            crate::origin::is_drawn(bytes) && bytes.len() == RANDOM_KEY_LEN && r@
                == #[trigger] crate::encoding::base64_text(bytes, crate::encoding::url_safe()),
        r@.len() == 43,
{
    let bytes: [u8; RANDOM_KEY_LEN] = random_bytes();
    api_key_text(&bytes)
}

/// Says what may come of hashing a secret under a given salt.
pub open spec fn hashes_to(
    secret: Seq<u8>,
    salt: Seq<char>,
    r: Result<String, KeyStoreError>,
) -> bool {
    match r {
        Ok(phc) => {
            &&& argon2_phc(secret, salt) == Some(phc@)
            &&& has_hash_form(salt, phc@)
            &&& key_check(secret, phc@) == Some(true)
        },
        Err(e) => e is PasswordHash && argon2_phc(secret, salt) is None,
    }
}

/// Says whether a text is a hash of a secret as this crate makes them: under some drawn salt.
pub open spec fn is_key_hash(secret: Seq<u8>, hash: Seq<char>) -> bool {
    &&& key_check(secret, hash) == Some(true)
    &&& exists|salt: Seq<char>|
        is_salt(salt) && crate::origin::is_drawn_salt(salt) && #[trigger] argon2_phc(secret, salt)
            == Some(hash) && has_hash_form(salt, hash)
}

/// Hashes an API key under a given salt.
pub fn hash_api_key_with_salt(secret: &str, salt: &str) -> (r: Result<String, KeyStoreError>)
    ensures
        hashes_to(secret.spec_bytes(), salt@, r),
        is_salt(salt@) ==> (r is Ok <==> secret.spec_bytes().len() <= MAX_SECRET_LEN),
{
    match argon2_hash(secret.as_bytes(), salt) {
        Ok(phc) => Ok(phc),
        Err(e) => Err(KeyStoreError::PasswordHash(e)),
    }
}

/// Hashes an API key under a fresh salt. Only a key longer than Argon2 takes is refused.
pub fn hash_api_key(secret: &str) -> (r: Result<String, KeyStoreError>)
    ensures
        exists|salt: Seq<char>|
            is_salt(salt) && crate::origin::is_drawn_salt(salt) && #[trigger] hashes_to(
                secret.spec_bytes(),
                salt,
                r,
            ),
        r is Ok <==> secret.spec_bytes().len() <= 0xffff_ffff,
{
    let salt: String = random_salt();
    hash_api_key_with_salt(secret, salt.as_str())
}

/// Tells whether a secret is the one behind a PHC string.
pub fn verify_api_key(secret: &str, phc_hash: &str) -> (r: Result<bool, KeyStoreError>)
    ensures
        match key_check(secret.spec_bytes(), phc_hash@) {
            Some(matches) => r == Ok::<bool, KeyStoreError>(matches),
            None => r matches Err(KeyStoreError::PasswordHash(_)),
        },
        r is Ok <==> phc_parses(phc_hash@),
        r matches Ok(true) ==> argon2_verifies(secret.spec_bytes(), phc_hash@),
        r matches Ok(false) ==> !argon2_verifies(secret.spec_bytes(), phc_hash@)
            || asks_too_many_lanes(phc_hash@),
{
    match parse_phc(phc_hash) {
        Err(e) => Err(KeyStoreError::PasswordHash(e)),
        Ok(_) => {
            if too_many_lanes(phc_hash) {
                Ok(false)
            } else {
                Ok(argon2_verify(secret.as_bytes(), phc_hash))
            }
        },
    }
}

/// A check comes out true only where Argon2 verifies the secret, false only where it does not or
/// the string asks for too many lanes, and not at all only where the string is malformed.
pub proof fn law_check_is_that_of_argon2(secret: Seq<u8>, phc: Seq<char>)
    ensures
        key_check(secret, phc) is None <==> !phc_parses(phc),
        key_check(secret, phc) == Some(true) ==> phc_parses(phc) && argon2_verifies(secret, phc),
        phc_parses(phc) && !argon2_verifies(secret, phc) ==> key_check(secret, phc) == Some(false),
        phc_parses(phc) && argon2_verifies(secret, phc) && !asks_too_many_lanes(phc) ==> key_check(
            secret,
            phc,
        ) == Some(true),
{
}

/// Hashing a secret gives the string that Argon2 makes of it under the salt, if there is one. The
/// string is one that Argon2 reads, and the secret verifies against it, whatever the salt.
pub proof fn law_hash_verifies_its_key(
    secret: Seq<u8>,
    salt: Seq<char>,
    r: Result<String, KeyStoreError>,
)
    requires
        hashes_to(secret, salt, r),
    ensures
        match argon2_phc(secret, salt) {
            Some(phc) => r matches Ok(s) && s@ == phc && phc_parses(phc) && argon2_verifies(
                secret,
                phc,
            ) && !asks_too_many_lanes(phc),
            None => r matches Err(KeyStoreError::PasswordHash(_)),
        },
        r matches Ok(phc) ==> key_check(secret, phc@) == Some(true),
{
}

/// Reads the digits of a number in a text.
proof fn lemma_decimal_at(s: Seq<char>, at: int, n: nat)
    requires
        0 <= at,
        at + crate::text::decimal(n).len() <= s.len(),
        s.subrange(at, at + crate::text::decimal(n).len()) == crate::text::decimal(n),
    ensures
        crate::text::decimal(n).len() > 0,
        number_at(s, at, 0) == number_at(s, at + crate::text::decimal(n).len(), n),
    decreases n,
{
    let d = crate::text::decimal(n);
    if n < 10 {
        assert(s.subrange(at, at + d.len())[0] == s[at]);
        assert(s[at] == crate::text::digit_char(n));
    } else {
        let head = crate::text::decimal(n / 10);
        let k = head.len() as int;
        assert(s.subrange(at, at + k) =~= s.subrange(at, at + d.len()).drop_last());
        assert(d.drop_last() =~= head);
        lemma_decimal_at(s, at, n / 10);
        assert(s.subrange(at, at + d.len())[k] == s[at + k]);
        assert(s[at + k] == crate::text::digit_char(n % 10));
        assert(n / 10 * 10 + n % 10 == n);
    }
}

/// A number that is written in decimal reads as that number.
pub proof fn law_decimal_is_read_back(n: nat)
    ensures
        number_at(crate::text::decimal(n), 0, 0) == n,
{
    let d = crate::text::decimal(n);
    assert(d.subrange(0, d.len() as int) =~= d);
    lemma_decimal_at(d, 0, n);
}

/// Says whether a text goes on with a number of lanes at a position.
pub open spec fn names_lanes(phc: Seq<char>, j: int) -> bool {
    1 <= j && j + 1 < phc.len() && (phc[j - 1] == '$' || phc[j - 1] == ',') && phc[j] == 'p' && phc[
    j + 1] == '='
}

/// A PHC string asks for too many lanes exactly where the last number of lanes in it is 2^29 or
/// more: `head` is what stands before that number's parameter, `rest` what follows the number.
pub proof fn law_lanes_are_read(head: Seq<char>, sep: char, n: nat, rest: Seq<char>)
    requires
        sep == '$' || sep == ',',
        rest.len() > 0 ==> !('0' <= rest[0] <= '9'),
        forall|j: int|
            head.len() + 1 < j ==> !names_lanes(
                head + seq![sep, 'p', '='] + crate::text::decimal(n) + rest,
                j,
            ),
    ensures
        asks_too_many_lanes(head + seq![sep, 'p', '='] + crate::text::decimal(n) + rest) <==> n
            >= 0x2000_0000,
{
    let d = crate::text::decimal(n);
    let phc = head + seq![sep, 'p', '='] + d + rest;
    let i = head.len() as int + 1;
    assert(phc[i - 1] == sep && phc[i] == 'p' && phc[i + 1] == '=');
    assert(phc.subrange(i + 2, i + 2 + d.len()) =~= d);
    lemma_decimal_at(phc, i + 2, n);
    assert(rest.len() > 0 ==> phc[i + 2 + d.len()] == rest[0]);
    assert(number_at(phc, i + 2, 0) == n);
    assert(lanes_at(phc, i));
    assert forall|j: int| i < j implies !lanes_at(phc, j) by {
        assert(!names_lanes(phc, j));
    }
}

/// A PHC string without a number of lanes does not ask for too many.
pub proof fn law_no_lanes_are_not_too_many(phc: Seq<char>)
    requires
        forall|j: int| !names_lanes(phc, j),
    ensures
        !asks_too_many_lanes(phc),
{
    assert forall|j: int| !lanes_at(phc, j) by {
        assert(!names_lanes(phc, j));
    }
}

/// A generated hash belongs to the secret under a salt that was drawn for it.
pub proof fn law_key_hash_is_salted(secret: Seq<u8>, hash: Seq<char>)
    requires
        is_key_hash(secret, hash),
    ensures
        phc_parses(hash),
        argon2_verifies(secret, hash),
        exists|salt: Seq<char>|
            crate::origin::is_drawn_salt(salt) && is_salt(salt) && #[trigger] argon2_phc(
                secret,
                salt,
            ) == Some(hash),
{
}

/// The hashes of one secret under two salts are different texts, though each of them is verified
/// by the secret.
pub proof fn law_salts_keep_hashes_apart(
    secret: Seq<u8>,
    salt1: Seq<char>,
    hash1: String,
    salt2: Seq<char>,
    hash2: String,
)
    requires
        hashes_to(secret, salt1, Ok(hash1)),
        hashes_to(secret, salt2, Ok(hash2)),
        salt1 != salt2,
    ensures
        hash1@ != hash2@,
        key_check(secret, hash1@) == Some(true),
        key_check(secret, hash2@) == Some(true),
{
    let head = "$argon2id$v=19$m=19456,t=2,p=1$"@;
    let n = head.len() as int;
    let tail1 = choose|tail: Seq<char>|
        tail.len() == 43 && hash1@ == #[trigger] (head + salt1 + "$"@ + tail);
    let tail2 = choose|tail: Seq<char>|
        tail.len() == 43 && hash2@ == #[trigger] (head + salt2 + "$"@ + tail);
    assert(hash1@.len() == n + salt1.len() + "$"@.len() + 43);
    assert(hash2@.len() == n + salt2.len() + "$"@.len() + 43);
    assert(salt1 =~= hash1@.subrange(n, n + salt1.len()));
    assert(salt2 =~= hash2@.subrange(n, n + salt2.len()));
}

/// A hash is an Argon2id string, whatever the secret and the salt. It is not the secret itself,
/// unless the secret looks like such a string.
pub proof fn law_hash_hides_its_key(text: Seq<char>, salt: Seq<char>, hash: String)
    requires
        hashes_to(vstd::utf8::encode_utf8(text), salt, Ok(hash)),
    ensures
        "$argon2id$"@.is_prefix_of(hash@),
        !"$argon2id$"@.is_prefix_of(text) ==> hash@ != text,
{
    reveal_strlit("$argon2id$");
    reveal_strlit("$argon2id$v=19$m=19456,t=2,p=1$");
    let tail = choose|tail: Seq<char>|
        tail.len() == 43 && hash@ == #[trigger] ("$argon2id$v=19$m=19456,t=2,p=1$"@ + salt + "$"@
            + tail);
    assert("$argon2id$"@ =~= hash@.subrange(0, 10));
}

/// An API key as this crate makes them is not its own hash.
pub proof fn law_hash_is_no_api_key(bytes: Seq<u8>, salt: Seq<char>, hash: String)
    requires
        hashes_to(
            vstd::utf8::encode_utf8(
                crate::encoding::base64_text(bytes, crate::encoding::url_safe()),
            ),
            salt,
            Ok(hash),
        ),
    ensures
        hash@ != crate::encoding::base64_text(bytes, crate::encoding::url_safe()),
{
    let key = crate::encoding::base64_text(bytes, crate::encoding::url_safe());
    law_hash_hides_its_key(key, salt, hash);
    reveal_strlit("$argon2id$");
    assert("$argon2id$"@[0] == '$');
    if "$argon2id$"@.is_prefix_of(key) {
        crate::encoding::lemma_api_key_symbols(bytes, 0);
        assert(key[0] == "$argon2id$"@[0]);
    }
}

} // verus!
