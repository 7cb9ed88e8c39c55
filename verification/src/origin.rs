//! Where values come from that only the outside can give.
//!
//! A mark is closed: no other module can show that a value has it, so a contract that asks for a
//! marked value asks for one that the function with the outside call handed out.

use crate::encoding::RANDOM_KEY_LEN;
use std::path::PathBuf;
use vstd::prelude::*;

verus! {

/// Marks bytes that the random source gave for an API key. Their number is all that can be said
/// of them.
pub closed spec fn is_drawn(bytes: Seq<u8>) -> bool {
    bytes.len() == RANDOM_KEY_LEN
}

/// Marks a salt that the random source gave. Its length is all that can be said of it.
pub closed spec fn is_drawn_salt(salt: Seq<char>) -> bool {
    salt.len() == 22
}

/// Marks what the environment gave as the user's configuration directory. Nothing can be said of
/// it.
pub closed spec fn is_config_dir(dir: Option<PathBuf>) -> bool {
    true
}

} // verus!
