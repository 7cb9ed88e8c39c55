//! Where files are, as far as it can be said without looking at a disk.

use std::path::PathBuf;
use vstd::prelude::*;

verus! {

/// `std::path::PathBuf`, carried as it is.
#[verifier::external_type_specification]
#[verifier::external_body]
pub struct ExPathBuf(PathBuf);

/// What a path starts from.
#[derive(Debug)]
pub enum PathBase {
    /// A directory of this machine, which need not be valid Unicode.
    Dir(PathBuf),
    /// A path in writing.
    Text(String),
}

/// A path to be put together by the rules of the platform: the base, with each part joined to it
/// in turn.
#[derive(Debug)]
pub struct JoinedPath {
    pub base: PathBase,
    pub parts: Vec<String>,
}

/// The texts that a list holds.
pub open spec fn texts(list: Seq<String>) -> Seq<Seq<char>> {
    list.map_values(|s: String| s@)
}

/// Calls `dirs::config_dir`. Which directory it is, and whether there is one, is up to the
/// environment.
#[verifier::external_body]
fn config_dir() -> (r: Option<PathBuf>)
    ensures
        crate::origin::is_config_dir(r),
{
    dirs::config_dir()
}

/// Says where the keystore is, given the user's configuration directory. Without one it is
/// looked for from the current directory.
pub open spec fn is_keystore_path(config_dir: Option<PathBuf>, path: JoinedPath) -> bool {
    &&& match config_dir {
        Some(dir) => path.base == PathBase::Dir(dir),
        None => path.base matches PathBase::Text(t) && t@ == "."@,
    }
    &&& texts(path.parts@) == seq!["ollama-controls"@, "api-keys.age"@]
}

/// The keystore in the user's configuration directory.
pub fn keystore_path_in(config_dir: Option<PathBuf>) -> (r: JoinedPath)
    ensures
        is_keystore_path(config_dir, r),
{
    let base: PathBase = match config_dir {
        Some(dir) => PathBase::Dir(dir),
        None => PathBase::Text(".".to_owned()),
    };
    let mut parts: Vec<String> = Vec::new();
    parts.push("ollama-controls".to_owned());
    parts.push("api-keys.age".to_owned());
    assert(texts(parts@) =~= seq!["ollama-controls"@, "api-keys.age"@]);
    JoinedPath { base, parts }
}

/// Default path: `$XDG_CONFIG_HOME/ollama-controls/api-keys.age`, or
/// `~/.config/ollama-controls/api-keys.age`.
pub fn default_keystore_path() -> (r: JoinedPath)
    ensures
        exists|dir: Option<PathBuf>|
            crate::origin::is_config_dir(dir) && #[trigger] is_keystore_path(dir, r),
{
    let dir: Option<PathBuf> = config_dir();
    keystore_path_in(dir)
}

/// The keystore lies two parts below the configuration directory, or below the current one where
/// there is none.
pub proof fn law_keystore_lies_below_the_directory(config_dir: Option<PathBuf>, path: JoinedPath)
    requires
        is_keystore_path(config_dir, path),
    ensures
        config_dir matches Some(dir) ==> path.base == PathBase::Dir(dir),
        config_dir is None ==> (path.base matches PathBase::Text(t) && t@ == "."@),
        path.parts@.len() == 2,
        path.parts@[0]@ == "ollama-controls"@,
        path.parts@[1]@ == "api-keys.age"@,
{
    let parts = texts(path.parts@);
    assert(parts.len() == 2);
    assert(parts[0] == path.parts@[0]@ && parts[1] == path.parts@[1]@);
}

} // verus!
