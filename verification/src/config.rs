//! The persistent configuration: the source repository and the destinations.
//!
//! Reading and writing the TOML file is done outside the library; here stand the
//! configuration's shape, its defaults, where it lives and what loading it yields.
use vstd::prelude::*;

use crate::text::{ascii_bytes, join_bytes, joined_bytes};

verus! {

/// The configuration: an optional source repository and a list of destinations.
#[derive(Clone, Debug, PartialEq)]
pub struct Config {
    pub source_repo: Option<String>,
    pub destinations: Vec<Destination>,
}

/// A destination folder with a label for display.
#[derive(Clone, Debug, PartialEq)]
pub struct Destination {
    pub label: String,
    pub path: String,
}

impl Default for Config {
    /// The configuration of a first run: no source repository, no destinations.
    fn default() -> (c: Self)
        ensures
            c.source_repo is None,
            c.destinations@.len() == 0,
    {
        Config { source_repo: None, destinations: Vec::new() }
    }
}

/// A copy of a destination.
pub fn copy_destination(d: &Destination) -> (r: Destination)
    ensures
        r == *d,
{
    Destination { label: d.label.clone(), path: d.path.clone() }
}

/// What went wrong when the configuration file was loaded.
#[derive(Clone, Copy, Debug, PartialEq, Eq, Structural)]
pub enum ConfigError {
    /// The file exists but could not be read.
    Read,
    /// The file was read but does not hold a configuration.
    Parse,
}

/// The configuration file under a configuration directory (`.` where there is none):
/// `git-mirror/config.toml` below it. Paths are the bytes of operating-system strings.
pub open spec fn config_file_in(base: Option<Seq<u8>>) -> Seq<u8> {
    let dir = match base {
        Some(b) => b,
        None => ascii_bytes("."@),
    };
    joined_bytes(joined_bytes(dir, ascii_bytes("git-mirror"@)), ascii_bytes("config.toml"@))
}

/// The bytes of an optional path.
pub open spec fn bytes_of(p: Option<Vec<u8>>) -> Option<Seq<u8>> {
    match p {
        Some(b) => Some(b@),
        None => None,
    }
}

/// `dirs::config_dir`, the user's configuration directory, as the bytes of its
/// operating-system string (`OsString::into_encoded_bytes`). It depends on the platform
/// and the environment (on Linux `$XDG_CONFIG_HOME` when absolute, else
/// `$HOME/.config`), so nothing is stated of it.
#[verifier::external_body]
fn config_dir() -> Option<Vec<u8>> {
    match dirs::config_dir() {
        Some(p) => Some(p.into_os_string().into_encoded_bytes()),
        None => None,
    }
}

fn bytes_of_dot() -> (b: Vec<u8>)
    ensures
        b@ == ascii_bytes("."@),
{
    proof { reveal_strlit("."); }
    let b: Vec<u8> = vec![46u8];
    assert(b@ =~= ascii_bytes("."@));
    b
}

fn bytes_of_app_dir() -> (b: Vec<u8>)
    ensures
        b@ == ascii_bytes("git-mirror"@),
{
    proof { reveal_strlit("git-mirror"); }
    let b: Vec<u8> = vec![103u8, 105, 116, 45, 109, 105, 114, 114, 111, 114];
    assert(b@ =~= ascii_bytes("git-mirror"@));
    b
}

fn bytes_of_file_name() -> (b: Vec<u8>)
    ensures
        b@ == ascii_bytes("config.toml"@),
{
    proof { reveal_strlit("config.toml"); }
    let b: Vec<u8> = vec![99u8, 111, 110, 102, 105, 103, 46, 116, 111, 109, 108];
    assert(b@ =~= ascii_bytes("config.toml"@));
    b
}

impl Config {
    /// The path of the configuration file under the given configuration directory.
    pub fn config_path_in(base: Option<Vec<u8>>) -> (p: Vec<u8>)
        ensures
            p@ == config_file_in(bytes_of(base)),
    {
        let dir = match base {
            Some(b) => b,
            None => bytes_of_dot(),
        };
        let app_dir = join_bytes(dir.as_slice(), bytes_of_app_dir().as_slice());
        join_bytes(app_dir.as_slice(), bytes_of_file_name().as_slice())
    }

    /// The path of the configuration file: `git-mirror/config.toml` under the user's
    /// configuration directory, or under `.` where the platform has none.
    pub fn config_path() -> (p: Vec<u8>)
        ensures
            exists|base: Option<Seq<u8>>| p@ == config_file_in(base),
    {
        let base = config_dir();
        let ghost b = bytes_of(base);
        let p = Self::config_path_in(base);
        assert(p@ == config_file_in(b));
        p
    }

    /// What loading the configuration yields, given what was found at its path: no file
    /// gives the defaults (the first run), not an error; otherwise the outcome of reading
    /// and parsing the file.
    pub fn load(found: Option<Result<Config, ConfigError>>) -> (r: Result<Config, ConfigError>)
        ensures
            found is None ==> (r matches Ok(c) && c.source_repo is None && c.destinations@.len() == 0),
            found matches Some(outcome) ==> r == outcome,
    {
        match found {
            None => Ok(Config::default()),
            Some(outcome) => outcome,
        }
    }
}

} // verus!
