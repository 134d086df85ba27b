//! Where vaults, the session store and the agent socket live below the
//! per-user configuration directory.

use crate::util::errors::{ObscuraError, ObscuraResult};
use vstd::prelude::*;
use vstd::string::*;

verus! {

/// The BLAKE3 hash (32 bytes) of a byte string.
pub uninterp spec fn spec_blake3(input: Seq<u8>) -> Seq<u8>;

/// Calls `blake3::hash` and `Hash::as_bytes`: the named 32-byte hash.
#[verifier::external_body]
fn blake3_hash(input: &[u8]) -> (hash: [u8; 32])
    ensures
        hash@ == spec_blake3(input@),
{
    *blake3::hash(input).as_bytes()
}

/// The lower-case hexadecimal digit of a number below 16.
pub open spec fn hex_digit(n: u8) -> char {
    if n < 10 {
        (0x30 + n) as char
    } else {
        (0x61 + n - 10) as char
    }
}

/// The lower-case hexadecimal text of a byte string: two digits per byte,
/// the high one first.
pub open spec fn hex_lower(bytes: Seq<u8>) -> Seq<char> {
    Seq::new(
        2 * bytes.len(),
        |i: int|
            if i % 2 == 0 {
                hex_digit(bytes[i / 2] / 16)
            } else {
                hex_digit(bytes[i / 2] % 16)
            },
    )
}

/// Calls `hex::encode`: two lower-case hexadecimal digits per byte.
#[verifier::external_body]
fn hex_encode(bytes: &[u8]) -> (text: String)
    ensures
        text@ == hex_lower(bytes@),
{
    hex::encode(bytes)
}

/// A path with one more component: the two are joined by a `/` unless the
/// base is empty or ends with one.
pub open spec fn join_spec(base: Seq<char>, name: Seq<char>) -> Seq<char> {
    if base.len() == 0 {
        name
    } else if base.last() == '/' {
        base + name
    } else {
        base + seq!['/'] + name
    }
}

pub fn join(base: &str, name: &str) -> (path: String)
    ensures
        path@ == join_spec(base@, name@),
{
    let n = base.unicode_len();
    let mut path = String::from_str(base);
    if n > 0 && base.get_char(n - 1) != '/' {
        path.push('/');
    }
    path.append(name);
    path
}

/// The directory name of a project: the hexadecimal BLAKE3 hash of its
/// canonical path's UTF-8 bytes.
pub open spec fn project_dir_name_spec(canonical_path: Seq<char>) -> Seq<char> {
    hex_lower(spec_blake3(vstd::utf8::encode_utf8(canonical_path)))
}

pub fn project_dir_name(canonical_path: &str) -> (name: String)
    ensures
        name@ == project_dir_name_spec(canonical_path@),
        name@.len() == 64,
{
    let hash = blake3_hash(canonical_path.as_bytes());
    hex_encode(hash.as_slice())
}

/// A path below the configuration directory, or the file permission error
/// where that directory was not found.
pub open spec fn config_path_spec(config_dir: Option<Seq<char>>, name: Seq<char>) -> Result<
    Seq<char>,
    ObscuraError,
> {
    match config_dir {
        Some(dir) => Ok(join_spec(dir, name)),
        None => Err(ObscuraError::FilePermissionError),
    }
}

/// A path inside a project's directory, or the file permission error where
/// the configuration directory or the project's canonical path was not
/// found.
pub open spec fn project_path_spec(
    config_dir: Option<Seq<char>>,
    canonical_path: Option<Seq<char>>,
    name: Seq<char>,
) -> Result<Seq<char>, ObscuraError> {
    match (config_dir, canonical_path) {
        (Some(dir), Some(project)) => Ok(
            join_spec(
                join_spec(join_spec(dir, "projects"@), project_dir_name_spec(project)),
                name,
            ),
        ),
        _ => Err(ObscuraError::FilePermissionError),
    }
}

/// The text of an optional string slice.
pub open spec fn opt_text(text: Option<&str>) -> Option<Seq<char>> {
    match text {
        Some(t) => Some(t@),
        None => None,
    }
}

fn config_path(config_dir: Option<&str>, name: &str) -> (res: ObscuraResult<String>)
    ensures
        match config_path_spec(opt_text(config_dir), name@) {
            Ok(path) => res matches Ok(p) && p@ == path,
            Err(e) => res matches Err(got) && got == e,
        },
{
    match config_dir {
        Some(dir) => Ok(join(dir, name)),
        None => Err(ObscuraError::FilePermissionError),
    }
}

fn project_path(config_dir: Option<&str>, canonical_path: Option<&str>, name: &str) -> (res:
    ObscuraResult<String>)
    ensures
        match project_path_spec(opt_text(config_dir), opt_text(canonical_path), name@) {
            Ok(path) => res matches Ok(p) && p@ == path,
            Err(e) => res matches Err(got) && got == e,
        },
{
    let project = match canonical_path {
        Some(project) => project,
        None => { return Err(ObscuraError::FilePermissionError); },
    };
    let projects = get_projects_dir(config_dir)?;
    let dir = join(projects.as_str(), project_dir_name(project).as_str());
    Ok(join(dir.as_str(), name))
}

/// The configuration directory as it was found, or the file permission
/// error where there is none.
pub fn get_config_dir(found: Option<&str>) -> (res: ObscuraResult<String>)
    ensures
        match found {
            Some(dir) => res matches Ok(p) && p@ == dir@,
            None => res matches Err(e) && e == ObscuraError::FilePermissionError,
        },
{
    match found {
        Some(dir) => Ok(String::from_str(dir)),
        None => Err(ObscuraError::FilePermissionError),
    }
}

/// `<config>/vault.enc`.
pub fn get_global_vault_path(config_dir: Option<&str>) -> (res: ObscuraResult<String>)
    ensures
        match config_path_spec(opt_text(config_dir), "vault.enc"@) {
            Ok(path) => res matches Ok(p) && p@ == path,
            Err(e) => res matches Err(got) && got == e,
        },
{
    config_path(config_dir, "vault.enc")
}

/// `<config>/projects`.
pub fn get_projects_dir(config_dir: Option<&str>) -> (res: ObscuraResult<String>)
    ensures
        match config_path_spec(opt_text(config_dir), "projects"@) {
            Ok(path) => res matches Ok(p) && p@ == path,
            Err(e) => res matches Err(got) && got == e,
        },
{
    config_path(config_dir, "projects")
}

/// `<config>/projects/<hash of the canonical project path>/vault.enc`.
pub fn get_project_vault_path(config_dir: Option<&str>, canonical_path: Option<&str>) -> (res:
    ObscuraResult<String>)
    ensures
        match project_path_spec(opt_text(config_dir), opt_text(canonical_path), "vault.enc"@) {
            Ok(path) => res matches Ok(p) && p@ == path,
            Err(e) => res matches Err(got) && got == e,
        },
{
    project_path(config_dir, canonical_path, "vault.enc")
}

/// `<config>/projects/<hash of the canonical project path>/meta.json`.
pub fn get_project_meta_path(config_dir: Option<&str>, canonical_path: Option<&str>) -> (res:
    ObscuraResult<String>)
    ensures
        match project_path_spec(opt_text(config_dir), opt_text(canonical_path), "meta.json"@) {
            Ok(path) => res matches Ok(p) && p@ == path,
            Err(e) => res matches Err(got) && got == e,
        },
{
    project_path(config_dir, canonical_path, "meta.json")
}

/// `<config>/agent.sock`.
pub fn get_agent_socket_path(config_dir: Option<&str>) -> (res: ObscuraResult<String>)
    ensures
        match config_path_spec(opt_text(config_dir), "agent.sock"@) {
            Ok(path) => res matches Ok(p) && p@ == path,
            Err(e) => res matches Err(got) && got == e,
        },
{
    config_path(config_dir, "agent.sock")
}

/// `<config>/session.enc`.
pub fn get_session_path(config_dir: Option<&str>) -> (res: ObscuraResult<String>)
    ensures
        match config_path_spec(opt_text(config_dir), "session.enc"@) {
            Ok(path) => res matches Ok(p) && p@ == path,
            Err(e) => res matches Err(got) && got == e,
        },
{
    config_path(config_dir, "session.enc")
}

/// The temporary file beside a path: the path with `.tmp` appended. A file
/// is written there in full and then renamed over the path.
pub open spec fn temp_path_spec(path: Seq<char>) -> Seq<char> {
    path + ".tmp"@
}

pub fn temp_path(path: &str) -> (temp: String)
    ensures
        temp@ == temp_path_spec(path@),
        temp@ != path@,
{
    proof {
        reveal_strlit(".tmp");
        assert((path@ + ".tmp"@).len() == path@.len() + 4);
    }
    let mut temp = String::from_str(path);
    temp.append(".tmp");
    temp
}

} // verus!
