//! Where the library keeps its files: archives and mods under the user's
//! cache directory, profiles under the user's data directory.
//!
//! The directories of the user are the system's to name. Every function
//! here exists twice: once with the user's directory as an argument, which
//! says exactly what it returns, and once without, which asks the system
//! and returns nothing where the system has no such directory. Components
//! are joined with `/`, which every platform that is served takes as a
//! separator. No function here creates a directory.

use crate::pathname::{join, join_paths, PathStyle};
use crate::text::concat2;
use vstd::prelude::*;

verus! {

/// The directory of this library below `root`.
pub open spec fn home_below(root: Seq<char>) -> Seq<char> {
    join(PathStyle::Posix, root, "electron-hook"@)
}

/// The directory of the archives, with the user's cache directory
/// `cache_root`.
pub open spec fn asar_cache_dir_below(cache_root: Seq<char>) -> Seq<char> {
    join(PathStyle::Posix, home_below(cache_root), "asar"@)
}

/// The path of the archive `asar_id`: the file `asar_id` with the extension
/// `.asar` in the directory of the archives.
pub open spec fn asar_cache_path_below(cache_root: Seq<char>, asar_id: Seq<char>) -> Seq<char> {
    join(PathStyle::Posix, asar_cache_dir_below(cache_root), asar_id + ".asar"@)
}

/// The directory of the mods, with the user's cache directory `cache_root`.
pub open spec fn mod_artifacts_dir_below(cache_root: Seq<char>) -> Seq<char> {
    join(PathStyle::Posix, home_below(cache_root), "mods"@)
}

/// The directory of the mod `mod_name`.
pub open spec fn mod_artifact_dir_below(cache_root: Seq<char>, mod_name: Seq<char>) -> Seq<char> {
    join(PathStyle::Posix, mod_artifacts_dir_below(cache_root), mod_name)
}

/// The directory of the profiles, with the user's data directory
/// `data_root`.
pub open spec fn data_profiles_dir_below(data_root: Seq<char>) -> Seq<char> {
    join(PathStyle::Posix, home_below(data_root), "profiles"@)
}

/// The directory of the profile `profile_id`.
pub open spec fn data_profile_dir_below(data_root: Seq<char>, profile_id: Seq<char>) -> Seq<char> {
    join(PathStyle::Posix, data_profiles_dir_below(data_root), profile_id)
}

/// Asks `dirs::cache_dir` for the user's cache directory. What it answers
/// depends on the user and on the environment, so nothing is claimed of it.
/// A path that is not valid Unicode comes back with the replacement
/// character in place of what could not be read.
#[verifier::external_body]
fn user_cache_root() -> (r: Option<String>) {
    match dirs::cache_dir() {
        Some(p) => Some(p.to_string_lossy().into_owned()),
        None => None,
    }
}

/// Asks `dirs::data_dir` for the user's data directory. What it answers
/// depends on the user and on the environment, so nothing is claimed of it.
/// A path that is not valid Unicode comes back with the replacement
/// character in place of what could not be read.
#[verifier::external_body]
fn user_data_root() -> (r: Option<String>) {
    match dirs::data_dir() {
        Some(p) => Some(p.to_string_lossy().into_owned()),
        None => None,
    }
}

/// The directory of this library below `root`.
pub fn home_in(root: &str) -> (r: String)
    ensures
        r@ == home_below(root@),
{
    join_paths(PathStyle::Posix, root, "electron-hook")
}

/// The directory of the archives, with the user's cache directory
/// `cache_root`.
pub fn asar_cache_dir_in(cache_root: &str) -> (r: String)
    ensures
        r@ == asar_cache_dir_below(cache_root@),
{
    join_paths(PathStyle::Posix, home_in(cache_root).as_str(), "asar")
}

/// The path of the archive `asar_id`, with the user's cache directory
/// `cache_root`.
pub fn asar_cache_path_in(cache_root: &str, asar_id: &str) -> (r: String)
    ensures
        r@ == asar_cache_path_below(cache_root@, asar_id@),
{
    let file = concat2(asar_id, ".asar");
    join_paths(PathStyle::Posix, asar_cache_dir_in(cache_root).as_str(), file.as_str())
}

/// The directory of the mods, with the user's cache directory `cache_root`.
pub fn mod_artifacts_dir_in(cache_root: &str) -> (r: String)
    ensures
        r@ == mod_artifacts_dir_below(cache_root@),
{
    join_paths(PathStyle::Posix, home_in(cache_root).as_str(), "mods")
}

/// The directory of the mod `mod_name`, with the user's cache directory
/// `cache_root`.
pub fn mod_artifact_dir_in(cache_root: &str, mod_name: &str) -> (r: String)
    ensures
        r@ == mod_artifact_dir_below(cache_root@, mod_name@),
{
    join_paths(PathStyle::Posix, mod_artifacts_dir_in(cache_root).as_str(), mod_name)
}

/// The directory of the profiles, with the user's data directory
/// `data_root`.
pub fn data_profiles_dir_in(data_root: &str) -> (r: String)
    ensures
        r@ == data_profiles_dir_below(data_root@),
{
    join_paths(PathStyle::Posix, home_in(data_root).as_str(), "profiles")
}

/// The directory of the profile `profile_id`, with the user's data
/// directory `data_root`.
pub fn data_profile_dir_in(data_root: &str, profile_id: &str) -> (r: String)
    ensures
        r@ == data_profile_dir_below(data_root@, profile_id@),
{
    join_paths(PathStyle::Posix, data_profiles_dir_in(data_root).as_str(), profile_id)
}

/// The directory of the archives, where the user has a cache directory.
pub fn asar_cache_dir() -> (r: Option<String>)
    ensures
        r matches Some(p) ==> exists|root: Seq<char>| p@ == asar_cache_dir_below(root),
{
    match user_cache_root() {
        Some(root) => Some(asar_cache_dir_in(root.as_str())),
        None => None,
    }
}

/// The path of the archive `asar_id`, where the user has a cache
/// directory.
pub fn asar_cache_path(asar_id: &str) -> (r: Option<String>)
    ensures
        r matches Some(p) ==> exists|root: Seq<char>| p@ == asar_cache_path_below(root, asar_id@),
{
    match user_cache_root() {
        Some(root) => Some(asar_cache_path_in(root.as_str(), asar_id)),
        None => None,
    }
}

/// The directory of the mods, where the user has a cache directory.
pub fn mod_artifacts_dir() -> (r: Option<String>)
    ensures
        r matches Some(p) ==> exists|root: Seq<char>| p@ == mod_artifacts_dir_below(root),
{
    match user_cache_root() {
        Some(root) => Some(mod_artifacts_dir_in(root.as_str())),
        None => None,
    }
}

/// The directory of the mod `mod_name`, where the user has a cache
/// directory.
pub fn mod_artifact_dir(mod_name: &str) -> (r: Option<String>)
    ensures
        r matches Some(p) ==> exists|root: Seq<char>| p@ == mod_artifact_dir_below(root, mod_name@),
{
    match user_cache_root() {
        Some(root) => Some(mod_artifact_dir_in(root.as_str(), mod_name)),
        None => None,
    }
}

/// The directory of the profiles, where the user has a data directory.
pub fn data_profiles_dir() -> (r: Option<String>)
    ensures
        r matches Some(p) ==> exists|root: Seq<char>| p@ == data_profiles_dir_below(root),
{
    match user_data_root() {
        Some(root) => Some(data_profiles_dir_in(root.as_str())),
        None => None,
    }
}

/// The directory of the profile `profile_id`, where the user has a data
/// directory.
pub fn data_profile_dir(profile_id: &str) -> (r: Option<String>)
    ensures
        r matches Some(p) ==> exists|root: Seq<char>| p@ == data_profile_dir_below(
            root,
            profile_id@,
        ),
{
    match user_data_root() {
        Some(root) => Some(data_profile_dir_in(root.as_str(), profile_id)),
        None => None,
    }
}

} // verus!
