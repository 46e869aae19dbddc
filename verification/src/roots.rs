//! Where packages live by default: a directory under the user's configuration
//! directory and one under the user's cache directory.

use vstd::prelude::*;

use std::path::PathBuf;

verus! {

/// `std::path::PathBuf`: an owned path. Carried through as an opaque value.
#[verifier::external_type_specification]
#[verifier::external_body]
pub struct ExPathBuf(PathBuf);

/// `dirs::config_dir`: the user's configuration directory, read from the
/// environment. Nothing is claimed of what it returns.
pub assume_specification[ dirs::config_dir ]() -> (dir: Option<PathBuf>)
;

/// `dirs::cache_dir`: the user's cache directory, read from the environment.
/// Nothing is claimed of what it returns.
pub assume_specification[ dirs::cache_dir ]() -> (dir: Option<PathBuf>)
;

/// The path that `std::path::Path::join` returns for `base` and `rel`.
pub uninterp spec fn joined(base: PathBuf, rel: Seq<char>) -> PathBuf;

/// `std::path::Path::join`: `rel` appended to `base`. The result depends on the
/// two arguments alone.
#[verifier::external_body]
fn join(base: &PathBuf, rel: &str) -> (path: PathBuf)
    ensures
        path == joined(*base, rel@),
{
    base.join(rel)
}

/// The directory, below a configuration or cache directory, that holds
/// packages.
pub const PACKAGES_DIR: &'static str = "typst/packages/";

/// The package root below `base`; none where `base` could not be determined.
pub fn package_root(base: Option<PathBuf>) -> (root: Option<PathBuf>)
    ensures
        root == match base {
            Some(dir) => Some(joined(dir, PACKAGES_DIR@)),
            None => None,
        },
{
    match base {
        Some(dir) => Some(join(&dir, PACKAGES_DIR)),
        None => None,
    }
}

/// Whether `root` is a package root below some directory.
pub open spec fn is_package_root(root: PathBuf) -> bool {
    exists|base: PathBuf| root == #[trigger] joined(base, PACKAGES_DIR@)
}

/// The package root below the user's configuration directory: the packages
/// directory joined to what `dirs::config_dir` answers, none where it answers none.
pub fn user_package_root() -> (root: Option<PathBuf>)
    ensures
        may_be_user_root(root),
        root matches Some(path) ==> is_package_root(path),
{
    package_root(dirs::config_dir())
}

/// The package root below the cache directory, as `user_package_root` with `dirs::cache_dir`.
pub fn cache_package_root() -> (root: Option<PathBuf>)
    ensures
        may_be_cache_root(root),
        root matches Some(path) ==> is_package_root(path),
{
    package_root(dirs::cache_dir())
}

/// The package root below `base`: the packages directory joined to it, or none
/// where `base` could not be determined.
pub open spec fn package_root_of(base: Option<PathBuf>) -> Option<PathBuf> {
    match base {
        Some(dir) => Some(joined(dir, PACKAGES_DIR@)),
        None => None,
    }
}

/// `root` is the package root below an answer that `dirs::config_dir` may
/// give: below the directory where it gives one, none where it gives none.
///
/// The answer is read from the environment and may differ from call to call,
/// so it is described by what the call admits, not by a value.
pub open spec fn may_be_user_root(root: Option<PathBuf>) -> bool {
    exists|dir: Option<PathBuf>| #[trigger]
        call_ensures(dirs::config_dir, (), dir) && root == package_root_of(dir)
}

/// `root` is the package root below an answer that `dirs::cache_dir` may give:
/// below the directory where it gives one, none where it gives none.
pub open spec fn may_be_cache_root(root: Option<PathBuf>) -> bool {
    exists|dir: Option<PathBuf>| #[trigger]
        call_ensures(dirs::cache_dir, (), dir) && root == package_root_of(dir)
}

} // verus!
