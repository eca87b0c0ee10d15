//! Repository records: a repository identified by name, its location inside
//! the cache, and an optional upstream it tracks.

use vstd::prelude::*;

use crate::cache::CacheError;
use crate::fs_model::FsSnapshot;
use crate::text::{join_path, spec_join};

verus! {

/// Information about a repository.
#[derive(Debug, Clone)]
pub struct Repository {
    /// Repository name (username/repo).
    pub name: String,
    /// Path to the repository in the cache.
    pub path: String,
    /// Upstream repository name (if any).
    pub upstream: Option<String>,
}

impl Repository {
    /// Create a new Repository.
    pub fn new(name: String, path: String) -> (r: Self)
        ensures
            r.name@ == name@,
            r.path@ == path@,
            r.upstream is None,
    {
        Repository { name, path, upstream: None }
    }

    /// Create a new Repository with upstream info.
    pub fn with_upstream(name: String, path: String, upstream: String) -> (r: Self)
        ensures
            r.name@ == name@,
            r.path@ == path@,
            r.upstream is Some && r.upstream->0@ == upstream@,
    {
        Repository { name, path, upstream: Some(upstream) }
    }

    /// Check whether the repository exists in the given filesystem snapshot.
    pub fn exists_in(&self, fs: &FsSnapshot) -> (r: bool)
        ensures
            r == fs.path_exists(self.path@),
    {
        fs.has_path(self.path.as_str())
    }

    /// Get the path to the Justfile in this repository.
    pub fn justfile_path(&self) -> (r: String)
        ensures
            r@ == spec_join(self.path@, "Justfile"@),
    {
        join_path(self.path.as_str(), "Justfile")
    }

    /// Check whether this repository has a Justfile, according to the given
    /// filesystem snapshot.
    pub fn has_justfile(&self, fs: &FsSnapshot) -> (r: bool)
        ensures
            r == fs.path_exists(spec_join(self.path@, "Justfile"@)),
    {
        let jp = self.justfile_path();
        fs.has_path(jp.as_str())
    }
}

/// Detect the repository for the current directory. No detection is
/// performed in this design: the result is always `Ok(None)`.
pub fn detect_current_repo() -> (r: Result<Option<Repository>, CacheError>)
    ensures
        r is Ok && r->Ok_0 is None,
{
    Ok(None)
}

/// Parse a repository name into a Repository record rooted in `cache_dir`.
pub fn parse_repo_name(name: &str, cache_dir: &str) -> (r: Repository)
    ensures
        r.name@ == name@,
        r.path@ == spec_join(cache_dir@, name@),
        r.upstream is None,
{
    let path = join_path(cache_dir, name);
    Repository::new(String::from_str(name), path)
}

} // verus!
