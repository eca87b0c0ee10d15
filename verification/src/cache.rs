//! The local Justfile cache: locating the platform cache directory and
//! resolving repository names to cached Justfiles.

use vstd::prelude::*;

use standard_paths::{LocationType, StandardPaths};

use crate::fs_model::{views_of, FsSnapshot};
use crate::justfile::Justfile;
use crate::text::{join_path, spec_join};

verus! {

/// The ways establishing or reading the cache can fail.
#[derive(Debug, Clone, Copy)]
pub enum CacheError {
    /// The platform cache path could not be determined.
    LocationUnavailable,
    /// Creating the cache directory failed.
    DirectoryCreateFailed,
    /// Reading a Justfile's content failed.
    IoReadError,
}

impl CacheError {
    /// A short description of the error.
    pub fn message(&self) -> (r: &'static str)
        ensures
            *self is LocationUnavailable ==> r@ == "Could not determine cache directory"@,
            *self is DirectoryCreateFailed ==> r@ == "Failed to create cache directory"@,
            *self is IoReadError ==> r@ == "Failed to read Justfile"@,
    {
        match self {
            CacheError::LocationUnavailable => "Could not determine cache directory",
            CacheError::DirectoryCreateFailed => "Failed to create cache directory",
            CacheError::IoReadError => "Failed to read Justfile",
        }
    }
}

/// Get the cache directory for unjust.
///
/// Relies on standard_paths: `StandardPaths::writable_location` computes the
/// platform's application-cache path for the given identifiers from the
/// process environment, and errs when the platform cannot supply one. The
/// result depends on the environment, so nothing is promised of it.
#[verifier::external_body]
pub fn get_cache_dir() -> Option<String> {
    let sp = StandardPaths::new("unjust.core", "unjust");
    match sp.writable_location(LocationType::AppCacheLocation) {
        Ok(p) => p.into_os_string().into_string().ok(),
        Err(_) => None,
    }
}

/// `is_first_use` holds when the cache location is unavailable or nothing
/// exists yet at the located directory.
pub open spec fn spec_is_first_use(cache_dir: Option<String>, fs: FsSnapshot) -> bool {
    match cache_dir {
        Option::Some(dir) => !fs.path_exists(dir@),
        Option::None => true,
    }
}

/// Check if unjust has been used before: first use means the located cache
/// directory does not exist yet in the snapshot (or no location could be
/// determined at all).
pub fn is_first_use(cache_dir: &Option<String>, fs: &FsSnapshot) -> (r: bool)
    ensures
        r == spec_is_first_use(*cache_dir, *fs),
{
    match cache_dir {
        Option::Some(dir) => !fs.has_path(dir.as_str()),
        Option::None => true,
    }
}

/// What establishing the cache directory comes to: the directory path and
/// whether it still has to be created, or `LocationUnavailable` when no
/// location could be determined.
pub open spec fn spec_ensure_cache_dir(cache_dir: Option<String>, fs: FsSnapshot) -> Result<
    (Seq<char>, bool),
    CacheError,
> {
    match cache_dir {
        Option::Some(dir) => Result::Ok((dir@, !fs.path_exists(dir@))),
        Option::None => Result::Err(CacheError::LocationUnavailable),
    }
}

/// Establish the cache directory: report its path and whether the caller
/// still has to create it on disk. Creation itself is the caller's step; a
/// directory that already exists needs no creation, so running this again
/// after a successful creation asks for nothing further.
pub fn ensure_cache_dir(cache_dir: &Option<String>, fs: &FsSnapshot) -> (r: Result<
    (String, bool),
    CacheError,
>)
    ensures
        r is Ok <==> spec_ensure_cache_dir(*cache_dir, *fs) is Ok,
        r is Ok ==> (r->Ok_0.0@, r->Ok_0.1) == spec_ensure_cache_dir(*cache_dir, *fs)->Ok_0,
        r is Err ==> r->Err_0 == spec_ensure_cache_dir(*cache_dir, *fs)->Err_0,
{
    match cache_dir {
        Option::Some(dir) => {
            let needs_create = !fs.has_path(dir.as_str());
            Ok((dir.clone(), needs_create))
        },
        Option::None => Err(CacheError::LocationUnavailable),
    }
}

/// The path `<cache_dir>/<repo_name>/Justfile`.
pub open spec fn spec_justfile_path(cache_dir: Seq<char>, repo_name: Seq<char>) -> Seq<char> {
    spec_join(spec_join(cache_dir, repo_name), "Justfile"@)
}

/// Compute the path at which a repository's Justfile is cached.
pub fn justfile_cache_path(cache_dir: &str, repo_name: &str) -> (r: String)
    ensures
        r@ == spec_justfile_path(cache_dir@, repo_name@),
{
    let dir = join_path(cache_dir, repo_name);
    join_path(dir.as_str(), "Justfile")
}

/// Find an appropriate Justfile for the given repository: the record is
/// returned exactly when `<cache_dir>/<repo_name>/Justfile` exists in the
/// snapshot, and absence is a normal negative result, not an error. The
/// separate-upstream flag is accepted for interface compatibility and has no
/// effect on resolution.
pub fn find_justfile(
    repo_name: &str,
    _separate_upstream: bool,
    cache_dir: &str,
    fs: &FsSnapshot,
) -> (r: Option<Justfile>)
    ensures
        r is Some <==> fs.path_exists(spec_justfile_path(cache_dir@, repo_name@)),
        r is Some ==> r->0.repo_name@ == repo_name@,
        r is Some ==> r->0.path@ == spec_justfile_path(cache_dir@, repo_name@),
{
    let justfile_path = justfile_cache_path(cache_dir, repo_name);
    if fs.has_path(justfile_path.as_str()) {
        Some(Justfile::new(String::from_str(repo_name), justfile_path))
    } else {
        None
    }
}

/// The records that listing the cache yields: one per listed child of the
/// cache root that is a directory and directly contains a `Justfile`, in
/// listing order, carrying the child's name and the Justfile's full path.
pub open spec fn spec_scan_children(
    cache_dir: Seq<char>,
    children: Seq<Seq<char>>,
    fs: FsSnapshot,
) -> Seq<(Seq<char>, Seq<char>)>
    decreases children.len(),
{
    if children.len() == 0 {
        Seq::empty()
    } else {
        let rest = spec_scan_children(cache_dir, children.drop_last(), fs);
        let child = spec_join(cache_dir, children.last());
        let jp = spec_join(child, "Justfile"@);
        if fs.dir_at(child) && fs.path_exists(jp) {
            rest.push((children.last(), jp))
        } else {
            rest
        }
    }
}

/// What listing the cache yields: nothing when no cache location could be
/// determined or the cache root does not exist, and otherwise the scan of
/// the listed children.
pub open spec fn spec_list_justfiles(
    cache_dir: Option<String>,
    children: Seq<Seq<char>>,
    fs: FsSnapshot,
) -> Seq<(Seq<char>, Seq<char>)> {
    match cache_dir {
        Option::Some(dir) => {
            if fs.path_exists(dir@) {
                spec_scan_children(dir@, children, fs)
            } else {
                Seq::empty()
            }
        },
        Option::None => Seq::empty(),
    }
}

/// The name and path carried by each record of `v`.
pub open spec fn records_of(v: Seq<Justfile>) -> Seq<(Seq<char>, Seq<char>)> {
    v.map_values(|j: Justfile| (j.repo_name@, j.path@))
}

/// List all available Justfiles in the cache. `children` holds the entry
/// names the caller listed under the cache root; the snapshot says which of
/// them are directories with a `Justfile` inside. A missing cache root gives
/// an empty list, never an error.
pub fn list_justfiles(
    cache_dir: &Option<String>,
    children: &Vec<String>,
    fs: &FsSnapshot,
) -> (r: Vec<Justfile>)
    ensures
        records_of(r@) == spec_list_justfiles(*cache_dir, views_of(children@), *fs),
{
    let mut result: Vec<Justfile> = Vec::new();
    let dir = match cache_dir {
        Option::Some(dir) => {
            if !fs.has_path(dir.as_str()) {
                proof {
                    assert(records_of(result@) =~= spec_list_justfiles(
                        *cache_dir,
                        views_of(children@),
                        *fs,
                    ));
                }
                return result;
            }
            dir
        },
        Option::None => {
            proof {
                assert(records_of(result@) =~= spec_list_justfiles(
                    *cache_dir,
                    views_of(children@),
                    *fs,
                ));
            }
            return result;
        },
    };
    let mut i: usize = 0;
    while i < children.len()
        invariant
            i <= children.len(),
            cache_dir is Some && dir@ == cache_dir->0@,
            fs.path_exists(dir@),
            records_of(result@) =~= spec_scan_children(
                dir@,
                views_of(children@).take(i as int),
                *fs,
            ),
        decreases children.len() - i,
    {
        let child_path = join_path(dir.as_str(), children[i].as_str());
        let jp = join_path(child_path.as_str(), "Justfile");
        proof {
            assert(views_of(children@).take(i as int + 1).drop_last() =~= views_of(
                children@,
            ).take(i as int));
            assert(views_of(children@).take(i as int + 1).last() == children@[i as int]@);
        }
        if fs.has_dir(child_path.as_str()) && fs.has_path(jp.as_str()) {
            result.push(Justfile::new(children[i].clone(), jp));
        }
        proof {
            assert(records_of(result@) =~= spec_scan_children(
                dir@,
                views_of(children@).take(i as int + 1),
                *fs,
            ));
        }
        i = i + 1;
    }
    proof {
        assert(views_of(children@).take(children@.len() as int) =~= views_of(children@));
        assert(records_of(result@) =~= spec_list_justfiles(*cache_dir, views_of(children@), *fs));
    }
    result
}

/// A listed child of the cache root for which the scan yields a record: it
/// is a directory and directly contains a `Justfile`.
pub open spec fn spec_child_qualifies(cache_dir: Seq<char>, child: Seq<char>, fs: FsSnapshot) -> bool {
    fs.dir_at(spec_join(cache_dir, child)) && fs.path_exists(
        spec_join(spec_join(cache_dir, child), "Justfile"@),
    )
}

/// The listed children that are directories with a `Justfile` directly
/// inside, in listing order.
pub open spec fn spec_qualifying_children(
    cache_dir: Seq<char>,
    children: Seq<Seq<char>>,
    fs: FsSnapshot,
) -> Seq<Seq<char>> {
    children.filter(|child: Seq<char>| spec_child_qualifies(cache_dir, child, fs))
}

/// The record the scan yields for the qualifying child `child`.
pub open spec fn spec_child_record(cache_dir: Seq<char>, child: Seq<char>) -> (Seq<char>, Seq<
    char,
>) {
    (child, spec_join(spec_join(cache_dir, child), "Justfile"@))
}

/// One record for each qualifying child, in listing order.
pub open spec fn spec_child_records(
    cache_dir: Seq<char>,
    children: Seq<Seq<char>>,
    fs: FsSnapshot,
) -> Seq<(Seq<char>, Seq<char>)> {
    spec_qualifying_children(cache_dir, children, fs).map_values(
        |child: Seq<char>| spec_child_record(cache_dir, child),
    )
}

/// Law: scanning the cache root yields exactly one record per listed child
/// that is a directory with a `Justfile` directly inside, and none for any
/// other child: the records are the qualifying children in listing order,
/// each carrying the child's name and its Justfile's path.
pub proof fn lemma_one_record_per_qualifying_child(
    cache_dir: Seq<char>,
    children: Seq<Seq<char>>,
    fs: FsSnapshot,
)
    ensures
        spec_scan_children(cache_dir, children, fs) =~= spec_child_records(
            cache_dir,
            children,
            fs,
        ),
        spec_scan_children(cache_dir, children, fs).len() == spec_qualifying_children(
            cache_dir,
            children,
            fs,
        ).len(),
    decreases children.len(),
{
    reveal(Seq::filter);
    if children.len() == 0 {
        assert(spec_qualifying_children(cache_dir, children, fs) =~= Seq::<Seq<char>>::empty());
    } else {
        let prefix = children.drop_last();
        lemma_one_record_per_qualifying_child(cache_dir, prefix, fs);
        if spec_child_qualifies(cache_dir, children.last(), fs) {
            assert(spec_qualifying_children(cache_dir, children, fs) =~= spec_qualifying_children(
                cache_dir,
                prefix,
                fs,
            ).push(children.last()));
            assert(spec_child_records(cache_dir, children, fs) =~= spec_child_records(
                cache_dir,
                prefix,
                fs,
            ).push(spec_child_record(cache_dir, children.last())));
        } else {
            assert(spec_qualifying_children(cache_dir, children, fs) =~= spec_qualifying_children(
                cache_dir,
                prefix,
                fs,
            ));
            assert(spec_child_records(cache_dir, children, fs) =~= spec_child_records(
                cache_dir,
                prefix,
                fs,
            ));
        }
    }
}

/// The fixed content of a basic Justfile.
pub open spec fn spec_justfile_template() -> Seq<char> {
    "# Justfile managed by unjust\n# https://github.com/yourusername/unjust\n\ndefault:\n    @just --list\n\n# Example recipe\nhello:\n    echo \"Hello from unjust!\"\n\n# Another example\nbuild:\n    echo \"Building project...\"\n    # Your build commands here\n"@
}

/// The content of a basic Justfile template; writing it to disk is the
/// caller's step.
pub fn justfile_template() -> (r: String)
    ensures
        r@ == spec_justfile_template(),
{
    String::from_str(
        "# Justfile managed by unjust\n# https://github.com/yourusername/unjust\n\ndefault:\n    @just --list\n\n# Example recipe\nhello:\n    echo \"Hello from unjust!\"\n\n# Another example\nbuild:\n    echo \"Building project...\"\n    # Your build commands here\n",
    )
}

/// Law: `is_first_use` holds of a snapshot in which the located cache
/// directory is absent, and no longer holds of one in which it is present —
/// in particular, of any snapshot taken after `ensure_cache_dir`'s plan has
/// been carried out.
pub proof fn lemma_first_use_lifecycle(dir: String, before: FsSnapshot, after: FsSnapshot)
    requires
        !before.path_exists(dir@),
        after.path_exists(dir@),
    ensures
        spec_is_first_use(Some(dir), before),
        !spec_is_first_use(Some(dir), after),
{
}

/// Law: `ensure_cache_dir` is idempotent. Whenever a cache location is
/// determined it succeeds, it returns the same path whatever the snapshot
/// says — so two runs in succession both succeed with one path — and once
/// the directory exists it asks for no further creation.
pub proof fn lemma_ensure_cache_dir_idempotent(
    cache_dir: Option<String>,
    first: FsSnapshot,
    second: FsSnapshot,
)
    requires
        cache_dir is Some,
    ensures
        spec_ensure_cache_dir(cache_dir, first) is Ok,
        spec_ensure_cache_dir(cache_dir, second) is Ok,
        spec_ensure_cache_dir(cache_dir, first)->Ok_0.0 == spec_ensure_cache_dir(
            cache_dir,
            second,
        )->Ok_0.0,
        second.path_exists(cache_dir->0@) ==> !spec_ensure_cache_dir(cache_dir, second)->Ok_0.1,
{
}

} // verus!
