//! Justfile records: a cached Justfile identified by its owning repository
//! name and its path inside the cache.

use vstd::prelude::*;

use crate::fs_model::{views_of, FsSnapshot};
use crate::text::{join_path, spec_join};

verus! {

/// Information about a cached Justfile.
#[derive(Debug, Clone)]
pub struct Justfile {
    /// Repository it belongs to.
    pub repo_name: String,
    /// Path to the Justfile.
    pub path: String,
}

impl Justfile {
    /// Create a new Justfile record.
    pub fn new(repo_name: String, path: String) -> (r: Self)
        ensures
            r.repo_name@ == repo_name@,
            r.path@ == path@,
    {
        Justfile { repo_name, path }
    }

    /// Check whether the Justfile exists in the given filesystem snapshot.
    pub fn exists_in(&self, fs: &FsSnapshot) -> (r: bool)
        ensures
            r == fs.path_exists(self.path@),
    {
        fs.has_path(self.path.as_str())
    }

    /// Get the display name for this Justfile.
    pub fn display_name(&self) -> (r: String)
        ensures
            r@ == self.repo_name@,
    {
        self.repo_name.clone()
    }
}

/// The paths of the entries of `dir` that are regular files named `Justfile`,
/// in the order the entries were listed.
pub open spec fn spec_justfiles_in_dir(
    dir: Seq<char>,
    entries: Seq<Seq<char>>,
    fs: FsSnapshot,
) -> Seq<Seq<char>>
    decreases entries.len(),
{
    if entries.len() == 0 {
        Seq::empty()
    } else {
        let rest = spec_justfiles_in_dir(dir, entries.drop_last(), fs);
        let p = spec_join(dir, entries.last());
        if fs.file_at(p) && entries.last() == "Justfile"@ {
            rest.push(p)
        } else {
            rest
        }
    }
}

/// Look for files named `Justfile` among the listed entries of a directory.
/// `entries` holds the entry names the caller read from `dir`; the snapshot
/// says which of the corresponding paths are regular files.
pub fn find_justfiles_in_dir(
    dir: &str,
    entries: &Vec<String>,
    fs: &FsSnapshot,
) -> (r: Vec<String>)
    ensures
        views_of(r@) == spec_justfiles_in_dir(dir@, views_of(entries@), *fs),
{
    let mut result: Vec<String> = Vec::new();
    let justname = String::from_str("Justfile");
    let mut i: usize = 0;
    while i < entries.len()
        invariant
            i <= entries.len(),
            justname@ == "Justfile"@,
            views_of(result@) =~= spec_justfiles_in_dir(
                dir@,
                views_of(entries@).take(i as int),
                *fs,
            ),
        decreases entries.len() - i,
    {
        let p = join_path(dir, entries[i].as_str());
        let is_file = fs.has_file(p.as_str());
        proof {
            assert(views_of(entries@).take(i as int + 1).drop_last() =~= views_of(entries@).take(
                i as int,
            ));
            assert(views_of(entries@).take(i as int + 1).last() == entries@[i as int]@);
        }
        if is_file && entries[i] == justname {
            result.push(p);
            proof {
                assert(views_of(result@) =~= spec_justfiles_in_dir(
                    dir@,
                    views_of(entries@).take(i as int + 1),
                    *fs,
                ));
            }
        } else {
            proof {
                assert(views_of(result@) =~= spec_justfiles_in_dir(
                    dir@,
                    views_of(entries@).take(i as int + 1),
                    *fs,
                ));
            }
        }
        i = i + 1;
    }
    proof {
        assert(views_of(entries@).take(entries@.len() as int) =~= views_of(entries@));
    }
    result
}

} // verus!
