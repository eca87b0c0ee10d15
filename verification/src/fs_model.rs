//! A caller-supplied snapshot of the directory entries that the cache logic
//! reads. The library itself performs no disk access: the caller observes the
//! filesystem, records which paths exist (and which of them are directories),
//! and every resolution function is specified and verified against that
//! snapshot.

use vstd::prelude::*;

verus! {

/// The views of a sequence of strings.
pub open spec fn views_of(v: Seq<String>) -> Seq<Seq<char>> {
    v.map_values(|s: String| s@)
}

/// The filesystem facts the cache logic depends on: paths known to exist,
/// and paths known to be directories.
pub struct FsSnapshot {
    /// Paths at which something exists (a file or anything else).
    pub files: Vec<String>,
    /// Paths at which a directory exists.
    pub dirs: Vec<String>,
}

impl FsSnapshot {
    /// A non-directory entry was recorded at path `p`.
    pub open spec fn file_at(self, p: Seq<char>) -> bool {
        views_of(self.files@).contains(p)
    }

    /// A directory was recorded at path `p`.
    pub open spec fn dir_at(self, p: Seq<char>) -> bool {
        views_of(self.dirs@).contains(p)
    }

    /// Something was recorded at path `p`.
    pub open spec fn path_exists(self, p: Seq<char>) -> bool {
        self.file_at(p) || self.dir_at(p)
    }

    /// Whether a non-directory entry was recorded at `p`.
    pub fn has_file(&self, p: &str) -> (r: bool)
        ensures
            r == self.file_at(p@),
    {
        contains_str(&self.files, p)
    }

    /// Whether a directory was recorded at `p`.
    pub fn has_dir(&self, p: &str) -> (r: bool)
        ensures
            r == self.dir_at(p@),
    {
        contains_str(&self.dirs, p)
    }

    /// Whether anything at all was recorded at `p`.
    pub fn has_path(&self, p: &str) -> (r: bool)
        ensures
            r == self.path_exists(p@),
    {
        let in_files = self.has_file(p);
        if in_files {
            true
        } else {
            self.has_dir(p)
        }
    }
}

/// Whether some element of `v` has the same characters as `p`.
fn contains_str(v: &Vec<String>, p: &str) -> (r: bool)
    ensures
        r == views_of(v@).contains(p@),
{
    let needle = String::from_str(p);
    let mut i: usize = 0;
    while i < v.len()
        invariant
            i <= v.len(),
            needle@ == p@,
            forall|j: int| 0 <= j < i ==> views_of(v@)[j] != p@,
        decreases v.len() - i,
    {
        if v[i] == needle {
            proof {
                assert(views_of(v@)[i as int] == p@);
            }
            return true;
        }
        i = i + 1;
    }
    proof {
        assert(forall|j: int| 0 <= j < v@.len() ==> views_of(v@)[j] != p@);
    }
    false
}

} // verus!
