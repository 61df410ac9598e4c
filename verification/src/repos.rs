//! The candidate source: discovering working copies under a root directory.
//!
//! The walk itself reads the filesystem and so lives with the caller; the
//! decision it takes at every entry — collect a working copy and stop
//! descending into it, or keep walking — is here, with its contract.

use vstd::prelude::*;

use crate::repo::GitRepo;

verus! {

/// Why fetching the candidate repositories failed.
pub enum FetchAllError {
    /// The root directory could not be read; the message describes the
    /// failure.
    ReadRoot(String),
}

/// A source of candidate repositories.
pub trait Repository {
    fn fetch_all(&self) -> Result<Vec<GitRepo>, FetchAllError>;
}

/// The filesystem source: working copies found under a root directory.
pub struct FileSystemRepository {
    root: String,
}

impl FileSystemRepository {
    pub closed spec fn spec_root(self) -> Seq<char> {
        self.root@
    }

    pub fn new(root: String) -> (r: Self)
        ensures
            r.spec_root() == root@,
    {
        Self { root }
    }

    pub fn root(&self) -> (r: &str)
        ensures
            r@ == self.spec_root(),
    {
        self.root.as_str()
    }
}

/// What the walk does at one directory entry.
pub enum WalkStep {
    /// The entry is a working copy: take it as a candidate and do not
    /// descend into its own structure.
    Collect(GitRepo),
    /// Keep walking into the entry.
    Descend,
}

/// The walk's decision at one entry: an entry holding the version-control
/// metadata directory is a working copy and is collected (descent stops
/// there), every other directory is descended into.
pub fn classify_entry(name: &str, path: &str, has_metadata_dir: bool) -> (r: WalkStep)
    ensures
        has_metadata_dir ==> (r matches WalkStep::Collect(g) && g.spec_name() == name@
            && g.spec_path() == path@),
        !has_metadata_dir ==> r is Descend,
{
    if has_metadata_dir {
        WalkStep::Collect(GitRepo::new(name.to_owned(), path.to_owned()))
    } else {
        WalkStep::Descend
    }
}

} // verus!
