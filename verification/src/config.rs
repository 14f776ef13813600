//! The tracking record: the small persisted state that ties a target
//! repository to its upstream skeleton.

use vstd::prelude::*;
use crate::error::ErrorKind;

verus! {

/// The persisted tracking record: upstream URL, selector (at most one of
/// branch and tag; neither means the upstream default branch), and the
/// upstream commit the target was last fully synchronized to.
///
/// The shell reads and writes this record at a conventional path inside the
/// target repository; this type holds the validated in-memory form.
#[derive(Debug, Clone)]
pub struct Config {
    pub url: String,
    pub branch: Option<String>,
    pub tag: Option<String>,
    pub revision: String,
}

impl Config {
    /// At most one of branch and tag may be set at a time.
    pub open spec fn wf(self) -> bool {
        !(self.branch is Some && self.tag is Some)
    }

    /// Builds the record created on first synchronization, from the
    /// resolved head revision of the first upstream snapshot.
    pub fn new(url: String, branch: Option<String>, tag: Option<String>, revision: String) -> (c:
        Config)
        requires
            !(branch is Some && tag is Some),
        ensures
            c.wf(),
            c.url == url,
            c.branch == branch,
            c.tag == tag,
            c.revision == revision,
    {
        Config { url, branch, tag, revision }
    }

    /// Retargets the record to a branch; a previously set tag is cleared so
    /// that at most one selector remains.
    pub fn set_branch(&mut self, branch: &str)
        ensures
            final(self).wf(),
            final(self).branch matches Some(b) && b@ == branch@,
            final(self).tag is None,
            final(self).url == old(self).url,
            final(self).revision == old(self).revision,
    {
        self.branch = Some(branch.to_owned());
        self.tag = None;
    }

    /// Retargets the record to a tag; a previously set branch is cleared so
    /// that at most one selector remains.
    pub fn set_tag(&mut self, tag: &str)
        ensures
            final(self).wf(),
            final(self).tag matches Some(t) && t@ == tag@,
            final(self).branch is None,
            final(self).url == old(self).url,
            final(self).revision == old(self).revision,
    {
        self.branch = None;
        self.tag = Some(tag.to_owned());
    }

    /// Records the upstream revision the target is now synchronized to.
    /// Called only after a successful apply pass.
    pub fn set_commit(&mut self, revision: &str)
        ensures
            final(self).revision@ == revision@,
            final(self).url == old(self).url,
            final(self).branch == old(self).branch,
            final(self).tag == old(self).tag,
            final(self).wf() == old(self).wf(),
    {
        self.revision = revision.to_owned();
    }

    /// The guard of a first synchronization: it must not overwrite an
    /// existing tracking record. `config_exists` is whether a record is
    /// already present at `path`; the shell queries the filesystem and this
    /// function decides.
    pub fn check(config_exists: bool, path: &str) -> (r: Result<(), ErrorKind>)
        ensures
            r is Ok <==> !config_exists,
            config_exists ==> (r matches Err(e) && e matches ErrorKind::AbortByConfigExist(p)
                && p@ == path@),
    {
        if config_exists {
            Err(ErrorKind::AbortByConfigExist(path.to_owned()))
        } else {
            Ok(())
        }
    }
}

} // verus!
