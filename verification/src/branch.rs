//! Branch-level handles and data.

use vstd::prelude::*;

verus! {

#[verifier::external_type_specification]
#[verifier::external_body]
pub struct ExBranch<'repo>(git2::Branch<'repo>);

#[verifier::external_type_specification]
#[verifier::external_body]
pub struct ExRemote<'repo>(git2::Remote<'repo>);

/// The evaluation data of one branch against one remote: the unsafe and
/// the ignored findings of the working copy, and how far the histories
/// have drifted apart.
pub struct RepoRemoteBranchData {
    pub dirty_files: Vec<String>,
    pub dirty_files_ignored: Vec<String>,
    pub commits_ahead: usize,
    pub commits_behind: usize,
}

/// One branch of a repository, together with the remote it tracks, if any.
pub struct RepoRemoteBranch<'a> {
    pub repo: &'a git2::Repository,
    pub remote: Option<git2::Remote<'a>>,
    pub branch: git2::Branch<'a>,
}

impl<'a> RepoRemoteBranch<'a> {
    /// Bundles a branch with its repository and its tracked remote.
    pub fn new(
        repo: &'a git2::Repository,
        remote: Option<git2::Remote<'a>>,
        branch: git2::Branch<'a>,
    ) -> (r: RepoRemoteBranch<'a>)
        ensures
            r.repo == repo,
            r.remote == remote,
            r.branch == branch,
    {
        RepoRemoteBranch { repo, remote, branch }
    }
}

} // verus!
