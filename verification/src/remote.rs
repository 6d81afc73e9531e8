//! Remote-level handles and branch enumeration.

use vstd::prelude::*;

use crate::branch::RepoRemoteBranch;
use crate::utils::{spec_failures, spec_successes};

verus! {

/// A repository together with one of its remotes, if it has any.
pub struct RepoRemote<'a> {
    pub repo: &'a git2::Repository,
    pub remote: Option<git2::Remote<'a>>,
}

/// Relies on git2::Repository::branches: lists every branch with whether
/// it is a remote-tracking one; each branch that cannot be read comes back
/// as its own error without hiding its siblings.
#[verifier::external_body]
fn branch_list<'a>(repo: &'a git2::Repository) -> (r: Result<
    Vec<Result<(git2::Branch<'a>, bool), git2::Error>>,
    git2::Error,
>) {
    match repo.branches(None) {
        Ok(bs) => Ok(bs.map(|b| b.map(|(branch, ty)| {
            (branch, ty == git2::BranchType::Remote)
        })).collect()),
        Err(e) => Err(e),
    }
}

/// Relies on git2::Remote's Clone impl: duplicates the remote handle.
#[verifier::external_body]
fn clone_remote<'a>(remote: &git2::Remote<'a>) -> (r: git2::Remote<'a>) {
    remote.clone()
}

/// Turns a listed branch sequence into branch handles and errors: the
/// handles come from the readable branches in listing order, each bound to
/// `repo` and carrying a duplicate of `remote` exactly when it is a
/// remote-tracking branch and a remote exists; the errors are the
/// unreadable branches' own, in listing order, so one bad branch never
/// hides its siblings.
pub fn assemble_branches<'a>(
    repo: &'a git2::Repository,
    remote: &Option<git2::Remote<'a>>,
    items: Vec<Result<(git2::Branch<'a>, bool), git2::Error>>,
) -> (r: (Vec<RepoRemoteBranch<'a>>, Vec<git2::Error>))
    ensures
        r.0@.len() == spec_successes(items@).len(),
        r.1@ == spec_failures(items@),
        forall|j: int|
            0 <= j < r.0@.len() ==> {
                &&& (#[trigger] r.0@[j]).repo == repo
                &&& r.0@[j].branch == spec_successes(items@)[j].0
                &&& (r.0@[j].remote is Some <==> (spec_successes(items@)[j].1 && *remote
                    is Some))
            },
{
    let ghost all = items@;
    let mut branches: Vec<RepoRemoteBranch<'a>> = Vec::new();
    let mut errors: Vec<git2::Error> = Vec::new();
    for item in it: items
        invariant
            it.seq() == all,
            branches@.len() == spec_successes(all.take(it.index() as int)).len(),
            errors@ == spec_failures(all.take(it.index() as int)),
            forall|j: int|
                0 <= j < branches@.len() ==> {
                    &&& (#[trigger] branches@[j]).repo == repo
                    &&& branches@[j].branch == spec_successes(all.take(it.index() as int))[j].0
                    &&& (branches@[j].remote is Some <==> (spec_successes(
                        all.take(it.index() as int),
                    )[j].1 && *remote is Some))
                },
    {
        proof {
            assert(all.take(it.index() + 1).drop_last() =~= all.take(it.index() as int));
            assert(all.take(it.index() + 1).last() == all[it.index() as int]);
        }
        let ghost prior_successes = spec_successes(all.take(it.index() as int));
        match item {
            Ok((branch, is_remote)) => {
                let carried = if is_remote {
                    match remote {
                        Some(r) => Some(clone_remote(r)),
                        None => None,
                    }
                } else {
                    None
                };
                branches.push(RepoRemoteBranch::new(repo, carried, branch));
                proof {
                    assert(spec_successes(all.take(it.index() + 1)) =~= prior_successes.push(
                        all[it.index() as int]->Ok_0,
                    ));
                }
            },
            Err(e) => {
                errors.push(e);
                proof {
                    assert(spec_successes(all.take(it.index() + 1)) =~= prior_successes);
                    assert(errors@ =~= spec_failures(all.take(it.index() + 1)));
                }
            },
        }
    }
    proof {
        assert(all.take(all.len() as int) =~= all);
    }
    (branches, errors)
}

impl<'a> RepoRemote<'a> {
    /// Enumerates the repository's branches as branch handles: each
    /// remote-tracking branch carries this remote, a local one carries
    /// none, and every returned handle is bound to this repository.
    /// Branches that cannot be read are collected as errors beside the
    /// successes, so one bad branch never hides the others; a listing that
    /// fails outright yields no handles and that one error. The exact
    /// per-branch mapping and ordering are fixed by `assemble_branches`.
    pub fn get_all_branches(&self) -> (r: (Vec<RepoRemoteBranch<'a>>, Vec<git2::Error>))
        ensures
            forall|j: int|
                0 <= j < r.0@.len() ==> (#[trigger] r.0@[j]).repo == self.repo,
            forall|j: int|
                0 <= j < r.0@.len() ==> ((#[trigger] r.0@[j]).remote is Some ==> self.remote
                    is Some),
    {
        let list = match branch_list(self.repo) {
            Ok(l) => l,
            Err(e) => {
                let mut errors: Vec<git2::Error> = Vec::new();
                errors.push(e);
                return (Vec::new(), errors);
            },
        };
        assemble_branches(self.repo, &self.remote, list)
    }
}

} // verus!
