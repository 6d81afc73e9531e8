//! Aggregation of file and remote results into a single verdict.
//!
//! A repository is clean exactly when its working copy holds no unsafe
//! tracked change and every remote counterpart is fully synchronized.
//! With zero remotes the remote side is vacuously clean. A per-remote
//! error never aborts the evaluation of sibling remotes: it is folded in
//! as a failed entry, which makes the remote side not clean.

use vstd::prelude::*;

use crate::status::FileClassification;
use crate::sync::{kind_of, SyncKind, SyncStatus};

verus! {

/// A remote-scoped failure, folded into the verdict without aborting the
/// evaluation of sibling remotes.
#[derive(Debug, PartialEq, Eq)]
pub enum RemoteError {
    /// HEAD or the default branch was absent or could not be resolved.
    RefResolution { message: String },
    /// The remote's name could not be decoded.
    NameDecode { message: String },
}

/// The outcome of analyzing one remote: its name and either its
/// synchronization state or a remote-scoped error.
pub struct RemoteEntry {
    pub name: String,
    pub outcome: Result<SyncStatus, RemoteError>,
}

/// One remote outcome counts as clean when it resolved to `UpToDate`;
/// under a read-only preference a `LocalAhead` outcome is tolerated too,
/// since there is no push permission to resolve it with. Every error
/// outcome, and every other status, counts as not clean.
pub open spec fn spec_remote_ok(outcome: Result<SyncStatus, RemoteError>, allow_ahead: bool) -> bool {
    match outcome {
        Ok(s) => kind_of(s) == SyncKind::UpToDate || (allow_ahead && kind_of(s)
            == SyncKind::LocalAhead),
        Err(_) => false,
    }
}

/// The remote side of the overall answer. Every analyzed remote must be
/// clean; with zero remotes this holds vacuously.
pub open spec fn spec_remotes_clean(remotes: Seq<RemoteEntry>, allow_ahead: bool) -> bool {
    forall|i: int| 0 <= i < remotes.len() ==> spec_remote_ok(#[trigger] remotes[i].outcome, allow_ahead)
}

/// With zero remotes the remote side of the verdict is unconditionally
/// clean.
pub proof fn lemma_zero_remotes_clean(remotes: Seq<RemoteEntry>, allow_ahead: bool)
    requires
        remotes.len() == 0,
    ensures
        spec_remotes_clean(remotes, allow_ahead),
{
}

/// The aggregated verdict for one repository.
pub struct RepoCleanliness {
    pub files_clean: bool,
    pub remotes_clean: bool,
    pub unsafe_files: Vec<String>,
    pub ignored_files: Vec<String>,
    pub per_remote: Vec<RemoteEntry>,
}

impl RepoCleanliness {
    /// The one overall answer. The repository is clean when both the
    /// file side and the remote side are clean.
    pub fn is_clean(&self) -> (b: bool)
        ensures
            b == (self.files_clean && self.remotes_clean),
    {
        self.files_clean && self.remotes_clean
    }
}

/// Evaluates whether one remote outcome counts as clean.
pub fn remote_ok(outcome: &Result<SyncStatus, RemoteError>, allow_ahead: bool) -> (b: bool)
    ensures
        b == spec_remote_ok(*outcome, allow_ahead),
{
    match outcome {
        Ok(SyncStatus::UpToDate) => true,
        Ok(SyncStatus::LocalAhead) => allow_ahead,
        _ => false,
    }
}

/// Folds the file classification and the full set of per-remote outcomes
/// into one verdict. Pure and deterministic: the verdict is a function of
/// the inputs alone, and it is never computed from a partial remote set.
pub fn aggregate(
    files: FileClassification,
    per_remote: Vec<RemoteEntry>,
    allow_ahead: bool,
) -> (r: RepoCleanliness)
    ensures
        r.files_clean == (files.unsafe_files@.len() == 0),
        r.remotes_clean == spec_remotes_clean(per_remote@, allow_ahead),
        r.unsafe_files == files.unsafe_files,
        r.ignored_files == files.ignored_files,
        r.per_remote == per_remote,
{
    let files_clean = files.unsafe_files.len() == 0;
    let mut remotes_clean = true;
    let n = per_remote.len();
    for i in 0..n
        invariant
            n == per_remote@.len(),
            remotes_clean == spec_remotes_clean(per_remote@.take(i as int), allow_ahead),
    {
        let ok = remote_ok(&per_remote[i].outcome, allow_ahead);
        proof {
            assert(forall|j: int|
                0 <= j < i ==> per_remote@.take(i + 1)[j] == #[trigger] per_remote@.take(
                    i as int,
                )[j]);
            assert(per_remote@.take(i + 1)[i as int] == per_remote@[i as int]);
        }
        remotes_clean = remotes_clean && ok;
    }
    proof {
        assert(per_remote@.take(n as int) =~= per_remote@);
    }
    RepoCleanliness {
        files_clean,
        remotes_clean,
        unsafe_files: files.unsafe_files,
        ignored_files: files.ignored_files,
        per_remote,
    }
}

} // verus!
