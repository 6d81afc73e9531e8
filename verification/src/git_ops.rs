//! The boundary to the version-control library.
//!
//! Everything this module reads — status flags, reference targets,
//! ancestry answers — depends on what is on disk, so the trusted wrappers
//! promise nothing about the values that come back; each caller hands the
//! outcome to a verified function whose contract is exact for every value
//! of it: `classify_entries` for the snapshot, `classify_sync` for the
//! tips, and each result is returned beside the evidence it was decided
//! from. Connecting to a remote and fetching are network work and stay
//! with the caller; this module only performs the local queries.

use vstd::prelude::*;

use crate::cleanliness::RemoteError;
use crate::status::{
    classify_entries, spec_files_clean, FileClassification, FileStatusEntry, FileStatusFlags,
};
use crate::sync::{
    classify_sync, commit_ids_equal, kind_of, spec_sync_decision, CommitId, SyncStatus,
};

verus! {

#[verifier::external_type_specification]
#[verifier::external_body]
pub struct ExRepository(git2::Repository);

#[verifier::external_type_specification]
#[verifier::external_body]
pub struct ExGitError(git2::Error);

/// A failed local repository operation, with its diagnostic message.
#[derive(Debug)]
pub struct GitOpError {
    pub message: String,
}

/// Builds one snapshot entry from a path and its raw flag bits.
fn entry_from_flags(
    path: String,
    ignored: bool,
    new_in_worktree: bool,
    modified_in_worktree: bool,
    new_in_index: bool,
    modified_in_index: bool,
    conflicted: bool,
) -> (r: FileStatusEntry)
    ensures
        r.path == path,
        r.flags == (FileStatusFlags {
            new_in_worktree,
            modified_in_worktree,
            new_in_index,
            modified_in_index,
            conflicted,
            ignored,
        }),
{
    FileStatusEntry {
        path,
        flags: FileStatusFlags {
            new_in_worktree,
            modified_in_worktree,
            new_in_index,
            modified_in_index,
            conflicted,
            ignored,
        },
    }
}

/// Relies on git2::Repository::statuses and the git2::Status flag
/// accessors: takes the per-file status snapshot of the working copy. What
/// comes back depends on the state of the directory, so nothing is promised
/// of it.
#[verifier::external_body]
fn snapshot_statuses(repo: &git2::Repository) -> (r: Result<Vec<FileStatusEntry>, git2::Error>) {
    match repo.statuses(None) {
        Ok(sts) => Ok(sts.iter().map(|e| {
            let s = e.status();
            entry_from_flags(String::from_utf8_lossy(e.path_bytes()).into_owned(),
                s.is_ignored(), s.is_wt_new(), s.is_wt_modified(),
                s.is_index_new(), s.is_index_modified(), s.is_conflicted())
        }).collect()),
        Err(e) => Err(e),
    }
}

/// Relies on git2::Repository::refname_to_id: resolves a reference name to
/// the object id it points at, whose raw bytes come back.
#[verifier::external_body]
fn refname_to_commit(repo: &git2::Repository, refname: &str) -> (r: Result<CommitId, git2::Error>) {
    match repo.refname_to_id(refname) {
        Ok(oid) => Ok(CommitId { bytes: oid.as_bytes().to_vec() }),
        Err(e) => Err(e),
    }
}

/// Relies on git2::Repository::graph_descendant_of: asks the commit graph
/// whether `commit` is a strict descendant of `ancestor`. The answer
/// depends on the repository's object database, so nothing is promised of
/// it.
#[verifier::external_body]
fn graph_descendant(repo: &git2::Repository, commit: &CommitId, ancestor: &CommitId) -> (r: Result<
    bool,
    git2::Error,
>) {
    match (git2::Oid::from_bytes(&commit.bytes), git2::Oid::from_bytes(&ancestor.bytes)) {
        (Ok(c), Ok(a)) => repo.graph_descendant_of(c, a),
        (Err(e), _) => Err(e),
        (_, Err(e)) => Err(e),
    }
}

/// Relies on git2::Error::message: copies out the diagnostic message.
#[verifier::external_body]
fn git_error_message(e: &git2::Error) -> (r: String) {
    e.message().to_string()
}

/// Relies on git2::Repository::remotes: lists the configured remote names;
/// a name that is not valid text, or absent, comes back as `None`.
#[verifier::external_body]
fn remote_name_list(repo: &git2::Repository) -> (r: Result<Vec<Option<String>>, git2::Error>) {
    match repo.remotes() {
        Ok(arr) => Ok(arr.iter().map(|o| match o {
            Ok(Some(s)) => Some(s.to_string()),
            _ => None,
        }).collect()),
        Err(e) => Err(e),
    }
}

/// Maps a failed operation to the library's error.
fn git_op_error(e: &git2::Error) -> GitOpError {
    GitOpError { message: git_error_message(e) }
}

/// The full file evaluation of one repository: the snapshot that was taken
/// and its classification.
pub struct FileEvaluation {
    pub entries: Vec<FileStatusEntry>,
    pub classification: FileClassification,
}

/// Takes the status snapshot of the working copy and classifies it. The
/// snapshot itself depends on the directory's state, but whatever snapshot
/// came back, the classification returned with it is exactly the
/// classification rule applied to that snapshot.
pub fn evaluate_files(repo: &git2::Repository) -> (r: Result<FileEvaluation, GitOpError>)
    ensures
        r matches Ok(ev) ==> ev.classification.matches(ev.entries@),
{
    match snapshot_statuses(repo) {
        Ok(entries) => {
            let classification = classify_entries(&entries);
            Ok(FileEvaluation { entries, classification })
        },
        Err(e) => Err(git_op_error(&e)),
    }
}

/// Whether the working copy is unsafe to discard: true exactly when some
/// entry of the snapshot is classified as an unsafe tracked change. The
/// evaluation comes from `evaluate_files`, whose contract establishes that
/// the classification matches the snapshot.
pub fn is_local_dirty(evaluation: &FileEvaluation) -> (dirty: bool)
    requires
        evaluation.classification.matches(evaluation.entries@),
    ensures
        dirty == !spec_files_clean(evaluation.entries@),
{
    proof {
        assert(evaluation.classification.unsafe_files@.map_values(|p: String| p@).len()
            == evaluation.classification.unsafe_files@.len());
    }
    evaluation.classification.unsafe_files.len() > 0
}

/// One remote's resolved synchronization state, together with the evidence
/// it was decided from: the resolved local tip and the two ancestry
/// answers. The status is exactly the decision procedure applied to that
/// evidence, so a caller can hold the status against the tips it handed in.
pub struct SyncResolution {
    pub local_tip: CommitId,
    pub local_desc: bool,
    pub remote_desc: bool,
    pub status: SyncStatus,
}

/// Resolves the synchronization state of one remote whose tip the caller
/// already fetched. The local branch is resolved; equal tips short-circuit
/// to `UpToDate` with no ancestry walk (the evidence then carries no
/// ancestry claims); unequal tips are decided by the two ancestry queries.
/// Whatever the repository held, the returned status is the verified
/// decision procedure applied to the returned evidence. This function
/// performs no connection, so every failure is a resolution error carrying
/// the underlying message, never a connection failure.
pub fn is_remote_up_to_date(
    repo: &git2::Repository,
    local_ref: &str,
    remote_head: &CommitId,
) -> (r: Result<SyncResolution, RemoteError>)
    ensures
        r matches Ok(res) ==> kind_of(res.status) == spec_sync_decision(
            res.local_tip@,
            remote_head@,
            res.local_desc,
            res.remote_desc,
        ),
        r matches Ok(res) ==> res.status !is ConnectionFailed,
        r matches Err(e) ==> e is RefResolution,
{
    let local_tip = match refname_to_commit(repo, local_ref) {
        Ok(id) => id,
        Err(e) => {
            return Err(RemoteError::RefResolution { message: git_error_message(&e) });
        },
    };
    let (local_desc, remote_desc): (bool, bool) = if commit_ids_equal(&local_tip, remote_head) {
        (false, false)
    } else {
        let ld = match graph_descendant(repo, &local_tip, remote_head) {
            Ok(b) => b,
            Err(e) => {
                return Err(RemoteError::RefResolution { message: git_error_message(&e) });
            },
        };
        let rd = match graph_descendant(repo, remote_head, &local_tip) {
            Ok(b) => b,
            Err(e) => {
                return Err(RemoteError::RefResolution { message: git_error_message(&e) });
            },
        };
        (ld, rd)
    };
    let status = classify_sync(&local_tip, remote_head, local_desc, remote_desc);
    Ok(SyncResolution { local_tip, local_desc, remote_desc, status })
}

/// Decodes a list of remote names: a readable name stays as it is, an
/// unreadable one becomes the per-remote name-decoding error.
pub fn decode_remote_names(names: Vec<Option<String>>) -> (r: Vec<Result<String, RemoteError>>)
    ensures
        r@.len() == names@.len(),
        forall|i: int|
            0 <= i < names@.len() ==> match names@[i] {
                Some(name) => #[trigger] r@[i] matches Ok(n) && n@ == name@,
                None => r@[i] matches Err(RemoteError::NameDecode { message }) && message@
                    == "remote name is not valid text"@,
            },
        forall|i: int|
            0 <= i < r@.len() ==> (#[trigger] r@[i] matches Err(e) ==> e is NameDecode),
{
    let ghost all = names@;
    let mut r: Vec<Result<String, RemoteError>> = Vec::new();
    let mut i: usize = 0;
    let n = names.len();
    for name in it: names
        invariant
            it.seq() == all,
            n == all.len(),
            i == it.index(),
            i <= n,
            r@.len() == i,
            forall|j: int|
                0 <= j < i ==> match all[j] {
                    Some(name) => #[trigger] r@[j] matches Ok(n) && n@ == name@,
                    None => r@[j] matches Err(RemoteError::NameDecode { message }) && message@
                        == "remote name is not valid text"@,
                },
    {
        match name {
            Some(n) => r.push(Ok(n)),
            None => r.push(
                Err(
                    RemoteError::NameDecode {
                        message: String::from_str("remote name is not valid text"),
                    },
                ),
            ),
        }
        i = i + 1;
    }
    proof {
        assert forall|j: int|
            0 <= j < r@.len() implies (#[trigger] r@[j] matches Err(e) ==> e is NameDecode) by {
            assert(all[j] is Some || all[j] is None);
        }
    }
    r
}

/// Lists the configured remotes of a repository: each readable name as a
/// success, each unreadable one as its own per-remote error. The only error
/// an entry of the list can carry is a name-decoding one.
pub fn get_all_remotes(repo: &git2::Repository) -> (r: Result<
    Vec<Result<String, RemoteError>>,
    GitOpError,
>)
    ensures
        r matches Ok(v) ==> forall|i: int|
            0 <= i < v@.len() ==> (#[trigger] v@[i] matches Err(e) ==> e is NameDecode),
{
    match remote_name_list(repo) {
        Ok(names) => Ok(decode_remote_names(names)),
        Err(e) => Err(git_op_error(&e)),
    }
}

} // verus!
