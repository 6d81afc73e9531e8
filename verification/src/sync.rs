//! Per-remote synchronization analysis.
//!
//! Given the local branch tip and the remote default-branch tip, the
//! decision procedure is: equal identifiers mean `UpToDate` with no ancestry
//! walk at all; otherwise the commit graph is queried in both directions,
//! and exactly one of `LocalAhead`, `LocalBehind`, `Diverged`, `Unrelated`
//! results. `Diverged` and `Unrelated` are invariant violations, never
//! normal outcomes: they signal corrupted or rewritten history and are
//! always treated as "not clean".

use vstd::prelude::*;

verus! {

/// A commit identifier: the raw object-id bytes of a commit, compared only
/// for equality.
pub struct CommitId {
    pub bytes: Vec<u8>,
}

impl View for CommitId {
    type V = Seq<u8>;

    open spec fn view(&self) -> Seq<u8> {
        self.bytes@
    }
}

impl Clone for CommitId {
    fn clone(&self) -> (r: Self)
        ensures
            r@ == self@,
    {
        CommitId { bytes: self.bytes.clone() }
    }
}

/// The synchronization state of one remote. `Diverged`, `Unrelated` and
/// `ConnectionFailed` carry a human-readable message.
#[derive(Debug, PartialEq, Eq)]
pub enum SyncStatus {
    UpToDate,
    LocalAhead,
    LocalBehind,
    Diverged { message: String },
    Unrelated { message: String },
    ConnectionFailed { message: String },
}

/// The tag of a `SyncStatus`, with the message payloads stripped.
#[derive(Clone, Copy, PartialEq, Eq, Structural, Debug)]
pub enum SyncKind {
    UpToDate,
    LocalAhead,
    LocalBehind,
    Diverged,
    Unrelated,
    ConnectionFailed,
}

/// The tag of a status value.
pub open spec fn kind_of(s: SyncStatus) -> SyncKind {
    match s {
        SyncStatus::UpToDate => SyncKind::UpToDate,
        SyncStatus::LocalAhead => SyncKind::LocalAhead,
        SyncStatus::LocalBehind => SyncKind::LocalBehind,
        SyncStatus::Diverged { .. } => SyncKind::Diverged,
        SyncStatus::Unrelated { .. } => SyncKind::Unrelated,
        SyncStatus::ConnectionFailed { .. } => SyncKind::ConnectionFailed,
    }
}

/// The decision procedure over the two tips and the two ancestry answers:
/// `local_desc` says whether the local tip is a descendant of the remote
/// tip, `remote_desc` the converse. Equal tips short-circuit to `UpToDate`
/// whatever the ancestry answers would be.
pub open spec fn spec_sync_decision(
    local: Seq<u8>,
    remote: Seq<u8>,
    local_desc: bool,
    remote_desc: bool,
) -> SyncKind {
    if local == remote {
        SyncKind::UpToDate
    } else if local_desc && !remote_desc {
        SyncKind::LocalAhead
    } else if !local_desc && remote_desc {
        SyncKind::LocalBehind
    } else if local_desc && remote_desc {
        SyncKind::Diverged
    } else {
        SyncKind::Unrelated
    }
}

/// Equal tips always resolve to `UpToDate`: the decision does not depend on
/// the ancestry answers, so no ancestry walk is needed at all.
pub proof fn lemma_equal_tips_up_to_date(
    local: Seq<u8>,
    remote: Seq<u8>,
    local_desc: bool,
    remote_desc: bool,
)
    requires
        local == remote,
    ensures
        spec_sync_decision(local, remote, local_desc, remote_desc) == SyncKind::UpToDate,
{
}

/// With unequal tips, a strict ancestor relation in exactly one direction
/// gives the corresponding normal outcome: local tip a strict ancestor of
/// the remote tip means `LocalBehind`, the converse means `LocalAhead`.
pub proof fn lemma_strict_ancestor(
    local: Seq<u8>,
    remote: Seq<u8>,
    local_desc: bool,
    remote_desc: bool,
)
    requires
        local != remote,
    ensures
        !local_desc && remote_desc ==> spec_sync_decision(local, remote, local_desc, remote_desc)
            == SyncKind::LocalBehind,
        local_desc && !remote_desc ==> spec_sync_decision(local, remote, local_desc, remote_desc)
            == SyncKind::LocalAhead,
{
}

/// With unequal tips, a both-directions or neither-direction ancestry
/// answer never produces a normal outcome: the decision is always one of
/// the error variants `Diverged` or `Unrelated`.
pub proof fn lemma_inconsistent_ancestry_is_error(
    local: Seq<u8>,
    remote: Seq<u8>,
    local_desc: bool,
    remote_desc: bool,
)
    requires
        local != remote,
        local_desc == remote_desc,
    ensures
        local_desc ==> spec_sync_decision(local, remote, local_desc, remote_desc)
            == SyncKind::Diverged,
        !local_desc ==> spec_sync_decision(local, remote, local_desc, remote_desc)
            == SyncKind::Unrelated,
        spec_sync_decision(local, remote, local_desc, remote_desc) != SyncKind::UpToDate,
        spec_sync_decision(local, remote, local_desc, remote_desc) != SyncKind::LocalAhead,
        spec_sync_decision(local, remote, local_desc, remote_desc) != SyncKind::LocalBehind,
{
}

/// Byte-for-byte equality of two commit identifiers.
pub fn commit_ids_equal(a: &CommitId, b: &CommitId) -> (r: bool)
    ensures
        r == (a@ == b@),
{
    if a.bytes.len() != b.bytes.len() {
        return false;
    }
    let n = a.bytes.len();
    for i in 0..n
        invariant
            n == a@.len(),
            n == b@.len(),
            forall|j: int| 0 <= j < i ==> a@[j] == b@[j],
    {
        if a.bytes[i] != b.bytes[i] {
            return false;
        }
    }
    proof {
        assert(a@ =~= b@);
    }
    true
}

/// Maps the two ancestry answers for unequal tips to their status, with the
/// diagnostic message of each error variant pinned down.
pub fn ancestry_status(local_desc: bool, remote_desc: bool) -> (s: SyncStatus)
    ensures
        local_desc && !remote_desc ==> s == SyncStatus::LocalAhead,
        !local_desc && remote_desc ==> s == SyncStatus::LocalBehind,
        local_desc && remote_desc ==> (s matches SyncStatus::Diverged { message } && message@
            == "local commit is both ahead of and behind the remote"@),
        !local_desc && !remote_desc ==> (s matches SyncStatus::Unrelated { message } && message@
            == "local and remote histories share no ancestry"@),
{
    match (local_desc, remote_desc) {
        (true, false) => SyncStatus::LocalAhead,
        (false, true) => SyncStatus::LocalBehind,
        (true, true) => SyncStatus::Diverged {
            message: String::from_str("local commit is both ahead of and behind the remote"),
        },
        (false, false) => SyncStatus::Unrelated {
            message: String::from_str("local and remote histories share no ancestry"),
        },
    }
}

/// Resolves the full decision procedure on plain values: the two tips and
/// the two ancestry answers. The answers are ignored when the tips are
/// equal.
pub fn classify_sync(
    local: &CommitId,
    remote: &CommitId,
    local_desc: bool,
    remote_desc: bool,
) -> (s: SyncStatus)
    ensures
        kind_of(s) == spec_sync_decision(local@, remote@, local_desc, remote_desc),
{
    if commit_ids_equal(local, remote) {
        SyncStatus::UpToDate
    } else {
        ancestry_status(local_desc, remote_desc)
    }
}

} // verus!
