use repo_sweeper::sync::{ancestry_status, classify_sync, commit_ids_equal, CommitId, SyncStatus};

fn id(bytes: &[u8]) -> CommitId {
    CommitId { bytes: bytes.to_vec() }
}

#[test]
fn commit_id_equality_is_bytewise() {
    assert!(commit_ids_equal(&id(&[1, 2, 3]), &id(&[1, 2, 3])));
    assert!(!commit_ids_equal(&id(&[1, 2, 3]), &id(&[1, 2, 4])));
    assert!(!commit_ids_equal(&id(&[1, 2]), &id(&[1, 2, 3])));
    assert!(commit_ids_equal(&id(&[]), &id(&[])));
}

#[test]
fn equal_tips_are_up_to_date_whatever_the_ancestry_answers() {
    let a = id(&[9; 20]);
    let b = id(&[9; 20]);
    assert_eq!(classify_sync(&a, &b, false, false), SyncStatus::UpToDate);
    assert_eq!(classify_sync(&a, &b, true, false), SyncStatus::UpToDate);
    assert_eq!(classify_sync(&a, &b, false, true), SyncStatus::UpToDate);
    assert_eq!(classify_sync(&a, &b, true, true), SyncStatus::UpToDate);
}

#[test]
fn strict_ancestry_gives_ahead_or_behind() {
    let local = id(&[1; 20]);
    let remote = id(&[2; 20]);
    assert_eq!(classify_sync(&local, &remote, true, false), SyncStatus::LocalAhead);
    assert_eq!(classify_sync(&local, &remote, false, true), SyncStatus::LocalBehind);
}

#[test]
fn both_directions_is_diverged_error() {
    let s = ancestry_status(true, true);
    match s {
        SyncStatus::Diverged { message } => {
            assert_eq!(message, "local commit is both ahead of and behind the remote");
        }
        other => panic!("expected Diverged, got {:?}", other),
    }
}

#[test]
fn neither_direction_is_unrelated_error() {
    let s = ancestry_status(false, false);
    match s {
        SyncStatus::Unrelated { message } => {
            assert_eq!(message, "local and remote histories share no ancestry");
        }
        other => panic!("expected Unrelated, got {:?}", other),
    }
}

#[test]
fn inconsistent_ancestry_never_gives_a_normal_outcome() {
    let local = id(&[1; 20]);
    let remote = id(&[2; 20]);
    for (ld, rd) in [(true, true), (false, false)] {
        let s = classify_sync(&local, &remote, ld, rd);
        assert!(!matches!(
            s,
            SyncStatus::UpToDate | SyncStatus::LocalAhead | SyncStatus::LocalBehind
        ));
    }
}
