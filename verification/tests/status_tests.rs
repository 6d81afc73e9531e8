use repo_sweeper::git_ops::{is_local_dirty, FileEvaluation};
use repo_sweeper::status::{
    classify_entries, classify_entry, FileStatusEntry, FileStatusFlags, StatusCategory,
};

fn flags(
    new_wt: bool,
    mod_wt: bool,
    new_idx: bool,
    mod_idx: bool,
    conflicted: bool,
    ignored: bool,
) -> FileStatusFlags {
    FileStatusFlags {
        new_in_worktree: new_wt,
        modified_in_worktree: mod_wt,
        new_in_index: new_idx,
        modified_in_index: mod_idx,
        conflicted,
        ignored,
    }
}

fn entry(path: &str, f: FileStatusFlags) -> FileStatusEntry {
    FileStatusEntry { path: path.to_string(), flags: f }
}

#[test]
fn clean_entry_has_no_flags() {
    assert_eq!(
        classify_entry(&flags(false, false, false, false, false, false)),
        StatusCategory::Clean
    );
}

#[test]
fn each_unsafe_flag_alone_is_unsafe() {
    assert_eq!(
        classify_entry(&flags(true, false, false, false, false, false)),
        StatusCategory::UnsafeTracked
    );
    assert_eq!(
        classify_entry(&flags(false, true, false, false, false, false)),
        StatusCategory::UnsafeTracked
    );
    assert_eq!(
        classify_entry(&flags(false, false, true, false, false, false)),
        StatusCategory::UnsafeTracked
    );
    assert_eq!(
        classify_entry(&flags(false, false, false, true, false, false)),
        StatusCategory::UnsafeTracked
    );
    assert_eq!(
        classify_entry(&flags(false, false, false, false, true, false)),
        StatusCategory::UnsafeTracked
    );
}

#[test]
fn ignored_flag_wins_over_unsafe_flags() {
    assert_eq!(
        classify_entry(&flags(true, true, true, true, true, true)),
        StatusCategory::Ignored
    );
    assert_eq!(
        classify_entry(&flags(false, false, false, false, false, true)),
        StatusCategory::Ignored
    );
}

#[test]
fn classification_partitions_snapshot() {
    let entries = vec![
        entry("a.txt", flags(true, false, false, false, false, false)),
        entry("b.txt", flags(false, false, false, false, false, true)),
        entry("c.txt", flags(false, false, false, false, false, false)),
        entry("d.txt", flags(false, false, false, true, false, false)),
    ];
    let c = classify_entries(&entries);
    assert_eq!(c.unsafe_files, vec!["a.txt".to_string(), "d.txt".to_string()]);
    assert_eq!(c.ignored_files, vec!["b.txt".to_string()]);
    assert_eq!(c.clean_files, vec!["c.txt".to_string()]);
    assert_eq!(
        c.unsafe_files.len() + c.ignored_files.len() + c.clean_files.len(),
        entries.len()
    );
}

#[test]
fn empty_snapshot_is_clean() {
    let entries: Vec<FileStatusEntry> = Vec::new();
    let c = classify_entries(&entries);
    assert!(c.files_clean());
    assert!(c.unsafe_files.is_empty());
    assert!(c.ignored_files.is_empty());
    assert!(c.clean_files.is_empty());
}

#[test]
fn files_clean_iff_no_unsafe_entry() {
    let dirty = classify_entries(&vec![entry(
        "x",
        flags(false, true, false, false, false, false),
    )]);
    assert!(!dirty.files_clean());
    let only_ignored = classify_entries(&vec![entry(
        "y",
        flags(false, false, false, false, false, true),
    )]);
    assert!(only_ignored.files_clean());
}

#[test]
fn dirty_check_is_true_iff_some_entry_is_unsafe_tracked() {
    let dirty_entries = vec![
        entry("a.txt", flags(false, false, false, true, false, false)),
        entry("b.txt", flags(false, false, false, false, false, true)),
    ];
    let dirty_eval = FileEvaluation {
        classification: classify_entries(&dirty_entries),
        entries: dirty_entries,
    };
    assert!(is_local_dirty(&dirty_eval));

    let tame_entries = vec![
        entry("b.txt", flags(false, false, false, false, false, true)),
        entry("c.txt", flags(false, false, false, false, false, false)),
    ];
    let tame_eval = FileEvaluation {
        classification: classify_entries(&tame_entries),
        entries: tame_entries,
    };
    assert!(!is_local_dirty(&tame_eval));
}
