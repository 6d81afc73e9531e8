//! Per-file status classification.
//!
//! A snapshot of raw per-file status flags is partitioned into three
//! disjoint, exhaustive categories: `Ignored`, `UnsafeTracked`, `Clean`.
//! An entry is `Ignored` when its ignored flag is set; otherwise it is
//! `UnsafeTracked` when any of the tracked-change flags is set; otherwise it
//! is `Clean`. The working copy is clean exactly when no entry is
//! `UnsafeTracked`; ignored entries are reported separately because the
//! eventual delete destroys them too and the user must see them first.
//!
//! Policy choice: the ignored flag wins unconditionally, so a path that is
//! ignored and at the same time staged or conflicted is reported as
//! ignored, not as unsafe. The separately reported ignored list keeps such
//! paths visible before any destructive action.

use vstd::prelude::*;

verus! {

/// Raw status flags of one file, an immutable snapshot taken once per
/// evaluation pass.
#[derive(Clone, Copy, PartialEq, Eq, Structural, Debug)]
pub struct FileStatusFlags {
    pub new_in_worktree: bool,
    pub modified_in_worktree: bool,
    pub new_in_index: bool,
    pub modified_in_index: bool,
    pub conflicted: bool,
    pub ignored: bool,
}

/// One file of the snapshot: its path and its raw flags.
pub struct FileStatusEntry {
    pub path: String,
    pub flags: FileStatusFlags,
}

/// The derived category of one entry. Exactly one per entry.
#[derive(Clone, Copy, PartialEq, Eq, Structural, Debug)]
pub enum StatusCategory {
    Ignored,
    UnsafeTracked,
    Clean,
}

/// A flag combination that makes an entry unsafe to discard: some change is
/// tracked in the worktree or the index, or the file is conflicted.
pub open spec fn spec_unsafe_flag(f: FileStatusFlags) -> bool {
    ||| f.new_in_worktree
    ||| f.modified_in_worktree
    ||| f.new_in_index
    ||| f.modified_in_index
    ||| f.conflicted
}

/// The classification rule: the ignored flag wins; otherwise any unsafe flag
/// makes the entry `UnsafeTracked`; otherwise it is `Clean`.
pub open spec fn spec_category(f: FileStatusFlags) -> StatusCategory {
    if f.ignored {
        StatusCategory::Ignored
    } else if spec_unsafe_flag(f) {
        StatusCategory::UnsafeTracked
    } else {
        StatusCategory::Clean
    }
}

/// The paths of the entries of one category, in snapshot order.
pub open spec fn category_paths(entries: Seq<FileStatusEntry>, c: StatusCategory) -> Seq<Seq<char>>
    decreases entries.len(),
{
    if entries.len() == 0 {
        Seq::empty()
    } else {
        let rest = category_paths(entries.drop_last(), c);
        if spec_category(entries.last().flags) == c {
            rest.push(entries.last().path@)
        } else {
            rest
        }
    }
}

/// The snapshot is clean when no entry is classified `UnsafeTracked`.
pub open spec fn spec_files_clean(entries: Seq<FileStatusEntry>) -> bool {
    category_paths(entries, StatusCategory::UnsafeTracked).len() == 0
}

/// Classification is exhaustive and exclusive: every flag combination falls
/// in exactly one of the three categories.
pub proof fn lemma_classification_exact(f: FileStatusFlags)
    ensures
        spec_category(f) is Ignored || spec_category(f) is UnsafeTracked || spec_category(f)
            is Clean,
        spec_category(f) is Ignored <==> f.ignored,
        spec_category(f) is UnsafeTracked <==> !f.ignored && spec_unsafe_flag(f),
        spec_category(f) is Clean <==> !f.ignored && !spec_unsafe_flag(f),
{
}

/// The three category sets partition the snapshot: no entry is omitted and
/// none is counted twice, so the three lengths sum to the snapshot length.
pub proof fn lemma_categories_partition(entries: Seq<FileStatusEntry>)
    ensures
        category_paths(entries, StatusCategory::Ignored).len() + category_paths(
            entries,
            StatusCategory::UnsafeTracked,
        ).len() + category_paths(entries, StatusCategory::Clean).len() == entries.len(),
    decreases entries.len(),
{
    if entries.len() > 0 {
        lemma_categories_partition(entries.drop_last());
    }
}

/// Evaluates the classification rule on one entry's flags.
pub fn classify_entry(f: &FileStatusFlags) -> (c: StatusCategory)
    ensures
        c == spec_category(*f),
{
    if f.ignored {
        StatusCategory::Ignored
    } else if f.new_in_worktree || f.modified_in_worktree || f.new_in_index || f.modified_in_index
        || f.conflicted {
        StatusCategory::UnsafeTracked
    } else {
        StatusCategory::Clean
    }
}

/// The outcome of classifying a whole snapshot: the paths of each category,
/// each in snapshot order.
pub struct FileClassification {
    pub unsafe_files: Vec<String>,
    pub ignored_files: Vec<String>,
    pub clean_files: Vec<String>,
}

impl FileClassification {
    /// The classification agrees with the rule applied to `entries`.
    pub open spec fn matches(self, entries: Seq<FileStatusEntry>) -> bool {
        &&& self.unsafe_files@.map_values(|p: String| p@) == category_paths(
            entries,
            StatusCategory::UnsafeTracked,
        )
        &&& self.ignored_files@.map_values(|p: String| p@) == category_paths(
            entries,
            StatusCategory::Ignored,
        )
        &&& self.clean_files@.map_values(|p: String| p@) == category_paths(
            entries,
            StatusCategory::Clean,
        )
    }

    /// The working copy is clean exactly when no entry was `UnsafeTracked`.
    pub fn files_clean(&self) -> (b: bool)
        ensures
            b == (self.unsafe_files@.len() == 0),
    {
        self.unsafe_files.len() == 0
    }
}

/// Partitions a snapshot into the three category path lists.
pub fn classify_entries(entries: &Vec<FileStatusEntry>) -> (r: FileClassification)
    ensures
        r.matches(entries@),
{
    let mut unsafe_files: Vec<String> = Vec::new();
    let mut ignored_files: Vec<String> = Vec::new();
    let mut clean_files: Vec<String> = Vec::new();
    let n = entries.len();
    for i in 0..n
        invariant
            n == entries@.len(),
            unsafe_files@.map_values(|p: String| p@) == category_paths(
                entries@.take(i as int),
                StatusCategory::UnsafeTracked,
            ),
            ignored_files@.map_values(|p: String| p@) == category_paths(
                entries@.take(i as int),
                StatusCategory::Ignored,
            ),
            clean_files@.map_values(|p: String| p@) == category_paths(
                entries@.take(i as int),
                StatusCategory::Clean,
            ),
    {
        let path = entries[i].path.clone();
        proof {
            assert(entries@.take(i + 1).drop_last() =~= entries@.take(i as int));
            assert(entries@.take(i + 1).last() == entries@[i as int]);
        }
        match classify_entry(&entries[i].flags) {
            StatusCategory::Ignored => {
                ignored_files.push(path);
            },
            StatusCategory::UnsafeTracked => {
                unsafe_files.push(path);
            },
            StatusCategory::Clean => {
                clean_files.push(path);
            },
        }
        proof {
            assert(unsafe_files@.map_values(|p: String| p@) =~= category_paths(
                entries@.take(i + 1),
                StatusCategory::UnsafeTracked,
            ));
            assert(ignored_files@.map_values(|p: String| p@) =~= category_paths(
                entries@.take(i + 1),
                StatusCategory::Ignored,
            ));
            assert(clean_files@.map_values(|p: String| p@) =~= category_paths(
                entries@.take(i + 1),
                StatusCategory::Clean,
            ));
        }
    }
    proof {
        assert(entries@.take(n as int) =~= entries@);
    }
    FileClassification { unsafe_files, ignored_files, clean_files }
}

} // verus!
