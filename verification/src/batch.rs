//! Batch coordination of destructive decisions.
//!
//! Repositories are evaluated independently — each evaluation touches no
//! shared state — and the destructive phase is serialized afterwards. This
//! crate supports the evaluate-then-batch-confirm deployment: all verdicts
//! are produced first, then a single multi-select confirmation offers only
//! the clean repositories for deletion in one pass; not-clean repositories
//! are excluded from the offer and reported only. The per-repository
//! convergence machine serves sequential-interactive deployments the same
//! way: its terminal state maps to exactly one decision.

use vstd::prelude::*;

use crate::controller::{spec_is_terminal, ControllerState};

verus! {

/// The one destructive-boundary decision for a repository. The caller
/// performs the recoverable move-to-trash for `Delete`; `Skip` keeps the
/// repository.
pub enum Decision {
    Delete { path: String },
    Skip { path: String },
}

/// One repository's verdict, as the batch coordinator sees it.
pub struct Verdict {
    pub path: String,
    pub clean: bool,
}

/// The paths of the verdicts with the given cleanliness, in order.
pub open spec fn spec_verdict_paths(verdicts: Seq<Verdict>, clean: bool) -> Seq<Seq<char>>
    decreases verdicts.len(),
{
    if verdicts.len() == 0 {
        Seq::empty()
    } else {
        let rest = spec_verdict_paths(verdicts.drop_last(), clean);
        if verdicts.last().clean == clean {
            rest.push(verdicts.last().path@)
        } else {
            rest
        }
    }
}

/// Splits the verdicts into the clean repositories — the only ones the
/// batch-delete offer may contain — and the not-clean ones, which are
/// reported only.
pub fn partition_verdicts(verdicts: Vec<Verdict>) -> (r: (Vec<String>, Vec<String>))
    ensures
        r.0@.map_values(|p: String| p@) == spec_verdict_paths(verdicts@, true),
        r.1@.map_values(|p: String| p@) == spec_verdict_paths(verdicts@, false),
{
    let ghost all = verdicts@;
    let mut clean: Vec<String> = Vec::new();
    let mut not_clean: Vec<String> = Vec::new();
    for v in it: verdicts
        invariant
            it.seq() == all,
            clean@.map_values(|p: String| p@) == spec_verdict_paths(
                all.take(it.index() as int),
                true,
            ),
            not_clean@.map_values(|p: String| p@) == spec_verdict_paths(
                all.take(it.index() as int),
                false,
            ),
    {
        proof {
            assert(all.take(it.index() + 1).drop_last() =~= all.take(it.index() as int));
            assert(all.take(it.index() + 1).last() == all[it.index() as int]);
        }
        let ghost prior_clean = clean@;
        let ghost prior_not = not_clean@;
        let ghost path_view = v.path@;
        if v.clean {
            clean.push(v.path);
            proof {
                assert(clean@.map_values(|p: String| p@) =~= prior_clean.map_values(
                    |p: String| p@,
                ).push(path_view));
            }
        } else {
            not_clean.push(v.path);
            proof {
                assert(not_clean@.map_values(|p: String| p@) =~= prior_not.map_values(
                    |p: String| p@,
                ).push(path_view));
            }
        }
        proof {
            assert(clean@.map_values(|p: String| p@) =~= spec_verdict_paths(
                all.take(it.index() + 1),
                true,
            ));
            assert(not_clean@.map_values(|p: String| p@) =~= spec_verdict_paths(
                all.take(it.index() + 1),
                false,
            ));
        }
    }
    proof {
        assert(all.take(all.len() as int) =~= all);
    }
    (clean, not_clean)
}

/// Turns the multi-select answer over the clean repositories into one
/// decision per repository: exactly the selected ones are deleted, every
/// other one is kept.
pub fn batch_decisions(clean_paths: Vec<String>, selected: &Vec<bool>) -> (r: Vec<Decision>)
    requires
        clean_paths@.len() == selected@.len(),
    ensures
        r@.len() == clean_paths@.len(),
        forall|i: int|
            0 <= i < r@.len() ==> if selected@[i] {
                #[trigger] r@[i] matches Decision::Delete { path } && path@ == clean_paths@[i]@
            } else {
                r@[i] matches Decision::Skip { path } && path@ == clean_paths@[i]@
            },
{
    let ghost all = clean_paths@;
    let mut r: Vec<Decision> = Vec::new();
    let mut i: usize = 0;
    let n = clean_paths.len();
    for d in it: clean_paths
        invariant
            it.seq() == all,
            all.len() == selected@.len(),
            n == all.len(),
            i == it.index(),
            i <= n,
            r@.len() == i,
            forall|j: int|
                0 <= j < i ==> if selected@[j] {
                    #[trigger] r@[j] matches Decision::Delete { path } && path@ == all[j]@
                } else {
                    r@[j] matches Decision::Skip { path } && path@ == all[j]@
                },
    {
        if selected[i] {
            r.push(Decision::Delete { path: d });
        } else {
            r.push(Decision::Skip { path: d });
        }
        i = i + 1;
    }
    r
}

/// Maps a terminal controller state to the one decision the caller gets:
/// a delete terminal deletes, a skip terminal keeps, and a clean terminal
/// follows the caller's confirmation answer.
pub fn decision_from_terminal(path: String, state: &ControllerState, clean_confirmed: bool) -> (r:
    Decision)
    requires
        spec_is_terminal(*state),
    ensures
        *state == ControllerState::TerminalDelete ==> (r matches Decision::Delete { path: p }
            && p@ == path@),
        *state == ControllerState::TerminalSkip ==> (r matches Decision::Skip { path: p } && p@
            == path@),
        *state == ControllerState::TerminalClean && clean_confirmed ==> (r
            matches Decision::Delete { path: p } && p@ == path@),
        *state == ControllerState::TerminalClean && !clean_confirmed ==> (r
            matches Decision::Skip { path: p } && p@ == path@),
{
    match state {
        ControllerState::TerminalDelete => Decision::Delete { path },
        ControllerState::TerminalSkip => Decision::Skip { path },
        _ => if clean_confirmed {
            Decision::Delete { path }
        } else {
            Decision::Skip { path }
        },
    }
}

} // verus!
