//! Human-readable reporting of verdicts.
//!
//! Each repository gets a single-line summary: a boolean-success marker
//! followed by a comma-joined list of reasons ("Dirty local index",
//! "Ahead of origin", "Error: ..."). The findings previews shown under it
//! come from the preview module.

use vstd::prelude::*;

use crate::cleanliness::{spec_remote_ok, RemoteEntry, RemoteError, RepoCleanliness};
use crate::sync::SyncStatus;

verus! {

/// The marker of one boolean outcome.
pub open spec fn spec_checkmark(b: bool) -> Seq<char> {
    if b {
        "\u{2705}"@
    } else {
        "\u{274c}"@
    }
}

/// The success or failure marker of one outcome.
pub fn bool_to_checkmark(b: bool) -> (r: &'static str)
    ensures
        r@ == spec_checkmark(b),
{
    if b {
        "\u{2705}"
    } else {
        "\u{274c}"
    }
}

/// The outcome a fallible check counts as: an error counts as failure.
pub open spec fn spec_result_bool(r: Result<bool, String>) -> bool {
    match r {
        Ok(b) => b,
        Err(_) => false,
    }
}

/// One line of a verbose check report: the marker, the item, and the error
/// message if the check failed with one.
pub open spec fn spec_check_line(item: Seq<char>, r: Result<bool, String>) -> Seq<char> {
    spec_checkmark(spec_result_bool(r)) + ": "@ + item + match r {
        Ok(_) => Seq::<char>::empty(),
        Err(e) => " - "@ + e@,
    }
}

/// Folds per-item check outcomes into one overall verdict and one report
/// line per item: the verdict holds exactly when every check returned
/// `Ok(true)`.
pub fn check_verbose(items: &Vec<String>, results: &Vec<Result<bool, String>>) -> (out: (
    bool,
    Vec<String>,
))
    requires
        items@.len() == results@.len(),
    ensures
        out.0 == (forall|i: int|
            0 <= i < results@.len() ==> spec_result_bool(#[trigger] results@[i])),
        out.1@.len() == items@.len(),
        forall|i: int|
            0 <= i < items@.len() ==> (#[trigger] out.1@[i])@ == spec_check_line(
                items@[i]@,
                results@[i],
            ),
{
    let mut all = true;
    let mut msgs: Vec<String> = Vec::new();
    let n = items.len();
    for i in 0..n
        invariant
            n == items@.len(),
            n == results@.len(),
            all == (forall|j: int|
                0 <= j < i ==> spec_result_bool(#[trigger] results@[j])),
            msgs@.len() == i,
            forall|j: int|
                0 <= j < i ==> (#[trigger] msgs@[j])@ == spec_check_line(
                    items@[j]@,
                    results@[j],
                ),
    {
        let result_bool = match &results[i] {
            Ok(b) => *b,
            Err(_) => false,
        };
        let mut line = String::from_str(bool_to_checkmark(result_bool));
        line.append(": ");
        line.append(items[i].as_str());
        if let Err(e) = &results[i] {
            line.append(" - ");
            line.append(e.as_str());
        }
        proof {
            assert(line@ =~= spec_check_line(items@[i as int]@, results@[i as int]));
        }
        msgs.push(line);
        all = all && result_bool;
    }
    (all, msgs)
}

/// The parts joined with ", " between them.
pub open spec fn spec_joined(parts: Seq<Seq<char>>) -> Seq<char>
    decreases parts.len(),
{
    if parts.len() == 0 {
        Seq::empty()
    } else if parts.len() == 1 {
        parts[0]
    } else {
        spec_joined(parts.drop_last()) + ", "@ + parts.last()
    }
}

/// Joins parts with ", ".
pub fn join_comma(parts: &Vec<String>) -> (r: String)
    ensures
        r@ == spec_joined(parts@.map_values(|p: String| p@)),
{
    let mut r = String::new();
    let n = parts.len();
    for i in 0..n
        invariant
            n == parts@.len(),
            r@ == spec_joined(parts@.take(i as int).map_values(|p: String| p@)),
    {
        if i > 0 {
            r.append(", ");
        }
        r.append(parts[i].as_str());
        proof {
            let mapped = parts@.take(i + 1).map_values(|p: String| p@);
            assert(mapped.drop_last() =~= parts@.take(i as int).map_values(|p: String| p@));
            assert(mapped.last() == parts@[i as int]@);
            assert(r@ =~= spec_joined(mapped));
        }
    }
    proof {
        assert(parts@.take(n as int) =~= parts@);
    }
    r
}

/// The reason one remote contributes to the summary, if any: nothing when
/// it counts as clean, the direction of the divergence when it resolved,
/// and the error message otherwise.
pub open spec fn spec_remote_reason(e: RemoteEntry, allow_ahead: bool) -> Option<Seq<char>> {
    if spec_remote_ok(e.outcome, allow_ahead) {
        None
    } else {
        match e.outcome {
            Ok(s) => match s {
                SyncStatus::UpToDate => None,
                SyncStatus::LocalAhead => Some("Ahead of "@ + e.name@),
                SyncStatus::LocalBehind => Some("Behind "@ + e.name@),
                SyncStatus::Diverged { message } => Some("Error: "@ + message@),
                SyncStatus::Unrelated { message } => Some("Error: "@ + message@),
                SyncStatus::ConnectionFailed { message } => Some("Error: "@ + message@),
            },
            Err(err) => match err {
                RemoteError::RefResolution { message } => Some("Error: "@ + message@),
                RemoteError::NameDecode { message } => Some("Error: "@ + message@),
            },
        }
    }
}

/// The remote reasons of a verdict, in remote order.
pub open spec fn spec_remote_reasons(entries: Seq<RemoteEntry>, allow_ahead: bool) -> Seq<
    Seq<char>,
>
    decreases entries.len(),
{
    if entries.len() == 0 {
        Seq::empty()
    } else {
        let rest = spec_remote_reasons(entries.drop_last(), allow_ahead);
        match spec_remote_reason(entries.last(), allow_ahead) {
            Some(reason) => rest.push(reason),
            None => rest,
        }
    }
}

/// All reasons of one repository's answer, with the dirty working copy
/// first and one reason per remote that is not clean.
pub open spec fn spec_reasons(c: RepoCleanliness, allow_ahead: bool) -> Seq<Seq<char>> {
    (if c.files_clean {
        Seq::<Seq<char>>::empty()
    } else {
        seq!["Dirty local index"@]
    }) + spec_remote_reasons(c.per_remote@, allow_ahead)
}

/// Renders the reason of one remote entry, if it contributes one.
fn remote_reason(e: &RemoteEntry, allow_ahead: bool) -> (r: Option<String>)
    ensures
        match spec_remote_reason(*e, allow_ahead) {
            Some(reason) => r matches Some(s) && s@ == reason,
            None => r is None,
        },
{
    match &e.outcome {
        Ok(SyncStatus::UpToDate) => None,
        Ok(SyncStatus::LocalAhead) => {
            if allow_ahead {
                None
            } else {
                let mut s = String::from_str("Ahead of ");
                s.append(e.name.as_str());
                Some(s)
            }
        },
        Ok(SyncStatus::LocalBehind) => {
            let mut s = String::from_str("Behind ");
            s.append(e.name.as_str());
            Some(s)
        },
        Ok(SyncStatus::Diverged { message }) => {
            let mut s = String::from_str("Error: ");
            s.append(message.as_str());
            Some(s)
        },
        Ok(SyncStatus::Unrelated { message }) => {
            let mut s = String::from_str("Error: ");
            s.append(message.as_str());
            Some(s)
        },
        Ok(SyncStatus::ConnectionFailed { message }) => {
            let mut s = String::from_str("Error: ");
            s.append(message.as_str());
            Some(s)
        },
        Err(RemoteError::RefResolution { message }) => {
            let mut s = String::from_str("Error: ");
            s.append(message.as_str());
            Some(s)
        },
        Err(RemoteError::NameDecode { message }) => {
            let mut s = String::from_str("Error: ");
            s.append(message.as_str());
            Some(s)
        },
    }
}

/// Collects the reasons of a verdict, in order.
pub fn cleanliness_reasons(c: &RepoCleanliness, allow_ahead: bool) -> (r: Vec<String>)
    ensures
        r@.map_values(|p: String| p@) == spec_reasons(*c, allow_ahead),
{
    let mut r: Vec<String> = Vec::new();
    if !c.files_clean {
        r.push(String::from_str("Dirty local index"));
    }
    let ghost head = r@.map_values(|p: String| p@);
    let n = c.per_remote.len();
    for i in 0..n
        invariant
            n == c.per_remote@.len(),
            head == if c.files_clean {
                Seq::<Seq<char>>::empty()
            } else {
                seq!["Dirty local index"@]
            },
            r@.map_values(|p: String| p@) =~= head + spec_remote_reasons(
                c.per_remote@.take(i as int),
                allow_ahead,
            ),
    {
        proof {
            assert(c.per_remote@.take(i + 1).drop_last() =~= c.per_remote@.take(i as int));
            assert(c.per_remote@.take(i + 1).last() == c.per_remote@[i as int]);
        }
        let ghost prior = r@;
        match remote_reason(&c.per_remote[i], allow_ahead) {
            Some(reason) => {
                let ghost reason_view = reason@;
                r.push(reason);
                proof {
                    assert(r@.map_values(|p: String| p@) =~= prior.map_values(
                        |p: String| p@,
                    ).push(reason_view));
                }
            },
            None => {},
        }
        proof {
            assert(r@.map_values(|p: String| p@) =~= head + spec_remote_reasons(
                c.per_remote@.take(i + 1),
                allow_ahead,
            ));
        }
    }
    proof {
        assert(c.per_remote@.take(n as int) =~= c.per_remote@);
        assert(r@.map_values(|p: String| p@) =~= spec_reasons(*c, allow_ahead));
    }
    r
}

/// The single-line summary of one repository, made of the marker, the
/// label, and the comma-joined reasons when there are any.
pub open spec fn spec_summary_line(
    clean: bool,
    label: Seq<char>,
    reasons: Seq<Seq<char>>,
) -> Seq<char> {
    spec_checkmark(clean) + " "@ + label + if reasons.len() == 0 {
        Seq::<char>::empty()
    } else {
        ": "@ + spec_joined(reasons)
    }
}

/// Renders the single-line summary of one verdict.
pub fn summary_line(c: &RepoCleanliness, label: &String, allow_ahead: bool) -> (r: String)
    ensures
        r@ == spec_summary_line(
            c.files_clean && c.remotes_clean,
            label@,
            spec_reasons(*c, allow_ahead),
        ),
{
    let clean = c.is_clean();
    let reasons = cleanliness_reasons(c, allow_ahead);
    let mut r = String::from_str(bool_to_checkmark(clean));
    r.append(" ");
    r.append(label.as_str());
    if reasons.len() > 0 {
        r.append(": ");
        let joined = join_comma(&reasons);
        r.append(joined.as_str());
    }
    proof {
        assert(r@ =~= spec_summary_line(
            c.files_clean && c.remotes_clean,
            label@,
            spec_reasons(*c, allow_ahead),
        ));
    }
    r
}

} // verus!
