//! Per-repository user preference.
//!
//! The preference is persisted by an external store and only consumed here.
//! The `LeaveAlone*` variants make the core skip destructive evaluation
//! entirely; the read-only variants suppress the remote-ahead check, since
//! push permission is assumed absent.

use vstd::prelude::*;

verus! {

/// The persisted per-repository preference.
#[derive(Clone, Copy, PartialEq, Eq, Structural, Debug)]
pub enum RepoPreference {
    ReadWrite,
    ReadOnly,
    LeaveAloneForNow,
    LeaveAloneForever,
    ContinueReadWriteForNow,
    ContinueReadOnlyForNow,
}

/// A malformed persisted preference value.
#[derive(Debug, PartialEq, Eq)]
pub struct PreferenceDecodeError {
    pub message: String,
}

/// Preferences that skip file and remote evaluation entirely.
pub open spec fn spec_is_leave_alone(p: RepoPreference) -> bool {
    p is LeaveAloneForNow || p is LeaveAloneForever
}

/// Preferences that suppress the remote-ahead check: with read-only access
/// there is no push permission, so local-only commits are not held against
/// the repository.
pub open spec fn spec_suppresses_ahead_check(p: RepoPreference) -> bool {
    p is ReadOnly || p is ContinueReadOnlyForNow
}

/// Whether this preference skips destructive evaluation entirely.
pub fn is_leave_alone(p: &RepoPreference) -> (b: bool)
    ensures
        b == spec_is_leave_alone(*p),
{
    match p {
        RepoPreference::LeaveAloneForNow => true,
        RepoPreference::LeaveAloneForever => true,
        _ => false,
    }
}

/// Whether this preference suppresses the remote-ahead check.
pub fn suppresses_ahead_check(p: &RepoPreference) -> (b: bool)
    ensures
        b == spec_suppresses_ahead_check(*p),
{
    match p {
        RepoPreference::ReadOnly => true,
        RepoPreference::ContinueReadOnlyForNow => true,
        _ => false,
    }
}

/// The canonical persisted token of a preference.
pub open spec fn spec_preference_token(p: RepoPreference) -> Seq<char> {
    match p {
        RepoPreference::ReadWrite => "ReadWrite"@,
        RepoPreference::ReadOnly => "ReadOnly"@,
        RepoPreference::LeaveAloneForNow => "LeaveAloneForNow"@,
        RepoPreference::LeaveAloneForever => "LeaveAloneForever"@,
        RepoPreference::ContinueReadWriteForNow => "ContinueReadWriteForNow"@,
        RepoPreference::ContinueReadOnlyForNow => "ContinueReadOnlyForNow"@,
    }
}

/// The decoding rule: a string decodes to the preference whose canonical
/// token it equals, and to nothing else.
pub open spec fn spec_parse_preference(s: Seq<char>) -> Option<RepoPreference> {
    if s == "ReadWrite"@ {
        Some(RepoPreference::ReadWrite)
    } else if s == "ReadOnly"@ {
        Some(RepoPreference::ReadOnly)
    } else if s == "LeaveAloneForNow"@ {
        Some(RepoPreference::LeaveAloneForNow)
    } else if s == "LeaveAloneForever"@ {
        Some(RepoPreference::LeaveAloneForever)
    } else if s == "ContinueReadWriteForNow"@ {
        Some(RepoPreference::ContinueReadWriteForNow)
    } else if s == "ContinueReadOnlyForNow"@ {
        Some(RepoPreference::ContinueReadOnlyForNow)
    } else {
        None
    }
}

/// Decoding a canonical token gives back exactly the preference it renders:
/// the persisted format round-trips.
pub proof fn lemma_preference_round_trip(p: RepoPreference)
    ensures
        spec_parse_preference(spec_preference_token(p)) == Some(p),
{
    reveal_strlit("ReadWrite");
    reveal_strlit("ReadOnly");
    reveal_strlit("LeaveAloneForNow");
    reveal_strlit("LeaveAloneForever");
    reveal_strlit("ContinueReadWriteForNow");
    reveal_strlit("ContinueReadOnlyForNow");
    assert("ReadWrite"@.len() == 9);
    assert("ReadOnly"@.len() == 8);
    assert("LeaveAloneForNow"@.len() == 16);
    assert("LeaveAloneForever"@.len() == 17);
    assert("ContinueReadWriteForNow"@.len() == 23);
    assert("ContinueReadOnlyForNow"@.len() == 22);
}

/// Renders the canonical persisted token of a preference.
pub fn render_preference(p: &RepoPreference) -> (r: String)
    ensures
        r@ == spec_preference_token(*p),
{
    match p {
        RepoPreference::ReadWrite => String::from_str("ReadWrite"),
        RepoPreference::ReadOnly => String::from_str("ReadOnly"),
        RepoPreference::LeaveAloneForNow => String::from_str("LeaveAloneForNow"),
        RepoPreference::LeaveAloneForever => String::from_str("LeaveAloneForever"),
        RepoPreference::ContinueReadWriteForNow => String::from_str("ContinueReadWriteForNow"),
        RepoPreference::ContinueReadOnlyForNow => String::from_str("ContinueReadOnlyForNow"),
    }
}

/// Decodes a persisted preference value. Returns the preference whose
/// canonical token the input equals, and an error naming the input on
/// anything else.
pub fn parse_preference(s: &String) -> (r: Result<RepoPreference, PreferenceDecodeError>)
    ensures
        match spec_parse_preference(s@) {
            Some(p) => r == Ok::<RepoPreference, PreferenceDecodeError>(p),
            None => r matches Err(e) && e.message@ == "unrecognized repository preference: "@
                + s@,
        },
{
    if *s == String::from_str("ReadWrite") {
        Ok(RepoPreference::ReadWrite)
    } else if *s == String::from_str("ReadOnly") {
        Ok(RepoPreference::ReadOnly)
    } else if *s == String::from_str("LeaveAloneForNow") {
        Ok(RepoPreference::LeaveAloneForNow)
    } else if *s == String::from_str("LeaveAloneForever") {
        Ok(RepoPreference::LeaveAloneForever)
    } else if *s == String::from_str("ContinueReadWriteForNow") {
        Ok(RepoPreference::ContinueReadWriteForNow)
    } else if *s == String::from_str("ContinueReadOnlyForNow") {
        Ok(RepoPreference::ContinueReadOnlyForNow)
    } else {
        let mut message = String::from_str("unrecognized repository preference: ");
        message.append(s.as_str());
        Err(PreferenceDecodeError { message })
    }
}

} // verus!
