//! The interactive convergence state machine.
//!
//! One repository is driven from an unknown state to a final delete or
//! keep decision. Each evaluation pass produces a verdict; a not-clean
//! verdict may lead to one external remediation round at most, after which
//! the repository is re-evaluated once more; the destructive action itself
//! is gated behind an escalating two-stage confirmation. Terminal states
//! are final: the controller never re-enters evaluation after one.
//!
//! The caller runs the loop: it performs the action returned by each step
//! (evaluate, prompt, run the external tool) and hands the outcome back as
//! the next event. A repository whose persisted preference says to leave
//! it alone starts out already terminal, so no file or remote evaluation
//! ever runs for it.

use vstd::prelude::*;

use crate::preference::{is_leave_alone, spec_is_leave_alone, RepoPreference};

verus! {

/// The states of the convergence machine.
#[derive(Clone, Copy, PartialEq, Eq, Structural, Debug)]
pub enum ControllerState {
    /// An evaluation pass is due.
    Evaluating,
    /// The verdict was not clean and one remediation round may be offered.
    AwaitingRemediation,
    /// The verdict was not clean; the first confirmation is due.
    AwaitingConfirmation,
    /// The first confirmation was accepted on a not-clean repository; the
    /// explicit "delete anyway" acknowledgement is due.
    AwaitingSecondConfirmation,
    /// The repository was found clean.
    TerminalClean,
    /// The repository is kept.
    TerminalSkip,
    /// The repository is to be deleted.
    TerminalDelete,
}

/// What happened since the last step: the outcome the caller hands back.
#[derive(Clone, Copy, PartialEq, Eq, Structural, Debug)]
pub enum ControllerEvent {
    /// An evaluation pass finished with this verdict; `remediation_available`
    /// says whether an external remediation tool could be offered.
    Evaluated { clean: bool, remediation_available: bool },
    /// The user declined the offered remediation round.
    RemediationDeclined,
    /// The user accepted remediation and the external tool ran once with
    /// this exit outcome. The outcome does not matter for the transition:
    /// either way the repository is re-evaluated.
    RemediationRan { tool_succeeded: bool },
    /// The user answered the first confirmation.
    FirstConfirmation { accepted: bool },
    /// The user answered the second, "delete anyway" confirmation.
    SecondConfirmation { accepted: bool },
}

/// What the caller must do next.
#[derive(Clone, Copy, PartialEq, Eq, Structural, Debug)]
pub enum ControllerAction {
    /// Run an evaluation pass and hand back `Evaluated`.
    Evaluate,
    /// Offer the one remediation round and hand back the answer.
    OfferRemediation,
    /// Ask "delete this repository?" and hand back the answer.
    AskFirstConfirmation,
    /// Ask "delete anyway?" and hand back the answer.
    AskSecondConfirmation,
    /// The repository was found clean; report it.
    ReportClean,
    /// Emit the keep decision for this repository.
    EmitSkip,
    /// Emit the delete decision for this repository.
    EmitDelete,
    /// Nothing: the machine is terminal or the event did not fit the state.
    NoAction,
}

/// Per-repository session state. Created when one repository's processing
/// starts, discarded at its terminal decision, never shared across
/// repositories.
pub struct ProcessingSession {
    pub path: String,
    pub iteration_count: u64,
    pub remediation_attempted: bool,
    pub state: ControllerState,
}

/// The terminal states, from which nothing moves.
pub open spec fn spec_is_terminal(s: ControllerState) -> bool {
    s is TerminalClean || s is TerminalSkip || s is TerminalDelete
}

/// The transition relation over the machine's state and the
/// remediation-attempted flag: the next state, the next flag, and the
/// action the caller must perform.
pub open spec fn spec_transition(
    state: ControllerState,
    attempted: bool,
    e: ControllerEvent,
) -> (ControllerState, bool, ControllerAction) {
    if spec_is_terminal(state) {
        (state, attempted, ControllerAction::NoAction)
    } else {
        match (state, e) {
            (
                ControllerState::Evaluating,
                ControllerEvent::Evaluated { clean, remediation_available },
            ) => if clean {
                (ControllerState::TerminalClean, attempted, ControllerAction::ReportClean)
            } else if remediation_available && !attempted {
                (
                    ControllerState::AwaitingRemediation,
                    attempted,
                    ControllerAction::OfferRemediation,
                )
            } else {
                (
                    ControllerState::AwaitingConfirmation,
                    attempted,
                    ControllerAction::AskFirstConfirmation,
                )
            },
            (ControllerState::AwaitingRemediation, ControllerEvent::RemediationDeclined) => (
                ControllerState::AwaitingConfirmation,
                true,
                ControllerAction::AskFirstConfirmation,
            ),
            (ControllerState::AwaitingRemediation, ControllerEvent::RemediationRan { .. }) => (
                ControllerState::Evaluating,
                true,
                ControllerAction::Evaluate,
            ),
            (ControllerState::AwaitingConfirmation, ControllerEvent::FirstConfirmation {
                accepted,
            }) => if accepted {
                (
                    ControllerState::AwaitingSecondConfirmation,
                    attempted,
                    ControllerAction::AskSecondConfirmation,
                )
            } else {
                (ControllerState::TerminalSkip, attempted, ControllerAction::EmitSkip)
            },
            (ControllerState::AwaitingSecondConfirmation, ControllerEvent::SecondConfirmation {
                accepted,
            }) => if accepted {
                (ControllerState::TerminalDelete, attempted, ControllerAction::EmitDelete)
            } else {
                (ControllerState::TerminalSkip, attempted, ControllerAction::EmitSkip)
            },
            _ => (state, attempted, ControllerAction::NoAction),
        }
    }
}

/// How the evaluation-pass counter advances: one per `Evaluated` event,
/// held at its ceiling rather than wrapping.
pub open spec fn spec_next_iterations(count: u64, e: ControllerEvent) -> u64 {
    if e is Evaluated && count < u64::MAX {
        (count + 1) as u64
    } else {
        count
    }
}

/// A session is consistent when it can still offer remediation only if it
/// never has: the machine is never awaiting remediation with the attempted
/// flag already set. `start_session` establishes this and `step` preserves
/// it, so it holds of every reachable session.
pub open spec fn spec_session_consistent(s: ProcessingSession) -> bool {
    s.state is AwaitingRemediation ==> !s.remediation_attempted
}

/// Terminal states are final: no event moves the machine out of one, and
/// no further action is requested.
pub proof fn lemma_terminal_is_final(state: ControllerState, attempted: bool, e: ControllerEvent)
    requires
        spec_is_terminal(state),
    ensures
        spec_transition(state, attempted, e).0 == state,
        spec_transition(state, attempted, e).1 == attempted,
        spec_transition(state, attempted, e).2 == ControllerAction::NoAction,
{
}

/// Remediation is offered at most once: once the attempted flag is set, no
/// transition offers remediation again or enters the remediation state,
/// and the flag never resets. This bounds the loop to one external-tool
/// round-trip per repository.
pub proof fn lemma_remediation_at_most_once(
    state: ControllerState,
    attempted: bool,
    e: ControllerEvent,
)
    requires
        attempted,
    ensures
        state != ControllerState::AwaitingRemediation ==> spec_transition(state, attempted, e).0
            != ControllerState::AwaitingRemediation,
        spec_transition(state, attempted, e).1,
        spec_transition(state, attempted, e).2 != ControllerAction::OfferRemediation,
{
}

/// Leaving the remediation state always sets the attempted flag, whatever
/// the answer and whatever the external tool's exit status.
pub proof fn lemma_remediation_marks_attempted(attempted: bool, e: ControllerEvent)
    requires
        e is RemediationDeclined || e is RemediationRan,
    ensures
        spec_transition(ControllerState::AwaitingRemediation, attempted, e).1,
{
}

/// The delete decision is gated behind the full escalating confirmation:
/// the only way into `TerminalDelete` is an accepted second confirmation
/// from the second-confirmation state, which itself is only reached by an
/// accepted first confirmation on a not-clean verdict.
pub proof fn lemma_delete_needs_second_confirmation(
    state: ControllerState,
    attempted: bool,
    e: ControllerEvent,
)
    requires
        state != ControllerState::TerminalDelete,
        spec_transition(state, attempted, e).0 == ControllerState::TerminalDelete,
    ensures
        state == ControllerState::AwaitingSecondConfirmation,
        e matches ControllerEvent::SecondConfirmation { accepted } && accepted,
{
}

/// The second-confirmation state is only reached by accepting the first
/// confirmation.
pub proof fn lemma_second_confirmation_needs_first(
    state: ControllerState,
    attempted: bool,
    e: ControllerEvent,
)
    requires
        state != ControllerState::AwaitingSecondConfirmation,
        spec_transition(state, attempted, e).0 == ControllerState::AwaitingSecondConfirmation,
    ensures
        state == ControllerState::AwaitingConfirmation,
        e matches ControllerEvent::FirstConfirmation { accepted } && accepted,
{
}

/// A clean verdict ends processing at once, and remediation is never
/// offered for it.
pub proof fn lemma_clean_verdict_is_terminal(
    attempted: bool,
    remediation_available: bool,
)
    ensures
        spec_transition(
            ControllerState::Evaluating,
            attempted,
            ControllerEvent::Evaluated { clean: true, remediation_available },
        ) == (ControllerState::TerminalClean, attempted, ControllerAction::ReportClean),
{
}

impl ProcessingSession {
    /// Whether processing has reached a final decision.
    pub fn is_terminal(&self) -> (b: bool)
        ensures
            b == spec_is_terminal(self.state),
    {
        match self.state {
            ControllerState::TerminalClean => true,
            ControllerState::TerminalSkip => true,
            ControllerState::TerminalDelete => true,
            _ => false,
        }
    }

    /// Advances the machine by one event and returns the action the caller
    /// must perform next. Events that do not fit the current state are
    /// ignored.
    pub fn step(&mut self, e: &ControllerEvent) -> (a: ControllerAction)
        ensures
            (final(self).state, final(self).remediation_attempted, a) == spec_transition(
                old(self).state,
                old(self).remediation_attempted,
                *e,
            ),
            final(self).iteration_count == if spec_is_terminal(old(self).state) {
                old(self).iteration_count
            } else {
                spec_next_iterations(old(self).iteration_count, *e)
            },
            final(self).path == old(self).path,
            spec_session_consistent(*old(self)) ==> spec_session_consistent(*final(self)),
    {
        if self.is_terminal() {
            return ControllerAction::NoAction;
        }
        if matches!(e, ControllerEvent::Evaluated { .. }) && self.iteration_count < u64::MAX {
            self.iteration_count = self.iteration_count + 1;
        }
        match (self.state, e) {
            (
                ControllerState::Evaluating,
                ControllerEvent::Evaluated { clean, remediation_available },
            ) => {
                if *clean {
                    self.state = ControllerState::TerminalClean;
                    ControllerAction::ReportClean
                } else if *remediation_available && !self.remediation_attempted {
                    self.state = ControllerState::AwaitingRemediation;
                    ControllerAction::OfferRemediation
                } else {
                    self.state = ControllerState::AwaitingConfirmation;
                    ControllerAction::AskFirstConfirmation
                }
            },
            (ControllerState::AwaitingRemediation, ControllerEvent::RemediationDeclined) => {
                self.remediation_attempted = true;
                self.state = ControllerState::AwaitingConfirmation;
                ControllerAction::AskFirstConfirmation
            },
            (ControllerState::AwaitingRemediation, ControllerEvent::RemediationRan { .. }) => {
                self.remediation_attempted = true;
                self.state = ControllerState::Evaluating;
                ControllerAction::Evaluate
            },
            (ControllerState::AwaitingConfirmation, ControllerEvent::FirstConfirmation {
                accepted,
            }) => {
                if *accepted {
                    self.state = ControllerState::AwaitingSecondConfirmation;
                    ControllerAction::AskSecondConfirmation
                } else {
                    self.state = ControllerState::TerminalSkip;
                    ControllerAction::EmitSkip
                }
            },
            (ControllerState::AwaitingSecondConfirmation, ControllerEvent::SecondConfirmation {
                accepted,
            }) => {
                if *accepted {
                    self.state = ControllerState::TerminalDelete;
                    ControllerAction::EmitDelete
                } else {
                    self.state = ControllerState::TerminalSkip;
                    ControllerAction::EmitSkip
                }
            },
            _ => ControllerAction::NoAction,
        }
    }
}

/// Opens a session for one repository. A `LeaveAlone*` preference skips
/// straight to the keep decision, so no file or remote evaluation ever
/// runs; any other preference starts with an evaluation pass due.
pub fn start_session(path: String, preference: &RepoPreference) -> (s: ProcessingSession)
    ensures
        s.path == path,
        s.iteration_count == 0,
        !s.remediation_attempted,
        spec_is_leave_alone(*preference) ==> s.state == ControllerState::TerminalSkip,
        !spec_is_leave_alone(*preference) ==> s.state == ControllerState::Evaluating,
        spec_session_consistent(s),
{
    let state = if is_leave_alone(preference) {
        ControllerState::TerminalSkip
    } else {
        ControllerState::Evaluating
    };
    ProcessingSession { path, iteration_count: 0, remediation_attempted: false, state }
}

} // verus!
