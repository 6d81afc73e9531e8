use repo_sweeper::controller::{
    start_session, ControllerAction, ControllerEvent, ControllerState,
};
use repo_sweeper::preference::RepoPreference;

#[test]
fn clean_repository_terminates_at_once_without_remediation() {
    let mut session = start_session("/repos/tidy".to_string(), &RepoPreference::ReadWrite);
    assert_eq!(session.state, ControllerState::Evaluating);
    let action = session.step(&ControllerEvent::Evaluated {
        clean: true,
        remediation_available: true,
    });
    assert_eq!(action, ControllerAction::ReportClean);
    assert_eq!(session.state, ControllerState::TerminalClean);
    assert!(!session.remediation_attempted);
    assert!(session.is_terminal());
}

#[test]
fn remediation_is_not_offered_a_second_time() {
    let mut session = start_session("/repos/messy".to_string(), &RepoPreference::ReadWrite);
    let action = session.step(&ControllerEvent::Evaluated {
        clean: false,
        remediation_available: true,
    });
    assert_eq!(action, ControllerAction::OfferRemediation);
    assert_eq!(session.state, ControllerState::AwaitingRemediation);

    let action = session.step(&ControllerEvent::RemediationRan { tool_succeeded: true });
    assert_eq!(action, ControllerAction::Evaluate);
    assert_eq!(session.state, ControllerState::Evaluating);
    assert!(session.remediation_attempted);

    let action = session.step(&ControllerEvent::Evaluated {
        clean: false,
        remediation_available: true,
    });
    assert_eq!(action, ControllerAction::AskFirstConfirmation);
    assert_eq!(session.state, ControllerState::AwaitingConfirmation);
    assert_eq!(session.iteration_count, 2);
}

#[test]
fn failed_remediation_tool_still_returns_to_evaluation() {
    let mut session = start_session("/repos/messy".to_string(), &RepoPreference::ReadWrite);
    session.step(&ControllerEvent::Evaluated { clean: false, remediation_available: true });
    let action = session.step(&ControllerEvent::RemediationRan { tool_succeeded: false });
    assert_eq!(action, ControllerAction::Evaluate);
    assert_eq!(session.state, ControllerState::Evaluating);
    assert!(session.remediation_attempted);
}

#[test]
fn declining_remediation_downgrades_to_confirmation() {
    let mut session = start_session("/repos/messy".to_string(), &RepoPreference::ReadWrite);
    session.step(&ControllerEvent::Evaluated { clean: false, remediation_available: true });
    let action = session.step(&ControllerEvent::RemediationDeclined);
    assert_eq!(action, ControllerAction::AskFirstConfirmation);
    assert_eq!(session.state, ControllerState::AwaitingConfirmation);
    assert!(session.remediation_attempted);
}

#[test]
fn leave_alone_preference_skips_evaluation_entirely() {
    let mut session = start_session(
        "/repos/sacred".to_string(),
        &RepoPreference::LeaveAloneForever,
    );
    assert_eq!(session.state, ControllerState::TerminalSkip);
    assert_eq!(session.iteration_count, 0);
    let action = session.step(&ControllerEvent::Evaluated {
        clean: false,
        remediation_available: true,
    });
    assert_eq!(action, ControllerAction::NoAction);
    assert_eq!(session.state, ControllerState::TerminalSkip);
    assert_eq!(session.iteration_count, 0);
}

#[test]
fn leave_alone_for_now_also_skips() {
    let session = start_session("/repos/later".to_string(), &RepoPreference::LeaveAloneForNow);
    assert_eq!(session.state, ControllerState::TerminalSkip);
}

#[test]
fn delete_requires_both_confirmations() {
    let mut session = start_session("/repos/messy".to_string(), &RepoPreference::ReadWrite);
    session.step(&ControllerEvent::Evaluated { clean: false, remediation_available: false });
    assert_eq!(session.state, ControllerState::AwaitingConfirmation);

    let action = session.step(&ControllerEvent::FirstConfirmation { accepted: true });
    assert_eq!(action, ControllerAction::AskSecondConfirmation);
    assert_eq!(session.state, ControllerState::AwaitingSecondConfirmation);

    let action = session.step(&ControllerEvent::SecondConfirmation { accepted: true });
    assert_eq!(action, ControllerAction::EmitDelete);
    assert_eq!(session.state, ControllerState::TerminalDelete);
}

#[test]
fn declining_first_confirmation_skips() {
    let mut session = start_session("/repos/messy".to_string(), &RepoPreference::ReadWrite);
    session.step(&ControllerEvent::Evaluated { clean: false, remediation_available: false });
    let action = session.step(&ControllerEvent::FirstConfirmation { accepted: false });
    assert_eq!(action, ControllerAction::EmitSkip);
    assert_eq!(session.state, ControllerState::TerminalSkip);
}

#[test]
fn declining_second_confirmation_skips() {
    let mut session = start_session("/repos/messy".to_string(), &RepoPreference::ReadWrite);
    session.step(&ControllerEvent::Evaluated { clean: false, remediation_available: false });
    session.step(&ControllerEvent::FirstConfirmation { accepted: true });
    let action = session.step(&ControllerEvent::SecondConfirmation { accepted: false });
    assert_eq!(action, ControllerAction::EmitSkip);
    assert_eq!(session.state, ControllerState::TerminalSkip);
}

#[test]
fn terminal_states_absorb_every_event() {
    let mut session = start_session("/repos/messy".to_string(), &RepoPreference::ReadWrite);
    session.step(&ControllerEvent::Evaluated { clean: true, remediation_available: false });
    assert_eq!(session.state, ControllerState::TerminalClean);
    for event in [
        ControllerEvent::Evaluated { clean: false, remediation_available: true },
        ControllerEvent::RemediationDeclined,
        ControllerEvent::FirstConfirmation { accepted: true },
        ControllerEvent::SecondConfirmation { accepted: true },
    ] {
        let action = session.step(&event);
        assert_eq!(action, ControllerAction::NoAction);
        assert_eq!(session.state, ControllerState::TerminalClean);
    }
}

#[test]
fn mismatched_event_is_ignored() {
    let mut session = start_session("/repos/messy".to_string(), &RepoPreference::ReadWrite);
    let action = session.step(&ControllerEvent::SecondConfirmation { accepted: true });
    assert_eq!(action, ControllerAction::NoAction);
    assert_eq!(session.state, ControllerState::Evaluating);
}
