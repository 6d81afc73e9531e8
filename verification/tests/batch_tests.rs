use repo_sweeper::batch::{
    batch_decisions, decision_from_terminal, partition_verdicts, Decision, Verdict,
};
use repo_sweeper::controller::ControllerState;

fn verdict(path: &str, clean: bool) -> Verdict {
    Verdict { path: path.to_string(), clean }
}

#[test]
fn only_clean_repositories_enter_the_delete_offer() {
    let verdicts = vec![
        verdict("/a", true),
        verdict("/b", false),
        verdict("/c", true),
        verdict("/d", false),
    ];
    let (clean, not_clean) = partition_verdicts(verdicts);
    assert_eq!(clean, vec!["/a".to_string(), "/c".to_string()]);
    assert_eq!(not_clean, vec!["/b".to_string(), "/d".to_string()]);
}

#[test]
fn batch_decisions_follow_the_selection() {
    let clean = vec!["/a".to_string(), "/c".to_string(), "/e".to_string()];
    let selected = vec![true, false, true];
    let decisions = batch_decisions(clean, &selected);
    assert_eq!(decisions.len(), 3);
    assert!(matches!(&decisions[0], Decision::Delete { path } if path == "/a"));
    assert!(matches!(&decisions[1], Decision::Skip { path } if path == "/c"));
    assert!(matches!(&decisions[2], Decision::Delete { path } if path == "/e"));
}

#[test]
fn every_repository_gets_exactly_one_decision() {
    let verdicts = vec![verdict("/a", true), verdict("/b", false)];
    let n = verdicts.len();
    let (clean, not_clean) = partition_verdicts(verdicts);
    let selected = vec![false; clean.len()];
    let decisions = batch_decisions(clean, &selected);
    assert_eq!(decisions.len() + not_clean.len(), n);
}

#[test]
fn terminal_states_map_to_their_decision() {
    let r = decision_from_terminal("/x".to_string(), &ControllerState::TerminalDelete, false);
    assert!(matches!(&r, Decision::Delete { path } if path == "/x"));
    let r = decision_from_terminal("/x".to_string(), &ControllerState::TerminalSkip, true);
    assert!(matches!(&r, Decision::Skip { path } if path == "/x"));
    let r = decision_from_terminal("/x".to_string(), &ControllerState::TerminalClean, true);
    assert!(matches!(&r, Decision::Delete { path } if path == "/x"));
    let r = decision_from_terminal("/x".to_string(), &ControllerState::TerminalClean, false);
    assert!(matches!(&r, Decision::Skip { path } if path == "/x"));
}
