use repo_sweeper::preference::{
    is_leave_alone, parse_preference, render_preference, suppresses_ahead_check, RepoPreference,
};

const ALL: [RepoPreference; 6] = [
    RepoPreference::ReadWrite,
    RepoPreference::ReadOnly,
    RepoPreference::LeaveAloneForNow,
    RepoPreference::LeaveAloneForever,
    RepoPreference::ContinueReadWriteForNow,
    RepoPreference::ContinueReadOnlyForNow,
];

#[test]
fn every_preference_round_trips_through_its_token() {
    for p in ALL {
        let token = render_preference(&p);
        assert_eq!(parse_preference(&token), Ok(p));
    }
}

#[test]
fn tokens_are_the_variant_names() {
    assert_eq!(render_preference(&RepoPreference::ReadWrite), "ReadWrite");
    assert_eq!(render_preference(&RepoPreference::ReadOnly), "ReadOnly");
    assert_eq!(render_preference(&RepoPreference::LeaveAloneForNow), "LeaveAloneForNow");
    assert_eq!(render_preference(&RepoPreference::LeaveAloneForever), "LeaveAloneForever");
    assert_eq!(
        render_preference(&RepoPreference::ContinueReadWriteForNow),
        "ContinueReadWriteForNow"
    );
    assert_eq!(
        render_preference(&RepoPreference::ContinueReadOnlyForNow),
        "ContinueReadOnlyForNow"
    );
}

#[test]
fn malformed_preference_is_a_decode_error_naming_the_input() {
    let r = parse_preference(&"sometimes".to_string());
    match r {
        Err(e) => assert_eq!(e.message, "unrecognized repository preference: sometimes"),
        Ok(p) => panic!("expected a decode error, got {:?}", p),
    }
}

#[test]
fn only_leave_alone_variants_skip_evaluation() {
    for p in ALL {
        let expected = matches!(
            p,
            RepoPreference::LeaveAloneForNow | RepoPreference::LeaveAloneForever
        );
        assert_eq!(is_leave_alone(&p), expected);
    }
}

#[test]
fn only_read_only_variants_suppress_the_ahead_check() {
    for p in ALL {
        let expected = matches!(
            p,
            RepoPreference::ReadOnly | RepoPreference::ContinueReadOnlyForNow
        );
        assert_eq!(suppresses_ahead_check(&p), expected);
    }
}
