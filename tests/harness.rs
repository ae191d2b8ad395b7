use parse_test::{
    advance, fault_message, CaseEvent, CaseState, ConfigFile, Failure, Outcome, OutcomeKind,
    ParseResult, Report,
};

const GENERATED: &str = "{\"name\": \"m\", \"value\": 3}";

fn done(s: CaseState) -> Outcome {
    match s {
        CaseState::Done(o) => o,
        other => panic!("case not finished: {:?}", other),
    }
}

fn up_to_expected(accept: bool) -> CaseState {
    let s = advance(CaseState::ReadConfig, accept, CaseEvent::Config(ConfigFile::Missing));
    assert!(matches!(s, CaseState::RunParser));
    let s = advance(s, accept, CaseEvent::Parsed(ParseResult::Model(GENERATED.to_string())));
    match &s {
        CaseState::WriteGenerated(t) => assert_eq!(t, GENERATED),
        other => panic!("unexpected {:?}", other),
    }
    let s = advance(s, accept, CaseEvent::Written(Ok(())));
    assert!(matches!(s, CaseState::ReadExpected(_)));
    s
}

#[test]
fn missing_expected_fails_in_verify_mode() {
    let s = up_to_expected(false);
    let s = advance(s, false, CaseEvent::ExpectedRead(Err("No such file".to_string())));
    match done(s) {
        Outcome::Failed(Failure::ExpectedSnapshotMissing(m)) => assert_eq!(m, "No such file"),
        other => panic!("unexpected {:?}", other),
    }
}

#[test]
fn missing_expected_is_promoted_in_accept_mode() {
    let s = up_to_expected(true);
    let s = advance(s, true, CaseEvent::ExpectedRead(Err("No such file".to_string())));
    assert!(matches!(s, CaseState::Promote));
    let s = advance(s, true, CaseEvent::Promoted(Ok(())));
    assert!(matches!(done(s), Outcome::Passed));
}

#[test]
fn failed_promotion_fails_the_case() {
    let s = advance(CaseState::Promote, true, CaseEvent::Promoted(Err("denied".to_string())));
    assert!(matches!(done(s), Outcome::Failed(Failure::Promotion(_))));
}

#[test]
fn disabled_directory_is_skipped() {
    let cfg = ConfigFile::Parsed { enable_native_parser: Some(false) };
    let s = advance(CaseState::ReadConfig, false, CaseEvent::Config(cfg));
    let o = done(s);
    assert!(matches!(o, Outcome::Skipped));
    let mut r = Report::new();
    r.record("t/b.essence".to_string(), &o);
    assert!(r.passed.is_empty());
    assert!(r.failed.is_empty());
    assert_eq!(r.skipped, vec!["t/b.essence".to_string()]);
}

#[test]
fn parser_fault_fails_with_its_message() {
    let s = advance(
        CaseState::RunParser,
        false,
        CaseEvent::Parsed(ParseResult::Fault(Some("index out of range".to_string()))),
    );
    match done(s) {
        Outcome::Failed(Failure::ParserFault(m)) => assert_eq!(m, "index out of range"),
        other => panic!("unexpected {:?}", other),
    }
}

#[test]
fn parser_fault_without_text() {
    assert_eq!(fault_message(None), "Parser panicked: non-string payload");
    assert_eq!(fault_message(Some("boom".to_string())), "boom");
}

#[test]
fn parse_error_fails_the_case() {
    let s = advance(CaseState::RunParser, true, CaseEvent::Parsed(ParseResult::Error("bad token".to_string())));
    match done(s) {
        Outcome::Failed(Failure::ParseError(m)) => assert_eq!(m, "bad token"),
        other => panic!("unexpected {:?}", other),
    }
}

#[test]
fn write_failure_fails_the_case() {
    let s = advance(CaseState::WriteGenerated(GENERATED.to_string()), false, CaseEvent::Written(Err("full".to_string())));
    assert!(matches!(done(s), Outcome::Failed(Failure::SnapshotWrite(_))));
}

#[test]
fn matching_expected_passes() {
    let s = up_to_expected(false);
    let s = advance(s, false, CaseEvent::ExpectedRead(Ok("{ \"value\": 3, \"name\": \"m\" }".to_string())));
    assert!(matches!(done(s), Outcome::Passed));
}

#[test]
fn mismatch_fails_in_verify_mode() {
    let s = up_to_expected(false);
    let s = advance(s, false, CaseEvent::ExpectedRead(Ok("{\"name\": \"m\", \"value\": 4}".to_string())));
    assert!(matches!(done(s), Outcome::Failed(Failure::Mismatch(_))));
}

#[test]
fn malformed_expected_fails() {
    let s = up_to_expected(true);
    let s = advance(s, true, CaseEvent::ExpectedRead(Ok("not json".to_string())));
    assert!(matches!(done(s), Outcome::Failed(Failure::Compare(_))));
}

#[test]
fn accepted_mismatch_converges() {
    let s = up_to_expected(true);
    let s = advance(s, true, CaseEvent::ExpectedRead(Ok("{\"name\": \"m\", \"value\": 4}".to_string())));
    assert!(matches!(s, CaseState::Promote));
    assert!(matches!(done(advance(s, true, CaseEvent::Promoted(Ok(())))), Outcome::Passed));
    let s = up_to_expected(false);
    let s = advance(s, false, CaseEvent::ExpectedRead(Ok(GENERATED.to_string())));
    assert!(matches!(done(s), Outcome::Passed));
}

#[test]
fn unanswered_event_leaves_state() {
    let s = advance(CaseState::ReadConfig, false, CaseEvent::Written(Ok(())));
    assert!(matches!(s, CaseState::ReadConfig));
}

#[test]
fn every_case_is_reported_once() {
    let paths = vec!["a".to_string(), "b".to_string(), "c".to_string(), "d".to_string()];
    let outcomes = vec![
        Outcome::Passed,
        Outcome::Failed(Failure::ParserFault("index out of range".to_string())),
        Outcome::Skipped,
        Outcome::Passed,
    ];
    let r = Report::tally(&paths, &outcomes);
    assert_eq!(r.passed, vec!["a".to_string(), "d".to_string()]);
    assert_eq!(r.failed, vec!["b".to_string()]);
    assert_eq!(r.skipped, vec!["c".to_string()]);
    assert_eq!(r.passed.len() + r.failed.len() + r.skipped.len(), paths.len());
    assert_eq!(outcomes[1].kind(), OutcomeKind::Failed);
}
