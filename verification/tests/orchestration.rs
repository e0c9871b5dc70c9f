use ai_engine::ledger::{
    interpret_ledger_outcome, plan_recording, LedgerCall, LedgerError, LedgerOutcome,
};
use ai_engine::orchestrator::{
    check_serialized, interpret_outcome, EngineOutcome, MatchError,
};
use ai_engine::profile::{Gender, Location, Preferences, Profile, RelationshipGoal};
use ai_engine::registry::AppState;

fn valid_profile(id: u64, name: &str) -> Profile {
    Profile {
        id,
        name: String::from(name),
        age: 33,
        gender: Gender::Male,
        location: Location {
            city: String::from("Oslo"),
            country: String::from("Norway"),
        },
        interests: vec![String::from("sailing")],
        preferences: Preferences {
            preferred_age_range: (18, 99),
            preferred_genders: Vec::new(),
            relationship_goal: RelationshipGoal::Serious,
        },
    }
}

#[test]
fn unreachable_engine_reports_scoring_unavailable() {
    let r = interpret_outcome(EngineOutcome::Unreachable(String::from(
        "Python files directory not found",
    )));
    assert_eq!(
        r.unwrap_err(),
        MatchError::ScoringUnavailable(String::from("Python files directory not found"))
    );
}

#[test]
fn unreachable_engine_never_reaches_the_ledger() {
    let scoring = interpret_outcome(EngineOutcome::Unreachable(String::from("missing")));
    assert!(scoring.is_err());
    assert_eq!(plan_recording(1, 2, &scoring), None);
}

#[test]
fn undecodable_reply_reports_serialization_error() {
    let r = interpret_outcome(EngineOutcome::Undecodable(String::from("not a number")));
    assert_eq!(
        r.unwrap_err(),
        MatchError::SerializationError(String::from("not a number"))
    );
}

#[test]
fn raised_engine_call_reports_runtime_error() {
    let r = interpret_outcome(EngineOutcome::Raised(String::from("exception")));
    assert_eq!(r.unwrap_err(), MatchError::RuntimeError(String::from("exception")));
}

#[test]
fn rejected_score_never_reaches_the_ledger() {
    let scoring = interpret_outcome(EngineOutcome::Value(0.5f32.to_bits()));
    assert_eq!(scoring.as_ref().unwrap_err(), &MatchError::OutOfRange);
    assert_eq!(plan_recording(1, 2, &scoring), None);
}

#[test]
fn serialization_gate_passes_both_records_in_order() {
    let r = check_serialized(
        Ok(String::from("{\"id\":1}")),
        Ok(String::from("{\"id\":2}")),
    );
    assert_eq!(
        r,
        Ok((String::from("{\"id\":1}"), String::from("{\"id\":2}")))
    );
}

#[test]
fn serialization_gate_reports_first_failure() {
    let r = check_serialized(Err(String::from("bad a")), Ok(String::from("{}")));
    assert_eq!(r, Err(MatchError::SerializationError(String::from("bad a"))));
    let r = check_serialized(Ok(String::from("{}")), Err(String::from("bad b")));
    assert_eq!(r, Err(MatchError::SerializationError(String::from("bad b"))));
    let r = check_serialized(
        Err(String::from("bad a")),
        Err(String::from("bad b")),
    );
    assert_eq!(r, Err(MatchError::SerializationError(String::from("bad a"))));
}

#[test]
fn ledger_outcomes_map_to_adapter_verdicts() {
    assert_eq!(interpret_ledger_outcome(LedgerOutcome::Confirmed), Ok(()));
    assert_eq!(
        interpret_ledger_outcome(LedgerOutcome::Rejected(String::from("no peers"))),
        Err(LedgerError::LedgerUnavailable(String::from("no peers")))
    );
}

#[test]
fn error_messages_name_their_stage() {
    assert_eq!(
        MatchError::ScoringUnavailable(String::from("m")).message(),
        "scoring engine unavailable: m"
    );
    assert_eq!(
        MatchError::SerializationError(String::from("m")).message(),
        "serialization error: m"
    );
    assert_eq!(MatchError::OutOfRange.message(), "Score must be between 1 and 10");
    assert_eq!(
        MatchError::RuntimeError(String::from("m")).message(),
        "runtime error: m"
    );
    assert_eq!(
        LedgerError::LedgerUnavailable(String::from("m")).message(),
        "blockchain transaction failed: m"
    );
}

#[test]
fn two_profiles_match_and_record() {
    // Two valid profiles enter an empty registry, the engine scores the
    // ordered pair, and the accepted score is recorded scaled to hundredths.
    let mut reg = AppState::new();
    let p1 = reg.create(valid_profile(1, "Ada")).expect("fresh id");
    let p2 = reg.create(valid_profile(2, "Grace")).expect("fresh id");
    assert_eq!(reg.len(), 2);

    let scoring = interpret_outcome(EngineOutcome::Value(7.5f32.to_bits()));
    let score = scoring.as_ref().expect("7.5 is in [1.0, 10.0]");
    let value = f32::from_bits(score.bits());
    assert!((1.0..=10.0).contains(&value));

    let call = plan_recording(p1.id, p2.id, &scoring).expect("accepted scores are recorded");
    assert_eq!(
        call,
        LedgerCall { account_a: 1, account_b: 2, scaled_score: 750 }
    );
    assert_eq!(interpret_ledger_outcome(LedgerOutcome::Confirmed), Ok(()));
}

#[test]
fn duplicate_then_distinct_scenario() {
    let mut reg = AppState::new();
    reg.create(valid_profile(1, "Ada")).expect("fresh id");
    assert!(reg.create(valid_profile(1, "Ada")).is_err());
    assert_eq!(reg.len(), 1);
}
