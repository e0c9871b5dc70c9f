use ai_engine::orchestrator::{interpret_outcome, EngineOutcome, MatchError};
use ai_engine::score::{Score, SCORE_MAX_BITS, SCORE_MIN_BITS};

fn accept(value: f32) -> Result<Score, MatchError> {
    interpret_outcome(EngineOutcome::Value(value.to_bits()))
}

#[test]
fn window_constants_encode_one_and_ten() {
    assert_eq!(SCORE_MIN_BITS, 1.0f32.to_bits());
    assert_eq!(SCORE_MAX_BITS, 10.0f32.to_bits());
}

#[test]
fn boundary_scores_accepted() {
    let low = accept(1.0).expect("1.0 is acceptable");
    assert_eq!(low.bits(), 1.0f32.to_bits());
    let high = accept(10.0).expect("10.0 is acceptable");
    assert_eq!(high.bits(), 10.0f32.to_bits());
}

#[test]
fn just_outside_window_rejected() {
    assert!(matches!(accept(0.99), Err(MatchError::OutOfRange)));
    assert!(matches!(accept(10.01), Err(MatchError::OutOfRange)));
}

#[test]
fn far_outside_values_rejected() {
    assert!(matches!(accept(0.0), Err(MatchError::OutOfRange)));
    assert!(matches!(accept(-5.0), Err(MatchError::OutOfRange)));
    assert!(matches!(accept(f32::NAN), Err(MatchError::OutOfRange)));
    assert!(matches!(accept(f32::INFINITY), Err(MatchError::OutOfRange)));
    assert!(matches!(accept(f32::NEG_INFINITY), Err(MatchError::OutOfRange)));
}

#[test]
fn accepted_score_keeps_raw_encoding() {
    // The raw reply is passed through unmodified: same encoding, no rounding.
    let s = accept(7.37).expect("in window");
    assert_eq!(f32::from_bits(s.bits()), 7.37f32);
}

#[test]
fn scaled_hundredths_exact_values() {
    assert_eq!(accept(1.0).unwrap().scaled_hundredths(), 100);
    assert_eq!(accept(10.0).unwrap().scaled_hundredths(), 1000);
    assert_eq!(accept(7.5).unwrap().scaled_hundredths(), 750);
    assert_eq!(accept(2.25).unwrap().scaled_hundredths(), 225);
    // 9.99 has no exact binary32 form; its closest encoding is a hair under
    // 9.99, so truncation toward zero gives 998.
    assert_eq!(accept(9.99).unwrap().scaled_hundredths(), 998);
}

#[test]
fn scaled_hundredths_at_exponent_boundaries() {
    assert_eq!(accept(2.0).unwrap().scaled_hundredths(), 200);
    assert_eq!(accept(4.0).unwrap().scaled_hundredths(), 400);
    assert_eq!(accept(8.0).unwrap().scaled_hundredths(), 800);
    // 1.99 rounds to an encoding a hair above 1.99, so the floor is 199.
    assert_eq!(accept(1.99).unwrap().scaled_hundredths(), 199);
    assert_eq!(accept(3.999).unwrap().scaled_hundredths(), 399);
    assert_eq!(accept(7.999).unwrap().scaled_hundredths(), 799);
}

#[test]
fn scaled_hundredths_truncates_toward_zero() {
    for i in 100..=1000u32 {
        let v = (i as f64) / 100.0;
        let f = v as f32;
        if !(1.0..=10.0).contains(&f) {
            continue;
        }
        let s = accept(f).expect("in window");
        let expected = ((f as f64) * 100.0).floor() as u64;
        assert_eq!(s.scaled_hundredths(), expected, "value {f}");
    }
}

#[test]
fn scaled_hundredths_stays_in_bounds() {
    for bits in [
        SCORE_MIN_BITS,
        SCORE_MIN_BITS + 1,
        3.999f32.to_bits(),
        4.0f32.to_bits(),
        7.999f32.to_bits(),
        8.0f32.to_bits(),
        SCORE_MAX_BITS - 1,
        SCORE_MAX_BITS,
    ] {
        let s = interpret_outcome(EngineOutcome::Value(bits)).expect("in window");
        let scaled = s.scaled_hundredths();
        assert!((100..=1000).contains(&scaled), "bits {bits:#x} scaled {scaled}");
    }
}
