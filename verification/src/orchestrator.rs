//! Match orchestration policy. The transport serializes the two profiles,
//! invokes the external scoring engine on a dedicated worker, and hands back
//! what each step came to; this module holds the decisions: which failures
//! map to which error, and which replies are accepted as scores.

use vstd::prelude::*;
use vstd::string::*;

use crate::score::{score_bits_in_range, Score, SCORE_MAX_BITS, SCORE_MIN_BITS};

verus! {

/// Why a match could not be scored.
#[derive(Debug, PartialEq, Eq)]
pub enum MatchError {
    /// The scoring engine could not be reached or loaded.
    ScoringUnavailable(String),
    /// A profile could not be serialized, or the engine's raw reply could not
    /// be decoded into a number.
    SerializationError(String),
    /// The engine replied with a number outside [1.0, 10.0].
    OutOfRange,
    /// The engine was reached but its evaluation failed.
    RuntimeError(String),
}

impl MatchError {
    /// The human-readable reason for the failure, with the underlying message
    /// attached for diagnostics.
    pub fn message(&self) -> (r: String)
        ensures
            self matches MatchError::ScoringUnavailable(m) ==> r@ == "scoring engine unavailable: "@
                + m@,
            self matches MatchError::SerializationError(m) ==> r@ == "serialization error: "@ + m@,
            *self is OutOfRange ==> r@ == "Score must be between 1 and 10"@,
            self matches MatchError::RuntimeError(m) ==> r@ == "runtime error: "@ + m@,
    {
        match self {
            MatchError::ScoringUnavailable(m) => String::from_str(
                "scoring engine unavailable: ",
            ).concat(m.as_str()),
            MatchError::SerializationError(m) => String::from_str("serialization error: ").concat(
                m.as_str(),
            ),
            MatchError::OutOfRange => String::from_str("Score must be between 1 and 10"),
            MatchError::RuntimeError(m) => String::from_str("runtime error: ").concat(m.as_str()),
        }
    }
}

/// What one invocation of the scoring engine came to, as the transport hands
/// it back: the reply's binary32 encoding, or the stage that failed with its
/// message.
pub enum EngineOutcome {
    /// The engine returned a number, given by its binary32 encoding.
    Value(u32),
    /// The engine's code location is missing, or its module failed to load.
    Unreachable(String),
    /// The engine's raw reply could not be decoded into a number.
    Undecodable(String),
    /// The engine was invoked and its evaluation failed.
    Raised(String),
}

/// The orchestrator's verdict on an engine outcome: exactly the replies
/// inside the acceptance window are accepted — out-of-window replies are
/// rejected, never clamped — and each failure maps to its error.
pub open spec fn verdict_of(outcome: EngineOutcome) -> Result<u32, MatchError> {
    match outcome {
        EngineOutcome::Value(bits) => if score_bits_in_range(bits) {
            Ok(bits)
        } else {
            Err(MatchError::OutOfRange)
        },
        EngineOutcome::Unreachable(m) => Err(MatchError::ScoringUnavailable(m)),
        EngineOutcome::Undecodable(m) => Err(MatchError::SerializationError(m)),
        EngineOutcome::Raised(m) => Err(MatchError::RuntimeError(m)),
    }
}

/// The view of a scoring result: scores are abstracted to their encodings,
/// errors pass through.
pub open spec fn scoring_view(r: Result<Score, MatchError>) -> Result<u32, MatchError> {
    match r {
        Ok(s) => Ok(s@),
        Err(e) => Err(e),
    }
}

/// Interpret what the scoring engine came to, as [`verdict_of`] demands.
pub fn interpret_outcome(outcome: EngineOutcome) -> (r: Result<Score, MatchError>)
    ensures
        scoring_view(r) == verdict_of(outcome),
{
    match outcome {
        EngineOutcome::Value(bits) => if SCORE_MIN_BITS <= bits && bits <= SCORE_MAX_BITS {
            Ok(Score::new(bits))
        } else {
            Err(MatchError::OutOfRange)
        },
        EngineOutcome::Unreachable(m) => Err(MatchError::ScoringUnavailable(m)),
        EngineOutcome::Undecodable(m) => Err(MatchError::SerializationError(m)),
        EngineOutcome::Raised(m) => Err(MatchError::RuntimeError(m)),
    }
}

/// Gate the engine invocation on serialization: the engine receives the two
/// records exactly as serialized, in the order received, and only when both
/// profiles serialized; the first serialization failure is reported as
/// `SerializationError` and the engine is not invoked.
pub fn check_serialized(profile_a: Result<String, String>, profile_b: Result<String, String>) -> (r:
    Result<(String, String), MatchError>)
    ensures
        profile_a is Ok && profile_b is Ok ==> (profile_a matches Ok(ja) && profile_b matches Ok(jb)
            && r == Ok::<(String, String), MatchError>((ja, jb))),
        profile_a matches Err(m) ==> r == Err::<(String, String), MatchError>(
            MatchError::SerializationError(m),
        ),
        profile_a is Ok && profile_b is Err ==> (profile_b matches Err(m) && r == Err::<
            (String, String),
            MatchError,
        >(MatchError::SerializationError(m))),
{
    match (profile_a, profile_b) {
        (Ok(ja), Ok(jb)) => Ok((ja, jb)),
        (Err(m), _) => Err(MatchError::SerializationError(m)),
        (Ok(_), Err(m)) => Err(MatchError::SerializationError(m)),
    }
}

} // verus!
