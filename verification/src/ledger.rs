//! Ledger recorder adapter: converts an accepted score into the ledger
//! client's call shape and interprets the client's outcome. Recording is
//! at-most-once — no retry — and strictly after scoring: a scoring failure
//! short-circuits, so no recording request exists for a failed match.

use vstd::prelude::*;
use vstd::string::*;

use crate::orchestrator::{verdict_of, EngineOutcome, MatchError};
use crate::score::{scaled_hundredths_of, score_bits_in_range, Score};

verus! {

/// Why a ledger recording failed.
#[derive(Debug, PartialEq, Eq)]
pub enum LedgerError {
    /// The transaction could not be submitted or confirmed.
    LedgerUnavailable(String),
}

impl LedgerError {
    /// The human-readable reason for the failure, naming this stage so a
    /// caller can tell it from a scoring failure.
    pub fn message(&self) -> (r: String)
        ensures
            self matches LedgerError::LedgerUnavailable(m) ==> r@
                == "blockchain transaction failed: "@ + m@,
    {
        match self {
            LedgerError::LedgerUnavailable(m) => String::from_str(
                "blockchain transaction failed: ",
            ).concat(m.as_str()),
        }
    }
}

/// One recording request in the ledger client's call shape: the two account
/// identifiers, in the order the profiles were received, and the score scaled
/// to hundredths, truncated toward zero.
#[derive(Clone, Copy, Debug, PartialEq, Eq, Structural)]
pub struct LedgerCall {
    pub account_a: u64,
    pub account_b: u64,
    pub scaled_score: u64,
}

/// Whether a scoring result is owed a ledger recording: exactly the matches
/// whose scoring succeeded.
pub open spec fn recording_due(scoring: Result<u32, MatchError>) -> bool {
    scoring is Ok
}

/// Decide the ledger step from the scoring result: a recording request exists
/// exactly for an accepted score, and carries the two accounts in order and
/// the score scaled to hundredths.
pub fn plan_recording(account_a: u64, account_b: u64, scoring: &Result<Score, MatchError>) -> (r:
    Option<LedgerCall>)
    ensures
        r is Some <==> scoring is Ok,
        r matches Some(c) ==> scoring matches Ok(s) && c.account_a == account_a && c.account_b
            == account_b && c.scaled_score == scaled_hundredths_of(s@) && 100 <= c.scaled_score
            <= 1000,
{
    match scoring {
        Ok(s) => Some(
            LedgerCall { account_a, account_b, scaled_score: s.scaled_hundredths() },
        ),
        Err(_) => None,
    }
}

/// What the ledger client came to.
pub enum LedgerOutcome {
    /// The transaction was submitted and confirmed.
    Confirmed,
    /// The transaction could not be submitted or confirmed.
    Rejected(String),
}

/// Map the ledger client's outcome to the adapter's verdict; the failure is
/// surfaced as-is, distinct from every scoring error, so the caller can tell
/// which stage failed.
pub fn interpret_ledger_outcome(outcome: LedgerOutcome) -> (r: Result<(), LedgerError>)
    ensures
        r is Ok <==> outcome is Confirmed,
        outcome matches LedgerOutcome::Rejected(m) ==> r == Err::<(), LedgerError>(
            LedgerError::LedgerUnavailable(m),
        ),
{
    match outcome {
        LedgerOutcome::Confirmed => Ok(()),
        LedgerOutcome::Rejected(m) => Err(LedgerError::LedgerUnavailable(m)),
    }
}

/// A failed scoring is never recorded: whatever the engine outcome, a
/// recording is due exactly when the verdict accepted an in-window reply; in
/// particular an unreachable engine yields `ScoringUnavailable` and no
/// recording request.
pub proof fn lemma_failed_scoring_never_recorded(outcome: EngineOutcome)
    ensures
        recording_due(verdict_of(outcome)) <==> (outcome matches EngineOutcome::Value(bits)
            && score_bits_in_range(bits)),
        outcome matches EngineOutcome::Unreachable(m) ==> verdict_of(outcome) == Err::<
            u32,
            MatchError,
        >(MatchError::ScoringUnavailable(m)) && !recording_due(verdict_of(outcome)),
{
}

} // verus!
