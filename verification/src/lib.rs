//! Core of a profile-matching service: the profile data model and its
//! validation rules, an in-memory registry with create-if-absent semantics,
//! the policy for interpreting the external scoring engine's replies, and the
//! adapter that turns an accepted score into a ledger recording request.

pub mod ledger;
pub mod orchestrator;
pub mod profile;
pub mod registry;
pub mod score;
