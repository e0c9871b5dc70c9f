//! The profile registry: a mapping from profile id to profile with
//! create-if-absent semantics. The membership test and the insertion form one
//! operation on one exclusively borrowed value, so a caller that serializes
//! access (one lock around the whole state) gets an atomic check-then-insert.

use vstd::prelude::*;
use vstd::string::*;

use crate::profile::{Profile, ProfileView};
use std::collections::HashMap;

verus! {

/// Why the registry refused to create a profile.
#[derive(Clone, Copy, Debug, PartialEq, Eq, Structural)]
pub enum RegistryError {
    /// A profile with the same id is already present.
    AlreadyExists,
}

impl RegistryError {
    /// The human-readable reason for the conflict.
    pub fn message(&self) -> (r: String)
        ensures
            r@ == "Profile already exists"@,
    {
        String::from_str("Profile already exists")
    }
}

/// What `create` returns, over the registry's model: the stored profile on a
/// fresh id, `AlreadyExists` on a duplicate.
pub open spec fn create_outcome(m: Map<u64, ProfileView>, p: ProfileView) -> Result<
    ProfileView,
    RegistryError,
> {
    if m.contains_key(p.id) {
        Err(RegistryError::AlreadyExists)
    } else {
        Ok(p)
    }
}

/// How `create` changes the registry's model: a fresh id gains its entry, a
/// duplicate leaves the registry untouched.
pub open spec fn create_effect(m: Map<u64, ProfileView>, p: ProfileView) -> Map<
    u64,
    ProfileView,
> {
    if m.contains_key(p.id) {
        m
    } else {
        m.insert(p.id, p)
    }
}

/// The view of an exec `create` result: profiles are abstracted to their
/// models, errors pass through.
pub open spec fn created_view(r: Result<Profile, RegistryError>) -> Result<
    ProfileView,
    RegistryError,
> {
    match r {
        Ok(p) => Ok(p@),
        Err(e) => Err(e),
    }
}

/// Shared application state: the registry of profiles, keyed by the
/// caller-assigned numeric id. Modeled as a map from id to profile model.
pub struct AppState {
    profiles: HashMap<u64, Profile>,
}

impl View for AppState {
    type V = Map<u64, ProfileView>;

    closed spec fn view(&self) -> Map<u64, ProfileView> {
        self.profiles@.map_values(|p: Profile| p@)
    }
}

impl AppState {
    /// A registry holding no profiles.
    pub fn new() -> (r: Self)
        ensures
            r@ == Map::<u64, ProfileView>::empty(),
    {
        let r = AppState { profiles: HashMap::new() };
        proof {
            assert(r@ =~= Map::<u64, ProfileView>::empty());
        }
        r
    }

    /// How many profiles are registered.
    pub fn len(&self) -> (r: usize)
        ensures
            r == self@.dom().len(),
    {
        proof {
            assert(self@.dom() =~= self.profiles@.dom());
        }
        self.profiles.len()
    }

    /// Whether a profile with this id is registered.
    pub fn contains(&self, id: u64) -> (r: bool)
        ensures
            r == self@.contains_key(id),
    {
        self.profiles.contains_key(&id)
    }

    /// Register a profile under its id, unless the id is already taken: on a
    /// fresh id the registry stores a copy and hands the submitted profile
    /// back, on a duplicate it reports `AlreadyExists` and stays unchanged.
    pub fn create(&mut self, profile: Profile) -> (r: Result<Profile, RegistryError>)
        ensures
            final(self)@ == create_effect(old(self)@, profile@),
            created_view(r) == create_outcome(old(self)@, profile@),
            r matches Ok(stored) ==> stored == profile,
    {
        if self.profiles.contains_key(&profile.id) {
            Err(RegistryError::AlreadyExists)
        } else {
            let stored = profile.clone();
            self.profiles.insert(stored.id, stored);
            proof {
                assert(self@ =~= old(self)@.insert(profile.id, profile@));
            }
            Ok(profile)
        }
    }
}

/// Once a profile is created, creating any profile with the same id fails
/// with `AlreadyExists` — whatever its other fields — and leaves the registry
/// exactly as the first creation left it.
pub proof fn lemma_duplicate_id_rejected(m: Map<u64, ProfileView>, p: ProfileView, q: ProfileView)
    requires
        create_outcome(m, p) is Ok,
        q.id == p.id,
    ensures
        create_outcome(create_effect(m, p), q) == Err::<ProfileView, RegistryError>(
            RegistryError::AlreadyExists,
        ),
        create_effect(create_effect(m, p), q) == create_effect(m, p),
{
}

/// Two creations with distinct fresh ids both succeed, in either order, and
/// the registry ends with exactly one entry per id: each id maps to the
/// profile created under it, no entry is lost, and nothing else appears.
pub proof fn lemma_distinct_ids_all_created(
    m: Map<u64, ProfileView>,
    p: ProfileView,
    q: ProfileView,
)
    requires
        !m.contains_key(p.id),
        !m.contains_key(q.id),
        p.id != q.id,
    ensures
        create_outcome(m, p) == Ok::<ProfileView, RegistryError>(p),
        create_outcome(create_effect(m, p), q) == Ok::<ProfileView, RegistryError>(q),
        create_effect(create_effect(m, p), q).dom() == m.dom().insert(p.id).insert(q.id),
        create_effect(create_effect(m, p), q)[p.id] == p,
        create_effect(create_effect(m, p), q)[q.id] == q,
        create_effect(create_effect(m, p), q) == create_effect(create_effect(m, q), p),
{
    assert(create_effect(create_effect(m, p), q).dom() =~= m.dom().insert(p.id).insert(q.id));
    assert(create_effect(create_effect(m, p), q) =~= create_effect(create_effect(m, q), p));
}

} // verus!
