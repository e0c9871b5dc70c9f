//! Profile data model: value types for a registered user and the validation
//! rules on match preferences.

use vstd::prelude::*;
use vstd::string::*;

verus! {

/// Spec-level shape of a [`Gender`]: the open `Other` variant carries its tag
/// text as a sequence of characters.
pub enum GenderView {
    Male,
    Female,
    NonBinary,
    Other(Seq<char>),
}

/// A profile's gender, an open-world enumeration: values outside the three
/// fixed variants travel as `Other` with a free-form tag.
#[derive(Debug, PartialEq, Eq)]
pub enum Gender {
    Male,
    Female,
    NonBinary,
    Other(String),
}

impl View for Gender {
    type V = GenderView;

    open spec fn view(&self) -> GenderView {
        match self {
            Gender::Male => GenderView::Male,
            Gender::Female => GenderView::Female,
            Gender::NonBinary => GenderView::NonBinary,
            Gender::Other(tag) => GenderView::Other(tag@),
        }
    }
}

impl Clone for Gender {
    fn clone(&self) -> (r: Self)
        ensures
            r == *self,
    {
        match self {
            Gender::Male => Gender::Male,
            Gender::Female => Gender::Female,
            Gender::NonBinary => Gender::NonBinary,
            Gender::Other(tag) => Gender::Other(tag.clone()),
        }
    }
}

/// Spec-level shape of a [`Location`].
#[verifier::ext_equal]
pub struct LocationView {
    pub city: Seq<char>,
    pub country: Seq<char>,
}

/// Where a profile's owner lives; both parts are plain text and may be empty.
#[derive(Debug, PartialEq, Eq)]
pub struct Location {
    pub city: String,
    pub country: String,
}

impl View for Location {
    type V = LocationView;

    open spec fn view(&self) -> LocationView {
        LocationView { city: self.city@, country: self.country@ }
    }
}

impl Clone for Location {
    fn clone(&self) -> (r: Self)
        ensures
            r == *self,
    {
        Location { city: self.city.clone(), country: self.country.clone() }
    }
}

impl Default for Location {
    /// The default location leaves both parts empty.
    fn default() -> (r: Self)
        ensures
            r.city@ == Seq::<char>::empty(),
            r.country@ == Seq::<char>::empty(),
    {
        Location { city: String::new(), country: String::new() }
    }
}

/// Spec-level shape of a [`RelationshipGoal`].
pub enum RelationshipGoalView {
    Casual,
    Serious,
    Friendship,
    Other(Seq<char>),
}

/// What a profile's owner is looking for, an open-world enumeration like
/// [`Gender`].
#[derive(Debug, PartialEq, Eq)]
pub enum RelationshipGoal {
    Casual,
    Serious,
    Friendship,
    Other(String),
}

impl View for RelationshipGoal {
    type V = RelationshipGoalView;

    open spec fn view(&self) -> RelationshipGoalView {
        match self {
            RelationshipGoal::Casual => RelationshipGoalView::Casual,
            RelationshipGoal::Serious => RelationshipGoalView::Serious,
            RelationshipGoal::Friendship => RelationshipGoalView::Friendship,
            RelationshipGoal::Other(tag) => RelationshipGoalView::Other(tag@),
        }
    }
}

impl Clone for RelationshipGoal {
    fn clone(&self) -> (r: Self)
        ensures
            r == *self,
    {
        match self {
            RelationshipGoal::Casual => RelationshipGoal::Casual,
            RelationshipGoal::Serious => RelationshipGoal::Serious,
            RelationshipGoal::Friendship => RelationshipGoal::Friendship,
            RelationshipGoal::Other(tag) => RelationshipGoal::Other(tag.clone()),
        }
    }
}

/// Why a [`Preferences`] value was rejected.
#[derive(Clone, Copy, Debug, PartialEq, Eq, Structural)]
pub enum ValidationError {
    /// The minimum of the preferred age range is not below its maximum.
    InvalidRange,
    /// The minimum of the preferred age range is below 18.
    AgeFloorViolation,
}

impl ValidationError {
    /// The human-readable reason for the rejection.
    pub fn message(&self) -> (r: String)
        ensures
            *self is InvalidRange ==> r@ == "Minimum age must be less than maximum age"@,
            *self is AgeFloorViolation ==> r@ == "Minimum age must be at least 18"@,
    {
        match self {
            ValidationError::InvalidRange => String::from_str(
                "Minimum age must be less than maximum age",
            ),
            ValidationError::AgeFloorViolation => String::from_str(
                "Minimum age must be at least 18",
            ),
        }
    }
}

/// Spec-level shape of a [`Preferences`] value.
#[verifier::ext_equal]
pub struct PreferencesView {
    pub preferred_age_range: (u8, u8),
    pub preferred_genders: Seq<GenderView>,
    pub relationship_goal: RelationshipGoalView,
}

/// A profile's match preferences. A valid value has a preferred age range
/// whose minimum is at least 18 and below its maximum; an empty gender list
/// means "no restriction".
#[derive(Debug, PartialEq, Eq)]
pub struct Preferences {
    pub preferred_age_range: (u8, u8),
    pub preferred_genders: Vec<Gender>,
    pub relationship_goal: RelationshipGoal,
}

impl View for Preferences {
    type V = PreferencesView;

    open spec fn view(&self) -> PreferencesView {
        PreferencesView {
            preferred_age_range: self.preferred_age_range,
            preferred_genders: self.preferred_genders@.map_values(|g: Gender| g@),
            relationship_goal: self.relationship_goal@,
        }
    }
}

/// What validating an age range (minimum, maximum) reports: an inverted or
/// empty range is rejected first, then a minimum under the age floor of 18.
pub open spec fn validate_outcome(min: u8, max: u8) -> Result<(), ValidationError> {
    if min >= max {
        Err(ValidationError::InvalidRange)
    } else if min < 18 {
        Err(ValidationError::AgeFloorViolation)
    } else {
        Ok(())
    }
}

impl Preferences {
    /// Check the preferences invariant: `min < max` and `min >= 18` for the
    /// preferred age range. Pure and deterministic; a violation is reported
    /// as a value, never as a panic.
    pub fn validate(&self) -> (r: Result<(), ValidationError>)
        ensures
            r == validate_outcome(self.preferred_age_range.0, self.preferred_age_range.1),
            r is Ok <==> 18 <= self.preferred_age_range.0 < self.preferred_age_range.1,
    {
        let (min, max) = self.preferred_age_range;
        if min >= max {
            return Err(ValidationError::InvalidRange);
        }
        if min < 18 {
            return Err(ValidationError::AgeFloorViolation);
        }
        Ok(())
    }
}

impl Clone for Preferences {
    fn clone(&self) -> (r: Self)
        ensures
            r@ == self@,
            r.preferred_age_range == self.preferred_age_range,
    {
        let genders = self.preferred_genders.clone();
        proof {
            assert forall|i: int| 0 <= i < genders@.len() implies genders@[i]
                == self.preferred_genders@[i] by {
                assert(cloned::<Gender>(self.preferred_genders@[i], genders@[i]));
            }
            assert(genders@ =~= self.preferred_genders@);
        }
        Preferences {
            preferred_age_range: self.preferred_age_range,
            preferred_genders: genders,
            relationship_goal: self.relationship_goal.clone(),
        }
    }
}

impl Default for Preferences {
    /// The default preferences accept the widest valid age range, place no
    /// restriction on genders, and aim for friendship.
    fn default() -> (r: Self)
        ensures
            r.preferred_age_range.0 == 18 && r.preferred_age_range.1 == 99,
            r.preferred_genders@ == Seq::<Gender>::empty(),
            r.relationship_goal == RelationshipGoal::Friendship,
            validate_outcome(r.preferred_age_range.0, r.preferred_age_range.1) is Ok,
    {
        Preferences {
            preferred_age_range: (18, 99),
            preferred_genders: Vec::new(),
            relationship_goal: RelationshipGoal::Friendship,
        }
    }
}

/// Spec-level shape of a [`Profile`].
#[verifier::ext_equal]
pub struct ProfileView {
    pub id: u64,
    pub name: Seq<char>,
    pub age: u8,
    pub gender: GenderView,
    pub location: LocationView,
    pub interests: Seq<Seq<char>>,
    pub preferences: PreferencesView,
}

/// A registered user: a caller-assigned numeric identity, descriptive
/// attributes, and embedded match preferences. Once inserted in the registry
/// the stored value is never updated; callers pass and receive copies.
#[derive(Debug, PartialEq, Eq)]
pub struct Profile {
    pub id: u64,
    pub name: String,
    pub age: u8,
    pub gender: Gender,
    pub location: Location,
    pub interests: Vec<String>,
    pub preferences: Preferences,
}

impl View for Profile {
    type V = ProfileView;

    open spec fn view(&self) -> ProfileView {
        ProfileView {
            id: self.id,
            name: self.name@,
            age: self.age,
            gender: self.gender@,
            location: self.location@,
            interests: self.interests@.map_values(|s: String| s@),
            preferences: self.preferences@,
        }
    }
}

impl Profile {
    /// Read access to the embedded preferences.
    pub fn get_preferences(&self) -> (r: &Preferences)
        ensures
            *r == self.preferences,
    {
        &self.preferences
    }
}

impl Clone for Profile {
    fn clone(&self) -> (r: Self)
        ensures
            r@ == self@,
            r.id == self.id,
    {
        let interests = self.interests.clone();
        proof {
            assert forall|i: int| 0 <= i < interests@.len() implies interests@[i]
                == self.interests@[i] by {
                assert(cloned::<String>(self.interests@[i], interests@[i]));
            }
            assert(interests@ =~= self.interests@);
        }
        Profile {
            id: self.id,
            name: self.name.clone(),
            age: self.age,
            gender: self.gender.clone(),
            location: self.location.clone(),
            interests,
            preferences: self.preferences.clone(),
        }
    }
}

/// Every preference range whose minimum is not below its maximum is rejected
/// as `InvalidRange`.
pub proof fn lemma_validate_rejects_inverted_range(min: u8, max: u8)
    requires
        min >= max,
    ensures
        validate_outcome(min, max) == Err::<(), ValidationError>(ValidationError::InvalidRange),
{
}

/// Every preference range below the age floor of 18 is rejected as
/// `AgeFloorViolation`, provided the range itself is in order (an inverted
/// range is rejected as `InvalidRange` first).
pub proof fn lemma_validate_rejects_underage(min: u8, max: u8)
    requires
        min < max,
        min < 18,
    ensures
        validate_outcome(min, max) == Err::<(), ValidationError>(
            ValidationError::AgeFloorViolation,
        ),
{
}

/// Every preference range with `18 <= min < max` passes validation.
pub proof fn lemma_validate_accepts_valid_range(min: u8, max: u8)
    requires
        18 <= min < max,
    ensures
        validate_outcome(min, max) == Ok::<(), ValidationError>(()),
{
}

} // verus!
