//! Why the store turned a call down.

use vstd::prelude::*;
use vstd::string::StringExecFns;

verus! {

/// The kinds of record, one collection each.
#[derive(Clone, Copy, Debug, PartialEq, Eq, Hash)]
pub enum Entity {
    User,
    HealthRecord,
    MedicationReminder,
    VirtualConsultation,
    DietRecord,
    ExerciseRecommendation,
    MentalHealthRecord,
    FitnessChallenge,
    FitnessChallengeParticipant,
}

impl Entity {
    /// What a listing says when it finds no record of this kind.
    pub open spec fn none_found_text(self) -> Seq<char> {
        match self {
            Entity::User => "No users found."@,
            Entity::HealthRecord => "No health records found."@,
            Entity::MedicationReminder => "No medication reminders found."@,
            Entity::VirtualConsultation => "No virtual consultations found."@,
            Entity::DietRecord => "No diet records found."@,
            Entity::ExerciseRecommendation => "No exercise recommendations found."@,
            Entity::MentalHealthRecord => "No mental health records found."@,
            Entity::FitnessChallenge => "No fitness challenges found."@,
            Entity::FitnessChallengeParticipant => "No fitness challenge participants found."@,
        }
    }

    /// What a listing says when it finds no record of this kind.
    pub fn none_found(&self) -> (text: String)
        ensures
            text@ == self.none_found_text(),
    {
        match self {
            Entity::User => String::from_str("No users found."),
            Entity::HealthRecord => String::from_str("No health records found."),
            Entity::MedicationReminder => String::from_str("No medication reminders found."),
            Entity::VirtualConsultation => String::from_str("No virtual consultations found."),
            Entity::DietRecord => String::from_str("No diet records found."),
            Entity::ExerciseRecommendation => String::from_str(
                "No exercise recommendations found.",
            ),
            Entity::MentalHealthRecord => String::from_str("No mental health records found."),
            Entity::FitnessChallenge => String::from_str("No fitness challenges found."),
            Entity::FitnessChallengeParticipant => String::from_str(
                "No fitness challenge participants found.",
            ),
        }
    }
}

/// Every way in which a call to the store fails. A call that fails leaves the
/// store as it was.
#[derive(Clone, Copy, Debug, PartialEq, Eq, Hash)]
pub enum StoreError {
    /// A user was submitted without a name or without a contact.
    EmptyNameOrContact,
    /// A challenge was submitted without a name or without a description.
    EmptyNameOrDescription,
    /// A required text was empty, or a required number was zero.
    MissingField,
    /// The payload's user is not in the collection of users.
    UnknownUser,
    /// The payload's provider is not in the collection of users.
    UnknownProvider,
    /// The payload's challenge is not in the collection of challenges.
    UnknownChallenge,
    /// The record's encoding is longer than a collection stores.
    RecordTooLarge,
    /// Every identifier has been issued.
    IdsExhausted,
    /// The counter did not take the next identifier.
    CounterNotPersisted,
    /// The counter's region could not be set up.
    CounterUnavailable,
    /// The listing found no record.
    NoneFound(Entity),
    /// A stored entry does not decode to a record.
    Unreadable(Entity),
}

impl StoreError {
    /// The text that describes the failure to a caller.
    pub open spec fn text(self) -> Seq<char> {
        match self {
            StoreError::EmptyNameOrContact => "Name and contact cannot be empty"@,
            StoreError::EmptyNameOrDescription => "Name and description cannot be empty"@,
            StoreError::MissingField => "All fields must be provided."@,
            StoreError::UnknownUser => "User ID does not exist."@,
            StoreError::UnknownProvider => "Provider ID does not exist."@,
            StoreError::UnknownChallenge => "Challenge ID does not exist."@,
            StoreError::RecordTooLarge => "Record is too large to store."@,
            StoreError::IdsExhausted => "No identifier is left."@,
            StoreError::CounterNotPersisted => "Cannot increment ID counter"@,
            StoreError::CounterUnavailable => "Cannot create a counter"@,
            StoreError::NoneFound(entity) => entity.none_found_text(),
            StoreError::Unreadable(_) => "Stored record cannot be read."@,
        }
    }

    /// The text that describes the failure to a caller.
    pub fn message(&self) -> (text: String)
        ensures
            text@ == self.text(),
    {
        match self {
            StoreError::EmptyNameOrContact => String::from_str("Name and contact cannot be empty"),
            StoreError::EmptyNameOrDescription => String::from_str(
                "Name and description cannot be empty",
            ),
            StoreError::MissingField => String::from_str("All fields must be provided."),
            StoreError::UnknownUser => String::from_str("User ID does not exist."),
            StoreError::UnknownProvider => String::from_str("Provider ID does not exist."),
            StoreError::UnknownChallenge => String::from_str("Challenge ID does not exist."),
            StoreError::RecordTooLarge => String::from_str("Record is too large to store."),
            StoreError::IdsExhausted => String::from_str("No identifier is left."),
            StoreError::CounterNotPersisted => String::from_str("Cannot increment ID counter"),
            StoreError::CounterUnavailable => String::from_str("Cannot create a counter"),
            StoreError::NoneFound(entity) => entity.none_found(),
            StoreError::Unreadable(_) => String::from_str("Stored record cannot be read."),
        }
    }

    /// Whether the failure says that a referenced record does not exist.
    pub open spec fn is_missing_reference(self) -> bool {
        self == StoreError::UnknownUser || self == StoreError::UnknownProvider || self
            == StoreError::UnknownChallenge
    }
}

} // verus!
