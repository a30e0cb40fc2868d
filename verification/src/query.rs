//! Listing records.
//!
//! A listing returns the records of one collection by ascending identifier.
//! It never returns an empty list: where there is nothing to return, it fails
//! with `NoneFound`. It fails with `Unreadable` where the collection holds an
//! entry that is no record.

use crate::collection::{answers, listing, listing_owned};
use crate::error::{Entity, StoreError};
use crate::schema::diet_record::DietRecord;
use crate::schema::exercise_recommendation::ExerciseRecommendation;
use crate::schema::fitness_challenge::FitnessChallenge;
use crate::schema::fitness_challenge_participant::FitnessChallengeParticipant;
use crate::schema::health_record::HealthRecord;
use crate::schema::medication_reminder::MedicationReminder;
use crate::schema::mental_health_record::MentalHealthRecord;
use crate::schema::user::User;
use crate::schema::virtual_consultation::VirtualConsultation;
use crate::store::Store;
use vstd::prelude::*;

verus! {

/// All users.
pub fn get_all_users(store: &Store) -> (out: Result<Vec<User>, StoreError>)
    ensures
        answers(out, listing(Entity::User, store@.users)),
        out matches Ok(records) ==> records@.len() > 0,
{
    store.users.list()
}

/// All health records.
pub fn get_all_health_records(store: &Store) -> (out: Result<Vec<HealthRecord>, StoreError>)
    ensures
        answers(out, listing(Entity::HealthRecord, store@.health_records)),
        out matches Ok(records) ==> records@.len() > 0,
{
    store.health_records.list()
}

/// All medication reminders.
pub fn get_all_medication_reminders(
    store: &Store,
) -> (out: Result<Vec<MedicationReminder>, StoreError>)
    ensures
        answers(out, listing(Entity::MedicationReminder, store@.medication_reminders)),
        out matches Ok(records) ==> records@.len() > 0,
{
    store.medication_reminders.list()
}

/// All virtual consultations.
pub fn get_all_virtual_consultations(
    store: &Store,
) -> (out: Result<Vec<VirtualConsultation>, StoreError>)
    ensures
        answers(out, listing(Entity::VirtualConsultation, store@.virtual_consultations)),
        out matches Ok(records) ==> records@.len() > 0,
{
    store.virtual_consultations.list()
}

/// The diet records of the user `user_id`.
pub fn get_diet_records_by_user_id(
    store: &Store,
    user_id: u64,
) -> (out: Result<Vec<DietRecord>, StoreError>)
    ensures
        answers(out, listing_owned::<DietRecord>(store@.diet_records, user_id)),
        out matches Ok(records) ==> records@.len() > 0,
{
    store.diet_records.list_owned(user_id)
}

/// All diet records.
pub fn get_all_diet_records(store: &Store) -> (out: Result<Vec<DietRecord>, StoreError>)
    ensures
        answers(out, listing(Entity::DietRecord, store@.diet_records)),
        out matches Ok(records) ==> records@.len() > 0,
{
    store.diet_records.list()
}

/// The exercise recommendations of the user `user_id`.
pub fn get_exercise_recommendations_by_user_id(
    store: &Store,
    user_id: u64,
) -> (out: Result<Vec<ExerciseRecommendation>, StoreError>)
    ensures
        answers(
            out,
            listing_owned::<ExerciseRecommendation>(store@.exercise_recommendations, user_id),
        ),
        out matches Ok(records) ==> records@.len() > 0,
{
    store.exercise_recommendations.list_owned(user_id)
}

/// All exercise recommendations.
pub fn get_all_exercise_recommendations(
    store: &Store,
) -> (out: Result<Vec<ExerciseRecommendation>, StoreError>)
    ensures
        answers(out, listing(Entity::ExerciseRecommendation, store@.exercise_recommendations)),
        out matches Ok(records) ==> records@.len() > 0,
{
    store.exercise_recommendations.list()
}

/// The mental health records of the user `user_id`.
pub fn get_mental_health_records_by_user_id(
    store: &Store,
    user_id: u64,
) -> (out: Result<Vec<MentalHealthRecord>, StoreError>)
    ensures
        answers(out, listing_owned::<MentalHealthRecord>(store@.mental_health_records, user_id)),
        out matches Ok(records) ==> records@.len() > 0,
{
    store.mental_health_records.list_owned(user_id)
}

/// All mental health records.
pub fn get_all_mental_health_records(
    store: &Store,
) -> (out: Result<Vec<MentalHealthRecord>, StoreError>)
    ensures
        answers(out, listing(Entity::MentalHealthRecord, store@.mental_health_records)),
        out matches Ok(records) ==> records@.len() > 0,
{
    store.mental_health_records.list()
}

/// All fitness challenges.
pub fn get_all_fitness_challenges(store: &Store) -> (out: Result<Vec<FitnessChallenge>, StoreError>)
    ensures
        answers(out, listing(Entity::FitnessChallenge, store@.fitness_challenges)),
        out matches Ok(records) ==> records@.len() > 0,
{
    store.fitness_challenges.list()
}

/// All participants of fitness challenges.
pub fn get_all_fitness_challenge_participants(
    store: &Store,
) -> (out: Result<Vec<FitnessChallengeParticipant>, StoreError>)
    ensures
        answers(
            out,
            listing(Entity::FitnessChallengeParticipant, store@.fitness_challenge_participants),
        ),
        out matches Ok(records) ==> records@.len() > 0,
{
    store.fitness_challenge_participants.list()
}

} // verus!
