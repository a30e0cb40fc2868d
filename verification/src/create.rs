//! Creating records.
//!
//! Every function here checks its payload, and only then takes the next
//! identifier from the counter, stamps the record with the time that the
//! caller hands in, stores it and returns it.

use crate::collection::Collection;
use crate::error::StoreError;
use crate::ids::{successor, IdAllocator};
use crate::model::{create_step, Request, Stored};
use crate::record::{Record, MAX_RECORD_SIZE};
use crate::schema::diet_record::{DietRecord, DietRecordPayload};
use crate::schema::exercise_recommendation::{ExerciseRecommendation, ExerciseRecommendationPayload};
use crate::schema::fitness_challenge::{FitnessChallenge, FitnessChallengePayload};
use crate::schema::fitness_challenge_participant::{
    FitnessChallengeParticipant, FitnessChallengeParticipantPayload,
};
use crate::schema::health_record::{HealthRecord, HealthRecordPayload};
use crate::schema::medication_reminder::{MedicationReminder, MedicationReminderPayload};
use crate::schema::mental_health_record::{MentalHealthRecord, MentalHealthRecordPayload};
use crate::schema::user::{User, UserPayload};
use crate::schema::virtual_consultation::{VirtualConsultation, VirtualConsultationPayload};
use crate::store::Store;
use vstd::prelude::*;

verus! {

/// Issues the next identifier, which `record` was made with, and stores the
/// record under it. Nothing changes where the record is too long to be
/// stored, or the counter does not take the identifier.
pub(crate) fn enter<R: Record>(
    ids: &mut IdAllocator,
    target: &mut Collection<R>,
    record: R,
) -> (out: Result<R, StoreError>)
    requires
        old(ids).last() < u64::MAX,
    ensures
        match out {
            Ok(stored) => {
                &&& stored == record
                &&& R::encoding(record@).len() <= MAX_RECORD_SIZE
                &&& final(ids).last() == old(ids).last() + 1
                &&& final(target)@ == old(target)@.insert(final(ids).last(), Some(record@))
            },
            Err(e) => {
                &&& final(ids).last() == old(ids).last()
                &&& final(target)@ == old(target)@
                &&& e == StoreError::RecordTooLarge || e == StoreError::CounterNotPersisted
                &&& e == StoreError::RecordTooLarge <==> R::encoding(record@).len()
                    > MAX_RECORD_SIZE
            },
        },
{
    let bytes = match record.encode() {
        Some(bytes) => bytes,
        None => {
            return Err(StoreError::RecordTooLarge);
        },
    };
    let id: u64 = match ids.next() {
        Ok(id) => id,
        Err(e) => {
            return Err(e);
        },
    };
    target.store(id, &bytes, &record);
    Ok(record)
}

/// Creates a user at the time `now`, under the next identifier. The payload is
/// turned down with `EmptyNameOrContact` where the name or the contact is
/// empty. A call that fails leaves the store as it was.
pub fn create_user(
    store: &mut Store,
    payload: UserPayload,
    now: u64,
) -> (out: Result<User, StoreError>)
    ensures
        create_step(
            old(store)@,
            Request::User(payload),
            now,
            final(store)@,
            match out {
                Ok(record) => Ok(Stored::User(record@)),
                Err(e) => Err(e),
            },
        ),
{
    if !payload.is_complete() {
        return Err(StoreError::EmptyNameOrContact);
    }
    let id: u64 = match successor(store.ids.last_id()) {
        Ok(id) => id,
        Err(e) => {
            return Err(e);
        },
    };
    let record = payload.into_record(id, now);
    enter(&mut store.ids, &mut store.users, record)
}

/// Creates a health record at the time `now`, under the next identifier. The
/// payload is turned down with `MissingField` where a required field is
/// missing, and with `UnknownUser` where the store holds no such user, in this
/// order. A call that fails leaves the store as it was.
pub fn create_health_record(
    store: &mut Store,
    payload: HealthRecordPayload,
    now: u64,
) -> (out: Result<HealthRecord, StoreError>)
    ensures
        create_step(
            old(store)@,
            Request::HealthRecord(payload),
            now,
            final(store)@,
            match out {
                Ok(record) => Ok(Stored::HealthRecord(record@)),
                Err(e) => Err(e),
            },
        ),
{
    if !payload.is_complete() {
        return Err(StoreError::MissingField);
    }
    if !store.users.contains(payload.user_id) {
        return Err(StoreError::UnknownUser);
    }
    let id: u64 = match successor(store.ids.last_id()) {
        Ok(id) => id,
        Err(e) => {
            return Err(e);
        },
    };
    let record = payload.into_record(id, now);
    enter(&mut store.ids, &mut store.health_records, record)
}

/// Creates a medication reminder at the time `now`, under the next identifier.
/// The payload is turned down with `MissingField` where a required field is
/// missing, and with `UnknownUser` where the store holds no such user, in this
/// order. A call that fails leaves the store as it was.
pub fn create_medication_reminder(
    store: &mut Store,
    payload: MedicationReminderPayload,
    now: u64,
) -> (out: Result<MedicationReminder, StoreError>)
    ensures
        create_step(
            old(store)@,
            Request::MedicationReminder(payload),
            now,
            final(store)@,
            match out {
                Ok(record) => Ok(Stored::MedicationReminder(record@)),
                Err(e) => Err(e),
            },
        ),
{
    if !payload.is_complete() {
        return Err(StoreError::MissingField);
    }
    if !store.users.contains(payload.user_id) {
        return Err(StoreError::UnknownUser);
    }
    let id: u64 = match successor(store.ids.last_id()) {
        Ok(id) => id,
        Err(e) => {
            return Err(e);
        },
    };
    let record = payload.into_record(id, now);
    enter(&mut store.ids, &mut store.medication_reminders, record)
}

/// Creates a virtual consultation at the time `now`, under the next
/// identifier. The payload is turned down with `MissingField` where a required
/// field is missing, with `UnknownUser` where the store holds no such user,
/// and with `UnknownProvider` where the store holds no such provider, in this
/// order. A call that fails leaves the store as it was.
pub fn create_virtual_consultation(
    store: &mut Store,
    payload: VirtualConsultationPayload,
    now: u64,
) -> (out: Result<VirtualConsultation, StoreError>)
    ensures
        create_step(
            old(store)@,
            Request::VirtualConsultation(payload),
            now,
            final(store)@,
            match out {
                Ok(record) => Ok(Stored::VirtualConsultation(record@)),
                Err(e) => Err(e),
            },
        ),
{
    if !payload.is_complete() {
        return Err(StoreError::MissingField);
    }
    if !store.users.contains(payload.user_id) {
        return Err(StoreError::UnknownUser);
    }
    if !store.users.contains(payload.provider_id) {
        return Err(StoreError::UnknownProvider);
    }
    let id: u64 = match successor(store.ids.last_id()) {
        Ok(id) => id,
        Err(e) => {
            return Err(e);
        },
    };
    let record = payload.into_record(id, now);
    enter(&mut store.ids, &mut store.virtual_consultations, record)
}

/// Creates a diet record at the time `now`, under the next identifier. The
/// payload is turned down with `MissingField` where a required field is
/// missing, and with `UnknownUser` where the store holds no such user, in this
/// order. A call that fails leaves the store as it was.
pub fn create_diet_record(
    store: &mut Store,
    payload: DietRecordPayload,
    now: u64,
) -> (out: Result<DietRecord, StoreError>)
    ensures
        create_step(
            old(store)@,
            Request::DietRecord(payload),
            now,
            final(store)@,
            match out {
                Ok(record) => Ok(Stored::DietRecord(record@)),
                Err(e) => Err(e),
            },
        ),
{
    if !payload.is_complete() {
        return Err(StoreError::MissingField);
    }
    if !store.users.contains(payload.user_id) {
        return Err(StoreError::UnknownUser);
    }
    let id: u64 = match successor(store.ids.last_id()) {
        Ok(id) => id,
        Err(e) => {
            return Err(e);
        },
    };
    let record = payload.into_record(id, now);
    enter(&mut store.ids, &mut store.diet_records, record)
}

/// Creates an exercise recommendation at the time `now`, under the next
/// identifier. The payload is turned down with `MissingField` where a required
/// field is missing, and with `UnknownUser` where the store holds no such
/// user, in this order. A call that fails leaves the store as it was.
pub fn create_exercise_recommendation(
    store: &mut Store,
    payload: ExerciseRecommendationPayload,
    now: u64,
) -> (out: Result<ExerciseRecommendation, StoreError>)
    ensures
        create_step(
            old(store)@,
            Request::ExerciseRecommendation(payload),
            now,
            final(store)@,
            match out {
                Ok(record) => Ok(Stored::ExerciseRecommendation(record@)),
                Err(e) => Err(e),
            },
        ),
{
    if !payload.is_complete() {
        return Err(StoreError::MissingField);
    }
    if !store.users.contains(payload.user_id) {
        return Err(StoreError::UnknownUser);
    }
    let id: u64 = match successor(store.ids.last_id()) {
        Ok(id) => id,
        Err(e) => {
            return Err(e);
        },
    };
    let record = payload.into_record(id, now);
    enter(&mut store.ids, &mut store.exercise_recommendations, record)
}

/// Creates a mental health record at the time `now`, under the next
/// identifier. The payload is turned down with `MissingField` where a required
/// field is missing, and with `UnknownUser` where the store holds no such
/// user, in this order. A call that fails leaves the store as it was.
pub fn create_mental_health_record(
    store: &mut Store,
    payload: MentalHealthRecordPayload,
    now: u64,
) -> (out: Result<MentalHealthRecord, StoreError>)
    ensures
        create_step(
            old(store)@,
            Request::MentalHealthRecord(payload),
            now,
            final(store)@,
            match out {
                Ok(record) => Ok(Stored::MentalHealthRecord(record@)),
                Err(e) => Err(e),
            },
        ),
{
    if !payload.is_complete() {
        return Err(StoreError::MissingField);
    }
    if !store.users.contains(payload.user_id) {
        return Err(StoreError::UnknownUser);
    }
    let id: u64 = match successor(store.ids.last_id()) {
        Ok(id) => id,
        Err(e) => {
            return Err(e);
        },
    };
    let record = payload.into_record(id, now);
    enter(&mut store.ids, &mut store.mental_health_records, record)
}

/// Creates a fitness challenge at the time `now`, under the next identifier.
/// The payload is turned down with `EmptyNameOrDescription` where the name or
/// the description is empty. A call that fails leaves the store as it was.
pub fn create_fitness_challenge(
    store: &mut Store,
    payload: FitnessChallengePayload,
    now: u64,
) -> (out: Result<FitnessChallenge, StoreError>)
    ensures
        create_step(
            old(store)@,
            Request::FitnessChallenge(payload),
            now,
            final(store)@,
            match out {
                Ok(record) => Ok(Stored::FitnessChallenge(record@)),
                Err(e) => Err(e),
            },
        ),
{
    if !payload.is_complete() {
        return Err(StoreError::EmptyNameOrDescription);
    }
    let id: u64 = match successor(store.ids.last_id()) {
        Ok(id) => id,
        Err(e) => {
            return Err(e);
        },
    };
    let record = payload.into_record(id, now);
    enter(&mut store.ids, &mut store.fitness_challenges, record)
}

/// Creates a participant of a fitness challenge at the time `now`, under the
/// next identifier. The payload is turned down with `UnknownChallenge` where
/// the store holds no such challenge, and with `UnknownUser` where the store
/// holds no such user, in this order. A call that fails leaves the store as it
/// was.
pub fn create_fitness_challenge_participant(
    store: &mut Store,
    payload: FitnessChallengeParticipantPayload,
    now: u64,
) -> (out: Result<FitnessChallengeParticipant, StoreError>)
    ensures
        create_step(
            old(store)@,
            Request::FitnessChallengeParticipant(payload),
            now,
            final(store)@,
            match out {
                Ok(record) => Ok(Stored::FitnessChallengeParticipant(record@)),
                Err(e) => Err(e),
            },
        ),
{
    if !store.fitness_challenges.contains(payload.challenge_id) {
        return Err(StoreError::UnknownChallenge);
    }
    if !store.users.contains(payload.user_id) {
        return Err(StoreError::UnknownUser);
    }
    let id: u64 = match successor(store.ids.last_id()) {
        Ok(id) => id,
        Err(e) => {
            return Err(e);
        },
    };
    let record = payload.into_record(id, now);
    enter(&mut store.ids, &mut store.fitness_challenge_participants, record)
}

} // verus!
