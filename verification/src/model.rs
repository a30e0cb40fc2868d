//! What creating a record does, as a relation between the store before the
//! call and the store after it.
//!
//! A request is checked in three steps, and the first that fails decides the
//! answer: the required fields, then the records that the payload refers to,
//! then whether an identifier is left and the record fits. Only a request
//! that passes all three reaches the counter, so a request that is turned
//! down uses no identifier.

use crate::error::{Entity, StoreError};
use crate::record::{Record, MAX_RECORD_SIZE};
use crate::schema::diet_record::{DietRecord, DietRecordPayload, DietRecordView};
use crate::schema::exercise_recommendation::{
    ExerciseRecommendation, ExerciseRecommendationPayload, ExerciseRecommendationView,
};
use crate::schema::fitness_challenge::{
    FitnessChallenge, FitnessChallengePayload, FitnessChallengeView,
};
use crate::schema::fitness_challenge_participant::{
    FitnessChallengeParticipant, FitnessChallengeParticipantPayload,
    FitnessChallengeParticipantView,
};
use crate::schema::health_record::{HealthRecord, HealthRecordPayload, HealthRecordView};
use crate::schema::medication_reminder::{
    MedicationReminder, MedicationReminderPayload, MedicationReminderView,
};
use crate::schema::mental_health_record::{
    MentalHealthRecord, MentalHealthRecordPayload, MentalHealthRecordView,
};
use crate::schema::user::{User, UserPayload, UserView};
use crate::schema::virtual_consultation::{
    VirtualConsultation, VirtualConsultationPayload, VirtualConsultationView,
};
use crate::store::StoreView;
use vstd::prelude::*;

verus! {

/// A payload of any kind.
pub enum Request {
    User(UserPayload),
    HealthRecord(HealthRecordPayload),
    MedicationReminder(MedicationReminderPayload),
    VirtualConsultation(VirtualConsultationPayload),
    DietRecord(DietRecordPayload),
    ExerciseRecommendation(ExerciseRecommendationPayload),
    MentalHealthRecord(MentalHealthRecordPayload),
    FitnessChallenge(FitnessChallengePayload),
    FitnessChallengeParticipant(FitnessChallengeParticipantPayload),
}

/// A record of any kind, as it reads.
pub enum Stored {
    User(UserView),
    HealthRecord(HealthRecordView),
    MedicationReminder(MedicationReminderView),
    VirtualConsultation(VirtualConsultationView),
    DietRecord(DietRecordView),
    ExerciseRecommendation(ExerciseRecommendationView),
    MentalHealthRecord(MentalHealthRecordView),
    FitnessChallenge(FitnessChallengeView),
    FitnessChallengeParticipant(FitnessChallengeParticipantView),
}

impl Stored {
    /// The record's identifier.
    pub open spec fn id(self) -> u64 {
        match self {
            Stored::User(r) => r.id,
            Stored::HealthRecord(r) => r.id,
            Stored::MedicationReminder(r) => r.id,
            Stored::VirtualConsultation(r) => r.id,
            Stored::DietRecord(r) => r.id,
            Stored::ExerciseRecommendation(r) => r.id,
            Stored::MentalHealthRecord(r) => r.id,
            Stored::FitnessChallenge(r) => r.id,
            Stored::FitnessChallengeParticipant(r) => r.id,
        }
    }

    /// The kind of the record.
    pub open spec fn entity(self) -> Entity {
        match self {
            Stored::User(_) => Entity::User,
            Stored::HealthRecord(_) => Entity::HealthRecord,
            Stored::MedicationReminder(_) => Entity::MedicationReminder,
            Stored::VirtualConsultation(_) => Entity::VirtualConsultation,
            Stored::DietRecord(_) => Entity::DietRecord,
            Stored::ExerciseRecommendation(_) => Entity::ExerciseRecommendation,
            Stored::MentalHealthRecord(_) => Entity::MentalHealthRecord,
            Stored::FitnessChallenge(_) => Entity::FitnessChallenge,
            Stored::FitnessChallengeParticipant(_) => Entity::FitnessChallengeParticipant,
        }
    }

    /// The record's byte form.
    pub open spec fn encoding(self) -> Seq<u8> {
        match self {
            Stored::User(r) => User::encoding(r),
            Stored::HealthRecord(r) => HealthRecord::encoding(r),
            Stored::MedicationReminder(r) => MedicationReminder::encoding(r),
            Stored::VirtualConsultation(r) => VirtualConsultation::encoding(r),
            Stored::DietRecord(r) => DietRecord::encoding(r),
            Stored::ExerciseRecommendation(r) => ExerciseRecommendation::encoding(r),
            Stored::MentalHealthRecord(r) => MentalHealthRecord::encoding(r),
            Stored::FitnessChallenge(r) => FitnessChallenge::encoding(r),
            Stored::FitnessChallengeParticipant(r) => FitnessChallengeParticipant::encoding(r),
        }
    }
}

impl Request {
    /// The kind of record that the request asks for.
    pub open spec fn entity(self) -> Entity {
        match self {
            Request::User(_) => Entity::User,
            Request::HealthRecord(_) => Entity::HealthRecord,
            Request::MedicationReminder(_) => Entity::MedicationReminder,
            Request::VirtualConsultation(_) => Entity::VirtualConsultation,
            Request::DietRecord(_) => Entity::DietRecord,
            Request::ExerciseRecommendation(_) => Entity::ExerciseRecommendation,
            Request::MentalHealthRecord(_) => Entity::MentalHealthRecord,
            Request::FitnessChallenge(_) => Entity::FitnessChallenge,
            Request::FitnessChallengeParticipant(_) => Entity::FitnessChallengeParticipant,
        }
    }
}

/// The identifier that follows `last`.
pub open spec fn next_id(last: u64) -> u64 {
    (last + 1) as u64
}

/// The failure that a missing required field gives, `None` where none is
/// missing.
pub open spec fn incomplete(r: Request) -> Option<StoreError> {
    match r {
        Request::User(p) => {
            if p.complete() {
                None
            } else {
                Some(StoreError::EmptyNameOrContact)
            }
        },
        Request::HealthRecord(p) => {
            if p.complete() {
                None
            } else {
                Some(StoreError::MissingField)
            }
        },
        Request::MedicationReminder(p) => {
            if p.complete() {
                None
            } else {
                Some(StoreError::MissingField)
            }
        },
        Request::VirtualConsultation(p) => {
            if p.complete() {
                None
            } else {
                Some(StoreError::MissingField)
            }
        },
        Request::DietRecord(p) => {
            if p.complete() {
                None
            } else {
                Some(StoreError::MissingField)
            }
        },
        Request::ExerciseRecommendation(p) => {
            if p.complete() {
                None
            } else {
                Some(StoreError::MissingField)
            }
        },
        Request::MentalHealthRecord(p) => {
            if p.complete() {
                None
            } else {
                Some(StoreError::MissingField)
            }
        },
        Request::FitnessChallenge(p) => {
            if p.complete() {
                None
            } else {
                Some(StoreError::EmptyNameOrDescription)
            }
        },
        Request::FitnessChallengeParticipant(_) => None,
    }
}

/// The failure that names the first record which the payload refers to and
/// the store does not hold, `None` where it holds them all. The references
/// are looked up in the order in which the payload declares them.
pub open spec fn missing_reference(s: StoreView, r: Request) -> Option<StoreError> {
    match r {
        Request::User(_) => None,
        Request::HealthRecord(p) => {
            if !s.users.dom().contains(p.user_id) {
                Some(StoreError::UnknownUser)
            } else {
                None
            }
        },
        Request::MedicationReminder(p) => {
            if !s.users.dom().contains(p.user_id) {
                Some(StoreError::UnknownUser)
            } else {
                None
            }
        },
        Request::VirtualConsultation(p) => {
            if !s.users.dom().contains(p.user_id) {
                Some(StoreError::UnknownUser)
            } else if !s.users.dom().contains(p.provider_id) {
                Some(StoreError::UnknownProvider)
            } else {
                None
            }
        },
        Request::DietRecord(p) => {
            if !s.users.dom().contains(p.user_id) {
                Some(StoreError::UnknownUser)
            } else {
                None
            }
        },
        Request::ExerciseRecommendation(p) => {
            if !s.users.dom().contains(p.user_id) {
                Some(StoreError::UnknownUser)
            } else {
                None
            }
        },
        Request::MentalHealthRecord(p) => {
            if !s.users.dom().contains(p.user_id) {
                Some(StoreError::UnknownUser)
            } else {
                None
            }
        },
        Request::FitnessChallenge(_) => None,
        Request::FitnessChallengeParticipant(p) => {
            if !s.fitness_challenges.dom().contains(p.challenge_id) {
                Some(StoreError::UnknownChallenge)
            } else if !s.users.dom().contains(p.user_id) {
                Some(StoreError::UnknownUser)
            } else {
                None
            }
        },
    }
}

/// The record that the request becomes: the payload under the next
/// identifier, at the time `now`.
pub open spec fn candidate(s: StoreView, r: Request, now: u64) -> Stored {
    match r {
        Request::User(p) => Stored::User(p.record(next_id(s.last_id), now)),
        Request::HealthRecord(p) => Stored::HealthRecord(p.record(next_id(s.last_id), now)),
        Request::MedicationReminder(p) => Stored::MedicationReminder(
            p.record(next_id(s.last_id), now),
        ),
        Request::VirtualConsultation(p) => Stored::VirtualConsultation(
            p.record(next_id(s.last_id), now),
        ),
        Request::DietRecord(p) => Stored::DietRecord(p.record(next_id(s.last_id), now)),
        Request::ExerciseRecommendation(p) => Stored::ExerciseRecommendation(
            p.record(next_id(s.last_id), now),
        ),
        Request::MentalHealthRecord(p) => Stored::MentalHealthRecord(
            p.record(next_id(s.last_id), now),
        ),
        Request::FitnessChallenge(p) => Stored::FitnessChallenge(p.record(next_id(s.last_id), now)),
        Request::FitnessChallengeParticipant(p) => Stored::FitnessChallengeParticipant(
            p.record(next_id(s.last_id), now),
        ),
    }
}

/// The failure that keeps a checked record out of the store: no identifier
/// is left, or the record's byte form is too long.
pub open spec fn placement(s: StoreView, record: Stored) -> Option<StoreError> {
    if s.last_id == u64::MAX {
        Some(StoreError::IdsExhausted)
    } else if record.encoding().len() > MAX_RECORD_SIZE {
        Some(StoreError::RecordTooLarge)
    } else {
        None
    }
}

/// Why the store turns the request down, `None` where it does not.
pub open spec fn refusal(s: StoreView, r: Request, now: u64) -> Option<StoreError> {
    if incomplete(r) is Some {
        incomplete(r)
    } else if missing_reference(s, r) is Some {
        missing_reference(s, r)
    } else {
        placement(s, candidate(s, r, now))
    }
}

impl StoreView {
    /// The store after `record` was issued its identifier and stored.
    pub open spec fn with(self, record: Stored) -> StoreView {
        match record {
            Stored::User(r) => StoreView {
                last_id: r.id,
                users: self.users.insert(r.id, Some(r)),
                ..self
            },
            Stored::HealthRecord(r) => StoreView {
                last_id: r.id,
                health_records: self.health_records.insert(r.id, Some(r)),
                ..self
            },
            Stored::MedicationReminder(r) => StoreView {
                last_id: r.id,
                medication_reminders: self.medication_reminders.insert(r.id, Some(r)),
                ..self
            },
            Stored::VirtualConsultation(r) => StoreView {
                last_id: r.id,
                virtual_consultations: self.virtual_consultations.insert(r.id, Some(r)),
                ..self
            },
            Stored::DietRecord(r) => StoreView {
                last_id: r.id,
                diet_records: self.diet_records.insert(r.id, Some(r)),
                ..self
            },
            Stored::ExerciseRecommendation(r) => StoreView {
                last_id: r.id,
                exercise_recommendations: self.exercise_recommendations.insert(r.id, Some(r)),
                ..self
            },
            Stored::MentalHealthRecord(r) => StoreView {
                last_id: r.id,
                mental_health_records: self.mental_health_records.insert(r.id, Some(r)),
                ..self
            },
            Stored::FitnessChallenge(r) => StoreView {
                last_id: r.id,
                fitness_challenges: self.fitness_challenges.insert(r.id, Some(r)),
                ..self
            },
            Stored::FitnessChallengeParticipant(r) => StoreView {
                last_id: r.id,
                fitness_challenge_participants: self.fitness_challenge_participants.insert(
                    r.id,
                    Some(r),
                ),
                ..self
            },
        }
    }

    /// Whether `record` is in its collection, under its identifier, and its
    /// identifier is one that the counter has issued.
    pub open spec fn holds(self, record: Stored) -> bool {
        &&& record.id() <= self.last_id
        &&& match record {
            Stored::User(r) => self.users.contains_pair(r.id, Some(r)),
            Stored::HealthRecord(r) => self.health_records.contains_pair(r.id, Some(r)),
            Stored::MedicationReminder(r) => self.medication_reminders.contains_pair(r.id, Some(r)),
            Stored::VirtualConsultation(r) => self.virtual_consultations.contains_pair(
                r.id,
                Some(r),
            ),
            Stored::DietRecord(r) => self.diet_records.contains_pair(r.id, Some(r)),
            Stored::ExerciseRecommendation(r) => self.exercise_recommendations.contains_pair(
                r.id,
                Some(r),
            ),
            Stored::MentalHealthRecord(r) => self.mental_health_records.contains_pair(
                r.id,
                Some(r),
            ),
            Stored::FitnessChallenge(r) => self.fitness_challenges.contains_pair(r.id, Some(r)),
            Stored::FitnessChallengeParticipant(r) => {
                self.fitness_challenge_participants.contains_pair(r.id, Some(r))
            },
        }
    }
}

/// A call that creates a record takes the store from `pre` to `post` and
/// returns `out`.
///
/// A request that the store turns down fails with the reason, and the store
/// stays as it was. A request that it accepts is stored under the next
/// identifier and returned. It may still fail with `CounterNotPersisted`,
/// where the counter's cell did not take the identifier; the store stays as
/// it was then, too.
pub open spec fn create_step(
    pre: StoreView,
    r: Request,
    now: u64,
    post: StoreView,
    out: Result<Stored, StoreError>,
) -> bool {
    match out {
        Ok(record) => {
            &&& refusal(pre, r, now) is None
            &&& record == candidate(pre, r, now)
            &&& post == pre.with(record)
        },
        Err(e) => {
            &&& post == pre
            &&& if e == StoreError::CounterNotPersisted {
                refusal(pre, r, now) is None
            } else {
                refusal(pre, r, now) == Some(e)
            }
        },
    }
}

} // verus!
