//! Durable record keeping for a caregiving service.
//!
//! A [`Store`] keeps nine collections of records and the counter that every
//! identifier comes from, each in a region of stable memory of its own. A
//! record is created once, from a payload that is checked before anything is
//! written, and is never changed or removed afterwards. Identifiers are
//! shared by all collections: each is one more than the last, whatever kind
//! of record it went to.
//!
//! The creating functions are in [`create`], the listing functions in
//! [`query`]. What they do is stated in [`model`] and [`collection`], and
//! [`laws`] holds what follows from it for every store.

pub mod collection;
pub mod create;
pub mod error;
pub mod ids;
pub mod kinds;
pub mod laws;
pub mod model;
pub mod order;
pub mod query;
pub mod record;
pub mod region;
pub mod schema;
pub mod store;
pub mod wire;

pub use collection::Collection;
pub use create::{
    create_diet_record, create_exercise_recommendation, create_fitness_challenge,
    create_fitness_challenge_participant, create_health_record, create_medication_reminder,
    create_mental_health_record, create_user, create_virtual_consultation,
};
pub use error::{Entity, StoreError};
pub use ids::IdAllocator;
pub use kinds::{ExerciseType, HealthStatus, Intensity, MealType, Mood, StressLevel, UserType};
pub use query::{
    get_all_diet_records, get_all_exercise_recommendations, get_all_fitness_challenge_participants,
    get_all_fitness_challenges, get_all_health_records, get_all_medication_reminders,
    get_all_mental_health_records, get_all_users, get_all_virtual_consultations,
    get_diet_records_by_user_id, get_exercise_recommendations_by_user_id,
    get_mental_health_records_by_user_id,
};
pub use record::{Owned, Record, MAX_RECORD_SIZE};
pub use schema::diet_record::{DietRecord, DietRecordPayload};
pub use schema::exercise_recommendation::{ExerciseRecommendation, ExerciseRecommendationPayload};
pub use schema::fitness_challenge::{FitnessChallenge, FitnessChallengePayload};
pub use schema::fitness_challenge_participant::{
    FitnessChallengeParticipant, FitnessChallengeParticipantPayload,
};
pub use schema::health_record::{HealthRecord, HealthRecordPayload};
pub use schema::medication_reminder::{MedicationReminder, MedicationReminderPayload};
pub use schema::mental_health_record::{MentalHealthRecord, MentalHealthRecordPayload};
pub use schema::user::{User, UserPayload};
pub use schema::virtual_consultation::{VirtualConsultation, VirtualConsultationPayload};
pub use store::Store;
