//! The store: the counter and the nine collections, each in a region of its
//! own.
//!
//! Which region holds what is fixed here and must stay as it is: a store that
//! is opened again finds each structure where it was left.

use crate::collection::Collection;
use crate::error::StoreError;
use crate::ids::IdAllocator;
use crate::region::{region, region_manager};
use crate::schema::diet_record::{DietRecord, DietRecordView};
use crate::schema::exercise_recommendation::{ExerciseRecommendation, ExerciseRecommendationView};
use crate::schema::fitness_challenge::{FitnessChallenge, FitnessChallengeView};
use crate::schema::fitness_challenge_participant::{
    FitnessChallengeParticipant, FitnessChallengeParticipantView,
};
use crate::schema::health_record::{HealthRecord, HealthRecordView};
use crate::schema::medication_reminder::{MedicationReminder, MedicationReminderView};
use crate::schema::mental_health_record::{MentalHealthRecord, MentalHealthRecordView};
use crate::schema::user::{User, UserView};
use crate::schema::virtual_consultation::{VirtualConsultation, VirtualConsultationView};
use vstd::prelude::*;

verus! {

/// The region of the counter.
pub const COUNTER_REGION: u8 = 0;

/// The region of the users.
pub const USERS_REGION: u8 = 1;

/// The region of the health records.
pub const HEALTH_RECORDS_REGION: u8 = 2;

/// The region of the medication reminders.
pub const MEDICATION_REMINDERS_REGION: u8 = 3;

/// The region of the virtual consultations.
pub const VIRTUAL_CONSULTATIONS_REGION: u8 = 4;

/// The region of the diet records.
pub const DIET_RECORDS_REGION: u8 = 5;

/// The region of the exercise recommendations.
pub const EXERCISE_RECOMMENDATIONS_REGION: u8 = 6;

/// The region of the mental health records.
pub const MENTAL_HEALTH_RECORDS_REGION: u8 = 7;

/// The region of the fitness challenges.
pub const FITNESS_CHALLENGES_REGION: u8 = 8;

/// The region of the participants of fitness challenges.
pub const FITNESS_CHALLENGE_PARTICIPANTS_REGION: u8 = 9;

/// The counter and the collections. Every operation of the library takes the
/// store that it works on; a process keeps one.
pub struct Store {
    pub ids: IdAllocator,
    pub users: Collection<User>,
    pub health_records: Collection<HealthRecord>,
    pub medication_reminders: Collection<MedicationReminder>,
    pub virtual_consultations: Collection<VirtualConsultation>,
    pub diet_records: Collection<DietRecord>,
    pub exercise_recommendations: Collection<ExerciseRecommendation>,
    pub mental_health_records: Collection<MentalHealthRecord>,
    pub fitness_challenges: Collection<FitnessChallenge>,
    pub fitness_challenge_participants: Collection<FitnessChallengeParticipant>,
}

/// What a store holds: the last identifier issued, and the entries of each
/// collection. An entry that is no record reads as `None`.
pub struct StoreView {
    pub last_id: u64,
    pub users: Map<u64, Option<UserView>>,
    pub health_records: Map<u64, Option<HealthRecordView>>,
    pub medication_reminders: Map<u64, Option<MedicationReminderView>>,
    pub virtual_consultations: Map<u64, Option<VirtualConsultationView>>,
    pub diet_records: Map<u64, Option<DietRecordView>>,
    pub exercise_recommendations: Map<u64, Option<ExerciseRecommendationView>>,
    pub mental_health_records: Map<u64, Option<MentalHealthRecordView>>,
    pub fitness_challenges: Map<u64, Option<FitnessChallengeView>>,
    pub fitness_challenge_participants: Map<u64, Option<FitnessChallengeParticipantView>>,
}

impl StoreView {
    /// The store that has issued no identifier and holds no record.
    pub open spec fn empty() -> StoreView {
        StoreView {
            last_id: 0,
            users: Map::empty(),
            health_records: Map::empty(),
            medication_reminders: Map::empty(),
            virtual_consultations: Map::empty(),
            diet_records: Map::empty(),
            exercise_recommendations: Map::empty(),
            mental_health_records: Map::empty(),
            fitness_challenges: Map::empty(),
            fitness_challenge_participants: Map::empty(),
        }
    }

    /// Every collection has finitely many entries.
    pub open spec fn finite(self) -> bool {
        &&& self.users.dom().finite()
        &&& self.health_records.dom().finite()
        &&& self.medication_reminders.dom().finite()
        &&& self.virtual_consultations.dom().finite()
        &&& self.diet_records.dom().finite()
        &&& self.exercise_recommendations.dom().finite()
        &&& self.mental_health_records.dom().finite()
        &&& self.fitness_challenges.dom().finite()
        &&& self.fitness_challenge_participants.dom().finite()
    }
}

impl View for Store {
    type V = StoreView;

    open spec fn view(&self) -> StoreView {
        StoreView {
            last_id: self.ids.last(),
            users: self.users@,
            health_records: self.health_records@,
            medication_reminders: self.medication_reminders@,
            virtual_consultations: self.virtual_consultations@,
            diet_records: self.diet_records@,
            exercise_recommendations: self.exercise_recommendations@,
            mental_health_records: self.mental_health_records@,
            fitness_challenges: self.fitness_challenges@,
            fitness_challenge_participants: self.fitness_challenge_participants@,
        }
    }
}

impl Store {
    /// A store that has issued no identifier and holds no record, in place
    /// of whatever the regions held. It fails where the counter's region
    /// cannot be set up.
    pub fn new() -> (out: Result<Store, StoreError>)
        ensures
            match out {
                Ok(store) => store@ == StoreView::empty(),
                Err(e) => e == StoreError::CounterUnavailable,
            },
    {
        let manager = region_manager();
        let ids = match IdAllocator::create(region(&manager, COUNTER_REGION)) {
            Ok(ids) => ids,
            Err(e) => {
                return Err(e);
            },
        };
        Ok(
            Store {
                ids,
                users: Collection::create(region(&manager, USERS_REGION)),
                health_records: Collection::create(region(&manager, HEALTH_RECORDS_REGION)),
                medication_reminders: Collection::create(
                    region(&manager, MEDICATION_REMINDERS_REGION),
                ),
                virtual_consultations: Collection::create(
                    region(&manager, VIRTUAL_CONSULTATIONS_REGION),
                ),
                diet_records: Collection::create(region(&manager, DIET_RECORDS_REGION)),
                exercise_recommendations: Collection::create(
                    region(&manager, EXERCISE_RECOMMENDATIONS_REGION),
                ),
                mental_health_records: Collection::create(
                    region(&manager, MENTAL_HEALTH_RECORDS_REGION),
                ),
                fitness_challenges: Collection::create(region(&manager, FITNESS_CHALLENGES_REGION)),
                fitness_challenge_participants: Collection::create(
                    region(&manager, FITNESS_CHALLENGE_PARTICIPANTS_REGION),
                ),
            },
        )
    }

    /// The store that the regions hold: each structure as it was left, and a
    /// new one where a region holds none. It fails where the counter's
    /// region cannot be set up. What the store holds depends on the regions.
    pub fn open() -> (out: Result<Store, StoreError>)
        ensures
            match out {
                Ok(store) => store@.finite(),
                Err(e) => e == StoreError::CounterUnavailable,
            },
    {
        let manager = region_manager();
        let ids = match IdAllocator::open(region(&manager, COUNTER_REGION)) {
            Ok(ids) => ids,
            Err(e) => {
                return Err(e);
            },
        };
        Ok(
            Store {
                ids,
                users: Collection::open(region(&manager, USERS_REGION)),
                health_records: Collection::open(region(&manager, HEALTH_RECORDS_REGION)),
                medication_reminders: Collection::open(
                    region(&manager, MEDICATION_REMINDERS_REGION),
                ),
                virtual_consultations: Collection::open(
                    region(&manager, VIRTUAL_CONSULTATIONS_REGION),
                ),
                diet_records: Collection::open(region(&manager, DIET_RECORDS_REGION)),
                exercise_recommendations: Collection::open(
                    region(&manager, EXERCISE_RECOMMENDATIONS_REGION),
                ),
                mental_health_records: Collection::open(
                    region(&manager, MENTAL_HEALTH_RECORDS_REGION),
                ),
                fitness_challenges: Collection::open(region(&manager, FITNESS_CHALLENGES_REGION)),
                fitness_challenge_participants: Collection::open(
                    region(&manager, FITNESS_CHALLENGE_PARTICIPANTS_REGION),
                ),
            },
        )
    }

    /// The store as a restart finds it: each structure is taken up again
    /// from the region that it is in, and holds what it held. It fails where
    /// the counter's cell cannot be set up again.
    pub fn reopen(self) -> (out: Result<Store, StoreError>)
        ensures
            match out {
                Ok(store) => store@ == self@,
                Err(e) => e == StoreError::CounterUnavailable,
            },
    {
        let ids = match self.ids.reopen() {
            Ok(ids) => ids,
            Err(e) => {
                return Err(e);
            },
        };
        Ok(
            Store {
                ids,
                users: self.users.reopen(),
                health_records: self.health_records.reopen(),
                medication_reminders: self.medication_reminders.reopen(),
                virtual_consultations: self.virtual_consultations.reopen(),
                diet_records: self.diet_records.reopen(),
                exercise_recommendations: self.exercise_recommendations.reopen(),
                mental_health_records: self.mental_health_records.reopen(),
                fitness_challenges: self.fitness_challenges.reopen(),
                fitness_challenge_participants: self.fitness_challenge_participants.reopen(),
            },
        )
    }

    /// The last identifier issued, 0 where none was.
    pub fn last_id(&self) -> (id: u64)
        ensures
            id == self@.last_id,
    {
        self.ids.last_id()
    }
}

} // verus!
