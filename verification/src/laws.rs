//! What holds of every store, whatever was asked of it.
//!
//! The laws speak of `create_step`, the relation that every creating
//! function establishes, and of `listing`, the result that every listing
//! function returns.

use crate::collection::{lemma_listing_holds, lemma_listing_single, listing};
use crate::error::{Entity, StoreError};
use crate::model::{create_step, incomplete, missing_reference, Request, Stored};
use crate::order::lemma_in_key_order_holds;
use crate::store::StoreView;
use vstd::prelude::*;

verus! {

/// A history of a store: `states[i + 1]` follows `states[i]` by the creating
/// call that was handed `requests[i]` at the time `times[i]` and returned
/// `outcomes[i]`.
pub open spec fn is_history(
    states: Seq<StoreView>,
    requests: Seq<Request>,
    times: Seq<u64>,
    outcomes: Seq<Result<Stored, StoreError>>,
) -> bool {
    &&& states.len() == requests.len() + 1
    &&& times.len() == requests.len()
    &&& outcomes.len() == requests.len()
    &&& forall|i: int|
        0 <= i < requests.len() ==> create_step(
            states[i],
            requests[i],
            times[i],
            #[trigger] states[i + 1],
            outcomes[i],
        )
}

/// Whether `m` has no entry.
pub open spec fn has_no_entry<V>(m: Map<u64, Option<V>>) -> bool {
    forall|k: u64| !m.dom().contains(k)
}

/// Whether a listing of `m` returns exactly `record`.
pub open spec fn lists_alone<V>(entity: Entity, m: Map<u64, Option<V>>, record: V) -> bool {
    listing(entity, m) == Ok::<Seq<V>, StoreError>(seq![record])
}

/// Whether a listing of `m`, if it returns records at all, returns `record`
/// among them.
pub open spec fn lists<V>(entity: Entity, m: Map<u64, Option<V>>, record: V) -> bool {
    listing(entity, m) matches Ok(all) ==> all.contains(record)
}

/// Whether the collection of the kind `entity` has no entry.
pub open spec fn is_empty_of(s: StoreView, entity: Entity) -> bool {
    match entity {
        Entity::User => has_no_entry(s.users),
        Entity::HealthRecord => has_no_entry(s.health_records),
        Entity::MedicationReminder => has_no_entry(s.medication_reminders),
        Entity::VirtualConsultation => has_no_entry(s.virtual_consultations),
        Entity::DietRecord => has_no_entry(s.diet_records),
        Entity::ExerciseRecommendation => has_no_entry(s.exercise_recommendations),
        Entity::MentalHealthRecord => has_no_entry(s.mental_health_records),
        Entity::FitnessChallenge => has_no_entry(s.fitness_challenges),
        Entity::FitnessChallengeParticipant => has_no_entry(s.fitness_challenge_participants),
    }
}

/// Whether a listing of the collection that `record` belongs to returns
/// exactly `record`.
pub open spec fn is_listed_alone(s: StoreView, record: Stored) -> bool {
    match record {
        Stored::User(r) => lists_alone(Entity::User, s.users, r),
        Stored::HealthRecord(r) => lists_alone(Entity::HealthRecord, s.health_records, r),
        Stored::MedicationReminder(r) => lists_alone(
            Entity::MedicationReminder,
            s.medication_reminders,
            r,
        ),
        Stored::VirtualConsultation(r) => lists_alone(
            Entity::VirtualConsultation,
            s.virtual_consultations,
            r,
        ),
        Stored::DietRecord(r) => lists_alone(Entity::DietRecord, s.diet_records, r),
        Stored::ExerciseRecommendation(r) => lists_alone(
            Entity::ExerciseRecommendation,
            s.exercise_recommendations,
            r,
        ),
        Stored::MentalHealthRecord(r) => lists_alone(
            Entity::MentalHealthRecord,
            s.mental_health_records,
            r,
        ),
        Stored::FitnessChallenge(r) => lists_alone(
            Entity::FitnessChallenge,
            s.fitness_challenges,
            r,
        ),
        Stored::FitnessChallengeParticipant(r) => lists_alone(
            Entity::FitnessChallengeParticipant,
            s.fitness_challenge_participants,
            r,
        ),
    }
}

/// Whether every listing of the collection that `record` belongs to, if it
/// returns records at all, returns `record` among them.
pub open spec fn is_listed(s: StoreView, record: Stored) -> bool {
    match record {
        Stored::User(r) => lists(Entity::User, s.users, r),
        Stored::HealthRecord(r) => lists(Entity::HealthRecord, s.health_records, r),
        Stored::MedicationReminder(r) => lists(
            Entity::MedicationReminder,
            s.medication_reminders,
            r,
        ),
        Stored::VirtualConsultation(r) => lists(
            Entity::VirtualConsultation,
            s.virtual_consultations,
            r,
        ),
        Stored::DietRecord(r) => lists(Entity::DietRecord, s.diet_records, r),
        Stored::ExerciseRecommendation(r) => lists(
            Entity::ExerciseRecommendation,
            s.exercise_recommendations,
            r,
        ),
        Stored::MentalHealthRecord(r) => lists(
            Entity::MentalHealthRecord,
            s.mental_health_records,
            r,
        ),
        Stored::FitnessChallenge(r) => lists(Entity::FitnessChallenge, s.fitness_challenges, r),
        Stored::FitnessChallengeParticipant(r) => lists(
            Entity::FitnessChallengeParticipant,
            s.fitness_challenge_participants,
            r,
        ),
    }
}

/// A record that is created gets the identifier that follows the last one
/// issued, and the counter then stands at that identifier.
pub proof fn law_created_record_takes_next_identifier(
    pre: StoreView,
    r: Request,
    now: u64,
    post: StoreView,
    record: Stored,
)
    requires
        create_step(pre, r, now, post, Ok(record)),
    ensures
        pre.last_id < u64::MAX,
        record.id() == pre.last_id + 1,
        post.last_id == record.id(),
        record.entity() == r.entity(),
{
}

/// The counter never goes back.
pub proof fn law_counter_never_decreases(
    states: Seq<StoreView>,
    requests: Seq<Request>,
    times: Seq<u64>,
    outcomes: Seq<Result<Stored, StoreError>>,
    i: int,
    j: int,
)
    requires
        is_history(states, requests, times, outcomes),
        0 <= i <= j < states.len(),
    ensures
        states[i].last_id <= states[j].last_id,
    decreases j - i,
{
    if i < j {
        law_counter_never_decreases(states, requests, times, outcomes, i, j - 1);
        assert(create_step(
            states[j - 1],
            requests[j - 1],
            times[j - 1],
            states[j - 1 + 1],
            outcomes[j - 1],
        ));
    }
}

/// Identifiers strictly increase: a record that is created gets an
/// identifier greater than that of every record created before it, of
/// whatever kind.
pub proof fn law_identifiers_increase(
    states: Seq<StoreView>,
    requests: Seq<Request>,
    times: Seq<u64>,
    outcomes: Seq<Result<Stored, StoreError>>,
    i: int,
    j: int,
)
    requires
        is_history(states, requests, times, outcomes),
        0 <= i < j < requests.len(),
        outcomes[i] is Ok,
        outcomes[j] is Ok,
    ensures
        outcomes[i]->Ok_0.id() < outcomes[j]->Ok_0.id(),
{
    assert(create_step(states[i], requests[i], times[i], states[i + 1], outcomes[i]));
    assert(create_step(states[j], requests[j], times[j], states[j + 1], outcomes[j]));
    law_counter_never_decreases(states, requests, times, outcomes, i + 1, j);
}

/// A call that fails changes nothing, and so uses no identifier: the call
/// that follows it does what it would have done had the failed call never
/// been made.
pub proof fn law_failed_call_uses_no_identifier(
    pre: StoreView,
    failed: Request,
    failed_at: u64,
    between: StoreView,
    e: StoreError,
    r: Request,
    now: u64,
    post: StoreView,
    out: Result<Stored, StoreError>,
)
    requires
        create_step(pre, failed, failed_at, between, Err(e)),
        create_step(between, r, now, post, out),
    ensures
        between == pre,
        create_step(pre, r, now, post, out),
        out matches Ok(record) ==> record.id() == pre.last_id + 1,
{
}

/// A payload that lacks a required field is turned down with the failure
/// that says so, whatever else is wrong with it.
pub proof fn law_incomplete_payload_is_refused(
    pre: StoreView,
    r: Request,
    now: u64,
    post: StoreView,
    out: Result<Stored, StoreError>,
)
    requires
        create_step(pre, r, now, post, out),
        incomplete(r) is Some,
    ensures
        out == Err::<Stored, StoreError>(incomplete(r)->0),
        post == pre,
{
}

/// A complete payload that refers to a record which the store does not hold
/// is turned down, with the failure that names the first such reference.
pub proof fn law_missing_reference_is_reported(
    pre: StoreView,
    r: Request,
    now: u64,
    post: StoreView,
    out: Result<Stored, StoreError>,
)
    requires
        create_step(pre, r, now, post, out),
        incomplete(r) is None,
        missing_reference(pre, r) is Some,
    ensures
        out == Err::<Stored, StoreError>(missing_reference(pre, r)->0),
        missing_reference(pre, r)->0.is_missing_reference(),
        post == pre,
{
}

/// A collection without entries is never listed as an empty success: the
/// listing fails with `NoneFound`.
pub proof fn law_empty_collection_is_not_found<V>(entity: Entity, m: Map<u64, Option<V>>)
    requires
        has_no_entry(m),
    ensures
        listing(entity, m) == Err::<Seq<V>, StoreError>(StoreError::NoneFound(entity)),
{
}

/// A listing that succeeds returns at least one record.
pub proof fn law_listing_is_never_empty<V>(entity: Entity, m: Map<u64, Option<V>>)
    requires
        m.dom().finite(),
    ensures
        listing(entity, m) matches Ok(all) ==> all.len() > 0,
{
    if listing(entity, m) is Ok {
        let k = choose|k: u64| m.dom().contains(k);
        lemma_in_key_order_holds(m, k);
    }
}

/// The first record of a collection is listed alone, as it was returned
/// when it was created.
pub proof fn law_first_record_is_listed_alone(
    pre: StoreView,
    r: Request,
    now: u64,
    post: StoreView,
    record: Stored,
)
    requires
        create_step(pre, r, now, post, Ok(record)),
        is_empty_of(pre, record.entity()),
    ensures
        is_listed_alone(post, record),
{
    match record {
        Stored::User(x) => {
            lemma_listing_single(Entity::User, post.users, x.id, x);
        },
        Stored::HealthRecord(x) => {
            lemma_listing_single(Entity::HealthRecord, post.health_records, x.id, x);
        },
        Stored::MedicationReminder(x) => {
            lemma_listing_single(Entity::MedicationReminder, post.medication_reminders, x.id, x);
        },
        Stored::VirtualConsultation(x) => {
            lemma_listing_single(Entity::VirtualConsultation, post.virtual_consultations, x.id, x);
        },
        Stored::DietRecord(x) => {
            lemma_listing_single(Entity::DietRecord, post.diet_records, x.id, x);
        },
        Stored::ExerciseRecommendation(x) => {
            lemma_listing_single(
                Entity::ExerciseRecommendation,
                post.exercise_recommendations,
                x.id,
                x,
            );
        },
        Stored::MentalHealthRecord(x) => {
            lemma_listing_single(Entity::MentalHealthRecord, post.mental_health_records, x.id, x);
        },
        Stored::FitnessChallenge(x) => {
            lemma_listing_single(Entity::FitnessChallenge, post.fitness_challenges, x.id, x);
        },
        Stored::FitnessChallengeParticipant(x) => {
            lemma_listing_single(
                Entity::FitnessChallengeParticipant,
                post.fitness_challenge_participants,
                x.id,
                x,
            );
        },
    }
}

/// A record that was created is in its collection, as it was returned.
pub proof fn law_created_record_is_held(
    pre: StoreView,
    r: Request,
    now: u64,
    post: StoreView,
    record: Stored,
)
    requires
        create_step(pre, r, now, post, Ok(record)),
    ensures
        post.holds(record),
{
}

/// Records are never changed or removed: a record that the store holds is
/// still held, as it was, after any creating call.
pub proof fn law_held_record_stays(
    pre: StoreView,
    record: Stored,
    r: Request,
    now: u64,
    post: StoreView,
    out: Result<Stored, StoreError>,
)
    requires
        pre.holds(record),
        create_step(pre, r, now, post, out),
    ensures
        post.holds(record),
{
}

/// A record that the store holds is among the records that a listing of its
/// collection returns, field for field as it was created.
pub proof fn law_held_record_is_listed(s: StoreView, record: Stored)
    requires
        s.finite(),
        s.holds(record),
    ensures
        is_listed(s, record),
{
    match record {
        Stored::User(x) => {
            lemma_listing_holds(Entity::User, s.users, x.id, x);
        },
        Stored::HealthRecord(x) => {
            lemma_listing_holds(Entity::HealthRecord, s.health_records, x.id, x);
        },
        Stored::MedicationReminder(x) => {
            lemma_listing_holds(Entity::MedicationReminder, s.medication_reminders, x.id, x);
        },
        Stored::VirtualConsultation(x) => {
            lemma_listing_holds(Entity::VirtualConsultation, s.virtual_consultations, x.id, x);
        },
        Stored::DietRecord(x) => {
            lemma_listing_holds(Entity::DietRecord, s.diet_records, x.id, x);
        },
        Stored::ExerciseRecommendation(x) => {
            lemma_listing_holds(
                Entity::ExerciseRecommendation,
                s.exercise_recommendations,
                x.id,
                x,
            );
        },
        Stored::MentalHealthRecord(x) => {
            lemma_listing_holds(Entity::MentalHealthRecord, s.mental_health_records, x.id, x);
        },
        Stored::FitnessChallenge(x) => {
            lemma_listing_holds(Entity::FitnessChallenge, s.fitness_challenges, x.id, x);
        },
        Stored::FitnessChallengeParticipant(x) => {
            lemma_listing_holds(
                Entity::FitnessChallengeParticipant,
                s.fitness_challenge_participants,
                x.id,
                x,
            );
        },
    }
}

/// Creating a record leaves every collection with finitely many entries.
pub proof fn law_store_stays_finite(
    pre: StoreView,
    r: Request,
    now: u64,
    post: StoreView,
    out: Result<Stored, StoreError>,
)
    requires
        pre.finite(),
        create_step(pre, r, now, post, out),
    ensures
        post.finite(),
{
}

} // verus!
