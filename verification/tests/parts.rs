use care_store::collection::{read_all, read_owned};
use care_store::ids::{issued, successor};
use care_store::{
    create_user, DietRecord, Entity, IdAllocator, MealType, Record, Store, StoreError, User,
    UserPayload, UserType,
};
use ic_stable_structures::cell::{InitError, ValueError};

fn user(id: u64, name: &str) -> User {
    User {
        id,
        name: name.to_string(),
        contact: "c".to_string(),
        user_type: UserType::Elderly,
        created_at: 0,
    }
}

fn meal(id: u64, user_id: u64) -> DietRecord {
    DietRecord {
        id,
        user_id,
        meal_type: MealType::Lunch,
        food_items: "f".to_string(),
        calories: 1,
        recorded_at: 2,
    }
}

#[test]
fn the_successor_is_one_more_and_there_is_none_after_the_largest() {
    assert_eq!(successor(0), Ok(1));
    assert_eq!(successor(41), Ok(42));
    assert_eq!(successor(u64::MAX - 1), Ok(u64::MAX));
    assert_eq!(successor(u64::MAX), Err(StoreError::IdsExhausted));
    assert_eq!(StoreError::IdsExhausted.message(), "No identifier is left.");
}

#[test]
fn an_identifier_is_issued_only_if_the_cell_took_it() {
    assert_eq!(issued(5, Ok(4)), Ok(5));
    assert_eq!(
        issued(5, Err(ValueError::ValueTooLarge { value_size: 8 })),
        Err(StoreError::CounterNotPersisted)
    );
    assert_eq!(StoreError::CounterNotPersisted.message(), "Cannot increment ID counter");
    assert_eq!(StoreError::CounterUnavailable.message(), "Cannot create a counter");
}

#[test]
fn a_cell_that_could_not_be_made_leaves_no_allocator() {
    let made = IdAllocator::over_new_cell(Err(ValueError::ValueTooLarge { value_size: 8 }));
    assert!(matches!(made, Err(StoreError::CounterUnavailable)));
    let found = IdAllocator::over_cell(Err(InitError::ValueTooLarge { value_size: 8 }));
    assert!(matches!(found, Err(StoreError::CounterUnavailable)));
    let other = IdAllocator::over_cell(Err(InitError::IncompatibleVersion {
        last_supported_version: 1,
        decoded_version: 2,
    }));
    assert!(matches!(other, Err(StoreError::CounterUnavailable)));
}

#[test]
fn the_allocator_counts_from_one() {
    let mut store = Store::new().unwrap();
    assert_eq!(store.ids.last_id(), 0);
    assert_eq!(store.ids.next(), Ok(1));
    assert_eq!(store.ids.last_id(), 1);
    assert_eq!(store.ids.next(), Ok(2));
    assert_eq!(store.ids.next(), Ok(3));
    assert_eq!(store.last_id(), 3);
    let made = create_user(
        &mut store,
        UserPayload {
            name: "n".to_string(),
            contact: "c".to_string(),
            user_type: UserType::Elderly,
        },
        0,
    )
    .unwrap();
    assert_eq!(made.id, 4);
}

#[test]
fn a_collection_stores_replaces_and_finds_records() {
    let mut store = Store::new().unwrap();
    assert_eq!(store.users.get(5), None);
    assert!(!store.users.contains(5));
    assert_eq!(store.users.list(), Err(StoreError::NoneFound(Entity::User)));

    assert_eq!(store.users.insert(5, &user(5, "first")), Ok(()));
    assert!(store.users.contains(5));
    assert!(!store.users.contains(4));
    assert_eq!(store.users.get(5), Some(user(5, "first")));

    // A second record under the same identifier takes the place of the first.
    assert_eq!(store.users.insert(5, &user(5, "second")), Ok(()));
    assert_eq!(store.users.get(5), Some(user(5, "second")));
    assert_eq!(store.users.list(), Ok(vec![user(5, "second")]));

    // Records are listed by the identifier that they are stored under.
    assert_eq!(store.users.insert(u64::MAX, &user(1, "last")), Ok(()));
    assert_eq!(store.users.insert(0, &user(9, "zero")), Ok(()));
    assert_eq!(store.users.insert(3, &user(3, "three")), Ok(()));
    assert_eq!(
        store.users.list(),
        Ok(vec![user(9, "zero"), user(3, "three"), user(5, "second"), user(1, "last")])
    );
    // The other collections and the counter are as they were.
    assert!(!store.fitness_challenges.contains(5));
    assert_eq!(store.last_id(), 0);
}

#[test]
fn a_collection_lists_the_records_of_one_owner() {
    let mut store = Store::new().unwrap();
    for (id, owner) in [(10, 1), (11, 2), (12, 1), (13, 3)] {
        assert_eq!(store.diet_records.insert(id, &meal(id, owner)), Ok(()));
    }
    assert_eq!(store.diet_records.list_owned(1), Ok(vec![meal(10, 1), meal(12, 1)]));
    assert_eq!(store.diet_records.list_owned(3), Ok(vec![meal(13, 3)]));
    assert_eq!(store.diet_records.list_owned(4), Err(StoreError::NoneFound(Entity::DietRecord)));
}

#[test]
fn pairs_are_read_in_their_order() {
    let pairs = vec![
        (4, user(4, "d").encode().unwrap()),
        (2, user(2, "b").encode().unwrap()),
        (9, user(7, "x").encode().unwrap()),
    ];
    assert_eq!(read_all::<User>(&pairs), Ok(vec![user(4, "d"), user(2, "b"), user(7, "x")]));
    assert_eq!(read_all::<User>(&Vec::new()), Err(StoreError::NoneFound(Entity::User)));
    assert_eq!(read_all::<DietRecord>(&Vec::new()), Err(StoreError::NoneFound(Entity::DietRecord)));
}

#[test]
fn a_pair_that_is_no_record_makes_the_reading_fail() {
    let good = user(1, "a").encode().unwrap();
    let mut cut = good.clone();
    cut.pop();
    let pairs = vec![(1, good.clone()), (2, cut)];
    let out = read_all::<User>(&pairs);
    assert_eq!(out, Err(StoreError::Unreadable(Entity::User)));
    assert_eq!(out.unwrap_err().message(), "Stored record cannot be read.");
    // Bytes of another kind are no record either.
    let other = vec![(1, meal(1, 1).encode().unwrap())];
    assert_eq!(read_all::<User>(&other), Err(StoreError::Unreadable(Entity::User)));
    assert_eq!(read_all::<User>(&vec![(1, Vec::new())]), Err(StoreError::Unreadable(Entity::User)));
}

#[test]
fn pairs_are_read_for_one_owner() {
    let pairs = vec![
        (1, meal(1, 5).encode().unwrap()),
        (2, meal(2, 6).encode().unwrap()),
        (3, meal(3, 5).encode().unwrap()),
    ];
    assert_eq!(read_owned::<DietRecord>(&pairs, 5), Ok(vec![meal(1, 5), meal(3, 5)]));
    assert_eq!(read_owned::<DietRecord>(&pairs, 6), Ok(vec![meal(2, 6)]));
    assert_eq!(
        read_owned::<DietRecord>(&pairs, 7),
        Err(StoreError::NoneFound(Entity::DietRecord))
    );
    assert_eq!(
        read_owned::<DietRecord>(&Vec::new(), 5),
        Err(StoreError::NoneFound(Entity::DietRecord))
    );
    // An unreadable pair fails the reading even where it comes after the
    // records that were asked for.
    let mut spoiled = pairs.clone();
    spoiled.push((4, vec![1, 2, 3]));
    assert_eq!(
        read_owned::<DietRecord>(&spoiled, 5),
        Err(StoreError::Unreadable(Entity::DietRecord))
    );
}

#[test]
fn every_failure_has_its_text() {
    let texts = [
        (StoreError::EmptyNameOrContact, "Name and contact cannot be empty"),
        (StoreError::EmptyNameOrDescription, "Name and description cannot be empty"),
        (StoreError::MissingField, "All fields must be provided."),
        (StoreError::UnknownUser, "User ID does not exist."),
        (StoreError::UnknownProvider, "Provider ID does not exist."),
        (StoreError::UnknownChallenge, "Challenge ID does not exist."),
        (StoreError::RecordTooLarge, "Record is too large to store."),
        (StoreError::IdsExhausted, "No identifier is left."),
        (StoreError::CounterNotPersisted, "Cannot increment ID counter"),
        (StoreError::CounterUnavailable, "Cannot create a counter"),
        (StoreError::NoneFound(Entity::User), "No users found."),
        (StoreError::NoneFound(Entity::FitnessChallengeParticipant),
            "No fitness challenge participants found."),
        (StoreError::Unreadable(Entity::HealthRecord), "Stored record cannot be read."),
    ];
    for (failure, text) in texts {
        assert_eq!(failure.message(), text);
    }
    assert_eq!(Entity::MedicationReminder.none_found(), "No medication reminders found.");
}

#[test]
fn each_record_type_names_its_kind() {
    assert_eq!(User::kind(), Entity::User);
    assert_eq!(DietRecord::kind(), Entity::DietRecord);
    assert_eq!(care_store::HealthRecord::kind(), Entity::HealthRecord);
    assert_eq!(care_store::MedicationReminder::kind(), Entity::MedicationReminder);
    assert_eq!(care_store::VirtualConsultation::kind(), Entity::VirtualConsultation);
    assert_eq!(care_store::ExerciseRecommendation::kind(), Entity::ExerciseRecommendation);
    assert_eq!(care_store::MentalHealthRecord::kind(), Entity::MentalHealthRecord);
    assert_eq!(care_store::FitnessChallenge::kind(), Entity::FitnessChallenge);
    assert_eq!(
        care_store::FitnessChallengeParticipant::kind(),
        Entity::FitnessChallengeParticipant
    );
}
