use care_store::{
    create_diet_record, create_exercise_recommendation, create_fitness_challenge,
    create_fitness_challenge_participant, create_health_record, create_medication_reminder,
    create_mental_health_record, create_user, create_virtual_consultation, get_all_users,
    DietRecordPayload, Entity, ExerciseRecommendationPayload, ExerciseType,
    FitnessChallengeParticipantPayload, FitnessChallengePayload, HealthRecordPayload, HealthStatus,
    Intensity, MealType, MedicationReminderPayload, MentalHealthRecordPayload, Mood, Record, Store,
    StoreError, StressLevel, User, UserPayload, UserType, VirtualConsultationPayload,
    MAX_RECORD_SIZE,
};

fn user(name: &str) -> UserPayload {
    UserPayload {
        name: name.to_string(),
        contact: "c".to_string(),
        user_type: UserType::Caregiver,
    }
}

fn store_with_users(n: u64) -> Store {
    let mut store = Store::new().unwrap();
    for i in 0..n {
        create_user(&mut store, user("u"), i).unwrap();
    }
    store
}

#[test]
fn user_needs_name_and_contact() {
    let mut store = Store::new().unwrap();
    let no_name = UserPayload {
        name: String::new(),
        contact: "c".to_string(),
        user_type: UserType::Elderly,
    };
    let no_contact = UserPayload {
        name: "n".to_string(),
        contact: String::new(),
        user_type: UserType::Elderly,
    };
    assert!(!no_name.is_complete());
    assert!(!no_contact.is_complete());
    assert!(user("n").is_complete());
    assert_eq!(create_user(&mut store, no_name, 1), Err(StoreError::EmptyNameOrContact));
    assert_eq!(create_user(&mut store, no_contact, 1), Err(StoreError::EmptyNameOrContact));
    assert_eq!(get_all_users(&store), Err(StoreError::NoneFound(Entity::User)));
    assert_eq!(store.last_id(), 0);
}

#[test]
fn health_record_needs_both_texts_then_its_user() {
    let mut store = store_with_users(1);
    let payload = |user_id: u64, pressure: &str, activity: &str| HealthRecordPayload {
        user_id,
        heart_rate: 0,
        blood_pressure: pressure.to_string(),
        activity_level: activity.to_string(),
        status: HealthStatus::Critical,
    };
    assert_eq!(
        create_health_record(&mut store, payload(1, "", "a"), 1),
        Err(StoreError::MissingField)
    );
    assert_eq!(
        create_health_record(&mut store, payload(1, "p", ""), 1),
        Err(StoreError::MissingField)
    );
    // The fields are checked before the reference.
    assert_eq!(
        create_health_record(&mut store, payload(9, "", ""), 1),
        Err(StoreError::MissingField)
    );
    assert_eq!(
        create_health_record(&mut store, payload(9, "p", "a"), 1),
        Err(StoreError::UnknownUser)
    );
    // A heart rate of zero is no missing field.
    let made = create_health_record(&mut store, payload(1, "p", "a"), 1).unwrap();
    assert_eq!(made.id, 2);
    assert_eq!(made.heart_rate, 0);
    assert_eq!(made.status, HealthStatus::Critical);
}

#[test]
fn medication_reminder_needs_three_texts_then_its_user() {
    let mut store = store_with_users(1);
    let payload = |user_id: u64, name: &str, dosage: &str, schedule: &str| {
        MedicationReminderPayload {
            user_id,
            medication_name: name.to_string(),
            dosage: dosage.to_string(),
            schedule: schedule.to_string(),
        }
    };
    for p in [payload(1, "", "d", "s"), payload(1, "n", "", "s"), payload(1, "n", "d", "")] {
        assert_eq!(create_medication_reminder(&mut store, p, 1), Err(StoreError::MissingField));
    }
    assert_eq!(
        create_medication_reminder(&mut store, payload(2, "n", "d", "s"), 1),
        Err(StoreError::UnknownUser)
    );
    let made = create_medication_reminder(&mut store, payload(1, "n", "d", "s"), 7).unwrap();
    assert_eq!((made.id, made.user_id, made.created_at), (2, 1, 7));
}

#[test]
fn virtual_consultation_names_the_first_unknown_reference() {
    let mut store = store_with_users(2);
    let payload = |user_id: u64, provider_id: u64, status: &str| VirtualConsultationPayload {
        user_id,
        provider_id,
        scheduled_at: 0,
        status: status.to_string(),
    };
    assert_eq!(
        create_virtual_consultation(&mut store, payload(8, 9, ""), 1),
        Err(StoreError::MissingField)
    );
    assert_eq!(
        create_virtual_consultation(&mut store, payload(8, 9, "s"), 1),
        Err(StoreError::UnknownUser)
    );
    assert_eq!(
        create_virtual_consultation(&mut store, payload(8, 2, "s"), 1),
        Err(StoreError::UnknownUser)
    );
    let unknown_provider = create_virtual_consultation(&mut store, payload(1, 9, "s"), 1);
    assert_eq!(unknown_provider, Err(StoreError::UnknownProvider));
    assert_eq!(unknown_provider.unwrap_err().message(), "Provider ID does not exist.");
    assert_eq!(store.last_id(), 2);
    let made = create_virtual_consultation(&mut store, payload(1, 2, "s"), 1).unwrap();
    assert_eq!((made.id, made.user_id, made.provider_id), (3, 1, 2));
    // A user may consult themselves: both references are to the users.
    let own = create_virtual_consultation(&mut store, payload(2, 2, "s"), 1).unwrap();
    assert_eq!(own.id, 4);
}

#[test]
fn a_consultation_is_no_user() {
    // Identifiers are shared, but a reference is looked up in its own
    // collection only.
    let mut store = store_with_users(1);
    let made = create_virtual_consultation(
        &mut store,
        VirtualConsultationPayload {
            user_id: 1,
            provider_id: 1,
            scheduled_at: 3,
            status: "s".to_string(),
        },
        1,
    )
    .unwrap();
    assert_eq!(made.id, 2);
    let refused = create_diet_record(
        &mut store,
        DietRecordPayload {
            user_id: 2,
            meal_type: MealType::Dinner,
            food_items: "f".to_string(),
            calories: 1,
        },
        1,
    );
    assert_eq!(refused, Err(StoreError::UnknownUser));
}

#[test]
fn diet_record_needs_food_then_its_user() {
    let mut store = store_with_users(1);
    let payload = |user_id: u64, food: &str| DietRecordPayload {
        user_id,
        meal_type: MealType::Breakfast,
        food_items: food.to_string(),
        calories: 0,
    };
    assert_eq!(create_diet_record(&mut store, payload(1, ""), 1), Err(StoreError::MissingField));
    assert_eq!(create_diet_record(&mut store, payload(5, "f"), 1), Err(StoreError::UnknownUser));
    // Calories of zero are no missing field.
    let made = create_diet_record(&mut store, payload(1, "f"), 1).unwrap();
    assert_eq!((made.id, made.calories), (2, 0));
}

#[test]
fn exercise_recommendation_needs_a_duration_then_its_user() {
    let mut store = store_with_users(1);
    let payload = |user_id: u64, duration: u32| ExerciseRecommendationPayload {
        user_id,
        exercise_type: ExerciseType::Flexibility,
        duration,
        intensity: Intensity::High,
    };
    assert_eq!(
        create_exercise_recommendation(&mut store, payload(1, 0), 1),
        Err(StoreError::MissingField)
    );
    assert_eq!(
        create_exercise_recommendation(&mut store, payload(3, 1), 1),
        Err(StoreError::UnknownUser)
    );
    let made = create_exercise_recommendation(&mut store, payload(1, u32::MAX), 1).unwrap();
    assert_eq!((made.id, made.duration), (2, u32::MAX));
}

#[test]
fn mental_health_record_needs_notes_then_its_user() {
    let mut store = store_with_users(1);
    let payload = |user_id: u64, notes: &str| MentalHealthRecordPayload {
        user_id,
        mood: Mood::Sad,
        stress_level: StressLevel::Low,
        notes: notes.to_string(),
    };
    assert_eq!(
        create_mental_health_record(&mut store, payload(1, ""), 1),
        Err(StoreError::MissingField)
    );
    assert_eq!(
        create_mental_health_record(&mut store, payload(0, "n"), 1),
        Err(StoreError::UnknownUser)
    );
    let made = create_mental_health_record(&mut store, payload(1, "n"), 1).unwrap();
    assert_eq!((made.id, made.mood, made.stress_level), (2, Mood::Sad, StressLevel::Low));
}

#[test]
fn fitness_challenge_needs_name_and_description() {
    let mut store = Store::new().unwrap();
    let payload = |name: &str, description: &str| FitnessChallengePayload {
        name: name.to_string(),
        description: description.to_string(),
        start_date: 9,
        end_date: 3,
    };
    let refused = create_fitness_challenge(&mut store, payload("", "d"), 1);
    assert_eq!(refused, Err(StoreError::EmptyNameOrDescription));
    assert_eq!(refused.unwrap_err().message(), "Name and description cannot be empty");
    assert_eq!(
        create_fitness_challenge(&mut store, payload("n", ""), 1),
        Err(StoreError::EmptyNameOrDescription)
    );
    // The dates are not compared with each other.
    let made = create_fitness_challenge(&mut store, payload("n", "d"), 1).unwrap();
    assert_eq!((made.id, made.start_date, made.end_date), (1, 9, 3));
}

#[test]
fn participant_needs_its_challenge_then_its_user() {
    let mut store = store_with_users(1);
    let challenge = create_fitness_challenge(
        &mut store,
        FitnessChallengePayload {
            name: "n".to_string(),
            description: "d".to_string(),
            start_date: 0,
            end_date: 0,
        },
        1,
    )
    .unwrap();
    assert_eq!(challenge.id, 2);
    let payload = |challenge_id: u64, user_id: u64| FitnessChallengeParticipantPayload {
        challenge_id,
        user_id,
        progress: 0,
    };
    assert!(payload(0, 0).is_complete());
    let both_unknown = create_fitness_challenge_participant(&mut store, payload(7, 8), 1);
    assert_eq!(both_unknown, Err(StoreError::UnknownChallenge));
    assert_eq!(both_unknown.unwrap_err().message(), "Challenge ID does not exist.");
    // The user's identifier is no challenge, and the challenge's no user.
    assert_eq!(
        create_fitness_challenge_participant(&mut store, payload(1, 1), 1),
        Err(StoreError::UnknownChallenge)
    );
    assert_eq!(
        create_fitness_challenge_participant(&mut store, payload(2, 2), 1),
        Err(StoreError::UnknownUser)
    );
    assert_eq!(store.last_id(), 2);
    let made = create_fitness_challenge_participant(&mut store, payload(2, 1), 1).unwrap();
    assert_eq!((made.id, made.challenge_id, made.user_id, made.progress), (3, 2, 1, 0));
}

#[test]
fn a_record_of_the_largest_size_is_stored_and_one_byte_more_is_not() {
    // A user takes 8 + 4 + name + 4 + contact + 1 + 8 bytes.
    let fixed = 8 + 4 + 4 + 1 + 8;
    let mut store = Store::new().unwrap();

    let fits = UserPayload {
        name: "n".repeat(MAX_RECORD_SIZE - fixed - 1),
        contact: "c".to_string(),
        user_type: UserType::Elderly,
    };
    let made = create_user(&mut store, fits, 1).unwrap();
    assert_eq!(made.id, 1);
    assert_eq!(made.encode().unwrap().len(), MAX_RECORD_SIZE);
    assert_eq!(get_all_users(&store), Ok(vec![made]));

    let too_long = UserPayload {
        name: "n".repeat(MAX_RECORD_SIZE - fixed),
        contact: "c".to_string(),
        user_type: UserType::Elderly,
    };
    let refused = create_user(&mut store, too_long, 2);
    assert_eq!(refused, Err(StoreError::RecordTooLarge));
    assert_eq!(refused.unwrap_err().message(), "Record is too large to store.");
    assert_eq!(store.last_id(), 1);
    assert_eq!(get_all_users(&store).unwrap().len(), 1);

    let next = create_user(&mut store, user("n"), 3).unwrap();
    assert_eq!(next.id, 2);
}

#[test]
fn the_size_of_a_text_is_counted_in_bytes() {
    let fixed = 8 + 4 + 4 + 1 + 8;
    let mut store = Store::new().unwrap();
    // Each of these letters takes two bytes: 244 of them and a contact of
    // one byte make 514 bytes, 243 of them make 512.
    let letters = (MAX_RECORD_SIZE - fixed - 1) / 2 + 1;
    assert_eq!(letters, 244);
    let too_long = UserPayload {
        name: "é".repeat(letters),
        contact: "c".to_string(),
        user_type: UserType::Elderly,
    };
    assert_eq!(create_user(&mut store, too_long, 1), Err(StoreError::RecordTooLarge));
    let shorter = UserPayload {
        name: "é".repeat(letters - 1),
        contact: "c".to_string(),
        user_type: UserType::Elderly,
    };
    let made = create_user(&mut store, shorter, 1).unwrap();
    assert_eq!(made.name.chars().count(), letters - 1);
    assert_eq!(get_all_users(&store), Ok(vec![made]));
}

#[test]
fn a_very_long_text_is_refused_without_being_written() {
    let mut store = Store::new().unwrap();
    let long = UserPayload {
        name: "x".repeat(100_000),
        contact: "c".to_string(),
        user_type: UserType::Elderly,
    };
    assert_eq!(create_user(&mut store, long, 1), Err(StoreError::RecordTooLarge));
    let record = User {
        id: 1,
        name: "n".to_string(),
        contact: "y".repeat(100_000),
        user_type: UserType::Elderly,
        created_at: 0,
    };
    assert_eq!(record.encode(), None);
    assert_eq!(store.users.insert(1, &record), Err(StoreError::RecordTooLarge));
    assert!(!store.users.contains(1));
}
