use care_store::{
    create_diet_record, create_exercise_recommendation, create_fitness_challenge,
    create_fitness_challenge_participant, create_health_record, create_medication_reminder,
    create_mental_health_record, create_user, create_virtual_consultation, get_all_health_records,
    get_all_users, DietRecordPayload, ExerciseRecommendationPayload, ExerciseType,
    FitnessChallengeParticipantPayload, FitnessChallengePayload, HealthRecordPayload, HealthStatus,
    Intensity, MealType, MedicationReminderPayload, MentalHealthRecordPayload, Mood, Store,
    StoreError, StressLevel, User, UserPayload, UserType, VirtualConsultationPayload,
};

fn ann() -> UserPayload {
    UserPayload {
        name: "Ann".to_string(),
        contact: "a@x".to_string(),
        user_type: UserType::Elderly,
    }
}

fn reading(user_id: u64) -> HealthRecordPayload {
    HealthRecordPayload {
        user_id,
        heart_rate: 72,
        blood_pressure: "120/80".to_string(),
        activity_level: "moderate".to_string(),
        status: HealthStatus::Stable,
    }
}

#[test]
fn a_new_store_has_issued_nothing() {
    let store = Store::new().unwrap();
    assert_eq!(store.last_id(), 0);
    assert_eq!(store.ids.last_id(), 0);
    assert!(!store.users.contains(0));
    assert!(!store.users.contains(1));
}

#[test]
fn an_opened_store_over_empty_memory_has_issued_nothing() {
    let mut store = Store::open().unwrap();
    assert_eq!(store.last_id(), 0);
    assert_eq!(get_all_users(&store), Err(StoreError::NoneFound(care_store::Entity::User)));
    let user = create_user(&mut store, ann(), 4).unwrap();
    assert_eq!(user.id, 1);
    assert_eq!(get_all_users(&store), Ok(vec![user]));
}

#[test]
fn user_then_health_record_then_unknown_user() {
    let mut store = Store::new().unwrap();

    let user = create_user(&mut store, ann(), 1_000).unwrap();
    assert_eq!(
        user,
        User {
            id: 1,
            name: "Ann".to_string(),
            contact: "a@x".to_string(),
            user_type: UserType::Elderly,
            created_at: 1_000,
        }
    );

    let record = create_health_record(&mut store, reading(1), 2_000).unwrap();
    assert_eq!(record.id, 2);
    assert_eq!(record.user_id, 1);
    assert_eq!(record.heart_rate, 72);
    assert_eq!(record.blood_pressure, "120/80");
    assert_eq!(record.activity_level, "moderate");
    assert_eq!(record.status, HealthStatus::Stable);
    assert_eq!(record.recorded_at, 2_000);

    let refused = create_health_record(&mut store, reading(999), 3_000);
    assert_eq!(refused, Err(StoreError::UnknownUser));
    assert_eq!(refused.unwrap_err().message(), "User ID does not exist.");
    assert_eq!(store.last_id(), 2);

    let next = create_user(&mut store, ann(), 4_000).unwrap();
    assert_eq!(next.id, 3);
    assert_eq!(get_all_health_records(&store), Ok(vec![record]));
}

#[test]
fn identifiers_are_shared_by_all_kinds() {
    let mut store = Store::new().unwrap();
    let user = create_user(&mut store, ann(), 10).unwrap();
    let provider = create_user(
        &mut store,
        UserPayload {
            name: "Dr. Bo".to_string(),
            contact: "bo@clinic".to_string(),
            user_type: UserType::HealthcareProvider,
        },
        11,
    )
    .unwrap();
    let health = create_health_record(&mut store, reading(user.id), 12).unwrap();
    let reminder = create_medication_reminder(
        &mut store,
        MedicationReminderPayload {
            user_id: user.id,
            medication_name: "Aspirin".to_string(),
            dosage: "100mg".to_string(),
            schedule: "daily".to_string(),
        },
        13,
    )
    .unwrap();
    let consultation = create_virtual_consultation(
        &mut store,
        VirtualConsultationPayload {
            user_id: user.id,
            provider_id: provider.id,
            scheduled_at: 5_000,
            status: "booked".to_string(),
        },
        14,
    )
    .unwrap();
    let diet = create_diet_record(
        &mut store,
        DietRecordPayload {
            user_id: user.id,
            meal_type: MealType::Lunch,
            food_items: "rice,beans".to_string(),
            calories: 640,
        },
        15,
    )
    .unwrap();
    let exercise = create_exercise_recommendation(
        &mut store,
        ExerciseRecommendationPayload {
            user_id: user.id,
            exercise_type: ExerciseType::Strength,
            duration: 30,
            intensity: Intensity::Medium,
        },
        16,
    )
    .unwrap();
    let mental = create_mental_health_record(
        &mut store,
        MentalHealthRecordPayload {
            user_id: user.id,
            mood: Mood::Anxious,
            stress_level: StressLevel::High,
            notes: "slept badly".to_string(),
        },
        17,
    )
    .unwrap();
    let challenge = create_fitness_challenge(
        &mut store,
        FitnessChallengePayload {
            name: "Steps".to_string(),
            description: "Ten thousand a day".to_string(),
            start_date: 100,
            end_date: 200,
        },
        18,
    )
    .unwrap();
    let participant = create_fitness_challenge_participant(
        &mut store,
        FitnessChallengeParticipantPayload {
            challenge_id: challenge.id,
            user_id: user.id,
            progress: 1_234,
        },
        19,
    )
    .unwrap();

    let ids = [
        user.id,
        provider.id,
        health.id,
        reminder.id,
        consultation.id,
        diet.id,
        exercise.id,
        mental.id,
        challenge.id,
        participant.id,
    ];
    assert_eq!(ids, [1, 2, 3, 4, 5, 6, 7, 8, 9, 10]);
    assert_eq!(store.last_id(), 10);

    assert_eq!(consultation.provider_id, 2);
    assert_eq!(consultation.scheduled_at, 5_000);
    assert_eq!(consultation.created_at, 14);
    assert_eq!(diet.calories, 640);
    assert_eq!(diet.recorded_at, 15);
    assert_eq!(exercise.recommended_at, 16);
    assert_eq!(mental.recorded_at, 17);
    assert_eq!(challenge.created_at, 18);
    assert_eq!(participant.updated_at, 19);
    assert_eq!(participant.progress, 1_234);
}

#[test]
fn a_refused_call_uses_no_identifier() {
    let mut store = Store::new().unwrap();
    let user = create_user(&mut store, ann(), 1).unwrap();
    assert_eq!(user.id, 1);

    let empty_text = create_user(
        &mut store,
        UserPayload { name: String::new(), contact: "x".to_string(), user_type: UserType::Elderly },
        2,
    );
    assert_eq!(empty_text, Err(StoreError::EmptyNameOrContact));
    assert_eq!(store.last_id(), 1);

    let zero_number = create_exercise_recommendation(
        &mut store,
        ExerciseRecommendationPayload {
            user_id: 1,
            exercise_type: ExerciseType::Cardio,
            duration: 0,
            intensity: Intensity::Low,
        },
        3,
    );
    assert_eq!(zero_number, Err(StoreError::MissingField));
    assert_eq!(store.last_id(), 1);

    let unknown = create_health_record(&mut store, reading(77), 4);
    assert_eq!(unknown, Err(StoreError::UnknownUser));
    assert_eq!(store.last_id(), 1);

    let next = create_health_record(&mut store, reading(1), 5).unwrap();
    assert_eq!(next.id, 2);
    assert_eq!(get_all_users(&store), Ok(vec![user]));
    assert_eq!(get_all_health_records(&store), Ok(vec![next]));
}

#[test]
fn two_stores_do_not_share_identifiers_or_records() {
    let mut first = Store::new().unwrap();
    let mut second = Store::new().unwrap();
    let a = create_user(&mut first, ann(), 1).unwrap();
    let b = create_user(&mut first, ann(), 2).unwrap();
    let c = create_user(&mut second, ann(), 3).unwrap();
    assert_eq!((a.id, b.id, c.id), (1, 2, 1));
    assert_eq!(get_all_users(&first).unwrap().len(), 2);
    assert_eq!(get_all_users(&second).unwrap().len(), 1);
}

#[test]
fn a_store_that_is_opened_again_holds_what_it_held() {
    let mut store = Store::new().unwrap();
    let mut users = Vec::new();
    for i in 0..40u64 {
        users.push(create_user(&mut store, ann(), i).unwrap());
    }
    let record = create_health_record(&mut store, reading(users[3].id), 50).unwrap();
    assert_eq!(store.last_id(), 41);

    let mut store = store.reopen().unwrap();
    assert_eq!(store.last_id(), 41);
    assert_eq!(get_all_users(&store), Ok(users.clone()));
    assert_eq!(get_all_health_records(&store), Ok(vec![record.clone()]));
    assert!(store.users.contains(40));
    assert!(!store.users.contains(41));
    assert_eq!(store.users.get(7), Some(users[6].clone()));

    // It goes on where it was.
    let next = create_user(&mut store, ann(), 60).unwrap();
    assert_eq!(next.id, 42);
    assert_eq!(create_health_record(&mut store, reading(43), 61), Err(StoreError::UnknownUser));
    let second = create_health_record(&mut store, reading(42), 62).unwrap();
    assert_eq!(second.id, 43);

    let store = store.reopen().unwrap().reopen().unwrap();
    assert_eq!(store.last_id(), 43);
    users.push(next);
    assert_eq!(get_all_users(&store), Ok(users));
    assert_eq!(get_all_health_records(&store), Ok(vec![record, second]));
}

#[test]
fn a_new_store_that_is_opened_again_is_still_empty() {
    let store = Store::new().unwrap().reopen().unwrap();
    assert_eq!(store.last_id(), 0);
    assert_eq!(get_all_users(&store), Err(StoreError::NoneFound(care_store::Entity::User)));
    let mut store = store;
    assert_eq!(create_user(&mut store, ann(), 1).unwrap().id, 1);
}
