use care_store::{
    create_diet_record, create_exercise_recommendation, create_fitness_challenge,
    create_fitness_challenge_participant, create_health_record, create_medication_reminder,
    create_mental_health_record, create_user, create_virtual_consultation, get_all_diet_records,
    get_all_exercise_recommendations, get_all_fitness_challenge_participants,
    get_all_fitness_challenges, get_all_health_records, get_all_medication_reminders,
    get_all_mental_health_records, get_all_users, get_all_virtual_consultations,
    get_diet_records_by_user_id, get_exercise_recommendations_by_user_id,
    get_mental_health_records_by_user_id, DietRecordPayload, Entity,
    ExerciseRecommendationPayload, ExerciseType, FitnessChallengeParticipantPayload,
    FitnessChallengePayload, HealthRecordPayload, HealthStatus, Intensity, MealType,
    MedicationReminderPayload, MentalHealthRecordPayload, Mood, Store, StoreError, StressLevel,
    UserPayload, UserType, VirtualConsultationPayload,
};

fn user(name: &str) -> UserPayload {
    UserPayload {
        name: name.to_string(),
        contact: "contact".to_string(),
        user_type: UserType::Caregiver,
    }
}

fn meal(user_id: u64, food: &str) -> DietRecordPayload {
    DietRecordPayload {
        user_id,
        meal_type: MealType::Dinner,
        food_items: food.to_string(),
        calories: 500,
    }
}

fn exercise(user_id: u64, duration: u32) -> ExerciseRecommendationPayload {
    ExerciseRecommendationPayload {
        user_id,
        exercise_type: ExerciseType::Cardio,
        duration,
        intensity: Intensity::Low,
    }
}

fn feeling(user_id: u64, notes: &str) -> MentalHealthRecordPayload {
    MentalHealthRecordPayload {
        user_id,
        mood: Mood::Happy,
        stress_level: StressLevel::Medium,
        notes: notes.to_string(),
    }
}

#[test]
fn every_listing_of_a_new_store_finds_nothing() {
    let store = Store::new().unwrap();
    assert_eq!(get_all_users(&store), Err(StoreError::NoneFound(Entity::User)));
    assert_eq!(get_all_health_records(&store), Err(StoreError::NoneFound(Entity::HealthRecord)));
    assert_eq!(
        get_all_medication_reminders(&store),
        Err(StoreError::NoneFound(Entity::MedicationReminder))
    );
    assert_eq!(
        get_all_virtual_consultations(&store),
        Err(StoreError::NoneFound(Entity::VirtualConsultation))
    );
    assert_eq!(get_all_diet_records(&store), Err(StoreError::NoneFound(Entity::DietRecord)));
    assert_eq!(
        get_diet_records_by_user_id(&store, 1),
        Err(StoreError::NoneFound(Entity::DietRecord))
    );
    assert_eq!(
        get_all_exercise_recommendations(&store),
        Err(StoreError::NoneFound(Entity::ExerciseRecommendation))
    );
    assert_eq!(
        get_exercise_recommendations_by_user_id(&store, 1),
        Err(StoreError::NoneFound(Entity::ExerciseRecommendation))
    );
    assert_eq!(
        get_all_mental_health_records(&store),
        Err(StoreError::NoneFound(Entity::MentalHealthRecord))
    );
    assert_eq!(
        get_mental_health_records_by_user_id(&store, 1),
        Err(StoreError::NoneFound(Entity::MentalHealthRecord))
    );
    assert_eq!(
        get_all_fitness_challenges(&store),
        Err(StoreError::NoneFound(Entity::FitnessChallenge))
    );
    assert_eq!(
        get_all_fitness_challenge_participants(&store),
        Err(StoreError::NoneFound(Entity::FitnessChallengeParticipant))
    );
}

#[test]
fn a_listing_that_finds_nothing_says_so_in_words() {
    let store = Store::new().unwrap();
    assert_eq!(get_all_users(&store).unwrap_err().message(), "No users found.");
    assert_eq!(get_all_health_records(&store).unwrap_err().message(), "No health records found.");
    assert_eq!(
        get_all_medication_reminders(&store).unwrap_err().message(),
        "No medication reminders found."
    );
    assert_eq!(
        get_all_virtual_consultations(&store).unwrap_err().message(),
        "No virtual consultations found."
    );
    assert_eq!(get_all_diet_records(&store).unwrap_err().message(), "No diet records found.");
    assert_eq!(
        get_diet_records_by_user_id(&store, 3).unwrap_err().message(),
        "No diet records found."
    );
    assert_eq!(
        get_all_exercise_recommendations(&store).unwrap_err().message(),
        "No exercise recommendations found."
    );
    assert_eq!(
        get_exercise_recommendations_by_user_id(&store, 3).unwrap_err().message(),
        "No exercise recommendations found."
    );
    assert_eq!(
        get_all_mental_health_records(&store).unwrap_err().message(),
        "No mental health records found."
    );
    assert_eq!(
        get_mental_health_records_by_user_id(&store, 3).unwrap_err().message(),
        "No mental health records found."
    );
    assert_eq!(
        get_all_fitness_challenges(&store).unwrap_err().message(),
        "No fitness challenges found."
    );
    assert_eq!(
        get_all_fitness_challenge_participants(&store).unwrap_err().message(),
        "No fitness challenge participants found."
    );
}

#[test]
fn the_first_record_of_each_kind_is_listed_alone_as_it_was_returned() {
    let mut store = Store::new().unwrap();
    let u = create_user(&mut store, user("Ann"), 1).unwrap();
    assert_eq!(get_all_users(&store), Ok(vec![u.clone()]));

    let h = create_health_record(
        &mut store,
        HealthRecordPayload {
            user_id: u.id,
            heart_rate: 255,
            blood_pressure: "90/60".to_string(),
            activity_level: "low".to_string(),
            status: HealthStatus::Critical,
        },
        2,
    )
    .unwrap();
    assert_eq!(get_all_health_records(&store), Ok(vec![h]));

    let m = create_medication_reminder(
        &mut store,
        MedicationReminderPayload {
            user_id: u.id,
            medication_name: "Vitamin D".to_string(),
            dosage: "1000 IU".to_string(),
            schedule: "mornings".to_string(),
        },
        3,
    )
    .unwrap();
    assert_eq!(get_all_medication_reminders(&store), Ok(vec![m]));

    let v = create_virtual_consultation(
        &mut store,
        VirtualConsultationPayload {
            user_id: u.id,
            provider_id: u.id,
            scheduled_at: u64::MAX,
            status: "pending".to_string(),
        },
        4,
    )
    .unwrap();
    assert_eq!(get_all_virtual_consultations(&store), Ok(vec![v]));

    let d = create_diet_record(&mut store, meal(u.id, "soup"), 5).unwrap();
    assert_eq!(get_all_diet_records(&store), Ok(vec![d.clone()]));
    assert_eq!(get_diet_records_by_user_id(&store, u.id), Ok(vec![d]));

    let e = create_exercise_recommendation(&mut store, exercise(u.id, 20), 6).unwrap();
    assert_eq!(get_all_exercise_recommendations(&store), Ok(vec![e.clone()]));
    assert_eq!(get_exercise_recommendations_by_user_id(&store, u.id), Ok(vec![e]));

    let f = create_mental_health_record(&mut store, feeling(u.id, "fine"), 7).unwrap();
    assert_eq!(get_all_mental_health_records(&store), Ok(vec![f.clone()]));
    assert_eq!(get_mental_health_records_by_user_id(&store, u.id), Ok(vec![f]));

    let c = create_fitness_challenge(
        &mut store,
        FitnessChallengePayload {
            name: "Walk".to_string(),
            description: "Every day".to_string(),
            start_date: 1,
            end_date: 2,
        },
        8,
    )
    .unwrap();
    assert_eq!(get_all_fitness_challenges(&store), Ok(vec![c.clone()]));

    let p = create_fitness_challenge_participant(
        &mut store,
        FitnessChallengeParticipantPayload { challenge_id: c.id, user_id: u.id, progress: 42 },
        9,
    )
    .unwrap();
    assert_eq!(get_all_fitness_challenge_participants(&store), Ok(vec![p]));

    // The users are as they were.
    assert_eq!(get_all_users(&store), Ok(vec![u]));
}

#[test]
fn records_are_listed_by_ascending_identifier() {
    let mut store = Store::new().unwrap();
    let a = create_user(&mut store, user("a"), 30).unwrap();
    let d1 = create_diet_record(&mut store, meal(a.id, "one"), 20).unwrap();
    let b = create_user(&mut store, user("b"), 10).unwrap();
    let d2 = create_diet_record(&mut store, meal(b.id, "two"), 5).unwrap();
    let c = create_user(&mut store, user("c"), 1).unwrap();
    assert_eq!((a.id, d1.id, b.id, d2.id, c.id), (1, 2, 3, 4, 5));
    // The order is that of the identifiers, not of the times.
    assert_eq!(get_all_users(&store), Ok(vec![a, b, c]));
    assert_eq!(get_all_diet_records(&store), Ok(vec![d1, d2]));
}

#[test]
fn many_records_are_listed_in_order_and_unchanged() {
    let mut store = Store::new().unwrap();
    let mut made = Vec::new();
    for i in 0..300u64 {
        let name = format!("user {}", i);
        made.push(create_user(&mut store, user(&name), 1_000 + i).unwrap());
    }
    let listed = get_all_users(&store).unwrap();
    assert_eq!(listed.len(), 300);
    assert_eq!(listed, made);
    for (i, u) in listed.iter().enumerate() {
        assert_eq!(u.id, i as u64 + 1);
        assert_eq!(u.name, format!("user {}", i));
        assert_eq!(u.created_at, 1_000 + i as u64);
        assert!(store.users.contains(u.id));
        assert_eq!(store.users.get(u.id).as_ref(), Some(u));
    }
    assert!(!store.users.contains(301));
    assert_eq!(store.users.get(301), None);
    assert_eq!(store.users.get(0), None);
}

#[test]
fn a_listing_by_user_keeps_the_records_of_that_user_in_order() {
    let mut store = Store::new().unwrap();
    let a = create_user(&mut store, user("a"), 1).unwrap();
    let b = create_user(&mut store, user("b"), 1).unwrap();
    let c = create_user(&mut store, user("c"), 1).unwrap();

    let a1 = create_diet_record(&mut store, meal(a.id, "a1"), 2).unwrap();
    let b1 = create_diet_record(&mut store, meal(b.id, "b1"), 2).unwrap();
    let a2 = create_diet_record(&mut store, meal(a.id, "a2"), 2).unwrap();
    assert_eq!(get_diet_records_by_user_id(&store, a.id), Ok(vec![a1.clone(), a2.clone()]));
    assert_eq!(get_diet_records_by_user_id(&store, b.id), Ok(vec![b1.clone()]));
    assert_eq!(
        get_diet_records_by_user_id(&store, c.id),
        Err(StoreError::NoneFound(Entity::DietRecord))
    );
    assert_eq!(get_all_diet_records(&store), Ok(vec![a1, b1, a2]));

    let e1 = create_exercise_recommendation(&mut store, exercise(b.id, 10), 3).unwrap();
    let e2 = create_exercise_recommendation(&mut store, exercise(c.id, 20), 3).unwrap();
    let e3 = create_exercise_recommendation(&mut store, exercise(b.id, 30), 3).unwrap();
    assert_eq!(
        get_exercise_recommendations_by_user_id(&store, b.id),
        Ok(vec![e1.clone(), e3.clone()])
    );
    assert_eq!(get_exercise_recommendations_by_user_id(&store, c.id), Ok(vec![e2.clone()]));
    assert_eq!(
        get_exercise_recommendations_by_user_id(&store, a.id),
        Err(StoreError::NoneFound(Entity::ExerciseRecommendation))
    );
    assert_eq!(get_all_exercise_recommendations(&store), Ok(vec![e1, e2, e3]));

    let m1 = create_mental_health_record(&mut store, feeling(c.id, "m1"), 4).unwrap();
    let m2 = create_mental_health_record(&mut store, feeling(c.id, "m2"), 4).unwrap();
    assert_eq!(
        get_mental_health_records_by_user_id(&store, c.id),
        Ok(vec![m1.clone(), m2.clone()])
    );
    assert_eq!(
        get_mental_health_records_by_user_id(&store, 0),
        Err(StoreError::NoneFound(Entity::MentalHealthRecord))
    );
    // An identifier that is no user's finds nothing either.
    assert_eq!(
        get_mental_health_records_by_user_id(&store, m1.id),
        Err(StoreError::NoneFound(Entity::MentalHealthRecord))
    );
    assert_eq!(get_all_mental_health_records(&store), Ok(vec![m1, m2]));
}

#[test]
fn a_listed_record_equals_the_created_one_in_every_field() {
    let mut store = Store::new().unwrap();
    let created = create_user(
        &mut store,
        UserPayload {
            name: "Zoë Ångström 日本".to_string(),
            contact: "+1 (555) 010-9999 \u{1F600}".to_string(),
            user_type: UserType::HealthcareProvider,
        },
        u64::MAX,
    )
    .unwrap();
    let listed = get_all_users(&store).unwrap();
    assert_eq!(listed.len(), 1);
    assert_eq!(listed[0].id, created.id);
    assert_eq!(listed[0].name, created.name);
    assert_eq!(listed[0].name, "Zoë Ångström 日本");
    assert_eq!(listed[0].contact, created.contact);
    assert_eq!(listed[0].user_type, UserType::HealthcareProvider);
    assert_eq!(listed[0].created_at, u64::MAX);
    // It stays so while other records are created.
    for i in 0..50 {
        create_diet_record(&mut store, meal(created.id, "f"), i).unwrap();
        create_user(&mut store, user("other"), i).unwrap();
    }
    let later = get_all_users(&store).unwrap();
    assert_eq!(later.len(), 51);
    assert_eq!(later[0], created);
    assert_eq!(store.users.get(created.id), Some(created));
}
