//! The kinds of record that the store keeps: for each, the record, the payload
//! that a caller supplies for it, and its byte form.

pub mod diet_record;
pub mod exercise_recommendation;
pub mod fitness_challenge;
pub mod fitness_challenge_participant;
pub mod health_record;
pub mod medication_reminder;
pub mod mental_health_record;
pub mod user;
pub mod virtual_consultation;
