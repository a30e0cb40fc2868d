//! Exercise recommendations: what a user is advised to do.

use crate::error::Entity;
use crate::kinds::{ExerciseType, Intensity};
use crate::record::{Owned, Record, MAX_RECORD_SIZE};
use crate::wire::{
    after, got, lemma_take_u32, lemma_take_u32_canonical, lemma_take_u64, lemma_take_u64_canonical,
    lemma_take_u8, lemma_take_u8_canonical, lemma_wire_lengths, put_u32, put_u64, put_u8, read_u32,
    read_u64, read_u8, take_u32, take_u64, take_u8, u32_wire, u64_wire, u8_wire,
};
use vstd::prelude::*;

verus! {

/// An exercise that a user is advised to do.
#[derive(Clone, Debug, PartialEq, Eq, Default)]
pub struct ExerciseRecommendation {
    pub id: u64,
    pub user_id: u64,
    pub exercise_type: ExerciseType,
    pub duration: u32,
    pub intensity: Intensity,
    pub recommended_at: u64,
}

/// What a caller supplies to recommend an exercise.
#[derive(Clone, Debug, PartialEq, Eq, Default)]
pub struct ExerciseRecommendationPayload {
    pub user_id: u64,
    pub exercise_type: ExerciseType,
    pub duration: u32,
    pub intensity: Intensity,
}

/// What a record of this kind says, its texts as sequences of characters.
pub struct ExerciseRecommendationView {
    pub id: u64,
    pub user_id: u64,
    pub exercise_type: ExerciseType,
    pub duration: u32,
    pub intensity: Intensity,
    pub recommended_at: u64,
}

impl View for ExerciseRecommendation {
    type V = ExerciseRecommendationView;

    open spec fn view(&self) -> ExerciseRecommendationView {
        ExerciseRecommendationView {
            id: self.id,
            user_id: self.user_id,
            exercise_type: self.exercise_type,
            duration: self.duration,
            intensity: self.intensity,
            recommended_at: self.recommended_at,
        }
    }
}

impl ExerciseRecommendationPayload {
    /// Whether nothing required is missing: every required text has at least one
    /// character, and every required number is not zero.
    pub open spec fn complete(&self) -> bool {
        self.duration != 0
    }

    /// Whether nothing required is missing: every required text has at least one
    /// character, and every required number is not zero.
    pub fn is_complete(&self) -> (ok: bool)
        ensures
            ok == self.complete(),
    {
        self.duration != 0
    }

    /// The record that the payload becomes under the identifier `id`, at the time
    /// `now`.
    pub open spec fn record(&self, id: u64, now: u64) -> ExerciseRecommendationView {
        ExerciseRecommendationView {
            id,
            user_id: self.user_id,
            exercise_type: self.exercise_type,
            duration: self.duration,
            intensity: self.intensity,
            recommended_at: now,
        }
    }

    /// The record that the payload becomes under the identifier `id`, at the time
    /// `now`.
    pub fn into_record(self, id: u64, now: u64) -> (out: ExerciseRecommendation)
        ensures
            out@ == self.record(id, now),
    {
        ExerciseRecommendation {
            id,
            user_id: self.user_id,
            exercise_type: self.exercise_type,
            duration: self.duration,
            intensity: self.intensity,
            recommended_at: now,
        }
    }
}

impl Record for ExerciseRecommendation {
    open spec fn entity() -> Entity {
        Entity::ExerciseRecommendation
    }

    fn kind() -> (entity: Entity) {
        Entity::ExerciseRecommendation
    }

    open spec fn encoding(v: ExerciseRecommendationView) -> Seq<u8> {
        u64_wire(v.id)
            + u64_wire(v.user_id)
            + u8_wire(v.exercise_type.tag())
            + u32_wire(v.duration)
            + u8_wire(v.intensity.tag())
            + u64_wire(v.recommended_at)
    }

    open spec fn decoding(b: Seq<u8>) -> Option<ExerciseRecommendationView> {
        let f0 = take_u64(b);
        let f1 = take_u64(after(f0));
        let f2 = take_u8(after(f1));
        let f3 = take_u32(after(f2));
        let f4 = take_u8(after(f3));
        let f5 = take_u64(after(f4));
        let exercise_type = ExerciseType::of_tag(got(f2));
        let intensity = Intensity::of_tag(got(f4));
        if f0 is Some
            && f1 is Some
            && f2 is Some
            && f3 is Some
            && f4 is Some
            && f5 is Some
            && exercise_type is Some
            && intensity is Some
            && after(f5).len() == 0 {
            Some(
                ExerciseRecommendationView {
                    id: got(f0),
                    user_id: got(f1),
                    exercise_type: exercise_type->0,
                    duration: got(f3),
                    intensity: intensity->0,
                    recommended_at: got(f5),
                },
            )
        } else {
            None
        }
    }

    proof fn lemma_decoding_inverts_encoding(v: ExerciseRecommendationView) {
        lemma_wire_lengths();
        let t5 = u64_wire(v.recommended_at);
        let t4 = u8_wire(v.intensity.tag()) + t5;
        let t3 = u32_wire(v.duration) + t4;
        let t2 = u8_wire(v.exercise_type.tag()) + t3;
        let t1 = u64_wire(v.user_id) + t2;
        assert(t5 + Seq::<u8>::empty() =~= t5);
        assert(Self::encoding(v) =~= u64_wire(v.id) + t1);
        lemma_take_u64(v.id, t1);
        lemma_take_u64(v.user_id, t2);
        lemma_take_u8(v.exercise_type.tag(), t3);
        lemma_take_u32(v.duration, t4);
        lemma_take_u8(v.intensity.tag(), t5);
        lemma_take_u64(v.recommended_at, Seq::empty());
    }

    proof fn lemma_encoding_inverts_decoding(b: Seq<u8>) {
        let v = Self::decoding(b)->0;
        let f0 = take_u64(b);
        lemma_take_u64_canonical(b);
        let f1 = take_u64(after(f0));
        lemma_take_u64_canonical(after(f0));
        let f2 = take_u8(after(f1));
        lemma_take_u8_canonical(after(f1));
        let f3 = take_u32(after(f2));
        lemma_take_u32_canonical(after(f2));
        let f4 = take_u8(after(f3));
        lemma_take_u8_canonical(after(f3));
        let f5 = take_u64(after(f4));
        lemma_take_u64_canonical(after(f4));
        assert(v.exercise_type.tag() == got(f2));
        assert(v.intensity.tag() == got(f4));
        let t5 = u64_wire(v.recommended_at);
        assert(after(f4) =~= t5);
        let t4 = u8_wire(v.intensity.tag()) + t5;
        assert(after(f3) == t4);
        let t3 = u32_wire(v.duration) + t4;
        assert(after(f2) == t3);
        let t2 = u8_wire(v.exercise_type.tag()) + t3;
        assert(after(f1) == t2);
        let t1 = u64_wire(v.user_id) + t2;
        assert(after(f0) == t1);
        assert(b == u64_wire(v.id) + t1);
        assert(Self::encoding(v) =~= u64_wire(v.id) + t1);
    }

    fn encode(&self) -> (out: Option<Vec<u8>>) {
        proof {
            lemma_wire_lengths();
        }
        let mut out: Vec<u8> = Vec::new();
        put_u64(&mut out, self.id);
        put_u64(&mut out, self.user_id);
        put_u8(&mut out, self.exercise_type.to_tag());
        put_u32(&mut out, self.duration);
        put_u8(&mut out, self.intensity.to_tag());
        put_u64(&mut out, self.recommended_at);
        assert(out@ =~= Self::encoding(self@));
        if out.len() > MAX_RECORD_SIZE {
            return None;
        }
        Some(out)
    }

    fn decode(data: &[u8]) -> (out: Option<Self>) {
        assert(data@.skip(0) =~= data@);
        let (id, after_id) = read_u64(data, 0)?;
        let (user_id, after_user_id) = read_u64(data, after_id)?;
        let (exercise_type_tag, after_exercise_type) = read_u8(data, after_user_id)?;
        let (duration, after_duration) = read_u32(data, after_exercise_type)?;
        let (intensity_tag, after_intensity) = read_u8(data, after_duration)?;
        let (recommended_at, after_recommended_at) = read_u64(data, after_intensity)?;
        let exercise_type = ExerciseType::from_tag(exercise_type_tag)?;
        let intensity = Intensity::from_tag(intensity_tag)?;
        if after_recommended_at != data.len() {
            return None;
        }
        Some(
            ExerciseRecommendation {
                id,
                user_id,
                exercise_type,
                duration,
                intensity,
                recommended_at,
            },
        )
    }
}

impl Owned for ExerciseRecommendation {
    open spec fn owner(v: ExerciseRecommendationView) -> u64 {
        v.user_id
    }

    fn owner_id(&self) -> (id: u64) {
        self.user_id
    }
}

} // verus!
