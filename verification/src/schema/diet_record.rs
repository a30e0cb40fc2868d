//! Diet records: what a user ate.

use crate::error::Entity;
use crate::kinds::MealType;
use crate::record::{Owned, Record, MAX_RECORD_SIZE};
use crate::wire::{
    after, got, lemma_take_text, lemma_take_text_canonical, lemma_take_u32,
    lemma_take_u32_canonical, lemma_take_u64, lemma_take_u64_canonical, lemma_take_u8,
    lemma_take_u8_canonical, lemma_wire_lengths, put_text, put_u32, put_u64, put_u8, read_text,
    read_u32, read_u64, read_u8, take_text, take_u32, take_u64, take_u8, text_len, text_wire,
    u32_wire, u64_wire, u8_wire,
};
use vstd::prelude::*;

verus! {

/// A meal that a user ate.
#[derive(Clone, Debug, PartialEq, Eq, Default)]
pub struct DietRecord {
    pub id: u64,
    pub user_id: u64,
    pub meal_type: MealType,
    pub food_items: String,
    pub calories: u32,
    pub recorded_at: u64,
}

/// What a caller supplies to record a meal.
#[derive(Clone, Debug, PartialEq, Eq, Default)]
pub struct DietRecordPayload {
    pub user_id: u64,
    pub meal_type: MealType,
    pub food_items: String,
    pub calories: u32,
}

/// What a record of this kind says, its texts as sequences of characters.
pub struct DietRecordView {
    pub id: u64,
    pub user_id: u64,
    pub meal_type: MealType,
    pub food_items: Seq<char>,
    pub calories: u32,
    pub recorded_at: u64,
}

impl View for DietRecord {
    type V = DietRecordView;

    open spec fn view(&self) -> DietRecordView {
        DietRecordView {
            id: self.id,
            user_id: self.user_id,
            meal_type: self.meal_type,
            food_items: self.food_items@,
            calories: self.calories,
            recorded_at: self.recorded_at,
        }
    }
}

impl DietRecordPayload {
    /// Whether nothing required is missing: every required text has at least one
    /// character, and every required number is not zero.
    pub open spec fn complete(&self) -> bool {
        self.food_items@.len() > 0
    }

    /// Whether nothing required is missing: every required text has at least one
    /// character, and every required number is not zero.
    pub fn is_complete(&self) -> (ok: bool)
        ensures
            ok == self.complete(),
    {
        !self.food_items.as_str().is_empty()
    }

    /// The record that the payload becomes under the identifier `id`, at the time
    /// `now`.
    pub open spec fn record(&self, id: u64, now: u64) -> DietRecordView {
        DietRecordView {
            id,
            user_id: self.user_id,
            meal_type: self.meal_type,
            food_items: self.food_items@,
            calories: self.calories,
            recorded_at: now,
        }
    }

    /// The record that the payload becomes under the identifier `id`, at the time
    /// `now`.
    pub fn into_record(self, id: u64, now: u64) -> (out: DietRecord)
        ensures
            out@ == self.record(id, now),
    {
        DietRecord {
            id,
            user_id: self.user_id,
            meal_type: self.meal_type,
            food_items: self.food_items,
            calories: self.calories,
            recorded_at: now,
        }
    }
}

impl Record for DietRecord {
    open spec fn entity() -> Entity {
        Entity::DietRecord
    }

    fn kind() -> (entity: Entity) {
        Entity::DietRecord
    }

    open spec fn encoding(v: DietRecordView) -> Seq<u8> {
        u64_wire(v.id)
            + u64_wire(v.user_id)
            + u8_wire(v.meal_type.tag())
            + text_wire(v.food_items)
            + u32_wire(v.calories)
            + u64_wire(v.recorded_at)
    }

    open spec fn decoding(b: Seq<u8>) -> Option<DietRecordView> {
        let f0 = take_u64(b);
        let f1 = take_u64(after(f0));
        let f2 = take_u8(after(f1));
        let f3 = take_text(after(f2));
        let f4 = take_u32(after(f3));
        let f5 = take_u64(after(f4));
        let meal_type = MealType::of_tag(got(f2));
        if f0 is Some
            && f1 is Some
            && f2 is Some
            && f3 is Some
            && f4 is Some
            && f5 is Some
            && meal_type is Some
            && after(f5).len() == 0 {
            Some(
                DietRecordView {
                    id: got(f0),
                    user_id: got(f1),
                    meal_type: meal_type->0,
                    food_items: got(f3),
                    calories: got(f4),
                    recorded_at: got(f5),
                },
            )
        } else {
            None
        }
    }

    proof fn lemma_decoding_inverts_encoding(v: DietRecordView) {
        lemma_wire_lengths();
        let t5 = u64_wire(v.recorded_at);
        let t4 = u32_wire(v.calories) + t5;
        let t3 = text_wire(v.food_items) + t4;
        let t2 = u8_wire(v.meal_type.tag()) + t3;
        let t1 = u64_wire(v.user_id) + t2;
        assert(t5 + Seq::<u8>::empty() =~= t5);
        assert(Self::encoding(v) =~= u64_wire(v.id) + t1);
        lemma_take_u64(v.id, t1);
        lemma_take_u64(v.user_id, t2);
        lemma_take_u8(v.meal_type.tag(), t3);
        lemma_take_text(v.food_items, t4);
        lemma_take_u32(v.calories, t5);
        lemma_take_u64(v.recorded_at, Seq::empty());
    }

    proof fn lemma_encoding_inverts_decoding(b: Seq<u8>) {
        let v = Self::decoding(b)->0;
        let f0 = take_u64(b);
        lemma_take_u64_canonical(b);
        let f1 = take_u64(after(f0));
        lemma_take_u64_canonical(after(f0));
        let f2 = take_u8(after(f1));
        lemma_take_u8_canonical(after(f1));
        let f3 = take_text(after(f2));
        lemma_take_text_canonical(after(f2));
        let f4 = take_u32(after(f3));
        lemma_take_u32_canonical(after(f3));
        let f5 = take_u64(after(f4));
        lemma_take_u64_canonical(after(f4));
        assert(v.meal_type.tag() == got(f2));
        let t5 = u64_wire(v.recorded_at);
        assert(after(f4) =~= t5);
        let t4 = u32_wire(v.calories) + t5;
        assert(after(f3) == t4);
        let t3 = text_wire(v.food_items) + t4;
        assert(after(f2) == t3);
        let t2 = u8_wire(v.meal_type.tag()) + t3;
        assert(after(f1) == t2);
        let t1 = u64_wire(v.user_id) + t2;
        assert(after(f0) == t1);
        assert(b == u64_wire(v.id) + t1);
        assert(Self::encoding(v) =~= u64_wire(v.id) + t1);
    }

    fn encode(&self) -> (out: Option<Vec<u8>>) {
        proof {
            lemma_wire_lengths();
        }
        if text_len(self.food_items.as_str()) > MAX_RECORD_SIZE {
            return None;
        }
        let mut out: Vec<u8> = Vec::new();
        put_u64(&mut out, self.id);
        put_u64(&mut out, self.user_id);
        put_u8(&mut out, self.meal_type.to_tag());
        put_text(&mut out, self.food_items.as_str());
        put_u32(&mut out, self.calories);
        put_u64(&mut out, self.recorded_at);
        assert(out@ =~= Self::encoding(self@));
        if out.len() > MAX_RECORD_SIZE {
            return None;
        }
        Some(out)
    }

    fn decode(data: &[u8]) -> (out: Option<Self>) {
        assert(data@.skip(0) =~= data@);
        let (id, after_id) = read_u64(data, 0)?;
        let (user_id, after_user_id) = read_u64(data, after_id)?;
        let (meal_type_tag, after_meal_type) = read_u8(data, after_user_id)?;
        let (food_items, after_food_items) = read_text(data, after_meal_type)?;
        let (calories, after_calories) = read_u32(data, after_food_items)?;
        let (recorded_at, after_recorded_at) = read_u64(data, after_calories)?;
        let meal_type = MealType::from_tag(meal_type_tag)?;
        if after_recorded_at != data.len() {
            return None;
        }
        Some(DietRecord { id, user_id, meal_type, food_items, calories, recorded_at })
    }
}

impl Owned for DietRecord {
    open spec fn owner(v: DietRecordView) -> u64 {
        v.user_id
    }

    fn owner_id(&self) -> (id: u64) {
        self.user_id
    }
}

} // verus!
