//! Mental health records: how a user felt.

use crate::error::Entity;
use crate::kinds::{Mood, StressLevel};
use crate::record::{Owned, Record, MAX_RECORD_SIZE};
use crate::wire::{
    after, got, lemma_take_text, lemma_take_text_canonical, lemma_take_u64,
    lemma_take_u64_canonical, lemma_take_u8, lemma_take_u8_canonical, lemma_wire_lengths, put_text,
    put_u64, put_u8, read_text, read_u64, read_u8, take_text, take_u64, take_u8, text_len,
    text_wire, u64_wire, u8_wire,
};
use vstd::prelude::*;

verus! {

/// A note of how a user felt.
#[derive(Clone, Debug, PartialEq, Eq, Default)]
pub struct MentalHealthRecord {
    pub id: u64,
    pub user_id: u64,
    pub mood: Mood,
    pub stress_level: StressLevel,
    pub notes: String,
    pub recorded_at: u64,
}

/// What a caller supplies to record how a user felt.
#[derive(Clone, Debug, PartialEq, Eq, Default)]
pub struct MentalHealthRecordPayload {
    pub user_id: u64,
    pub mood: Mood,
    pub stress_level: StressLevel,
    pub notes: String,
}

/// What a record of this kind says, its texts as sequences of characters.
pub struct MentalHealthRecordView {
    pub id: u64,
    pub user_id: u64,
    pub mood: Mood,
    pub stress_level: StressLevel,
    pub notes: Seq<char>,
    pub recorded_at: u64,
}

impl View for MentalHealthRecord {
    type V = MentalHealthRecordView;

    open spec fn view(&self) -> MentalHealthRecordView {
        MentalHealthRecordView {
            id: self.id,
            user_id: self.user_id,
            mood: self.mood,
            stress_level: self.stress_level,
            notes: self.notes@,
            recorded_at: self.recorded_at,
        }
    }
}

impl MentalHealthRecordPayload {
    /// Whether nothing required is missing: every required text has at least one
    /// character, and every required number is not zero.
    pub open spec fn complete(&self) -> bool {
        self.notes@.len() > 0
    }

    /// Whether nothing required is missing: every required text has at least one
    /// character, and every required number is not zero.
    pub fn is_complete(&self) -> (ok: bool)
        ensures
            ok == self.complete(),
    {
        !self.notes.as_str().is_empty()
    }

    /// The record that the payload becomes under the identifier `id`, at the time
    /// `now`.
    pub open spec fn record(&self, id: u64, now: u64) -> MentalHealthRecordView {
        MentalHealthRecordView {
            id,
            user_id: self.user_id,
            mood: self.mood,
            stress_level: self.stress_level,
            notes: self.notes@,
            recorded_at: now,
        }
    }

    /// The record that the payload becomes under the identifier `id`, at the time
    /// `now`.
    pub fn into_record(self, id: u64, now: u64) -> (out: MentalHealthRecord)
        ensures
            out@ == self.record(id, now),
    {
        MentalHealthRecord {
            id,
            user_id: self.user_id,
            mood: self.mood,
            stress_level: self.stress_level,
            notes: self.notes,
            recorded_at: now,
        }
    }
}

impl Record for MentalHealthRecord {
    open spec fn entity() -> Entity {
        Entity::MentalHealthRecord
    }

    fn kind() -> (entity: Entity) {
        Entity::MentalHealthRecord
    }

    open spec fn encoding(v: MentalHealthRecordView) -> Seq<u8> {
        u64_wire(v.id)
            + u64_wire(v.user_id)
            + u8_wire(v.mood.tag())
            + u8_wire(v.stress_level.tag())
            + text_wire(v.notes)
            + u64_wire(v.recorded_at)
    }

    open spec fn decoding(b: Seq<u8>) -> Option<MentalHealthRecordView> {
        let f0 = take_u64(b);
        let f1 = take_u64(after(f0));
        let f2 = take_u8(after(f1));
        let f3 = take_u8(after(f2));
        let f4 = take_text(after(f3));
        let f5 = take_u64(after(f4));
        let mood = Mood::of_tag(got(f2));
        let stress_level = StressLevel::of_tag(got(f3));
        if f0 is Some
            && f1 is Some
            && f2 is Some
            && f3 is Some
            && f4 is Some
            && f5 is Some
            && mood is Some
            && stress_level is Some
            && after(f5).len() == 0 {
            Some(
                MentalHealthRecordView {
                    id: got(f0),
                    user_id: got(f1),
                    mood: mood->0,
                    stress_level: stress_level->0,
                    notes: got(f4),
                    recorded_at: got(f5),
                },
            )
        } else {
            None
        }
    }

    proof fn lemma_decoding_inverts_encoding(v: MentalHealthRecordView) {
        lemma_wire_lengths();
        let t5 = u64_wire(v.recorded_at);
        let t4 = text_wire(v.notes) + t5;
        let t3 = u8_wire(v.stress_level.tag()) + t4;
        let t2 = u8_wire(v.mood.tag()) + t3;
        let t1 = u64_wire(v.user_id) + t2;
        assert(t5 + Seq::<u8>::empty() =~= t5);
        assert(Self::encoding(v) =~= u64_wire(v.id) + t1);
        lemma_take_u64(v.id, t1);
        lemma_take_u64(v.user_id, t2);
        lemma_take_u8(v.mood.tag(), t3);
        lemma_take_u8(v.stress_level.tag(), t4);
        lemma_take_text(v.notes, t5);
        lemma_take_u64(v.recorded_at, Seq::empty());
    }

    proof fn lemma_encoding_inverts_decoding(b: Seq<u8>) {
        let v = Self::decoding(b)->0;
        let f0 = take_u64(b);
        lemma_take_u64_canonical(b);
        let f1 = take_u64(after(f0));
        lemma_take_u64_canonical(after(f0));
        let f2 = take_u8(after(f1));
        lemma_take_u8_canonical(after(f1));
        let f3 = take_u8(after(f2));
        lemma_take_u8_canonical(after(f2));
        let f4 = take_text(after(f3));
        lemma_take_text_canonical(after(f3));
        let f5 = take_u64(after(f4));
        lemma_take_u64_canonical(after(f4));
        assert(v.mood.tag() == got(f2));
        assert(v.stress_level.tag() == got(f3));
        let t5 = u64_wire(v.recorded_at);
        assert(after(f4) =~= t5);
        let t4 = text_wire(v.notes) + t5;
        assert(after(f3) == t4);
        let t3 = u8_wire(v.stress_level.tag()) + t4;
        assert(after(f2) == t3);
        let t2 = u8_wire(v.mood.tag()) + t3;
        assert(after(f1) == t2);
        let t1 = u64_wire(v.user_id) + t2;
        assert(after(f0) == t1);
        assert(b == u64_wire(v.id) + t1);
        assert(Self::encoding(v) =~= u64_wire(v.id) + t1);
    }

    fn encode(&self) -> (out: Option<Vec<u8>>) {
        proof {
            lemma_wire_lengths();
        }
        if text_len(self.notes.as_str()) > MAX_RECORD_SIZE {
            return None;
        }
        let mut out: Vec<u8> = Vec::new();
        put_u64(&mut out, self.id);
        put_u64(&mut out, self.user_id);
        put_u8(&mut out, self.mood.to_tag());
        put_u8(&mut out, self.stress_level.to_tag());
        put_text(&mut out, self.notes.as_str());
        put_u64(&mut out, self.recorded_at);
        assert(out@ =~= Self::encoding(self@));
        if out.len() > MAX_RECORD_SIZE {
            return None;
        }
        Some(out)
    }

    fn decode(data: &[u8]) -> (out: Option<Self>) {
        assert(data@.skip(0) =~= data@);
        let (id, after_id) = read_u64(data, 0)?;
        let (user_id, after_user_id) = read_u64(data, after_id)?;
        let (mood_tag, after_mood) = read_u8(data, after_user_id)?;
        let (stress_level_tag, after_stress_level) = read_u8(data, after_mood)?;
        let (notes, after_notes) = read_text(data, after_stress_level)?;
        let (recorded_at, after_recorded_at) = read_u64(data, after_notes)?;
        let mood = Mood::from_tag(mood_tag)?;
        let stress_level = StressLevel::from_tag(stress_level_tag)?;
        if after_recorded_at != data.len() {
            return None;
        }
        Some(MentalHealthRecord { id, user_id, mood, stress_level, notes, recorded_at })
    }
}

impl Owned for MentalHealthRecord {
    open spec fn owner(v: MentalHealthRecordView) -> u64 {
        v.user_id
    }

    fn owner_id(&self) -> (id: u64) {
        self.user_id
    }
}

} // verus!
