//! Health records: readings taken of a user.

use crate::error::Entity;
use crate::kinds::HealthStatus;
use crate::record::{Record, MAX_RECORD_SIZE};
use crate::wire::{
    after, got, lemma_take_text, lemma_take_text_canonical, lemma_take_u64,
    lemma_take_u64_canonical, lemma_take_u8, lemma_take_u8_canonical, lemma_wire_lengths, put_text,
    put_u64, put_u8, read_text, read_u64, read_u8, take_text, take_u64, take_u8, text_len,
    text_wire, u64_wire, u8_wire,
};
use vstd::prelude::*;

verus! {

/// A reading taken of a user.
#[derive(Clone, Debug, PartialEq, Eq, Default)]
pub struct HealthRecord {
    pub id: u64,
    pub user_id: u64,
    pub heart_rate: u8,
    pub blood_pressure: String,
    pub activity_level: String,
    pub status: HealthStatus,
    pub recorded_at: u64,
}

/// What a caller supplies to record a reading.
#[derive(Clone, Debug, PartialEq, Eq, Default)]
pub struct HealthRecordPayload {
    pub user_id: u64,
    pub heart_rate: u8,
    pub blood_pressure: String,
    pub activity_level: String,
    pub status: HealthStatus,
}

/// What a record of this kind says, its texts as sequences of characters.
pub struct HealthRecordView {
    pub id: u64,
    pub user_id: u64,
    pub heart_rate: u8,
    pub blood_pressure: Seq<char>,
    pub activity_level: Seq<char>,
    pub status: HealthStatus,
    pub recorded_at: u64,
}

impl View for HealthRecord {
    type V = HealthRecordView;

    open spec fn view(&self) -> HealthRecordView {
        HealthRecordView {
            id: self.id,
            user_id: self.user_id,
            heart_rate: self.heart_rate,
            blood_pressure: self.blood_pressure@,
            activity_level: self.activity_level@,
            status: self.status,
            recorded_at: self.recorded_at,
        }
    }
}

impl HealthRecordPayload {
    /// Whether nothing required is missing: every required text has at least one
    /// character, and every required number is not zero.
    pub open spec fn complete(&self) -> bool {
        self.blood_pressure@.len() > 0
            && self.activity_level@.len() > 0
    }

    /// Whether nothing required is missing: every required text has at least one
    /// character, and every required number is not zero.
    pub fn is_complete(&self) -> (ok: bool)
        ensures
            ok == self.complete(),
    {
        !self.blood_pressure.as_str().is_empty()
            && !self.activity_level.as_str().is_empty()
    }

    /// The record that the payload becomes under the identifier `id`, at the time
    /// `now`.
    pub open spec fn record(&self, id: u64, now: u64) -> HealthRecordView {
        HealthRecordView {
            id,
            user_id: self.user_id,
            heart_rate: self.heart_rate,
            blood_pressure: self.blood_pressure@,
            activity_level: self.activity_level@,
            status: self.status,
            recorded_at: now,
        }
    }

    /// The record that the payload becomes under the identifier `id`, at the time
    /// `now`.
    pub fn into_record(self, id: u64, now: u64) -> (out: HealthRecord)
        ensures
            out@ == self.record(id, now),
    {
        HealthRecord {
            id,
            user_id: self.user_id,
            heart_rate: self.heart_rate,
            blood_pressure: self.blood_pressure,
            activity_level: self.activity_level,
            status: self.status,
            recorded_at: now,
        }
    }
}

impl Record for HealthRecord {
    open spec fn entity() -> Entity {
        Entity::HealthRecord
    }

    fn kind() -> (entity: Entity) {
        Entity::HealthRecord
    }

    open spec fn encoding(v: HealthRecordView) -> Seq<u8> {
        u64_wire(v.id)
            + u64_wire(v.user_id)
            + u8_wire(v.heart_rate)
            + text_wire(v.blood_pressure)
            + text_wire(v.activity_level)
            + u8_wire(v.status.tag())
            + u64_wire(v.recorded_at)
    }

    open spec fn decoding(b: Seq<u8>) -> Option<HealthRecordView> {
        let f0 = take_u64(b);
        let f1 = take_u64(after(f0));
        let f2 = take_u8(after(f1));
        let f3 = take_text(after(f2));
        let f4 = take_text(after(f3));
        let f5 = take_u8(after(f4));
        let f6 = take_u64(after(f5));
        let status = HealthStatus::of_tag(got(f5));
        if f0 is Some
            && f1 is Some
            && f2 is Some
            && f3 is Some
            && f4 is Some
            && f5 is Some
            && f6 is Some
            && status is Some
            && after(f6).len() == 0 {
            Some(
                HealthRecordView {
                    id: got(f0),
                    user_id: got(f1),
                    heart_rate: got(f2),
                    blood_pressure: got(f3),
                    activity_level: got(f4),
                    status: status->0,
                    recorded_at: got(f6),
                },
            )
        } else {
            None
        }
    }

    proof fn lemma_decoding_inverts_encoding(v: HealthRecordView) {
        lemma_wire_lengths();
        let t6 = u64_wire(v.recorded_at);
        let t5 = u8_wire(v.status.tag()) + t6;
        let t4 = text_wire(v.activity_level) + t5;
        let t3 = text_wire(v.blood_pressure) + t4;
        let t2 = u8_wire(v.heart_rate) + t3;
        let t1 = u64_wire(v.user_id) + t2;
        assert(t6 + Seq::<u8>::empty() =~= t6);
        assert(Self::encoding(v) =~= u64_wire(v.id) + t1);
        lemma_take_u64(v.id, t1);
        lemma_take_u64(v.user_id, t2);
        lemma_take_u8(v.heart_rate, t3);
        lemma_take_text(v.blood_pressure, t4);
        lemma_take_text(v.activity_level, t5);
        lemma_take_u8(v.status.tag(), t6);
        lemma_take_u64(v.recorded_at, Seq::empty());
    }

    proof fn lemma_encoding_inverts_decoding(b: Seq<u8>) {
        let v = Self::decoding(b)->0;
        let f0 = take_u64(b);
        lemma_take_u64_canonical(b);
        let f1 = take_u64(after(f0));
        lemma_take_u64_canonical(after(f0));
        let f2 = take_u8(after(f1));
        lemma_take_u8_canonical(after(f1));
        let f3 = take_text(after(f2));
        lemma_take_text_canonical(after(f2));
        let f4 = take_text(after(f3));
        lemma_take_text_canonical(after(f3));
        let f5 = take_u8(after(f4));
        lemma_take_u8_canonical(after(f4));
        let f6 = take_u64(after(f5));
        lemma_take_u64_canonical(after(f5));
        assert(v.status.tag() == got(f5));
        let t6 = u64_wire(v.recorded_at);
        assert(after(f5) =~= t6);
        let t5 = u8_wire(v.status.tag()) + t6;
        assert(after(f4) == t5);
        let t4 = text_wire(v.activity_level) + t5;
        assert(after(f3) == t4);
        let t3 = text_wire(v.blood_pressure) + t4;
        assert(after(f2) == t3);
        let t2 = u8_wire(v.heart_rate) + t3;
        assert(after(f1) == t2);
        let t1 = u64_wire(v.user_id) + t2;
        assert(after(f0) == t1);
        assert(b == u64_wire(v.id) + t1);
        assert(Self::encoding(v) =~= u64_wire(v.id) + t1);
    }

    fn encode(&self) -> (out: Option<Vec<u8>>) {
        proof {
            lemma_wire_lengths();
        }
        if text_len(self.blood_pressure.as_str()) > MAX_RECORD_SIZE
            || text_len(self.activity_level.as_str()) > MAX_RECORD_SIZE {
            return None;
        }
        let mut out: Vec<u8> = Vec::new();
        put_u64(&mut out, self.id);
        put_u64(&mut out, self.user_id);
        put_u8(&mut out, self.heart_rate);
        put_text(&mut out, self.blood_pressure.as_str());
        put_text(&mut out, self.activity_level.as_str());
        put_u8(&mut out, self.status.to_tag());
        put_u64(&mut out, self.recorded_at);
        assert(out@ =~= Self::encoding(self@));
        if out.len() > MAX_RECORD_SIZE {
            return None;
        }
        Some(out)
    }

    fn decode(data: &[u8]) -> (out: Option<Self>) {
        assert(data@.skip(0) =~= data@);
        let (id, after_id) = read_u64(data, 0)?;
        let (user_id, after_user_id) = read_u64(data, after_id)?;
        let (heart_rate, after_heart_rate) = read_u8(data, after_user_id)?;
        let (blood_pressure, after_blood_pressure) = read_text(data, after_heart_rate)?;
        let (activity_level, after_activity_level) = read_text(data, after_blood_pressure)?;
        let (status_tag, after_status) = read_u8(data, after_activity_level)?;
        let (recorded_at, after_recorded_at) = read_u64(data, after_status)?;
        let status = HealthStatus::from_tag(status_tag)?;
        if after_recorded_at != data.len() {
            return None;
        }
        Some(
            HealthRecord {
                id,
                user_id,
                heart_rate,
                blood_pressure,
                activity_level,
                status,
                recorded_at,
            },
        )
    }
}

} // verus!
