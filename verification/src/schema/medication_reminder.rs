//! Medication reminders: what a user is to take, and when.

use crate::error::Entity;
use crate::record::{Record, MAX_RECORD_SIZE};
use crate::wire::{
    after, got, lemma_take_text, lemma_take_text_canonical, lemma_take_u64,
    lemma_take_u64_canonical, lemma_wire_lengths, put_text, put_u64, read_text, read_u64, take_text,
    take_u64, text_len, text_wire, u64_wire,
};
use vstd::prelude::*;

verus! {

/// A reminder for a user to take a medication.
#[derive(Clone, Debug, PartialEq, Eq, Default)]
pub struct MedicationReminder {
    pub id: u64,
    pub user_id: u64,
    pub medication_name: String,
    pub dosage: String,
    pub schedule: String,
    pub created_at: u64,
}

/// What a caller supplies to set a reminder.
#[derive(Clone, Debug, PartialEq, Eq, Default)]
pub struct MedicationReminderPayload {
    pub user_id: u64,
    pub medication_name: String,
    pub dosage: String,
    pub schedule: String,
}

/// What a record of this kind says, its texts as sequences of characters.
pub struct MedicationReminderView {
    pub id: u64,
    pub user_id: u64,
    pub medication_name: Seq<char>,
    pub dosage: Seq<char>,
    pub schedule: Seq<char>,
    pub created_at: u64,
}

impl View for MedicationReminder {
    type V = MedicationReminderView;

    open spec fn view(&self) -> MedicationReminderView {
        MedicationReminderView {
            id: self.id,
            user_id: self.user_id,
            medication_name: self.medication_name@,
            dosage: self.dosage@,
            schedule: self.schedule@,
            created_at: self.created_at,
        }
    }
}

impl MedicationReminderPayload {
    /// Whether nothing required is missing: every required text has at least one
    /// character, and every required number is not zero.
    pub open spec fn complete(&self) -> bool {
        self.medication_name@.len() > 0
            && self.dosage@.len() > 0
            && self.schedule@.len() > 0
    }

    /// Whether nothing required is missing: every required text has at least one
    /// character, and every required number is not zero.
    pub fn is_complete(&self) -> (ok: bool)
        ensures
            ok == self.complete(),
    {
        !self.medication_name.as_str().is_empty()
            && !self.dosage.as_str().is_empty()
            && !self.schedule.as_str().is_empty()
    }

    /// The record that the payload becomes under the identifier `id`, at the time
    /// `now`.
    pub open spec fn record(&self, id: u64, now: u64) -> MedicationReminderView {
        MedicationReminderView {
            id,
            user_id: self.user_id,
            medication_name: self.medication_name@,
            dosage: self.dosage@,
            schedule: self.schedule@,
            created_at: now,
        }
    }

    /// The record that the payload becomes under the identifier `id`, at the time
    /// `now`.
    pub fn into_record(self, id: u64, now: u64) -> (out: MedicationReminder)
        ensures
            out@ == self.record(id, now),
    {
        MedicationReminder {
            id,
            user_id: self.user_id,
            medication_name: self.medication_name,
            dosage: self.dosage,
            schedule: self.schedule,
            created_at: now,
        }
    }
}

impl Record for MedicationReminder {
    open spec fn entity() -> Entity {
        Entity::MedicationReminder
    }

    fn kind() -> (entity: Entity) {
        Entity::MedicationReminder
    }

    open spec fn encoding(v: MedicationReminderView) -> Seq<u8> {
        u64_wire(v.id)
            + u64_wire(v.user_id)
            + text_wire(v.medication_name)
            + text_wire(v.dosage)
            + text_wire(v.schedule)
            + u64_wire(v.created_at)
    }

    open spec fn decoding(b: Seq<u8>) -> Option<MedicationReminderView> {
        let f0 = take_u64(b);
        let f1 = take_u64(after(f0));
        let f2 = take_text(after(f1));
        let f3 = take_text(after(f2));
        let f4 = take_text(after(f3));
        let f5 = take_u64(after(f4));
        if f0 is Some
            && f1 is Some
            && f2 is Some
            && f3 is Some
            && f4 is Some
            && f5 is Some
            && after(f5).len() == 0 {
            Some(
                MedicationReminderView {
                    id: got(f0),
                    user_id: got(f1),
                    medication_name: got(f2),
                    dosage: got(f3),
                    schedule: got(f4),
                    created_at: got(f5),
                },
            )
        } else {
            None
        }
    }

    proof fn lemma_decoding_inverts_encoding(v: MedicationReminderView) {
        lemma_wire_lengths();
        let t5 = u64_wire(v.created_at);
        let t4 = text_wire(v.schedule) + t5;
        let t3 = text_wire(v.dosage) + t4;
        let t2 = text_wire(v.medication_name) + t3;
        let t1 = u64_wire(v.user_id) + t2;
        assert(t5 + Seq::<u8>::empty() =~= t5);
        assert(Self::encoding(v) =~= u64_wire(v.id) + t1);
        lemma_take_u64(v.id, t1);
        lemma_take_u64(v.user_id, t2);
        lemma_take_text(v.medication_name, t3);
        lemma_take_text(v.dosage, t4);
        lemma_take_text(v.schedule, t5);
        lemma_take_u64(v.created_at, Seq::empty());
    }

    proof fn lemma_encoding_inverts_decoding(b: Seq<u8>) {
        let v = Self::decoding(b)->0;
        let f0 = take_u64(b);
        lemma_take_u64_canonical(b);
        let f1 = take_u64(after(f0));
        lemma_take_u64_canonical(after(f0));
        let f2 = take_text(after(f1));
        lemma_take_text_canonical(after(f1));
        let f3 = take_text(after(f2));
        lemma_take_text_canonical(after(f2));
        let f4 = take_text(after(f3));
        lemma_take_text_canonical(after(f3));
        let f5 = take_u64(after(f4));
        lemma_take_u64_canonical(after(f4));
        let t5 = u64_wire(v.created_at);
        assert(after(f4) =~= t5);
        let t4 = text_wire(v.schedule) + t5;
        assert(after(f3) == t4);
        let t3 = text_wire(v.dosage) + t4;
        assert(after(f2) == t3);
        let t2 = text_wire(v.medication_name) + t3;
        assert(after(f1) == t2);
        let t1 = u64_wire(v.user_id) + t2;
        assert(after(f0) == t1);
        assert(b == u64_wire(v.id) + t1);
        assert(Self::encoding(v) =~= u64_wire(v.id) + t1);
    }

    fn encode(&self) -> (out: Option<Vec<u8>>) {
        proof {
            lemma_wire_lengths();
        }
        if text_len(self.medication_name.as_str()) > MAX_RECORD_SIZE
            || text_len(self.dosage.as_str()) > MAX_RECORD_SIZE
            || text_len(self.schedule.as_str()) > MAX_RECORD_SIZE {
            return None;
        }
        let mut out: Vec<u8> = Vec::new();
        put_u64(&mut out, self.id);
        put_u64(&mut out, self.user_id);
        put_text(&mut out, self.medication_name.as_str());
        put_text(&mut out, self.dosage.as_str());
        put_text(&mut out, self.schedule.as_str());
        put_u64(&mut out, self.created_at);
        assert(out@ =~= Self::encoding(self@));
        if out.len() > MAX_RECORD_SIZE {
            return None;
        }
        Some(out)
    }

    fn decode(data: &[u8]) -> (out: Option<Self>) {
        assert(data@.skip(0) =~= data@);
        let (id, after_id) = read_u64(data, 0)?;
        let (user_id, after_user_id) = read_u64(data, after_id)?;
        let (medication_name, after_medication_name) = read_text(data, after_user_id)?;
        let (dosage, after_dosage) = read_text(data, after_medication_name)?;
        let (schedule, after_schedule) = read_text(data, after_dosage)?;
        let (created_at, after_created_at) = read_u64(data, after_schedule)?;
        if after_created_at != data.len() {
            return None;
        }
        Some(MedicationReminder { id, user_id, medication_name, dosage, schedule, created_at })
    }
}

} // verus!
