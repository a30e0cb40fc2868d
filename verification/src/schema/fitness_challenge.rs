//! Fitness challenges: goals that users can join.

use crate::error::Entity;
use crate::record::{Record, MAX_RECORD_SIZE};
use crate::wire::{
    after, got, lemma_take_text, lemma_take_text_canonical, lemma_take_u64,
    lemma_take_u64_canonical, lemma_wire_lengths, put_text, put_u64, read_text, read_u64, take_text,
    take_u64, text_len, text_wire, u64_wire,
};
use vstd::prelude::*;

verus! {

/// A goal that users can join.
#[derive(Clone, Debug, PartialEq, Eq, Default)]
pub struct FitnessChallenge {
    pub id: u64,
    pub name: String,
    pub description: String,
    pub start_date: u64,
    pub end_date: u64,
    pub created_at: u64,
}

/// What a caller supplies to open a challenge.
#[derive(Clone, Debug, PartialEq, Eq, Default)]
pub struct FitnessChallengePayload {
    pub name: String,
    pub description: String,
    pub start_date: u64,
    pub end_date: u64,
}

/// What a record of this kind says, its texts as sequences of characters.
pub struct FitnessChallengeView {
    pub id: u64,
    pub name: Seq<char>,
    pub description: Seq<char>,
    pub start_date: u64,
    pub end_date: u64,
    pub created_at: u64,
}

impl View for FitnessChallenge {
    type V = FitnessChallengeView;

    open spec fn view(&self) -> FitnessChallengeView {
        FitnessChallengeView {
            id: self.id,
            name: self.name@,
            description: self.description@,
            start_date: self.start_date,
            end_date: self.end_date,
            created_at: self.created_at,
        }
    }
}

impl FitnessChallengePayload {
    /// Whether nothing required is missing: every required text has at least one
    /// character, and every required number is not zero.
    pub open spec fn complete(&self) -> bool {
        self.name@.len() > 0
            && self.description@.len() > 0
    }

    /// Whether nothing required is missing: every required text has at least one
    /// character, and every required number is not zero.
    pub fn is_complete(&self) -> (ok: bool)
        ensures
            ok == self.complete(),
    {
        !self.name.as_str().is_empty()
            && !self.description.as_str().is_empty()
    }

    /// The record that the payload becomes under the identifier `id`, at the time
    /// `now`.
    pub open spec fn record(&self, id: u64, now: u64) -> FitnessChallengeView {
        FitnessChallengeView {
            id,
            name: self.name@,
            description: self.description@,
            start_date: self.start_date,
            end_date: self.end_date,
            created_at: now,
        }
    }

    /// The record that the payload becomes under the identifier `id`, at the time
    /// `now`.
    pub fn into_record(self, id: u64, now: u64) -> (out: FitnessChallenge)
        ensures
            out@ == self.record(id, now),
    {
        FitnessChallenge {
            id,
            name: self.name,
            description: self.description,
            start_date: self.start_date,
            end_date: self.end_date,
            created_at: now,
        }
    }
}

impl Record for FitnessChallenge {
    open spec fn entity() -> Entity {
        Entity::FitnessChallenge
    }

    fn kind() -> (entity: Entity) {
        Entity::FitnessChallenge
    }

    open spec fn encoding(v: FitnessChallengeView) -> Seq<u8> {
        u64_wire(v.id)
            + text_wire(v.name)
            + text_wire(v.description)
            + u64_wire(v.start_date)
            + u64_wire(v.end_date)
            + u64_wire(v.created_at)
    }

    open spec fn decoding(b: Seq<u8>) -> Option<FitnessChallengeView> {
        let f0 = take_u64(b);
        let f1 = take_text(after(f0));
        let f2 = take_text(after(f1));
        let f3 = take_u64(after(f2));
        let f4 = take_u64(after(f3));
        let f5 = take_u64(after(f4));
        if f0 is Some
            && f1 is Some
            && f2 is Some
            && f3 is Some
            && f4 is Some
            && f5 is Some
            && after(f5).len() == 0 {
            Some(
                FitnessChallengeView {
                    id: got(f0),
                    name: got(f1),
                    description: got(f2),
                    start_date: got(f3),
                    end_date: got(f4),
                    created_at: got(f5),
                },
            )
        } else {
            None
        }
    }

    proof fn lemma_decoding_inverts_encoding(v: FitnessChallengeView) {
        lemma_wire_lengths();
        let t5 = u64_wire(v.created_at);
        let t4 = u64_wire(v.end_date) + t5;
        let t3 = u64_wire(v.start_date) + t4;
        let t2 = text_wire(v.description) + t3;
        let t1 = text_wire(v.name) + t2;
        assert(t5 + Seq::<u8>::empty() =~= t5);
        assert(Self::encoding(v) =~= u64_wire(v.id) + t1);
        lemma_take_u64(v.id, t1);
        lemma_take_text(v.name, t2);
        lemma_take_text(v.description, t3);
        lemma_take_u64(v.start_date, t4);
        lemma_take_u64(v.end_date, t5);
        lemma_take_u64(v.created_at, Seq::empty());
    }

    proof fn lemma_encoding_inverts_decoding(b: Seq<u8>) {
        let v = Self::decoding(b)->0;
        let f0 = take_u64(b);
        lemma_take_u64_canonical(b);
        let f1 = take_text(after(f0));
        lemma_take_text_canonical(after(f0));
        let f2 = take_text(after(f1));
        lemma_take_text_canonical(after(f1));
        let f3 = take_u64(after(f2));
        lemma_take_u64_canonical(after(f2));
        let f4 = take_u64(after(f3));
        lemma_take_u64_canonical(after(f3));
        let f5 = take_u64(after(f4));
        lemma_take_u64_canonical(after(f4));
        let t5 = u64_wire(v.created_at);
        assert(after(f4) =~= t5);
        let t4 = u64_wire(v.end_date) + t5;
        assert(after(f3) == t4);
        let t3 = u64_wire(v.start_date) + t4;
        assert(after(f2) == t3);
        let t2 = text_wire(v.description) + t3;
        assert(after(f1) == t2);
        let t1 = text_wire(v.name) + t2;
        assert(after(f0) == t1);
        assert(b == u64_wire(v.id) + t1);
        assert(Self::encoding(v) =~= u64_wire(v.id) + t1);
    }

    fn encode(&self) -> (out: Option<Vec<u8>>) {
        proof {
            lemma_wire_lengths();
        }
        if text_len(self.name.as_str()) > MAX_RECORD_SIZE
            || text_len(self.description.as_str()) > MAX_RECORD_SIZE {
            return None;
        }
        let mut out: Vec<u8> = Vec::new();
        put_u64(&mut out, self.id);
        put_text(&mut out, self.name.as_str());
        put_text(&mut out, self.description.as_str());
        put_u64(&mut out, self.start_date);
        put_u64(&mut out, self.end_date);
        put_u64(&mut out, self.created_at);
        assert(out@ =~= Self::encoding(self@));
        if out.len() > MAX_RECORD_SIZE {
            return None;
        }
        Some(out)
    }

    fn decode(data: &[u8]) -> (out: Option<Self>) {
        assert(data@.skip(0) =~= data@);
        let (id, after_id) = read_u64(data, 0)?;
        let (name, after_name) = read_text(data, after_id)?;
        let (description, after_description) = read_text(data, after_name)?;
        let (start_date, after_start_date) = read_u64(data, after_description)?;
        let (end_date, after_end_date) = read_u64(data, after_start_date)?;
        let (created_at, after_created_at) = read_u64(data, after_end_date)?;
        if after_created_at != data.len() {
            return None;
        }
        Some(FitnessChallenge { id, name, description, start_date, end_date, created_at })
    }
}

} // verus!
