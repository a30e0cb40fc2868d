//! Participants: the users who joined a challenge.

use crate::error::Entity;
use crate::record::{Record, MAX_RECORD_SIZE};
use crate::wire::{
    after, got, lemma_take_u32, lemma_take_u32_canonical, lemma_take_u64, lemma_take_u64_canonical,
    lemma_wire_lengths, put_u32, put_u64, read_u32, read_u64, take_u32, take_u64, u32_wire,
    u64_wire,
};
use vstd::prelude::*;

verus! {

/// A user who joined a challenge.
#[derive(Clone, Debug, PartialEq, Eq, Default)]
pub struct FitnessChallengeParticipant {
    pub id: u64,
    pub challenge_id: u64,
    pub user_id: u64,
    pub progress: u32,
    pub updated_at: u64,
}

/// What a caller supplies to enter a user in a challenge.
#[derive(Clone, Debug, PartialEq, Eq, Default)]
pub struct FitnessChallengeParticipantPayload {
    pub challenge_id: u64,
    pub user_id: u64,
    pub progress: u32,
}

/// What a record of this kind says, its texts as sequences of characters.
pub struct FitnessChallengeParticipantView {
    pub id: u64,
    pub challenge_id: u64,
    pub user_id: u64,
    pub progress: u32,
    pub updated_at: u64,
}

impl View for FitnessChallengeParticipant {
    type V = FitnessChallengeParticipantView;

    open spec fn view(&self) -> FitnessChallengeParticipantView {
        FitnessChallengeParticipantView {
            id: self.id,
            challenge_id: self.challenge_id,
            user_id: self.user_id,
            progress: self.progress,
            updated_at: self.updated_at,
        }
    }
}

impl FitnessChallengeParticipantPayload {
    /// Whether nothing required is missing. A payload of this kind has no field that
    /// can be.
    pub open spec fn complete(&self) -> bool {
        true
    }

    /// Whether nothing required is missing. A payload of this kind has no field that
    /// can be.
    pub fn is_complete(&self) -> (ok: bool)
        ensures
            ok == self.complete(),
    {
        true
    }

    /// The record that the payload becomes under the identifier `id`, at the time
    /// `now`.
    pub open spec fn record(&self, id: u64, now: u64) -> FitnessChallengeParticipantView {
        FitnessChallengeParticipantView {
            id,
            challenge_id: self.challenge_id,
            user_id: self.user_id,
            progress: self.progress,
            updated_at: now,
        }
    }

    /// The record that the payload becomes under the identifier `id`, at the time
    /// `now`.
    pub fn into_record(self, id: u64, now: u64) -> (out: FitnessChallengeParticipant)
        ensures
            out@ == self.record(id, now),
    {
        FitnessChallengeParticipant {
            id,
            challenge_id: self.challenge_id,
            user_id: self.user_id,
            progress: self.progress,
            updated_at: now,
        }
    }
}

impl Record for FitnessChallengeParticipant {
    open spec fn entity() -> Entity {
        Entity::FitnessChallengeParticipant
    }

    fn kind() -> (entity: Entity) {
        Entity::FitnessChallengeParticipant
    }

    open spec fn encoding(v: FitnessChallengeParticipantView) -> Seq<u8> {
        u64_wire(v.id)
            + u64_wire(v.challenge_id)
            + u64_wire(v.user_id)
            + u32_wire(v.progress)
            + u64_wire(v.updated_at)
    }

    open spec fn decoding(b: Seq<u8>) -> Option<FitnessChallengeParticipantView> {
        let f0 = take_u64(b);
        let f1 = take_u64(after(f0));
        let f2 = take_u64(after(f1));
        let f3 = take_u32(after(f2));
        let f4 = take_u64(after(f3));
        if f0 is Some
            && f1 is Some
            && f2 is Some
            && f3 is Some
            && f4 is Some
            && after(f4).len() == 0 {
            Some(
                FitnessChallengeParticipantView {
                    id: got(f0),
                    challenge_id: got(f1),
                    user_id: got(f2),
                    progress: got(f3),
                    updated_at: got(f4),
                },
            )
        } else {
            None
        }
    }

    proof fn lemma_decoding_inverts_encoding(v: FitnessChallengeParticipantView) {
        lemma_wire_lengths();
        let t4 = u64_wire(v.updated_at);
        let t3 = u32_wire(v.progress) + t4;
        let t2 = u64_wire(v.user_id) + t3;
        let t1 = u64_wire(v.challenge_id) + t2;
        assert(t4 + Seq::<u8>::empty() =~= t4);
        assert(Self::encoding(v) =~= u64_wire(v.id) + t1);
        lemma_take_u64(v.id, t1);
        lemma_take_u64(v.challenge_id, t2);
        lemma_take_u64(v.user_id, t3);
        lemma_take_u32(v.progress, t4);
        lemma_take_u64(v.updated_at, Seq::empty());
    }

    proof fn lemma_encoding_inverts_decoding(b: Seq<u8>) {
        let v = Self::decoding(b)->0;
        let f0 = take_u64(b);
        lemma_take_u64_canonical(b);
        let f1 = take_u64(after(f0));
        lemma_take_u64_canonical(after(f0));
        let f2 = take_u64(after(f1));
        lemma_take_u64_canonical(after(f1));
        let f3 = take_u32(after(f2));
        lemma_take_u32_canonical(after(f2));
        let f4 = take_u64(after(f3));
        lemma_take_u64_canonical(after(f3));
        let t4 = u64_wire(v.updated_at);
        assert(after(f3) =~= t4);
        let t3 = u32_wire(v.progress) + t4;
        assert(after(f2) == t3);
        let t2 = u64_wire(v.user_id) + t3;
        assert(after(f1) == t2);
        let t1 = u64_wire(v.challenge_id) + t2;
        assert(after(f0) == t1);
        assert(b == u64_wire(v.id) + t1);
        assert(Self::encoding(v) =~= u64_wire(v.id) + t1);
    }

    fn encode(&self) -> (out: Option<Vec<u8>>) {
        proof {
            lemma_wire_lengths();
        }
        let mut out: Vec<u8> = Vec::new();
        put_u64(&mut out, self.id);
        put_u64(&mut out, self.challenge_id);
        put_u64(&mut out, self.user_id);
        put_u32(&mut out, self.progress);
        put_u64(&mut out, self.updated_at);
        assert(out@ =~= Self::encoding(self@));
        if out.len() > MAX_RECORD_SIZE {
            return None;
        }
        Some(out)
    }

    fn decode(data: &[u8]) -> (out: Option<Self>) {
        assert(data@.skip(0) =~= data@);
        let (id, after_id) = read_u64(data, 0)?;
        let (challenge_id, after_challenge_id) = read_u64(data, after_id)?;
        let (user_id, after_user_id) = read_u64(data, after_challenge_id)?;
        let (progress, after_progress) = read_u32(data, after_user_id)?;
        let (updated_at, after_updated_at) = read_u64(data, after_progress)?;
        if after_updated_at != data.len() {
            return None;
        }
        Some(FitnessChallengeParticipant { id, challenge_id, user_id, progress, updated_at })
    }
}

} // verus!
