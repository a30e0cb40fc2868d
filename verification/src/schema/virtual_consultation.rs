//! Virtual consultations: appointments of a user with a provider.

use crate::error::Entity;
use crate::record::{Record, MAX_RECORD_SIZE};
use crate::wire::{
    after, got, lemma_take_text, lemma_take_text_canonical, lemma_take_u64,
    lemma_take_u64_canonical, lemma_wire_lengths, put_text, put_u64, read_text, read_u64, take_text,
    take_u64, text_len, text_wire, u64_wire,
};
use vstd::prelude::*;

verus! {

/// An appointment of a user with a provider.
#[derive(Clone, Debug, PartialEq, Eq, Default)]
pub struct VirtualConsultation {
    pub id: u64,
    pub user_id: u64,
    pub provider_id: u64,
    pub scheduled_at: u64,
    pub status: String,
    pub created_at: u64,
}

/// What a caller supplies to book a consultation.
#[derive(Clone, Debug, PartialEq, Eq, Default)]
pub struct VirtualConsultationPayload {
    pub user_id: u64,
    pub provider_id: u64,
    pub scheduled_at: u64,
    pub status: String,
}

/// What a record of this kind says, its texts as sequences of characters.
pub struct VirtualConsultationView {
    pub id: u64,
    pub user_id: u64,
    pub provider_id: u64,
    pub scheduled_at: u64,
    pub status: Seq<char>,
    pub created_at: u64,
}

impl View for VirtualConsultation {
    type V = VirtualConsultationView;

    open spec fn view(&self) -> VirtualConsultationView {
        VirtualConsultationView {
            id: self.id,
            user_id: self.user_id,
            provider_id: self.provider_id,
            scheduled_at: self.scheduled_at,
            status: self.status@,
            created_at: self.created_at,
        }
    }
}

impl VirtualConsultationPayload {
    /// Whether nothing required is missing: every required text has at least one
    /// character, and every required number is not zero.
    pub open spec fn complete(&self) -> bool {
        self.status@.len() > 0
    }

    /// Whether nothing required is missing: every required text has at least one
    /// character, and every required number is not zero.
    pub fn is_complete(&self) -> (ok: bool)
        ensures
            ok == self.complete(),
    {
        !self.status.as_str().is_empty()
    }

    /// The record that the payload becomes under the identifier `id`, at the time
    /// `now`.
    pub open spec fn record(&self, id: u64, now: u64) -> VirtualConsultationView {
        VirtualConsultationView {
            id,
            user_id: self.user_id,
            provider_id: self.provider_id,
            scheduled_at: self.scheduled_at,
            status: self.status@,
            created_at: now,
        }
    }

    /// The record that the payload becomes under the identifier `id`, at the time
    /// `now`.
    pub fn into_record(self, id: u64, now: u64) -> (out: VirtualConsultation)
        ensures
            out@ == self.record(id, now),
    {
        VirtualConsultation {
            id,
            user_id: self.user_id,
            provider_id: self.provider_id,
            scheduled_at: self.scheduled_at,
            status: self.status,
            created_at: now,
        }
    }
}

impl Record for VirtualConsultation {
    open spec fn entity() -> Entity {
        Entity::VirtualConsultation
    }

    fn kind() -> (entity: Entity) {
        Entity::VirtualConsultation
    }

    open spec fn encoding(v: VirtualConsultationView) -> Seq<u8> {
        u64_wire(v.id)
            + u64_wire(v.user_id)
            + u64_wire(v.provider_id)
            + u64_wire(v.scheduled_at)
            + text_wire(v.status)
            + u64_wire(v.created_at)
    }

    open spec fn decoding(b: Seq<u8>) -> Option<VirtualConsultationView> {
        let f0 = take_u64(b);
        let f1 = take_u64(after(f0));
        let f2 = take_u64(after(f1));
        let f3 = take_u64(after(f2));
        let f4 = take_text(after(f3));
        let f5 = take_u64(after(f4));
        if f0 is Some
            && f1 is Some
            && f2 is Some
            && f3 is Some
            && f4 is Some
            && f5 is Some
            && after(f5).len() == 0 {
            Some(
                VirtualConsultationView {
                    id: got(f0),
                    user_id: got(f1),
                    provider_id: got(f2),
                    scheduled_at: got(f3),
                    status: got(f4),
                    created_at: got(f5),
                },
            )
        } else {
            None
        }
    }

    proof fn lemma_decoding_inverts_encoding(v: VirtualConsultationView) {
        lemma_wire_lengths();
        let t5 = u64_wire(v.created_at);
        let t4 = text_wire(v.status) + t5;
        let t3 = u64_wire(v.scheduled_at) + t4;
        let t2 = u64_wire(v.provider_id) + t3;
        let t1 = u64_wire(v.user_id) + t2;
        assert(t5 + Seq::<u8>::empty() =~= t5);
        assert(Self::encoding(v) =~= u64_wire(v.id) + t1);
        lemma_take_u64(v.id, t1);
        lemma_take_u64(v.user_id, t2);
        lemma_take_u64(v.provider_id, t3);
        lemma_take_u64(v.scheduled_at, t4);
        lemma_take_text(v.status, t5);
        lemma_take_u64(v.created_at, Seq::empty());
    }

    proof fn lemma_encoding_inverts_decoding(b: Seq<u8>) {
        let v = Self::decoding(b)->0;
        let f0 = take_u64(b);
        lemma_take_u64_canonical(b);
        let f1 = take_u64(after(f0));
        lemma_take_u64_canonical(after(f0));
        let f2 = take_u64(after(f1));
        lemma_take_u64_canonical(after(f1));
        let f3 = take_u64(after(f2));
        lemma_take_u64_canonical(after(f2));
        let f4 = take_text(after(f3));
        lemma_take_text_canonical(after(f3));
        let f5 = take_u64(after(f4));
        lemma_take_u64_canonical(after(f4));
        let t5 = u64_wire(v.created_at);
        assert(after(f4) =~= t5);
        let t4 = text_wire(v.status) + t5;
        assert(after(f3) == t4);
        let t3 = u64_wire(v.scheduled_at) + t4;
        assert(after(f2) == t3);
        let t2 = u64_wire(v.provider_id) + t3;
        assert(after(f1) == t2);
        let t1 = u64_wire(v.user_id) + t2;
        assert(after(f0) == t1);
        assert(b == u64_wire(v.id) + t1);
        assert(Self::encoding(v) =~= u64_wire(v.id) + t1);
    }

    fn encode(&self) -> (out: Option<Vec<u8>>) {
        proof {
            lemma_wire_lengths();
        }
        if text_len(self.status.as_str()) > MAX_RECORD_SIZE {
            return None;
        }
        let mut out: Vec<u8> = Vec::new();
        put_u64(&mut out, self.id);
        put_u64(&mut out, self.user_id);
        put_u64(&mut out, self.provider_id);
        put_u64(&mut out, self.scheduled_at);
        put_text(&mut out, self.status.as_str());
        put_u64(&mut out, self.created_at);
        assert(out@ =~= Self::encoding(self@));
        if out.len() > MAX_RECORD_SIZE {
            return None;
        }
        Some(out)
    }

    fn decode(data: &[u8]) -> (out: Option<Self>) {
        assert(data@.skip(0) =~= data@);
        let (id, after_id) = read_u64(data, 0)?;
        let (user_id, after_user_id) = read_u64(data, after_id)?;
        let (provider_id, after_provider_id) = read_u64(data, after_user_id)?;
        let (scheduled_at, after_scheduled_at) = read_u64(data, after_provider_id)?;
        let (status, after_status) = read_text(data, after_scheduled_at)?;
        let (created_at, after_created_at) = read_u64(data, after_status)?;
        if after_created_at != data.len() {
            return None;
        }
        Some(VirtualConsultation { id, user_id, provider_id, scheduled_at, status, created_at })
    }
}

} // verus!
