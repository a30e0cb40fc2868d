//! Users: the people whom the other records refer to.

use crate::error::Entity;
use crate::kinds::UserType;
use crate::record::{Record, MAX_RECORD_SIZE};
use crate::wire::{
    after, got, lemma_take_text, lemma_take_text_canonical, lemma_take_u64,
    lemma_take_u64_canonical, lemma_take_u8, lemma_take_u8_canonical, lemma_wire_lengths, put_text,
    put_u64, put_u8, read_text, read_u64, read_u8, take_text, take_u64, take_u8, text_len,
    text_wire, u64_wire, u8_wire,
};
use vstd::prelude::*;

verus! {

/// A registered user.
#[derive(Clone, Debug, PartialEq, Eq, Default)]
pub struct User {
    pub id: u64,
    pub name: String,
    pub contact: String,
    pub user_type: UserType,
    pub created_at: u64,
}

/// What a caller supplies to register a user.
#[derive(Clone, Debug, PartialEq, Eq, Default)]
pub struct UserPayload {
    pub name: String,
    pub contact: String,
    pub user_type: UserType,
}

/// What a record of this kind says, its texts as sequences of characters.
pub struct UserView {
    pub id: u64,
    pub name: Seq<char>,
    pub contact: Seq<char>,
    pub user_type: UserType,
    pub created_at: u64,
}

impl View for User {
    type V = UserView;

    open spec fn view(&self) -> UserView {
        UserView {
            id: self.id,
            name: self.name@,
            contact: self.contact@,
            user_type: self.user_type,
            created_at: self.created_at,
        }
    }
}

impl UserPayload {
    /// Whether nothing required is missing: every required text has at least one
    /// character, and every required number is not zero.
    pub open spec fn complete(&self) -> bool {
        self.name@.len() > 0
            && self.contact@.len() > 0
    }

    /// Whether nothing required is missing: every required text has at least one
    /// character, and every required number is not zero.
    pub fn is_complete(&self) -> (ok: bool)
        ensures
            ok == self.complete(),
    {
        !self.name.as_str().is_empty()
            && !self.contact.as_str().is_empty()
    }

    /// The record that the payload becomes under the identifier `id`, at the time
    /// `now`.
    pub open spec fn record(&self, id: u64, now: u64) -> UserView {
        UserView {
            id,
            name: self.name@,
            contact: self.contact@,
            user_type: self.user_type,
            created_at: now,
        }
    }

    /// The record that the payload becomes under the identifier `id`, at the time
    /// `now`.
    pub fn into_record(self, id: u64, now: u64) -> (out: User)
        ensures
            out@ == self.record(id, now),
    {
        User {
            id,
            name: self.name,
            contact: self.contact,
            user_type: self.user_type,
            created_at: now,
        }
    }
}

impl Record for User {
    open spec fn entity() -> Entity {
        Entity::User
    }

    fn kind() -> (entity: Entity) {
        Entity::User
    }

    open spec fn encoding(v: UserView) -> Seq<u8> {
        u64_wire(v.id)
            + text_wire(v.name)
            + text_wire(v.contact)
            + u8_wire(v.user_type.tag())
            + u64_wire(v.created_at)
    }

    open spec fn decoding(b: Seq<u8>) -> Option<UserView> {
        let f0 = take_u64(b);
        let f1 = take_text(after(f0));
        let f2 = take_text(after(f1));
        let f3 = take_u8(after(f2));
        let f4 = take_u64(after(f3));
        let user_type = UserType::of_tag(got(f3));
        if f0 is Some
            && f1 is Some
            && f2 is Some
            && f3 is Some
            && f4 is Some
            && user_type is Some
            && after(f4).len() == 0 {
            Some(
                UserView {
                    id: got(f0),
                    name: got(f1),
                    contact: got(f2),
                    user_type: user_type->0,
                    created_at: got(f4),
                },
            )
        } else {
            None
        }
    }

    proof fn lemma_decoding_inverts_encoding(v: UserView) {
        lemma_wire_lengths();
        let t4 = u64_wire(v.created_at);
        let t3 = u8_wire(v.user_type.tag()) + t4;
        let t2 = text_wire(v.contact) + t3;
        let t1 = text_wire(v.name) + t2;
        assert(t4 + Seq::<u8>::empty() =~= t4);
        assert(Self::encoding(v) =~= u64_wire(v.id) + t1);
        lemma_take_u64(v.id, t1);
        lemma_take_text(v.name, t2);
        lemma_take_text(v.contact, t3);
        lemma_take_u8(v.user_type.tag(), t4);
        lemma_take_u64(v.created_at, Seq::empty());
    }

    proof fn lemma_encoding_inverts_decoding(b: Seq<u8>) {
        let v = Self::decoding(b)->0;
        let f0 = take_u64(b);
        lemma_take_u64_canonical(b);
        let f1 = take_text(after(f0));
        lemma_take_text_canonical(after(f0));
        let f2 = take_text(after(f1));
        lemma_take_text_canonical(after(f1));
        let f3 = take_u8(after(f2));
        lemma_take_u8_canonical(after(f2));
        let f4 = take_u64(after(f3));
        lemma_take_u64_canonical(after(f3));
        assert(v.user_type.tag() == got(f3));
        let t4 = u64_wire(v.created_at);
        assert(after(f3) =~= t4);
        let t3 = u8_wire(v.user_type.tag()) + t4;
        assert(after(f2) == t3);
        let t2 = text_wire(v.contact) + t3;
        assert(after(f1) == t2);
        let t1 = text_wire(v.name) + t2;
        assert(after(f0) == t1);
        assert(b == u64_wire(v.id) + t1);
        assert(Self::encoding(v) =~= u64_wire(v.id) + t1);
    }

    fn encode(&self) -> (out: Option<Vec<u8>>) {
        proof {
            lemma_wire_lengths();
        }
        if text_len(self.name.as_str()) > MAX_RECORD_SIZE
            || text_len(self.contact.as_str()) > MAX_RECORD_SIZE {
            return None;
        }
        let mut out: Vec<u8> = Vec::new();
        put_u64(&mut out, self.id);
        put_text(&mut out, self.name.as_str());
        put_text(&mut out, self.contact.as_str());
        put_u8(&mut out, self.user_type.to_tag());
        put_u64(&mut out, self.created_at);
        assert(out@ =~= Self::encoding(self@));
        if out.len() > MAX_RECORD_SIZE {
            return None;
        }
        Some(out)
    }

    fn decode(data: &[u8]) -> (out: Option<Self>) {
        assert(data@.skip(0) =~= data@);
        let (id, after_id) = read_u64(data, 0)?;
        let (name, after_name) = read_text(data, after_id)?;
        let (contact, after_contact) = read_text(data, after_name)?;
        let (user_type_tag, after_user_type) = read_u8(data, after_contact)?;
        let (created_at, after_created_at) = read_u64(data, after_user_type)?;
        let user_type = UserType::from_tag(user_type_tag)?;
        if after_created_at != data.len() {
            return None;
        }
        Some(User { id, name, contact, user_type, created_at })
    }
}

} // verus!
