//! What a type must offer to be kept in a collection.

use crate::error::Entity;
use vstd::prelude::*;

verus! {

/// Largest encoded record, in bytes, that a collection stores.
pub const MAX_RECORD_SIZE: usize = 512;

/// A record that has one byte form, and can be read back from it.
pub trait Record: View + Sized {
    /// The kind of record that the type holds.
    spec fn entity() -> Entity;

    /// The kind of record that the type holds.
    fn kind() -> (entity: Entity)
        ensures
            entity == Self::entity(),
    ;

    /// The bytes that stand for `v`.
    spec fn encoding(v: Self::V) -> Seq<u8>;

    /// The record that `b` stands for, if it stands for one.
    spec fn decoding(b: Seq<u8>) -> Option<Self::V>;

    /// Reading undoes writing, for every record that is small enough to be
    /// stored.
    proof fn lemma_decoding_inverts_encoding(v: Self::V)
        requires
            Self::encoding(v).len() <= MAX_RECORD_SIZE,
        ensures
            Self::decoding(Self::encoding(v)) == Some(v),
    ;

    /// Only the byte form of a record reads as that record.
    proof fn lemma_encoding_inverts_decoding(b: Seq<u8>)
        requires
            Self::decoding(b) is Some,
        ensures
            Self::encoding(Self::decoding(b)->0) == b,
    ;

    /// The byte form of the record, or `None` where it is longer than
    /// `MAX_RECORD_SIZE`.
    fn encode(&self) -> (out: Option<Vec<u8>>)
        ensures
            match out {
                Some(b) => b@ == Self::encoding(self@) && b@.len() <= MAX_RECORD_SIZE,
                None => Self::encoding(self@).len() > MAX_RECORD_SIZE,
            },
    ;

    /// The record that `data` stands for, or `None` where it stands for none.
    fn decode(data: &[u8]) -> (out: Option<Self>)
        ensures
            match out {
                Some(r) => Self::decoding(data@) == Some(r@),
                None => Self::decoding(data@) is None,
            },
    ;
}

/// A record that belongs to a user.
pub trait Owned: Record {
    /// The identifier of the user that `v` belongs to.
    spec fn owner(v: Self::V) -> u64;

    /// The identifier of the user that the record belongs to.
    fn owner_id(&self) -> (id: u64)
        ensures
            id == Self::owner(self@),
    ;
}

} // verus!
