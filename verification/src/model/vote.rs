//! Votes on posts.

use super::{
    attr, decode_element, key_is, maybe_i32, nullable, required, stored, Coercion, Column,
    FieldTable, FieldValue, XmlModel,
};
use crate::coercion::{coerce_i16, coerce_i32, coerce_timestamp, int16_of, int32_of, timestamp_of};
use crate::element::AttributeModel;
use crate::errors::{ErrorKind, XmlError};
use crate::timestamp::{maybe_well_formed, Timestamp};
use quick_xml::events::BytesStart;
use vstd::prelude::*;

verus! {

/// A vote on a post.
#[derive(Debug, Clone, PartialEq, Eq)]
pub struct Vote {
    pub id: i32,
    pub post_id: i32,
    /// The kind of vote: 2 upvote, 3 downvote, and so on.
    pub vote_type_id: i16,
    pub user_id: Option<i32>,
    pub creation_date: Option<Timestamp>,
    pub bounty_amount: Option<i32>,
}

/// A vote.
pub ghost struct VoteModel {
    pub id: i32,
    pub post_id: i32,
    pub vote_type_id: i16,
    pub user_id: Option<i32>,
    pub creation_date: Option<Timestamp>,
    pub bounty_amount: Option<i32>,
}

impl View for Vote {
    type V = VoteModel;

    open spec fn view(&self) -> VoteModel {
        VoteModel {
            id: self.id,
            post_id: self.post_id,
            vote_type_id: self.vote_type_id,
            user_id: self.user_id,
            creation_date: self.creation_date,
            bounty_amount: self.bounty_amount,
        }
    }
}

impl Default for Vote {
    fn default() -> (rec: Vote)
        ensures
            rec@ == Vote::blank(),
    {
        Vote {
            id: 0,
            post_id: 0,
            vote_type_id: 0,
            user_id: None,
            creation_date: None,
            bounty_amount: None,
        }
    }
}

impl FieldTable for Vote {
    open spec fn blank() -> VoteModel {
        VoteModel {
            id: 0,
            post_id: 0,
            vote_type_id: 0,
            user_id: None,
            creation_date: None,
            bounty_amount: None,
        }
    }

    open spec fn well_formed(rec: VoteModel) -> bool {
        maybe_well_formed(rec.creation_date)
    }

    open spec fn column(key: Seq<u8>) -> Option<Column> {
        if key == attr("Id") {
            required(Coercion::Int32)
        } else if key == attr("PostId") {
            required(Coercion::Int32)
        } else if key == attr("VoteTypeId") {
            required(Coercion::Int16)
        } else if key == attr("UserId") {
            nullable(Coercion::Int32)
        } else if key == attr("CreationDate") {
            nullable(Coercion::Timestamp)
        } else if key == attr("BountyAmount") {
            nullable(Coercion::Int32)
        } else {
            None
        }
    }

    open spec fn field(rec: VoteModel, key: Seq<u8>) -> FieldValue {
        if key == attr("Id") {
            FieldValue::Integer(rec.id as int)
        } else if key == attr("PostId") {
            FieldValue::Integer(rec.post_id as int)
        } else if key == attr("VoteTypeId") {
            FieldValue::Integer(rec.vote_type_id as int)
        } else if key == attr("UserId") {
            FieldValue::MaybeInteger(maybe_i32(rec.user_id))
        } else if key == attr("CreationDate") {
            FieldValue::MaybeTime(rec.creation_date)
        } else if key == attr("BountyAmount") {
            FieldValue::MaybeInteger(maybe_i32(rec.bounty_amount))
        } else {
            FieldValue::Unmapped
        }
    }

    open spec fn assigned(rec: VoteModel, key: Seq<u8>, value: Seq<u8>) -> Result<
        VoteModel,
        ErrorKind,
    > {
        if key == attr("Id") {
            stored(int32_of(value), |v: i32| VoteModel { id: v, ..rec })
        } else if key == attr("PostId") {
            stored(int32_of(value), |v: i32| VoteModel { post_id: v, ..rec })
        } else if key == attr("VoteTypeId") {
            stored(int16_of(value), |v: i16| VoteModel { vote_type_id: v, ..rec })
        } else if key == attr("UserId") {
            stored(int32_of(value), |v: i32| VoteModel { user_id: Some(v), ..rec })
        } else if key == attr("CreationDate") {
            stored(timestamp_of(value), |v: Timestamp| VoteModel { creation_date: Some(v), ..rec })
        } else if key == attr("BountyAmount") {
            stored(int32_of(value), |v: i32| VoteModel { bounty_amount: Some(v), ..rec })
        } else {
            Ok(rec)
        }
    }

    proof fn lemma_unknown_ignored(rec: VoteModel, key: Seq<u8>, value: Seq<u8>) {
    }

    proof fn lemma_others_kept(rec: VoteModel, key: Seq<u8>, value: Seq<u8>, other: Seq<u8>) {
    }

    proof fn lemma_mapped_iff_known(rec: VoteModel, key: Seq<u8>) {
    }

    proof fn lemma_assigned_by_column(rec: VoteModel, key: Seq<u8>, value: Seq<u8>) {
    }

    proof fn lemma_assignments_commute(
        rec: VoteModel,
        first: AttributeModel,
        second: AttributeModel,
    ) {
    }

    fn unread() -> (rec: Vote) {
        Vote::default()
    }

    fn assign(&mut self, key: &[u8], value: &[u8]) -> (r: Result<(), XmlError>) {
        if key_is(key, "Id") {
            match coerce_i32(value) {
                Ok(v) => {
                    self.id = v;
                    Ok(())
                },
                Err(e) => Err(e),
            }
        } else if key_is(key, "PostId") {
            match coerce_i32(value) {
                Ok(v) => {
                    self.post_id = v;
                    Ok(())
                },
                Err(e) => Err(e),
            }
        } else if key_is(key, "VoteTypeId") {
            match coerce_i16(value) {
                Ok(v) => {
                    self.vote_type_id = v;
                    Ok(())
                },
                Err(e) => Err(e),
            }
        } else if key_is(key, "UserId") {
            match coerce_i32(value) {
                Ok(v) => {
                    self.user_id = Some(v);
                    Ok(())
                },
                Err(e) => Err(e),
            }
        } else if key_is(key, "CreationDate") {
            match coerce_timestamp(value) {
                Ok(v) => {
                    self.creation_date = Some(v);
                    Ok(())
                },
                Err(e) => Err(e),
            }
        } else if key_is(key, "BountyAmount") {
            match coerce_i32(value) {
                Ok(v) => {
                    self.bounty_amount = Some(v);
                    Ok(())
                },
                Err(e) => Err(e),
            }
        } else {
            Ok(())
        }
    }
}

impl XmlModel for Vote {
    fn from_xml_element(element: &BytesStart<'_>) -> (r: Result<Vote, XmlError>) {
        decode_element(element)
    }
}

} // verus!
