//! Comments on posts.

use super::{
    attr, decode_element, key_is, maybe_i32, maybe_text, nullable, required, stored, Coercion,
    Column, FieldTable, FieldValue, XmlModel,
};
use crate::coercion::{coerce_i32, coerce_text, coerce_timestamp, int32_of, text_of, timestamp_of};
use crate::element::AttributeModel;
use crate::errors::{ErrorKind, XmlError};
use crate::timestamp::Timestamp;
use quick_xml::events::BytesStart;
use vstd::prelude::*;

verus! {

/// A comment on a post.
#[derive(Debug, Clone, PartialEq, Eq)]
pub struct Comment {
    pub id: i32,
    /// The post that the comment belongs to.
    pub post_id: Option<i32>,
    pub score: Option<i32>,
    /// The body of the comment.
    pub text: String,
    pub creation_date: Timestamp,
    pub user_display_name: Option<String>,
    /// The user who wrote the comment.
    pub user_id: Option<i32>,
    pub content_license: Option<String>,
}

/// A comment, with its texts as sequences of characters.
pub ghost struct CommentModel {
    pub id: i32,
    pub post_id: Option<i32>,
    pub score: Option<i32>,
    pub text: Seq<char>,
    pub creation_date: Timestamp,
    pub user_display_name: Option<Seq<char>>,
    pub user_id: Option<i32>,
    pub content_license: Option<Seq<char>>,
}

impl View for Comment {
    type V = CommentModel;

    open spec fn view(&self) -> CommentModel {
        CommentModel {
            id: self.id,
            post_id: self.post_id,
            score: self.score,
            text: self.text@,
            creation_date: self.creation_date,
            user_display_name: maybe_text(self.user_display_name),
            user_id: self.user_id,
            content_license: maybe_text(self.content_license),
        }
    }
}

impl Default for Comment {
    fn default() -> (rec: Comment)
        ensures
            rec@ == Comment::blank(),
    {
        Comment {
            id: 0,
            post_id: None,
            score: None,
            text: String::new(),
            creation_date: Timestamp::default(),
            user_display_name: None,
            user_id: None,
            content_license: None,
        }
    }
}

impl FieldTable for Comment {
    open spec fn blank() -> CommentModel {
        CommentModel {
            id: 0,
            post_id: None,
            score: None,
            text: Seq::empty(),
            creation_date: Timestamp::epoch(),
            user_display_name: None,
            user_id: None,
            content_license: None,
        }
    }

    open spec fn well_formed(rec: CommentModel) -> bool {
        rec.creation_date.is_well_formed()
    }

    open spec fn column(key: Seq<u8>) -> Option<Column> {
        if key == attr("Id") {
            required(Coercion::Int32)
        } else if key == attr("PostId") {
            nullable(Coercion::Int32)
        } else if key == attr("Score") {
            nullable(Coercion::Int32)
        } else if key == attr("Text") {
            required(Coercion::Text)
        } else if key == attr("CreationDate") {
            required(Coercion::Timestamp)
        } else if key == attr("UserDisplayName") {
            nullable(Coercion::Text)
        } else if key == attr("UserId") {
            nullable(Coercion::Int32)
        } else if key == attr("ContentLicense") {
            nullable(Coercion::Text)
        } else {
            None
        }
    }

    open spec fn field(rec: CommentModel, key: Seq<u8>) -> FieldValue {
        if key == attr("Id") {
            FieldValue::Integer(rec.id as int)
        } else if key == attr("PostId") {
            FieldValue::MaybeInteger(maybe_i32(rec.post_id))
        } else if key == attr("Score") {
            FieldValue::MaybeInteger(maybe_i32(rec.score))
        } else if key == attr("Text") {
            FieldValue::Text(rec.text)
        } else if key == attr("CreationDate") {
            FieldValue::Time(rec.creation_date)
        } else if key == attr("UserDisplayName") {
            FieldValue::MaybeText(rec.user_display_name)
        } else if key == attr("UserId") {
            FieldValue::MaybeInteger(maybe_i32(rec.user_id))
        } else if key == attr("ContentLicense") {
            FieldValue::MaybeText(rec.content_license)
        } else {
            FieldValue::Unmapped
        }
    }

    open spec fn assigned(rec: CommentModel, key: Seq<u8>, value: Seq<u8>) -> Result<
        CommentModel,
        ErrorKind,
    > {
        if key == attr("Id") {
            stored(int32_of(value), |v: i32| CommentModel { id: v, ..rec })
        } else if key == attr("PostId") {
            stored(int32_of(value), |v: i32| CommentModel { post_id: Some(v), ..rec })
        } else if key == attr("Score") {
            stored(int32_of(value), |v: i32| CommentModel { score: Some(v), ..rec })
        } else if key == attr("Text") {
            stored(text_of(value), |v: Seq<char>| CommentModel { text: v, ..rec })
        } else if key == attr("CreationDate") {
            stored(timestamp_of(value), |v: Timestamp| CommentModel { creation_date: v, ..rec })
        } else if key == attr("UserDisplayName") {
            stored(
                text_of(value),
                |v: Seq<char>| CommentModel { user_display_name: Some(v), ..rec },
            )
        } else if key == attr("UserId") {
            stored(int32_of(value), |v: i32| CommentModel { user_id: Some(v), ..rec })
        } else if key == attr("ContentLicense") {
            stored(text_of(value), |v: Seq<char>| CommentModel { content_license: Some(v), ..rec })
        } else {
            Ok(rec)
        }
    }

    proof fn lemma_unknown_ignored(rec: CommentModel, key: Seq<u8>, value: Seq<u8>) {
    }

    proof fn lemma_others_kept(rec: CommentModel, key: Seq<u8>, value: Seq<u8>, other: Seq<u8>) {
    }

    proof fn lemma_mapped_iff_known(rec: CommentModel, key: Seq<u8>) {
    }

    proof fn lemma_assigned_by_column(rec: CommentModel, key: Seq<u8>, value: Seq<u8>) {
    }

    proof fn lemma_assignments_commute(
        rec: CommentModel,
        first: AttributeModel,
        second: AttributeModel,
    ) {
    }

    fn unread() -> (rec: Comment) {
        Comment::default()
    }

    fn assign(&mut self, key: &[u8], value: &[u8]) -> (r: Result<(), XmlError>) {
        if key_is(key, "Id") {
            match coerce_i32(value) {
                Ok(v) => {
                    self.id = v;
                    Ok(())
                },
                Err(e) => Err(e),
            }
        } else if key_is(key, "PostId") {
            match coerce_i32(value) {
                Ok(v) => {
                    self.post_id = Some(v);
                    Ok(())
                },
                Err(e) => Err(e),
            }
        } else if key_is(key, "Score") {
            match coerce_i32(value) {
                Ok(v) => {
                    self.score = Some(v);
                    Ok(())
                },
                Err(e) => Err(e),
            }
        } else if key_is(key, "Text") {
            match coerce_text(value) {
                Ok(v) => {
                    self.text = v;
                    Ok(())
                },
                Err(e) => Err(e),
            }
        } else if key_is(key, "CreationDate") {
            match coerce_timestamp(value) {
                Ok(v) => {
                    self.creation_date = v;
                    Ok(())
                },
                Err(e) => Err(e),
            }
        } else if key_is(key, "UserDisplayName") {
            match coerce_text(value) {
                Ok(v) => {
                    self.user_display_name = Some(v);
                    Ok(())
                },
                Err(e) => Err(e),
            }
        } else if key_is(key, "UserId") {
            match coerce_i32(value) {
                Ok(v) => {
                    self.user_id = Some(v);
                    Ok(())
                },
                Err(e) => Err(e),
            }
        } else if key_is(key, "ContentLicense") {
            match coerce_text(value) {
                Ok(v) => {
                    self.content_license = Some(v);
                    Ok(())
                },
                Err(e) => Err(e),
            }
        } else {
            Ok(())
        }
    }
}

impl XmlModel for Comment {
    fn from_xml_element(element: &BytesStart<'_>) -> (r: Result<Comment, XmlError>) {
        decode_element(element)
    }
}

} // verus!
