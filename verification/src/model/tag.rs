//! Tags.

use super::{
    attr, decode_element, key_is, maybe_i16, maybe_i32, maybe_text, nullable, required, stored,
    Coercion, Column, FieldTable, FieldValue, XmlModel,
};
use crate::coercion::{coerce_i16, coerce_i32, coerce_text, int16_of, int32_of, text_of};
use crate::element::AttributeModel;
use crate::errors::{ErrorKind, XmlError};
use quick_xml::events::BytesStart;
use vstd::prelude::*;

verus! {

/// A tag that posts can carry.
#[derive(Debug, Clone, PartialEq, Eq)]
pub struct Tag {
    pub id: i32,
    pub tag_name: Option<String>,
    /// How many posts carry the tag.
    pub count: i32,
    pub excerpt_post_id: Option<i32>,
    pub wiki_post_id: Option<i32>,
    /// Kept as the number that the export writes, not as a flag.
    pub is_moderator_only: Option<i16>,
    /// Kept as the number that the export writes, not as a flag.
    pub is_required: Option<i16>,
}

/// A tag, with its name as a sequence of characters.
pub ghost struct TagModel {
    pub id: i32,
    pub tag_name: Option<Seq<char>>,
    pub count: i32,
    pub excerpt_post_id: Option<i32>,
    pub wiki_post_id: Option<i32>,
    pub is_moderator_only: Option<i16>,
    pub is_required: Option<i16>,
}

impl View for Tag {
    type V = TagModel;

    open spec fn view(&self) -> TagModel {
        TagModel {
            id: self.id,
            tag_name: maybe_text(self.tag_name),
            count: self.count,
            excerpt_post_id: self.excerpt_post_id,
            wiki_post_id: self.wiki_post_id,
            is_moderator_only: self.is_moderator_only,
            is_required: self.is_required,
        }
    }
}

impl Default for Tag {
    fn default() -> (rec: Tag)
        ensures
            rec@ == Tag::blank(),
    {
        Tag {
            id: 0,
            tag_name: None,
            count: 0,
            excerpt_post_id: None,
            wiki_post_id: None,
            is_moderator_only: None,
            is_required: None,
        }
    }
}

impl FieldTable for Tag {
    open spec fn blank() -> TagModel {
        TagModel {
            id: 0,
            tag_name: None,
            count: 0,
            excerpt_post_id: None,
            wiki_post_id: None,
            is_moderator_only: None,
            is_required: None,
        }
    }

    open spec fn well_formed(rec: TagModel) -> bool {
        true
    }

    open spec fn column(key: Seq<u8>) -> Option<Column> {
        if key == attr("Id") {
            required(Coercion::Int32)
        } else if key == attr("TagName") {
            nullable(Coercion::Text)
        } else if key == attr("Count") {
            required(Coercion::Int32)
        } else if key == attr("ExcerptPostId") {
            nullable(Coercion::Int32)
        } else if key == attr("WikiPostId") {
            nullable(Coercion::Int32)
        } else if key == attr("IsModeratorOnly") {
            nullable(Coercion::Int16)
        } else if key == attr("IsRequired") {
            nullable(Coercion::Int16)
        } else {
            None
        }
    }

    open spec fn field(rec: TagModel, key: Seq<u8>) -> FieldValue {
        if key == attr("Id") {
            FieldValue::Integer(rec.id as int)
        } else if key == attr("TagName") {
            FieldValue::MaybeText(rec.tag_name)
        } else if key == attr("Count") {
            FieldValue::Integer(rec.count as int)
        } else if key == attr("ExcerptPostId") {
            FieldValue::MaybeInteger(maybe_i32(rec.excerpt_post_id))
        } else if key == attr("WikiPostId") {
            FieldValue::MaybeInteger(maybe_i32(rec.wiki_post_id))
        } else if key == attr("IsModeratorOnly") {
            FieldValue::MaybeInteger(maybe_i16(rec.is_moderator_only))
        } else if key == attr("IsRequired") {
            FieldValue::MaybeInteger(maybe_i16(rec.is_required))
        } else {
            FieldValue::Unmapped
        }
    }

    open spec fn assigned(rec: TagModel, key: Seq<u8>, value: Seq<u8>) -> Result<
        TagModel,
        ErrorKind,
    > {
        if key == attr("Id") {
            stored(int32_of(value), |v: i32| TagModel { id: v, ..rec })
        } else if key == attr("TagName") {
            stored(text_of(value), |v: Seq<char>| TagModel { tag_name: Some(v), ..rec })
        } else if key == attr("Count") {
            stored(int32_of(value), |v: i32| TagModel { count: v, ..rec })
        } else if key == attr("ExcerptPostId") {
            stored(int32_of(value), |v: i32| TagModel { excerpt_post_id: Some(v), ..rec })
        } else if key == attr("WikiPostId") {
            stored(int32_of(value), |v: i32| TagModel { wiki_post_id: Some(v), ..rec })
        } else if key == attr("IsModeratorOnly") {
            stored(int16_of(value), |v: i16| TagModel { is_moderator_only: Some(v), ..rec })
        } else if key == attr("IsRequired") {
            stored(int16_of(value), |v: i16| TagModel { is_required: Some(v), ..rec })
        } else {
            Ok(rec)
        }
    }

    proof fn lemma_unknown_ignored(rec: TagModel, key: Seq<u8>, value: Seq<u8>) {
    }

    proof fn lemma_others_kept(rec: TagModel, key: Seq<u8>, value: Seq<u8>, other: Seq<u8>) {
    }

    proof fn lemma_mapped_iff_known(rec: TagModel, key: Seq<u8>) {
    }

    proof fn lemma_assigned_by_column(rec: TagModel, key: Seq<u8>, value: Seq<u8>) {
    }

    proof fn lemma_assignments_commute(
        rec: TagModel,
        first: AttributeModel,
        second: AttributeModel,
    ) {
    }

    fn unread() -> (rec: Tag) {
        Tag::default()
    }

    fn assign(&mut self, key: &[u8], value: &[u8]) -> (r: Result<(), XmlError>) {
        if key_is(key, "Id") {
            match coerce_i32(value) {
                Ok(v) => {
                    self.id = v;
                    Ok(())
                },
                Err(e) => Err(e),
            }
        } else if key_is(key, "TagName") {
            match coerce_text(value) {
                Ok(v) => {
                    self.tag_name = Some(v);
                    Ok(())
                },
                Err(e) => Err(e),
            }
        } else if key_is(key, "Count") {
            match coerce_i32(value) {
                Ok(v) => {
                    self.count = v;
                    Ok(())
                },
                Err(e) => Err(e),
            }
        } else if key_is(key, "ExcerptPostId") {
            match coerce_i32(value) {
                Ok(v) => {
                    self.excerpt_post_id = Some(v);
                    Ok(())
                },
                Err(e) => Err(e),
            }
        } else if key_is(key, "WikiPostId") {
            match coerce_i32(value) {
                Ok(v) => {
                    self.wiki_post_id = Some(v);
                    Ok(())
                },
                Err(e) => Err(e),
            }
        } else if key_is(key, "IsModeratorOnly") {
            match coerce_i16(value) {
                Ok(v) => {
                    self.is_moderator_only = Some(v);
                    Ok(())
                },
                Err(e) => Err(e),
            }
        } else if key_is(key, "IsRequired") {
            match coerce_i16(value) {
                Ok(v) => {
                    self.is_required = Some(v);
                    Ok(())
                },
                Err(e) => Err(e),
            }
        } else {
            Ok(())
        }
    }
}

impl XmlModel for Tag {
    fn from_xml_element(element: &BytesStart<'_>) -> (r: Result<Tag, XmlError>) {
        decode_element(element)
    }
}

} // verus!
