//! Posts, their revisions and the links between them.

use super::{
    attr, decode_element, key_is, maybe_i16, maybe_i32, maybe_text, nullable, required, stored,
    Coercion, Column, FieldTable, FieldValue, XmlModel,
};
use crate::coercion::{
    coerce_i16, coerce_i32, coerce_text, coerce_timestamp, int16_of, int32_of, text_of,
    timestamp_of,
};
use crate::element::AttributeModel;
use crate::errors::{ErrorKind, XmlError};
use crate::timestamp::{maybe_well_formed, Timestamp};
use quick_xml::events::BytesStart;
use vstd::prelude::*;

verus! {

/// A question, an answer or another kind of post.
#[derive(Debug, Clone, PartialEq, Eq)]
pub struct Post {
    pub id: i32,
    /// The kind of post: 1 question, 2 answer, and so on.
    pub post_type_id: Option<i16>,
    /// For a question, the answer that was accepted.
    pub accepted_answer_id: Option<i32>,
    pub creation_date: Option<Timestamp>,
    pub deletion_date: Option<Timestamp>,
    /// Upvotes minus downvotes.
    pub score: Option<i32>,
    pub view_count: Option<i32>,
    /// The body of the post, as HTML.
    pub body: Option<String>,
    pub owner_user_id: Option<i32>,
    pub owner_display_name: Option<String>,
    pub last_editor_user_id: Option<i32>,
    pub last_editor_display_name: Option<String>,
    pub last_edit_date: Option<Timestamp>,
    pub last_activity_date: Option<Timestamp>,
    pub title: Option<String>,
    /// The tags of the post, in one string.
    pub tags: Option<String>,
    pub answer_count: Option<i32>,
    pub comment_count: Option<i32>,
    pub favorite_count: Option<i32>,
    pub close_date: Option<Timestamp>,
    pub community_owned_date: Option<Timestamp>,
    pub content_license: Option<String>,
}

/// A post, with its texts as sequences of characters.
pub ghost struct PostModel {
    pub id: i32,
    pub post_type_id: Option<i16>,
    pub accepted_answer_id: Option<i32>,
    pub creation_date: Option<Timestamp>,
    pub deletion_date: Option<Timestamp>,
    pub score: Option<i32>,
    pub view_count: Option<i32>,
    pub body: Option<Seq<char>>,
    pub owner_user_id: Option<i32>,
    pub owner_display_name: Option<Seq<char>>,
    pub last_editor_user_id: Option<i32>,
    pub last_editor_display_name: Option<Seq<char>>,
    pub last_edit_date: Option<Timestamp>,
    pub last_activity_date: Option<Timestamp>,
    pub title: Option<Seq<char>>,
    pub tags: Option<Seq<char>>,
    pub answer_count: Option<i32>,
    pub comment_count: Option<i32>,
    pub favorite_count: Option<i32>,
    pub close_date: Option<Timestamp>,
    pub community_owned_date: Option<Timestamp>,
    pub content_license: Option<Seq<char>>,
}

impl View for Post {
    type V = PostModel;

    open spec fn view(&self) -> PostModel {
        PostModel {
            id: self.id,
            post_type_id: self.post_type_id,
            accepted_answer_id: self.accepted_answer_id,
            creation_date: self.creation_date,
            deletion_date: self.deletion_date,
            score: self.score,
            view_count: self.view_count,
            body: maybe_text(self.body),
            owner_user_id: self.owner_user_id,
            owner_display_name: maybe_text(self.owner_display_name),
            last_editor_user_id: self.last_editor_user_id,
            last_editor_display_name: maybe_text(self.last_editor_display_name),
            last_edit_date: self.last_edit_date,
            last_activity_date: self.last_activity_date,
            title: maybe_text(self.title),
            tags: maybe_text(self.tags),
            answer_count: self.answer_count,
            comment_count: self.comment_count,
            favorite_count: self.favorite_count,
            close_date: self.close_date,
            community_owned_date: self.community_owned_date,
            content_license: maybe_text(self.content_license),
        }
    }
}

impl Default for Post {
    fn default() -> (rec: Post)
        ensures
            rec@ == Post::blank(),
    {
        Post {
            id: 0,
            post_type_id: None,
            accepted_answer_id: None,
            creation_date: None,
            deletion_date: None,
            score: None,
            view_count: None,
            body: None,
            owner_user_id: None,
            owner_display_name: None,
            last_editor_user_id: None,
            last_editor_display_name: None,
            last_edit_date: None,
            last_activity_date: None,
            title: None,
            tags: None,
            answer_count: None,
            comment_count: None,
            favorite_count: None,
            close_date: None,
            community_owned_date: None,
            content_license: None,
        }
    }
}

impl FieldTable for Post {
    open spec fn blank() -> PostModel {
        PostModel {
            id: 0,
            post_type_id: None,
            accepted_answer_id: None,
            creation_date: None,
            deletion_date: None,
            score: None,
            view_count: None,
            body: None,
            owner_user_id: None,
            owner_display_name: None,
            last_editor_user_id: None,
            last_editor_display_name: None,
            last_edit_date: None,
            last_activity_date: None,
            title: None,
            tags: None,
            answer_count: None,
            comment_count: None,
            favorite_count: None,
            close_date: None,
            community_owned_date: None,
            content_license: None,
        }
    }

    open spec fn well_formed(rec: PostModel) -> bool {
        &&& maybe_well_formed(rec.creation_date)
        &&& maybe_well_formed(rec.deletion_date)
        &&& maybe_well_formed(rec.last_edit_date)
        &&& maybe_well_formed(rec.last_activity_date)
        &&& maybe_well_formed(rec.close_date)
        &&& maybe_well_formed(rec.community_owned_date)
    }

    open spec fn column(key: Seq<u8>) -> Option<Column> {
        if key == attr("Id") {
            required(Coercion::Int32)
        } else if key == attr("PostTypeId") {
            nullable(Coercion::Int16)
        } else if key == attr("AcceptedAnswerId") {
            nullable(Coercion::Int32)
        } else if key == attr("CreationDate") {
            nullable(Coercion::Timestamp)
        } else if key == attr("DeletionDate") {
            nullable(Coercion::Timestamp)
        } else if key == attr("Score") {
            nullable(Coercion::Int32)
        } else if key == attr("ViewCount") {
            nullable(Coercion::Int32)
        } else if key == attr("Body") {
            nullable(Coercion::Text)
        } else if key == attr("OwnerUserId") {
            nullable(Coercion::Int32)
        } else if key == attr("OwnerDisplayName") {
            nullable(Coercion::Text)
        } else if key == attr("LastEditorUserId") {
            nullable(Coercion::Int32)
        } else if key == attr("LastEditorDisplayName") {
            nullable(Coercion::Text)
        } else if key == attr("LastEditDate") {
            nullable(Coercion::Timestamp)
        } else if key == attr("LastActivityDate") {
            nullable(Coercion::Timestamp)
        } else if key == attr("Title") {
            nullable(Coercion::Text)
        } else if key == attr("Tags") {
            nullable(Coercion::Text)
        } else if key == attr("AnswerCount") {
            nullable(Coercion::Int32)
        } else if key == attr("CommentCount") {
            nullable(Coercion::Int32)
        } else if key == attr("FavoriteCount") {
            nullable(Coercion::Int32)
        } else if key == attr("CloseDate") {
            nullable(Coercion::Timestamp)
        } else if key == attr("CommunityOwnedDate") {
            nullable(Coercion::Timestamp)
        } else if key == attr("ContentLicense") {
            nullable(Coercion::Text)
        } else {
            None
        }
    }

    open spec fn field(rec: PostModel, key: Seq<u8>) -> FieldValue {
        if key == attr("Id") {
            FieldValue::Integer(rec.id as int)
        } else if key == attr("PostTypeId") {
            FieldValue::MaybeInteger(maybe_i16(rec.post_type_id))
        } else if key == attr("AcceptedAnswerId") {
            FieldValue::MaybeInteger(maybe_i32(rec.accepted_answer_id))
        } else if key == attr("CreationDate") {
            FieldValue::MaybeTime(rec.creation_date)
        } else if key == attr("DeletionDate") {
            FieldValue::MaybeTime(rec.deletion_date)
        } else if key == attr("Score") {
            FieldValue::MaybeInteger(maybe_i32(rec.score))
        } else if key == attr("ViewCount") {
            FieldValue::MaybeInteger(maybe_i32(rec.view_count))
        } else if key == attr("Body") {
            FieldValue::MaybeText(rec.body)
        } else if key == attr("OwnerUserId") {
            FieldValue::MaybeInteger(maybe_i32(rec.owner_user_id))
        } else if key == attr("OwnerDisplayName") {
            FieldValue::MaybeText(rec.owner_display_name)
        } else if key == attr("LastEditorUserId") {
            FieldValue::MaybeInteger(maybe_i32(rec.last_editor_user_id))
        } else if key == attr("LastEditorDisplayName") {
            FieldValue::MaybeText(rec.last_editor_display_name)
        } else if key == attr("LastEditDate") {
            FieldValue::MaybeTime(rec.last_edit_date)
        } else if key == attr("LastActivityDate") {
            FieldValue::MaybeTime(rec.last_activity_date)
        } else if key == attr("Title") {
            FieldValue::MaybeText(rec.title)
        } else if key == attr("Tags") {
            FieldValue::MaybeText(rec.tags)
        } else if key == attr("AnswerCount") {
            FieldValue::MaybeInteger(maybe_i32(rec.answer_count))
        } else if key == attr("CommentCount") {
            FieldValue::MaybeInteger(maybe_i32(rec.comment_count))
        } else if key == attr("FavoriteCount") {
            FieldValue::MaybeInteger(maybe_i32(rec.favorite_count))
        } else if key == attr("CloseDate") {
            FieldValue::MaybeTime(rec.close_date)
        } else if key == attr("CommunityOwnedDate") {
            FieldValue::MaybeTime(rec.community_owned_date)
        } else if key == attr("ContentLicense") {
            FieldValue::MaybeText(rec.content_license)
        } else {
            FieldValue::Unmapped
        }
    }

    open spec fn assigned(rec: PostModel, key: Seq<u8>, value: Seq<u8>) -> Result<
        PostModel,
        ErrorKind,
    > {
        if key == attr("Id") {
            stored(int32_of(value), |v: i32| PostModel { id: v, ..rec })
        } else if key == attr("PostTypeId") {
            stored(int16_of(value), |v: i16| PostModel { post_type_id: Some(v), ..rec })
        } else if key == attr("AcceptedAnswerId") {
            stored(int32_of(value), |v: i32| PostModel { accepted_answer_id: Some(v), ..rec })
        } else if key == attr("CreationDate") {
            stored(timestamp_of(value), |v: Timestamp| PostModel { creation_date: Some(v), ..rec })
        } else if key == attr("DeletionDate") {
            stored(timestamp_of(value), |v: Timestamp| PostModel { deletion_date: Some(v), ..rec })
        } else if key == attr("Score") {
            stored(int32_of(value), |v: i32| PostModel { score: Some(v), ..rec })
        } else if key == attr("ViewCount") {
            stored(int32_of(value), |v: i32| PostModel { view_count: Some(v), ..rec })
        } else if key == attr("Body") {
            stored(text_of(value), |v: Seq<char>| PostModel { body: Some(v), ..rec })
        } else if key == attr("OwnerUserId") {
            stored(int32_of(value), |v: i32| PostModel { owner_user_id: Some(v), ..rec })
        } else if key == attr("OwnerDisplayName") {
            stored(text_of(value), |v: Seq<char>| PostModel { owner_display_name: Some(v), ..rec })
        } else if key == attr("LastEditorUserId") {
            stored(int32_of(value), |v: i32| PostModel { last_editor_user_id: Some(v), ..rec })
        } else if key == attr("LastEditorDisplayName") {
            stored(
                text_of(value),
                |v: Seq<char>| PostModel { last_editor_display_name: Some(v), ..rec },
            )
        } else if key == attr("LastEditDate") {
            stored(timestamp_of(value), |v: Timestamp| PostModel { last_edit_date: Some(v), ..rec })
        } else if key == attr("LastActivityDate") {
            stored(
                timestamp_of(value),
                |v: Timestamp| PostModel { last_activity_date: Some(v), ..rec },
            )
        } else if key == attr("Title") {
            stored(text_of(value), |v: Seq<char>| PostModel { title: Some(v), ..rec })
        } else if key == attr("Tags") {
            stored(text_of(value), |v: Seq<char>| PostModel { tags: Some(v), ..rec })
        } else if key == attr("AnswerCount") {
            stored(int32_of(value), |v: i32| PostModel { answer_count: Some(v), ..rec })
        } else if key == attr("CommentCount") {
            stored(int32_of(value), |v: i32| PostModel { comment_count: Some(v), ..rec })
        } else if key == attr("FavoriteCount") {
            stored(int32_of(value), |v: i32| PostModel { favorite_count: Some(v), ..rec })
        } else if key == attr("CloseDate") {
            stored(timestamp_of(value), |v: Timestamp| PostModel { close_date: Some(v), ..rec })
        } else if key == attr("CommunityOwnedDate") {
            stored(
                timestamp_of(value),
                |v: Timestamp| PostModel { community_owned_date: Some(v), ..rec },
            )
        } else if key == attr("ContentLicense") {
            stored(text_of(value), |v: Seq<char>| PostModel { content_license: Some(v), ..rec })
        } else {
            Ok(rec)
        }
    }

    proof fn lemma_unknown_ignored(rec: PostModel, key: Seq<u8>, value: Seq<u8>) {
    }

    proof fn lemma_others_kept(rec: PostModel, key: Seq<u8>, value: Seq<u8>, other: Seq<u8>) {
    }

    proof fn lemma_mapped_iff_known(rec: PostModel, key: Seq<u8>) {
    }

    proof fn lemma_assigned_by_column(rec: PostModel, key: Seq<u8>, value: Seq<u8>) {
    }

    proof fn lemma_assignments_commute(
        rec: PostModel,
        first: AttributeModel,
        second: AttributeModel,
    ) {
    }

    fn unread() -> (rec: Post) {
        Post::default()
    }

    fn assign(&mut self, key: &[u8], value: &[u8]) -> (r: Result<(), XmlError>) {
        if key_is(key, "Id") {
            match coerce_i32(value) {
                Ok(v) => {
                    self.id = v;
                    Ok(())
                },
                Err(e) => Err(e),
            }
        } else if key_is(key, "PostTypeId") {
            match coerce_i16(value) {
                Ok(v) => {
                    self.post_type_id = Some(v);
                    Ok(())
                },
                Err(e) => Err(e),
            }
        } else if key_is(key, "AcceptedAnswerId") {
            match coerce_i32(value) {
                Ok(v) => {
                    self.accepted_answer_id = Some(v);
                    Ok(())
                },
                Err(e) => Err(e),
            }
        } else if key_is(key, "CreationDate") {
            match coerce_timestamp(value) {
                Ok(v) => {
                    self.creation_date = Some(v);
                    Ok(())
                },
                Err(e) => Err(e),
            }
        } else if key_is(key, "DeletionDate") {
            match coerce_timestamp(value) {
                Ok(v) => {
                    self.deletion_date = Some(v);
                    Ok(())
                },
                Err(e) => Err(e),
            }
        } else if key_is(key, "Score") {
            match coerce_i32(value) {
                Ok(v) => {
                    self.score = Some(v);
                    Ok(())
                },
                Err(e) => Err(e),
            }
        } else if key_is(key, "ViewCount") {
            match coerce_i32(value) {
                Ok(v) => {
                    self.view_count = Some(v);
                    Ok(())
                },
                Err(e) => Err(e),
            }
        } else if key_is(key, "Body") {
            match coerce_text(value) {
                Ok(v) => {
                    self.body = Some(v);
                    Ok(())
                },
                Err(e) => Err(e),
            }
        } else if key_is(key, "OwnerUserId") {
            match coerce_i32(value) {
                Ok(v) => {
                    self.owner_user_id = Some(v);
                    Ok(())
                },
                Err(e) => Err(e),
            }
        } else if key_is(key, "OwnerDisplayName") {
            match coerce_text(value) {
                Ok(v) => {
                    self.owner_display_name = Some(v);
                    Ok(())
                },
                Err(e) => Err(e),
            }
        } else if key_is(key, "LastEditorUserId") {
            match coerce_i32(value) {
                Ok(v) => {
                    self.last_editor_user_id = Some(v);
                    Ok(())
                },
                Err(e) => Err(e),
            }
        } else if key_is(key, "LastEditorDisplayName") {
            match coerce_text(value) {
                Ok(v) => {
                    self.last_editor_display_name = Some(v);
                    Ok(())
                },
                Err(e) => Err(e),
            }
        } else if key_is(key, "LastEditDate") {
            match coerce_timestamp(value) {
                Ok(v) => {
                    self.last_edit_date = Some(v);
                    Ok(())
                },
                Err(e) => Err(e),
            }
        } else if key_is(key, "LastActivityDate") {
            match coerce_timestamp(value) {
                Ok(v) => {
                    self.last_activity_date = Some(v);
                    Ok(())
                },
                Err(e) => Err(e),
            }
        } else if key_is(key, "Title") {
            match coerce_text(value) {
                Ok(v) => {
                    self.title = Some(v);
                    Ok(())
                },
                Err(e) => Err(e),
            }
        } else if key_is(key, "Tags") {
            match coerce_text(value) {
                Ok(v) => {
                    self.tags = Some(v);
                    Ok(())
                },
                Err(e) => Err(e),
            }
        } else if key_is(key, "AnswerCount") {
            match coerce_i32(value) {
                Ok(v) => {
                    self.answer_count = Some(v);
                    Ok(())
                },
                Err(e) => Err(e),
            }
        } else if key_is(key, "CommentCount") {
            match coerce_i32(value) {
                Ok(v) => {
                    self.comment_count = Some(v);
                    Ok(())
                },
                Err(e) => Err(e),
            }
        } else if key_is(key, "FavoriteCount") {
            match coerce_i32(value) {
                Ok(v) => {
                    self.favorite_count = Some(v);
                    Ok(())
                },
                Err(e) => Err(e),
            }
        } else if key_is(key, "CloseDate") {
            match coerce_timestamp(value) {
                Ok(v) => {
                    self.close_date = Some(v);
                    Ok(())
                },
                Err(e) => Err(e),
            }
        } else if key_is(key, "CommunityOwnedDate") {
            match coerce_timestamp(value) {
                Ok(v) => {
                    self.community_owned_date = Some(v);
                    Ok(())
                },
                Err(e) => Err(e),
            }
        } else if key_is(key, "ContentLicense") {
            match coerce_text(value) {
                Ok(v) => {
                    self.content_license = Some(v);
                    Ok(())
                },
                Err(e) => Err(e),
            }
        } else {
            Ok(())
        }
    }
}

impl XmlModel for Post {
    fn from_xml_element(element: &BytesStart<'_>) -> (r: Result<Post, XmlError>) {
        decode_element(element)
    }
}

/// One entry in the history of a post.
#[derive(Debug, Clone, PartialEq, Eq)]
pub struct PostHistory {
    pub id: i32,
    /// The kind of event: an edit, a change of title, and so on.
    pub post_history_type_id: Option<i16>,
    pub post_id: Option<i32>,
    pub revision_guid: Option<String>,
    pub creation_date: Option<Timestamp>,
    pub user_id: Option<i32>,
    pub user_display_name: Option<String>,
    /// What the user said about the change.
    pub comment: Option<String>,
    /// The content that was changed or added.
    pub text: Option<String>,
    pub content_license: Option<String>,
}

/// A history entry, with its texts as sequences of characters.
pub ghost struct PostHistoryModel {
    pub id: i32,
    pub post_history_type_id: Option<i16>,
    pub post_id: Option<i32>,
    pub revision_guid: Option<Seq<char>>,
    pub creation_date: Option<Timestamp>,
    pub user_id: Option<i32>,
    pub user_display_name: Option<Seq<char>>,
    pub comment: Option<Seq<char>>,
    pub text: Option<Seq<char>>,
    pub content_license: Option<Seq<char>>,
}

impl View for PostHistory {
    type V = PostHistoryModel;

    open spec fn view(&self) -> PostHistoryModel {
        PostHistoryModel {
            id: self.id,
            post_history_type_id: self.post_history_type_id,
            post_id: self.post_id,
            revision_guid: maybe_text(self.revision_guid),
            creation_date: self.creation_date,
            user_id: self.user_id,
            user_display_name: maybe_text(self.user_display_name),
            comment: maybe_text(self.comment),
            text: maybe_text(self.text),
            content_license: maybe_text(self.content_license),
        }
    }
}

impl Default for PostHistory {
    fn default() -> (rec: PostHistory)
        ensures
            rec@ == PostHistory::blank(),
    {
        PostHistory {
            id: 0,
            post_history_type_id: None,
            post_id: None,
            revision_guid: None,
            creation_date: None,
            user_id: None,
            user_display_name: None,
            comment: None,
            text: None,
            content_license: None,
        }
    }
}

impl FieldTable for PostHistory {
    open spec fn blank() -> PostHistoryModel {
        PostHistoryModel {
            id: 0,
            post_history_type_id: None,
            post_id: None,
            revision_guid: None,
            creation_date: None,
            user_id: None,
            user_display_name: None,
            comment: None,
            text: None,
            content_license: None,
        }
    }

    open spec fn well_formed(rec: PostHistoryModel) -> bool {
        maybe_well_formed(rec.creation_date)
    }

    open spec fn column(key: Seq<u8>) -> Option<Column> {
        if key == attr("Id") {
            required(Coercion::Int32)
        } else if key == attr("PostHistoryTypeId") {
            nullable(Coercion::Int16)
        } else if key == attr("PostId") {
            nullable(Coercion::Int32)
        } else if key == attr("RevisionGUID") {
            nullable(Coercion::Text)
        } else if key == attr("CreationDate") {
            nullable(Coercion::Timestamp)
        } else if key == attr("UserId") {
            nullable(Coercion::Int32)
        } else if key == attr("UserDisplayName") {
            nullable(Coercion::Text)
        } else if key == attr("Comment") {
            nullable(Coercion::Text)
        } else if key == attr("Text") {
            nullable(Coercion::Text)
        } else if key == attr("ContentLicense") {
            nullable(Coercion::Text)
        } else {
            None
        }
    }

    open spec fn field(rec: PostHistoryModel, key: Seq<u8>) -> FieldValue {
        if key == attr("Id") {
            FieldValue::Integer(rec.id as int)
        } else if key == attr("PostHistoryTypeId") {
            FieldValue::MaybeInteger(maybe_i16(rec.post_history_type_id))
        } else if key == attr("PostId") {
            FieldValue::MaybeInteger(maybe_i32(rec.post_id))
        } else if key == attr("RevisionGUID") {
            FieldValue::MaybeText(rec.revision_guid)
        } else if key == attr("CreationDate") {
            FieldValue::MaybeTime(rec.creation_date)
        } else if key == attr("UserId") {
            FieldValue::MaybeInteger(maybe_i32(rec.user_id))
        } else if key == attr("UserDisplayName") {
            FieldValue::MaybeText(rec.user_display_name)
        } else if key == attr("Comment") {
            FieldValue::MaybeText(rec.comment)
        } else if key == attr("Text") {
            FieldValue::MaybeText(rec.text)
        } else if key == attr("ContentLicense") {
            FieldValue::MaybeText(rec.content_license)
        } else {
            FieldValue::Unmapped
        }
    }

    open spec fn assigned(rec: PostHistoryModel, key: Seq<u8>, value: Seq<u8>) -> Result<
        PostHistoryModel,
        ErrorKind,
    > {
        if key == attr("Id") {
            stored(int32_of(value), |v: i32| PostHistoryModel { id: v, ..rec })
        } else if key == attr("PostHistoryTypeId") {
            stored(
                int16_of(value),
                |v: i16| PostHistoryModel { post_history_type_id: Some(v), ..rec },
            )
        } else if key == attr("PostId") {
            stored(int32_of(value), |v: i32| PostHistoryModel { post_id: Some(v), ..rec })
        } else if key == attr("RevisionGUID") {
            stored(
                text_of(value),
                |v: Seq<char>| PostHistoryModel { revision_guid: Some(v), ..rec },
            )
        } else if key == attr("CreationDate") {
            stored(
                timestamp_of(value),
                |v: Timestamp| PostHistoryModel { creation_date: Some(v), ..rec },
            )
        } else if key == attr("UserId") {
            stored(int32_of(value), |v: i32| PostHistoryModel { user_id: Some(v), ..rec })
        } else if key == attr("UserDisplayName") {
            stored(
                text_of(value),
                |v: Seq<char>| PostHistoryModel { user_display_name: Some(v), ..rec },
            )
        } else if key == attr("Comment") {
            stored(text_of(value), |v: Seq<char>| PostHistoryModel { comment: Some(v), ..rec })
        } else if key == attr("Text") {
            stored(text_of(value), |v: Seq<char>| PostHistoryModel { text: Some(v), ..rec })
        } else if key == attr("ContentLicense") {
            stored(
                text_of(value),
                |v: Seq<char>| PostHistoryModel { content_license: Some(v), ..rec },
            )
        } else {
            Ok(rec)
        }
    }

    proof fn lemma_unknown_ignored(rec: PostHistoryModel, key: Seq<u8>, value: Seq<u8>) {
    }

    proof fn lemma_others_kept(
        rec: PostHistoryModel,
        key: Seq<u8>,
        value: Seq<u8>,
        other: Seq<u8>,
    ) {
    }

    proof fn lemma_mapped_iff_known(rec: PostHistoryModel, key: Seq<u8>) {
    }

    proof fn lemma_assigned_by_column(rec: PostHistoryModel, key: Seq<u8>, value: Seq<u8>) {
    }

    proof fn lemma_assignments_commute(
        rec: PostHistoryModel,
        first: AttributeModel,
        second: AttributeModel,
    ) {
    }

    fn unread() -> (rec: PostHistory) {
        PostHistory::default()
    }

    fn assign(&mut self, key: &[u8], value: &[u8]) -> (r: Result<(), XmlError>) {
        if key_is(key, "Id") {
            match coerce_i32(value) {
                Ok(v) => {
                    self.id = v;
                    Ok(())
                },
                Err(e) => Err(e),
            }
        } else if key_is(key, "PostHistoryTypeId") {
            match coerce_i16(value) {
                Ok(v) => {
                    self.post_history_type_id = Some(v);
                    Ok(())
                },
                Err(e) => Err(e),
            }
        } else if key_is(key, "PostId") {
            match coerce_i32(value) {
                Ok(v) => {
                    self.post_id = Some(v);
                    Ok(())
                },
                Err(e) => Err(e),
            }
        } else if key_is(key, "RevisionGUID") {
            match coerce_text(value) {
                Ok(v) => {
                    self.revision_guid = Some(v);
                    Ok(())
                },
                Err(e) => Err(e),
            }
        } else if key_is(key, "CreationDate") {
            match coerce_timestamp(value) {
                Ok(v) => {
                    self.creation_date = Some(v);
                    Ok(())
                },
                Err(e) => Err(e),
            }
        } else if key_is(key, "UserId") {
            match coerce_i32(value) {
                Ok(v) => {
                    self.user_id = Some(v);
                    Ok(())
                },
                Err(e) => Err(e),
            }
        } else if key_is(key, "UserDisplayName") {
            match coerce_text(value) {
                Ok(v) => {
                    self.user_display_name = Some(v);
                    Ok(())
                },
                Err(e) => Err(e),
            }
        } else if key_is(key, "Comment") {
            match coerce_text(value) {
                Ok(v) => {
                    self.comment = Some(v);
                    Ok(())
                },
                Err(e) => Err(e),
            }
        } else if key_is(key, "Text") {
            match coerce_text(value) {
                Ok(v) => {
                    self.text = Some(v);
                    Ok(())
                },
                Err(e) => Err(e),
            }
        } else if key_is(key, "ContentLicense") {
            match coerce_text(value) {
                Ok(v) => {
                    self.content_license = Some(v);
                    Ok(())
                },
                Err(e) => Err(e),
            }
        } else {
            Ok(())
        }
    }
}

impl XmlModel for PostHistory {
    fn from_xml_element(element: &BytesStart<'_>) -> (r: Result<PostHistory, XmlError>) {
        decode_element(element)
    }
}

/// A link from one post to another.
#[derive(Debug, Clone, PartialEq, Eq)]
pub struct PostLink {
    pub id: i32,
    pub creation_date: Timestamp,
    /// The post that links.
    pub post_id: i32,
    /// The post that is linked to.
    pub related_post_id: i32,
    pub link_type_id: i16,
}

/// A link between posts.
pub ghost struct PostLinkModel {
    pub id: i32,
    pub creation_date: Timestamp,
    pub post_id: i32,
    pub related_post_id: i32,
    pub link_type_id: i16,
}

impl View for PostLink {
    type V = PostLinkModel;

    open spec fn view(&self) -> PostLinkModel {
        PostLinkModel {
            id: self.id,
            creation_date: self.creation_date,
            post_id: self.post_id,
            related_post_id: self.related_post_id,
            link_type_id: self.link_type_id,
        }
    }
}

impl Default for PostLink {
    fn default() -> (rec: PostLink)
        ensures
            rec@ == PostLink::blank(),
    {
        PostLink {
            id: 0,
            creation_date: Timestamp::default(),
            post_id: 0,
            related_post_id: 0,
            link_type_id: 0,
        }
    }
}

impl FieldTable for PostLink {
    open spec fn blank() -> PostLinkModel {
        PostLinkModel {
            id: 0,
            creation_date: Timestamp::epoch(),
            post_id: 0,
            related_post_id: 0,
            link_type_id: 0,
        }
    }

    open spec fn well_formed(rec: PostLinkModel) -> bool {
        rec.creation_date.is_well_formed()
    }

    open spec fn column(key: Seq<u8>) -> Option<Column> {
        if key == attr("Id") {
            required(Coercion::Int32)
        } else if key == attr("CreationDate") {
            required(Coercion::Timestamp)
        } else if key == attr("PostId") {
            required(Coercion::Int32)
        } else if key == attr("RelatedPostId") {
            required(Coercion::Int32)
        } else if key == attr("LinkTypeId") {
            required(Coercion::Int16)
        } else {
            None
        }
    }

    open spec fn field(rec: PostLinkModel, key: Seq<u8>) -> FieldValue {
        if key == attr("Id") {
            FieldValue::Integer(rec.id as int)
        } else if key == attr("CreationDate") {
            FieldValue::Time(rec.creation_date)
        } else if key == attr("PostId") {
            FieldValue::Integer(rec.post_id as int)
        } else if key == attr("RelatedPostId") {
            FieldValue::Integer(rec.related_post_id as int)
        } else if key == attr("LinkTypeId") {
            FieldValue::Integer(rec.link_type_id as int)
        } else {
            FieldValue::Unmapped
        }
    }

    open spec fn assigned(rec: PostLinkModel, key: Seq<u8>, value: Seq<u8>) -> Result<
        PostLinkModel,
        ErrorKind,
    > {
        if key == attr("Id") {
            stored(int32_of(value), |v: i32| PostLinkModel { id: v, ..rec })
        } else if key == attr("CreationDate") {
            stored(timestamp_of(value), |v: Timestamp| PostLinkModel { creation_date: v, ..rec })
        } else if key == attr("PostId") {
            stored(int32_of(value), |v: i32| PostLinkModel { post_id: v, ..rec })
        } else if key == attr("RelatedPostId") {
            stored(int32_of(value), |v: i32| PostLinkModel { related_post_id: v, ..rec })
        } else if key == attr("LinkTypeId") {
            stored(int16_of(value), |v: i16| PostLinkModel { link_type_id: v, ..rec })
        } else {
            Ok(rec)
        }
    }

    proof fn lemma_unknown_ignored(rec: PostLinkModel, key: Seq<u8>, value: Seq<u8>) {
    }

    proof fn lemma_others_kept(rec: PostLinkModel, key: Seq<u8>, value: Seq<u8>, other: Seq<u8>) {
    }

    proof fn lemma_mapped_iff_known(rec: PostLinkModel, key: Seq<u8>) {
    }

    proof fn lemma_assigned_by_column(rec: PostLinkModel, key: Seq<u8>, value: Seq<u8>) {
    }

    proof fn lemma_assignments_commute(
        rec: PostLinkModel,
        first: AttributeModel,
        second: AttributeModel,
    ) {
    }

    fn unread() -> (rec: PostLink) {
        PostLink::default()
    }

    fn assign(&mut self, key: &[u8], value: &[u8]) -> (r: Result<(), XmlError>) {
        if key_is(key, "Id") {
            match coerce_i32(value) {
                Ok(v) => {
                    self.id = v;
                    Ok(())
                },
                Err(e) => Err(e),
            }
        } else if key_is(key, "CreationDate") {
            match coerce_timestamp(value) {
                Ok(v) => {
                    self.creation_date = v;
                    Ok(())
                },
                Err(e) => Err(e),
            }
        } else if key_is(key, "PostId") {
            match coerce_i32(value) {
                Ok(v) => {
                    self.post_id = v;
                    Ok(())
                },
                Err(e) => Err(e),
            }
        } else if key_is(key, "RelatedPostId") {
            match coerce_i32(value) {
                Ok(v) => {
                    self.related_post_id = v;
                    Ok(())
                },
                Err(e) => Err(e),
            }
        } else if key_is(key, "LinkTypeId") {
            match coerce_i16(value) {
                Ok(v) => {
                    self.link_type_id = v;
                    Ok(())
                },
                Err(e) => Err(e),
            }
        } else {
            Ok(())
        }
    }
}

impl XmlModel for PostLink {
    fn from_xml_element(element: &BytesStart<'_>) -> (r: Result<PostLink, XmlError>) {
        decode_element(element)
    }
}

} // verus!
