//! Users.

use super::{
    attr, decode_element, key_is, maybe_i32, maybe_text, nullable, required, stored, Coercion,
    Column, FieldTable, FieldValue, XmlModel,
};
use crate::coercion::{coerce_i32, coerce_text, coerce_timestamp, int32_of, text_of, timestamp_of};
use crate::element::AttributeModel;
use crate::errors::{ErrorKind, XmlError};
use crate::timestamp::Timestamp;
use quick_xml::events::BytesStart;
use vstd::prelude::*;

verus! {

/// A user of the site.
#[derive(Debug, Clone, PartialEq, Eq)]
pub struct User {
    pub id: i32,
    pub reputation: i32,
    pub creation_date: Timestamp,
    pub display_name: Option<String>,
    pub last_access_date: Timestamp,
    pub website_url: Option<String>,
    pub location: Option<String>,
    pub about_me: Option<String>,
    /// How often the profile was viewed.
    pub views: Option<i32>,
    pub up_votes: Option<i32>,
    pub down_votes: Option<i32>,
    pub profile_image_url: Option<String>,
    pub email_hash: Option<String>,
    pub account_id: Option<i32>,
}

/// A user, with its texts as sequences of characters.
pub ghost struct UserModel {
    pub id: i32,
    pub reputation: i32,
    pub creation_date: Timestamp,
    pub display_name: Option<Seq<char>>,
    pub last_access_date: Timestamp,
    pub website_url: Option<Seq<char>>,
    pub location: Option<Seq<char>>,
    pub about_me: Option<Seq<char>>,
    pub views: Option<i32>,
    pub up_votes: Option<i32>,
    pub down_votes: Option<i32>,
    pub profile_image_url: Option<Seq<char>>,
    pub email_hash: Option<Seq<char>>,
    pub account_id: Option<i32>,
}

impl View for User {
    type V = UserModel;

    open spec fn view(&self) -> UserModel {
        UserModel {
            id: self.id,
            reputation: self.reputation,
            creation_date: self.creation_date,
            display_name: maybe_text(self.display_name),
            last_access_date: self.last_access_date,
            website_url: maybe_text(self.website_url),
            location: maybe_text(self.location),
            about_me: maybe_text(self.about_me),
            views: self.views,
            up_votes: self.up_votes,
            down_votes: self.down_votes,
            profile_image_url: maybe_text(self.profile_image_url),
            email_hash: maybe_text(self.email_hash),
            account_id: self.account_id,
        }
    }
}

impl Default for User {
    fn default() -> (rec: User)
        ensures
            rec@ == User::blank(),
    {
        User {
            id: 0,
            reputation: 0,
            creation_date: Timestamp::default(),
            display_name: None,
            last_access_date: Timestamp::default(),
            website_url: None,
            location: None,
            about_me: None,
            views: None,
            up_votes: None,
            down_votes: None,
            profile_image_url: None,
            email_hash: None,
            account_id: None,
        }
    }
}

impl FieldTable for User {
    open spec fn blank() -> UserModel {
        UserModel {
            id: 0,
            reputation: 0,
            creation_date: Timestamp::epoch(),
            display_name: None,
            last_access_date: Timestamp::epoch(),
            website_url: None,
            location: None,
            about_me: None,
            views: None,
            up_votes: None,
            down_votes: None,
            profile_image_url: None,
            email_hash: None,
            account_id: None,
        }
    }

    open spec fn well_formed(rec: UserModel) -> bool {
        &&& rec.creation_date.is_well_formed()
        &&& rec.last_access_date.is_well_formed()
    }

    open spec fn column(key: Seq<u8>) -> Option<Column> {
        if key == attr("Id") {
            required(Coercion::Int32)
        } else if key == attr("Reputation") {
            required(Coercion::Int32)
        } else if key == attr("CreationDate") {
            required(Coercion::Timestamp)
        } else if key == attr("DisplayName") {
            nullable(Coercion::Text)
        } else if key == attr("LastAccessDate") {
            required(Coercion::Timestamp)
        } else if key == attr("WebsiteUrl") {
            nullable(Coercion::Text)
        } else if key == attr("Location") {
            nullable(Coercion::Text)
        } else if key == attr("AboutMe") {
            nullable(Coercion::Text)
        } else if key == attr("Views") {
            nullable(Coercion::Int32)
        } else if key == attr("UpVotes") {
            nullable(Coercion::Int32)
        } else if key == attr("DownVotes") {
            nullable(Coercion::Int32)
        } else if key == attr("ProfileImageUrl") {
            nullable(Coercion::Text)
        } else if key == attr("EmailHash") {
            nullable(Coercion::Text)
        } else if key == attr("AccountId") {
            nullable(Coercion::Int32)
        } else {
            None
        }
    }

    open spec fn field(rec: UserModel, key: Seq<u8>) -> FieldValue {
        if key == attr("Id") {
            FieldValue::Integer(rec.id as int)
        } else if key == attr("Reputation") {
            FieldValue::Integer(rec.reputation as int)
        } else if key == attr("CreationDate") {
            FieldValue::Time(rec.creation_date)
        } else if key == attr("DisplayName") {
            FieldValue::MaybeText(rec.display_name)
        } else if key == attr("LastAccessDate") {
            FieldValue::Time(rec.last_access_date)
        } else if key == attr("WebsiteUrl") {
            FieldValue::MaybeText(rec.website_url)
        } else if key == attr("Location") {
            FieldValue::MaybeText(rec.location)
        } else if key == attr("AboutMe") {
            FieldValue::MaybeText(rec.about_me)
        } else if key == attr("Views") {
            FieldValue::MaybeInteger(maybe_i32(rec.views))
        } else if key == attr("UpVotes") {
            FieldValue::MaybeInteger(maybe_i32(rec.up_votes))
        } else if key == attr("DownVotes") {
            FieldValue::MaybeInteger(maybe_i32(rec.down_votes))
        } else if key == attr("ProfileImageUrl") {
            FieldValue::MaybeText(rec.profile_image_url)
        } else if key == attr("EmailHash") {
            FieldValue::MaybeText(rec.email_hash)
        } else if key == attr("AccountId") {
            FieldValue::MaybeInteger(maybe_i32(rec.account_id))
        } else {
            FieldValue::Unmapped
        }
    }

    open spec fn assigned(rec: UserModel, key: Seq<u8>, value: Seq<u8>) -> Result<
        UserModel,
        ErrorKind,
    > {
        if key == attr("Id") {
            stored(int32_of(value), |v: i32| UserModel { id: v, ..rec })
        } else if key == attr("Reputation") {
            stored(int32_of(value), |v: i32| UserModel { reputation: v, ..rec })
        } else if key == attr("CreationDate") {
            stored(timestamp_of(value), |v: Timestamp| UserModel { creation_date: v, ..rec })
        } else if key == attr("DisplayName") {
            stored(text_of(value), |v: Seq<char>| UserModel { display_name: Some(v), ..rec })
        } else if key == attr("LastAccessDate") {
            stored(timestamp_of(value), |v: Timestamp| UserModel { last_access_date: v, ..rec })
        } else if key == attr("WebsiteUrl") {
            stored(text_of(value), |v: Seq<char>| UserModel { website_url: Some(v), ..rec })
        } else if key == attr("Location") {
            stored(text_of(value), |v: Seq<char>| UserModel { location: Some(v), ..rec })
        } else if key == attr("AboutMe") {
            stored(text_of(value), |v: Seq<char>| UserModel { about_me: Some(v), ..rec })
        } else if key == attr("Views") {
            stored(int32_of(value), |v: i32| UserModel { views: Some(v), ..rec })
        } else if key == attr("UpVotes") {
            stored(int32_of(value), |v: i32| UserModel { up_votes: Some(v), ..rec })
        } else if key == attr("DownVotes") {
            stored(int32_of(value), |v: i32| UserModel { down_votes: Some(v), ..rec })
        } else if key == attr("ProfileImageUrl") {
            stored(text_of(value), |v: Seq<char>| UserModel { profile_image_url: Some(v), ..rec })
        } else if key == attr("EmailHash") {
            stored(text_of(value), |v: Seq<char>| UserModel { email_hash: Some(v), ..rec })
        } else if key == attr("AccountId") {
            stored(int32_of(value), |v: i32| UserModel { account_id: Some(v), ..rec })
        } else {
            Ok(rec)
        }
    }

    proof fn lemma_unknown_ignored(rec: UserModel, key: Seq<u8>, value: Seq<u8>) {
    }

    proof fn lemma_others_kept(rec: UserModel, key: Seq<u8>, value: Seq<u8>, other: Seq<u8>) {
    }

    proof fn lemma_mapped_iff_known(rec: UserModel, key: Seq<u8>) {
    }

    proof fn lemma_assigned_by_column(rec: UserModel, key: Seq<u8>, value: Seq<u8>) {
    }

    proof fn lemma_assignments_commute(
        rec: UserModel,
        first: AttributeModel,
        second: AttributeModel,
    ) {
    }

    fn unread() -> (rec: User) {
        User::default()
    }

    fn assign(&mut self, key: &[u8], value: &[u8]) -> (r: Result<(), XmlError>) {
        if key_is(key, "Id") {
            match coerce_i32(value) {
                Ok(v) => {
                    self.id = v;
                    Ok(())
                },
                Err(e) => Err(e),
            }
        } else if key_is(key, "Reputation") {
            match coerce_i32(value) {
                Ok(v) => {
                    self.reputation = v;
                    Ok(())
                },
                Err(e) => Err(e),
            }
        } else if key_is(key, "CreationDate") {
            match coerce_timestamp(value) {
                Ok(v) => {
                    self.creation_date = v;
                    Ok(())
                },
                Err(e) => Err(e),
            }
        } else if key_is(key, "DisplayName") {
            match coerce_text(value) {
                Ok(v) => {
                    self.display_name = Some(v);
                    Ok(())
                },
                Err(e) => Err(e),
            }
        } else if key_is(key, "LastAccessDate") {
            match coerce_timestamp(value) {
                Ok(v) => {
                    self.last_access_date = v;
                    Ok(())
                },
                Err(e) => Err(e),
            }
        } else if key_is(key, "WebsiteUrl") {
            match coerce_text(value) {
                Ok(v) => {
                    self.website_url = Some(v);
                    Ok(())
                },
                Err(e) => Err(e),
            }
        } else if key_is(key, "Location") {
            match coerce_text(value) {
                Ok(v) => {
                    self.location = Some(v);
                    Ok(())
                },
                Err(e) => Err(e),
            }
        } else if key_is(key, "AboutMe") {
            match coerce_text(value) {
                Ok(v) => {
                    self.about_me = Some(v);
                    Ok(())
                },
                Err(e) => Err(e),
            }
        } else if key_is(key, "Views") {
            match coerce_i32(value) {
                Ok(v) => {
                    self.views = Some(v);
                    Ok(())
                },
                Err(e) => Err(e),
            }
        } else if key_is(key, "UpVotes") {
            match coerce_i32(value) {
                Ok(v) => {
                    self.up_votes = Some(v);
                    Ok(())
                },
                Err(e) => Err(e),
            }
        } else if key_is(key, "DownVotes") {
            match coerce_i32(value) {
                Ok(v) => {
                    self.down_votes = Some(v);
                    Ok(())
                },
                Err(e) => Err(e),
            }
        } else if key_is(key, "ProfileImageUrl") {
            match coerce_text(value) {
                Ok(v) => {
                    self.profile_image_url = Some(v);
                    Ok(())
                },
                Err(e) => Err(e),
            }
        } else if key_is(key, "EmailHash") {
            match coerce_text(value) {
                Ok(v) => {
                    self.email_hash = Some(v);
                    Ok(())
                },
                Err(e) => Err(e),
            }
        } else if key_is(key, "AccountId") {
            match coerce_i32(value) {
                Ok(v) => {
                    self.account_id = Some(v);
                    Ok(())
                },
                Err(e) => Err(e),
            }
        } else {
            Ok(())
        }
    }
}

impl XmlModel for User {
    fn from_xml_element(element: &BytesStart<'_>) -> (r: Result<User, XmlError>) {
        decode_element(element)
    }
}

} // verus!
