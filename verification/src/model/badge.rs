//! Badges awarded to users.

use super::{
    attr, decode_element, key_is, required, stored, Coercion, Column, FieldTable, FieldValue,
    XmlModel,
};
use crate::coercion::{
    coerce_flag, coerce_i16, coerce_i32, coerce_text, coerce_timestamp, flag_of, int16_of,
    int32_of, text_of, timestamp_of,
};
use crate::element::AttributeModel;
use crate::errors::{ErrorKind, XmlError};
use crate::timestamp::Timestamp;
use quick_xml::events::BytesStart;
use vstd::prelude::*;

verus! {

/// A badge awarded to a user.
#[derive(Debug, Clone, PartialEq, Eq)]
pub struct Badge {
    pub id: i32,
    /// The user who earned the badge.
    pub user_id: i32,
    pub name: String,
    /// When the badge was awarded.
    pub date: Timestamp,
    /// The tier of the badge: 1 gold, 2 silver, 3 bronze.
    pub class: i16,
    /// Whether the badge belongs to a tag.
    pub tag_based: bool,
}

/// A badge, with its name as a sequence of characters.
pub ghost struct BadgeModel {
    pub id: i32,
    pub user_id: i32,
    pub name: Seq<char>,
    pub date: Timestamp,
    pub class: i16,
    pub tag_based: bool,
}

impl View for Badge {
    type V = BadgeModel;

    open spec fn view(&self) -> BadgeModel {
        BadgeModel {
            id: self.id,
            user_id: self.user_id,
            name: self.name@,
            date: self.date,
            class: self.class,
            tag_based: self.tag_based,
        }
    }
}

impl Default for Badge {
    fn default() -> (rec: Badge)
        ensures
            rec@ == Badge::blank(),
    {
        Badge {
            id: 0,
            user_id: 0,
            name: String::new(),
            date: Timestamp::default(),
            class: 0,
            tag_based: false,
        }
    }
}

impl FieldTable for Badge {
    open spec fn blank() -> BadgeModel {
        BadgeModel {
            id: 0,
            user_id: 0,
            name: Seq::empty(),
            date: Timestamp::epoch(),
            class: 0,
            tag_based: false,
        }
    }

    open spec fn well_formed(rec: BadgeModel) -> bool {
        rec.date.is_well_formed()
    }

    open spec fn column(key: Seq<u8>) -> Option<Column> {
        if key == attr("Id") {
            required(Coercion::Int32)
        } else if key == attr("UserId") {
            required(Coercion::Int32)
        } else if key == attr("Name") {
            required(Coercion::Text)
        } else if key == attr("Date") {
            required(Coercion::Timestamp)
        } else if key == attr("Class") {
            required(Coercion::Int16)
        } else if key == attr("TagBased") {
            required(Coercion::Flag)
        } else {
            None
        }
    }

    open spec fn field(rec: BadgeModel, key: Seq<u8>) -> FieldValue {
        if key == attr("Id") {
            FieldValue::Integer(rec.id as int)
        } else if key == attr("UserId") {
            FieldValue::Integer(rec.user_id as int)
        } else if key == attr("Name") {
            FieldValue::Text(rec.name)
        } else if key == attr("Date") {
            FieldValue::Time(rec.date)
        } else if key == attr("Class") {
            FieldValue::Integer(rec.class as int)
        } else if key == attr("TagBased") {
            FieldValue::Flag(rec.tag_based)
        } else {
            FieldValue::Unmapped
        }
    }

    open spec fn assigned(rec: BadgeModel, key: Seq<u8>, value: Seq<u8>) -> Result<
        BadgeModel,
        ErrorKind,
    > {
        if key == attr("Id") {
            stored(int32_of(value), |v: i32| BadgeModel { id: v, ..rec })
        } else if key == attr("UserId") {
            stored(int32_of(value), |v: i32| BadgeModel { user_id: v, ..rec })
        } else if key == attr("Name") {
            stored(text_of(value), |v: Seq<char>| BadgeModel { name: v, ..rec })
        } else if key == attr("Date") {
            stored(timestamp_of(value), |v: Timestamp| BadgeModel { date: v, ..rec })
        } else if key == attr("Class") {
            stored(int16_of(value), |v: i16| BadgeModel { class: v, ..rec })
        } else if key == attr("TagBased") {
            stored(flag_of(value), |v: bool| BadgeModel { tag_based: v, ..rec })
        } else {
            Ok(rec)
        }
    }

    proof fn lemma_unknown_ignored(rec: BadgeModel, key: Seq<u8>, value: Seq<u8>) {
    }

    proof fn lemma_others_kept(rec: BadgeModel, key: Seq<u8>, value: Seq<u8>, other: Seq<u8>) {
    }

    proof fn lemma_mapped_iff_known(rec: BadgeModel, key: Seq<u8>) {
    }

    proof fn lemma_assigned_by_column(rec: BadgeModel, key: Seq<u8>, value: Seq<u8>) {
    }

    proof fn lemma_assignments_commute(
        rec: BadgeModel,
        first: AttributeModel,
        second: AttributeModel,
    ) {
    }

    fn unread() -> (rec: Badge) {
        Badge::default()
    }

    fn assign(&mut self, key: &[u8], value: &[u8]) -> (r: Result<(), XmlError>) {
        if key_is(key, "Id") {
            match coerce_i32(value) {
                Ok(v) => {
                    self.id = v;
                    Ok(())
                },
                Err(e) => Err(e),
            }
        } else if key_is(key, "UserId") {
            match coerce_i32(value) {
                Ok(v) => {
                    self.user_id = v;
                    Ok(())
                },
                Err(e) => Err(e),
            }
        } else if key_is(key, "Name") {
            match coerce_text(value) {
                Ok(v) => {
                    self.name = v;
                    Ok(())
                },
                Err(e) => Err(e),
            }
        } else if key_is(key, "Date") {
            match coerce_timestamp(value) {
                Ok(v) => {
                    self.date = v;
                    Ok(())
                },
                Err(e) => Err(e),
            }
        } else if key_is(key, "Class") {
            match coerce_i16(value) {
                Ok(v) => {
                    self.class = v;
                    Ok(())
                },
                Err(e) => Err(e),
            }
        } else if key_is(key, "TagBased") {
            match coerce_flag(value) {
                Ok(v) => {
                    self.tag_based = v;
                    Ok(())
                },
                Err(e) => Err(e),
            }
        } else {
            Ok(())
        }
    }
}

impl XmlModel for Badge {
    fn from_xml_element(element: &BytesStart<'_>) -> (r: Result<Badge, XmlError>) {
        decode_element(element)
    }
}

} // verus!
