//! Records, the table that maps attribute names to their fields, and the engine that fills a
//! record from the attributes of one element.

pub mod badge;
pub mod comment;
pub mod post;
pub mod tag;
pub mod user;
pub mod vote;

pub use badge::Badge;
pub use comment::Comment;
pub use post::{Post, PostHistory, PostLink};
pub use tag::Tag;
pub use user::User;
pub use vote::Vote;

use crate::coercion::{bytes_equal, flag_of, int16_of, int32_of, text_of, timestamp_of};
use crate::element::{
    attributes_view, element_attributes, is_sound, name_lies_within, read_attributes, Attribute,
    AttributeModel,
};
use crate::errors::{ErrorKind, XmlError};
use crate::timestamp::Timestamp;
use quick_xml::events::BytesStart;
use vstd::prelude::*;
use vstd::string::StringSliceAdditionalSpecFns;

verus! {

/// What one field of a record holds, whatever the record.
pub ghost enum FieldValue {
    /// The attribute name maps to no field.
    Unmapped,
    Integer(int),
    MaybeInteger(Option<int>),
    Text(Seq<char>),
    MaybeText(Option<Seq<char>>),
    Flag(bool),
    Time(Timestamp),
    MaybeTime(Option<Timestamp>),
}

/// How the bytes of a value become the value of a field.
pub ghost enum Coercion {
    /// A base-10 integer of 32 bits.
    Int32,
    /// A base-10 integer of 16 bits.
    Int16,
    /// The bytes read as UTF-8.
    Text,
    /// Set by the text `1`, clear for any other.
    Flag,
    /// A date and time of day in the one pattern that the export uses.
    Timestamp,
}

/// One line of a field table: how the value of an attribute is coerced, and whether its field
/// is absent until the attribute is read.
pub ghost struct Column {
    pub coercion: Coercion,
    pub nullable: bool,
}

/// The line of a field that holds a value from the start.
pub open spec fn required(coercion: Coercion) -> Option<Column> {
    Some(Column { coercion, nullable: false })
}

/// The line of a field that is absent until its attribute is read.
pub open spec fn nullable(coercion: Coercion) -> Option<Column> {
    Some(Column { coercion, nullable: true })
}

/// What the field of a column holds once `value` is read into it, or why the value does not
/// coerce.
pub open spec fn coerced(column: Column, value: Seq<u8>) -> Result<FieldValue, ErrorKind> {
    match column.coercion {
        Coercion::Int32 => stored(
            int32_of(value),
            |n: i32|
                if column.nullable {
                    FieldValue::MaybeInteger(Some(n as int))
                } else {
                    FieldValue::Integer(n as int)
                },
        ),
        Coercion::Int16 => stored(
            int16_of(value),
            |n: i16|
                if column.nullable {
                    FieldValue::MaybeInteger(Some(n as int))
                } else {
                    FieldValue::Integer(n as int)
                },
        ),
        Coercion::Text => stored(
            text_of(value),
            |text: Seq<char>|
                if column.nullable {
                    FieldValue::MaybeText(Some(text))
                } else {
                    FieldValue::Text(text)
                },
        ),
        Coercion::Flag => stored(flag_of(value), |flag: bool| FieldValue::Flag(flag)),
        Coercion::Timestamp => stored(
            timestamp_of(value),
            |t: Timestamp|
                if column.nullable {
                    FieldValue::MaybeTime(Some(t))
                } else {
                    FieldValue::Time(t)
                },
        ),
    }
}

/// An attribute name as the bytes that spell it.
pub open spec fn attr(name: &str) -> Seq<u8> {
    name.spec_bytes()
}

/// The record that takes a coerced value into one of its fields, or the failure of the
/// coercion.
pub open spec fn stored<A, R>(coerced: Result<A, ErrorKind>, place: spec_fn(A) -> R) -> Result<
    R,
    ErrorKind,
> {
    match coerced {
        Ok(a) => Ok(place(a)),
        Err(kind) => Err(kind),
    }
}

/// An optional text as an optional sequence of characters.
pub open spec fn maybe_text(text: Option<String>) -> Option<Seq<char>> {
    match text {
        Some(t) => Some(t@),
        None => None,
    }
}

/// An optional 32-bit integer as an optional integer.
pub open spec fn maybe_i32(number: Option<i32>) -> Option<int> {
    match number {
        Some(n) => Some(n as int),
        None => None,
    }
}

/// An optional 16-bit integer as an optional integer.
pub open spec fn maybe_i16(number: Option<i16>) -> Option<int> {
    match number {
        Some(n) => Some(n as int),
        None => None,
    }
}

/// An outcome by its views: the record's model, or what the error says.
pub open spec fn outcome_of<T: View>(r: Result<T, XmlError>) -> Result<T::V, ErrorKind> {
    match r {
        Ok(rec) => Ok(rec@),
        Err(e) => Err(e@),
    }
}

/// The field table of one entity: which attribute names it reads, into which field each goes,
/// and under which coercion.
pub trait FieldTable: View + Sized {
    /// The record before any attribute is read: every field zero, empty or absent.
    spec fn blank() -> Self::V;

    /// Every timestamp of the record is well formed.
    spec fn well_formed(rec: Self::V) -> bool;

    /// The line of the table for the attribute named `key`, or `None` where the table does
    /// not read it. Names match byte for byte.
    spec fn column(key: Seq<u8>) -> Option<Column>;

    /// What the field that `key` maps to holds in `rec`.
    spec fn field(rec: Self::V, key: Seq<u8>) -> FieldValue;

    /// The record after the attribute `key="value"` is read into `rec`: the one field that
    /// `key` maps to takes the coerced value, or the coercion fails.
    spec fn assigned(rec: Self::V, key: Seq<u8>, value: Seq<u8>) -> Result<Self::V, ErrorKind>;

    /// An attribute that the table does not map changes nothing and never fails.
    proof fn lemma_unknown_ignored(rec: Self::V, key: Seq<u8>, value: Seq<u8>)
        requires
            Self::column(key) is None,
        ensures
            Self::assigned(rec, key, value) == Ok::<Self::V, ErrorKind>(rec),
    ;

    /// An attribute that the table maps is read as its column says: its field takes the
    /// coerced value, or the failure of the coercion is the failure of the reading.
    proof fn lemma_assigned_by_column(rec: Self::V, key: Seq<u8>, value: Seq<u8>)
        requires
            Self::column(key) is Some,
        ensures
            match coerced(Self::column(key)->Some_0, value) {
                Ok(held) => Self::assigned(rec, key, value) is Ok && Self::field(
                    Self::assigned(rec, key, value)->Ok_0,
                    key,
                ) == held,
                Err(kind) => Self::assigned(rec, key, value) == Err::<Self::V, ErrorKind>(kind),
            },
    ;

    /// Reading one attribute leaves the field of every other attribute name as it was.
    proof fn lemma_others_kept(rec: Self::V, key: Seq<u8>, value: Seq<u8>, other: Seq<u8>)
        requires
            other != key,
            Self::assigned(rec, key, value) is Ok,
        ensures
            Self::field(Self::assigned(rec, key, value)->Ok_0, other) == Self::field(rec, other),
    ;

    /// The table maps exactly the names that it knows.
    proof fn lemma_mapped_iff_known(rec: Self::V, key: Seq<u8>)
        ensures
            Self::column(key) is Some <==> !(Self::field(rec, key) is Unmapped),
    ;

    /// Two attributes of different names can be read in either order: whether each coerces
    /// does not depend on the other, and where both do the record is the same.
    proof fn lemma_assignments_commute(rec: Self::V, first: AttributeModel, second: AttributeModel)
        requires
            first.key != second.key,
            Self::assigned(rec, first.key, first.value) is Ok,
            Self::assigned(
                Self::assigned(rec, first.key, first.value)->Ok_0,
                second.key,
                second.value,
            ) is Ok,
        ensures
            Self::assigned(rec, second.key, second.value) is Ok,
            Self::assigned(
                Self::assigned(rec, second.key, second.value)->Ok_0,
                first.key,
                first.value,
            ) == Self::assigned(
                Self::assigned(rec, first.key, first.value)->Ok_0,
                second.key,
                second.value,
            ),
    ;

    /// A record with nothing read into it.
    fn unread() -> (rec: Self)
        ensures
            rec@ == Self::blank(),
            Self::well_formed(rec@),
    ;

    /// Reads one attribute into the record. On failure the record is as it was.
    fn assign(&mut self, key: &[u8], value: &[u8]) -> (r: Result<(), XmlError>)
        ensures
            match r {
                Ok(_) => Self::assigned(old(self)@, key@, value@) == Ok::<Self::V, ErrorKind>(
                    final(self)@,
                ),
                Err(e) => Self::assigned(old(self)@, key@, value@) == Err::<Self::V, ErrorKind>(e@)
                    && final(self)@ == old(self)@,
            },
            Self::well_formed(old(self)@) ==> Self::well_formed(final(self)@),
    ;
}

/// The record after the attributes are read into `rec` one by one, in their order, or the
/// failure of the first whose coercion fails.
pub open spec fn assigned_all<T: FieldTable>(rec: T::V, attributes: Seq<AttributeModel>) -> Result<
    T::V,
    ErrorKind,
>
    decreases attributes.len(),
{
    if attributes.len() == 0 {
        Ok(rec)
    } else {
        match T::assigned(rec, attributes[0].key, attributes[0].value) {
            Ok(next) => assigned_all::<T>(next, attributes.skip(1)),
            Err(kind) => Err(kind),
        }
    }
}

/// What a list of well-formed attributes decodes to: the blank record with all of them read
/// into it.
pub open spec fn decoded<T: FieldTable>(attributes: Seq<AttributeModel>) -> Result<
    T::V,
    ErrorKind,
> {
    assigned_all::<T>(T::blank(), attributes)
}

/// What an element decodes to, given how its attributes parsed: a malformed attribute anywhere
/// in the element fails the whole element before any field is assigned.
pub open spec fn decoded_element<T: FieldTable>(parsed: Option<Seq<AttributeModel>>) -> Result<
    T::V,
    ErrorKind,
> {
    match parsed {
        Some(attributes) => decoded::<T>(attributes),
        None => Err(ErrorKind::XmlParse),
    }
}

/// Whether `key` spells `name`.
pub fn key_is(key: &[u8], name: &str) -> (same: bool)
    ensures
        same == (key@ == attr(name)),
{
    bytes_equal(key, name.as_bytes())
}

/// Builds a record from a list of attributes: starts from the blank record and reads each
/// attribute in turn, stopping at the first value that does not coerce.
pub fn decode_attributes<T: FieldTable>(attributes: &[Attribute]) -> (r: Result<T, XmlError>)
    ensures
        outcome_of(r) == decoded::<T>(attributes_view(attributes@)),
        r matches Ok(rec) ==> T::well_formed(rec@),
{
    let mut rec = T::unread();
    let ghost all = attributes_view(attributes@);
    let mut i: usize = 0;
    assert(all.skip(0) =~= all);
    while i < attributes.len()
        invariant
            i <= attributes.len(),
            all == attributes_view(attributes@),
            T::well_formed(rec@),
            decoded::<T>(all) == assigned_all::<T>(rec@, all.skip(i as int)),
        decreases attributes.len() - i,
    {
        let ghost before = rec@;
        proof {
            assert(all.skip(i as int)[0] == attributes@[i as int]@);
            assert(all.skip(i as int).skip(1) =~= all.skip(i as int + 1));
        }
        match rec.assign(attributes[i].key.as_slice(), attributes[i].value.as_slice()) {
            Ok(_) => {},
            Err(e) => {
                return Err(e);
            },
        }
        i += 1;
    }
    assert(all.skip(i as int).len() == 0);
    Ok(rec)
}

/// Builds a record from an element: has its attributes parsed, then decodes them.
pub fn decode_element<T: FieldTable>(element: &BytesStart<'_>) -> (r: Result<T, XmlError>)
    requires
        is_sound(*element),
    ensures
        outcome_of(r) == decoded_element::<T>(element_attributes(*element)),
        r matches Ok(rec) ==> T::well_formed(rec@),
{
    match read_attributes(element) {
        Ok(attributes) => decode_attributes(attributes.as_slice()),
        Err(cause) => Err(XmlError::XmlParse(cause)),
    }
}

/// Builds a record from an element of any making: `None` for an element that is not sound, and
/// the outcome of decoding for every other.
pub fn try_decode_element<T: FieldTable>(element: &BytesStart<'_>) -> (r: Option<
    Result<T, XmlError>,
>)
    ensures
        r is Some <==> is_sound(*element),
        r matches Some(outcome) ==> outcome_of(outcome) == decoded_element::<T>(
            element_attributes(*element),
        ),
        r matches Some(Ok(rec)) ==> T::well_formed(rec@),
{
    if name_lies_within(element) {
        Some(decode_element(element))
    } else {
        None
    }
}

/// A record that can be built from one XML element.
pub trait XmlModel: FieldTable {
    /// Builds the record from the attributes of `element`.
    fn from_xml_element(element: &BytesStart<'_>) -> (r: Result<Self, XmlError>)
        requires
            is_sound(*element),
        ensures
            outcome_of(r) == decoded_element::<Self>(element_attributes(*element)),
            r matches Ok(rec) ==> Self::well_formed(rec@),
    ;
}

} // verus!
