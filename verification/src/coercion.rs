//! From the raw bytes of an attribute value to the value of a field.

use crate::errors::{ErrorKind, XmlError};
use crate::number::{integer_of, parse_i16, parse_i32, IntegerFault};
use crate::timestamp::{chrono_datetime, parse_datetime, Timestamp};
use vstd::prelude::*;
use vstd::slice::slice_to_vec;
use vstd::string::StringSliceAdditionalSpecFns;
use vstd::utf8::{decode_utf8, encode_utf8, valid_utf8};

verus! {

/// `String::from_utf8` succeeds on exactly the byte vectors that are UTF-8, and the string it
/// returns then holds the characters that those bytes encode.
pub assume_specification[ String::from_utf8 ](bytes: Vec<u8>) -> (r: Result<
    String,
    std::string::FromUtf8Error,
>)
    ensures
        r is Ok <==> valid_utf8(bytes@),
        r matches Ok(text) ==> text@ == decode_utf8(bytes@),
;

/// The pattern that every timestamp attribute follows: date, `T`, time of day, and an optional
/// fraction of a second of any precision.
pub const TIMESTAMP_FORMAT: &'static str = "%Y-%m-%dT%H:%M:%S%.f";

/// The text of a value: its bytes read as UTF-8.
pub open spec fn text_of(value: Seq<u8>) -> Result<Seq<char>, ErrorKind> {
    if valid_utf8(value) {
        Ok(decode_utf8(value))
    } else {
        Err(ErrorKind::Utf8Conversion)
    }
}

/// The flag of a value: whether its text is exactly `1`.
pub open spec fn flag_of(value: Seq<u8>) -> Result<bool, ErrorKind> {
    match text_of(value) {
        Ok(text) => Ok(text == "1"@),
        Err(kind) => Err(kind),
    }
}

/// The integer of a value within `min ..= max`: its text read in base 10.
pub open spec fn number_of(value: Seq<u8>, min: int, max: int) -> Result<int, ErrorKind> {
    if !valid_utf8(value) {
        Err(ErrorKind::Utf8Conversion)
    } else {
        match integer_of(value, min, max) {
            Ok(n) => Ok(n),
            Err(fault) => Err(ErrorKind::IntegerParse(fault)),
        }
    }
}

/// The 32-bit integer of a value.
pub open spec fn int32_of(value: Seq<u8>) -> Result<i32, ErrorKind> {
    match number_of(value, i32::MIN as int, i32::MAX as int) {
        Ok(n) => Ok(n as i32),
        Err(kind) => Err(kind),
    }
}

/// The 16-bit integer of a value.
pub open spec fn int16_of(value: Seq<u8>) -> Result<i16, ErrorKind> {
    match number_of(value, i16::MIN as int, i16::MAX as int) {
        Ok(n) => Ok(n as i16),
        Err(kind) => Err(kind),
    }
}

/// The timestamp of a value: its text read against [`TIMESTAMP_FORMAT`].
pub open spec fn timestamp_of(value: Seq<u8>) -> Result<Timestamp, ErrorKind> {
    match text_of(value) {
        Ok(text) => match chrono_datetime(text, TIMESTAMP_FORMAT@) {
            Some(t) => Ok(t),
            None => Err(ErrorKind::DateParse),
        },
        Err(kind) => Err(kind),
    }
}

/// Reads a value as text.
pub fn coerce_text(value: &[u8]) -> (r: Result<String, XmlError>)
    ensures
        match r {
            Ok(text) => text_of(value@) == Ok::<Seq<char>, ErrorKind>(text@),
            Err(e) => text_of(value@) == Err::<Seq<char>, ErrorKind>(e@),
        },
{
    match String::from_utf8(slice_to_vec(value)) {
        Ok(text) => Ok(text),
        Err(cause) => Err(XmlError::Utf8Conversion(cause)),
    }
}

/// Reads a value as a flag.
pub fn coerce_flag(value: &[u8]) -> (r: Result<bool, XmlError>)
    ensures
        match r {
            Ok(flag) => flag_of(value@) == Ok::<bool, ErrorKind>(flag),
            Err(e) => flag_of(value@) == Err::<bool, ErrorKind>(e@),
        },
{
    match String::from_utf8(slice_to_vec(value)) {
        Ok(text) => {
            let set = bytes_equal(value, "1".as_bytes());
            proof {
                lemma_text_by_bytes(value@, "1"@);
            }
            Ok(set)
        },
        Err(cause) => Err(XmlError::Utf8Conversion(cause)),
    }
}

/// Reads a value as a 32-bit signed integer.
pub fn coerce_i32(value: &[u8]) -> (r: Result<i32, XmlError>)
    ensures
        match r {
            Ok(n) => int32_of(value@) == Ok::<i32, ErrorKind>(n),
            Err(e) => int32_of(value@) == Err::<i32, ErrorKind>(e@),
        },
{
    match String::from_utf8(slice_to_vec(value)) {
        Ok(_) => match parse_i32(value) {
            Ok(n) => Ok(n),
            Err(fault) => Err(XmlError::IntegerParse(fault)),
        },
        Err(cause) => Err(XmlError::Utf8Conversion(cause)),
    }
}

/// Reads a value as a 16-bit signed integer.
pub fn coerce_i16(value: &[u8]) -> (r: Result<i16, XmlError>)
    ensures
        match r {
            Ok(n) => int16_of(value@) == Ok::<i16, ErrorKind>(n),
            Err(e) => int16_of(value@) == Err::<i16, ErrorKind>(e@),
        },
{
    match String::from_utf8(slice_to_vec(value)) {
        Ok(_) => match parse_i16(value) {
            Ok(n) => Ok(n),
            Err(fault) => Err(XmlError::IntegerParse(fault)),
        },
        Err(cause) => Err(XmlError::Utf8Conversion(cause)),
    }
}

/// Reads a value as a timestamp.
pub fn coerce_timestamp(value: &[u8]) -> (r: Result<Timestamp, XmlError>)
    ensures
        match r {
            Ok(t) => timestamp_of(value@) == Ok::<Timestamp, ErrorKind>(t) && t.is_well_formed(),
            Err(e) => timestamp_of(value@) == Err::<Timestamp, ErrorKind>(e@),
        },
{
    match String::from_utf8(slice_to_vec(value)) {
        Ok(text) => match parse_datetime(text.as_str(), TIMESTAMP_FORMAT) {
            Ok(t) => Ok(t),
            Err(cause) => Err(XmlError::DateParse(cause)),
        },
        Err(cause) => Err(XmlError::Utf8Conversion(cause)),
    }
}

/// Whether two byte strings are the same.
pub fn bytes_equal(a: &[u8], b: &[u8]) -> (same: bool)
    ensures
        same == (a@ == b@),
{
    if a.len() != b.len() {
        return false;
    }
    let mut i: usize = 0;
    while i < a.len()
        invariant
            a.len() == b.len(),
            i <= a.len(),
            forall|j: int| 0 <= j < i ==> a@[j] == b@[j],
        decreases a.len() - i,
    {
        if a[i] != b[i] {
            return false;
        }
        i += 1;
    }
    assert(a@ =~= b@);
    true
}

/// A UTF-8 value reads as `text` exactly when its bytes are the encoding of `text`.
pub proof fn lemma_text_by_bytes(value: Seq<u8>, text: Seq<char>)
    requires
        valid_utf8(value),
    ensures
        (decode_utf8(value) == text) <==> (value == encode_utf8(text)),
{
    vstd::utf8::decode_utf8_encode_utf8(value);
    vstd::utf8::encode_utf8_decode_utf8(text);
}

} // verus!
