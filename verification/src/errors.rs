//! The failures that decoding reports.

use crate::number::IntegerFault;
use vstd::prelude::*;

verus! {

/// `quick_xml::Error`, carried through unread.
#[verifier::external_type_specification]
#[verifier::external_body]
pub struct ExSyntaxError(quick_xml::Error);

/// `std::string::FromUtf8Error`, carried through unread.
#[verifier::external_type_specification]
#[verifier::external_body]
pub struct ExEncodingError(std::string::FromUtf8Error);

/// `chrono::ParseError`, carried through unread.
#[verifier::external_type_specification]
#[verifier::external_body]
pub struct ExDateError(chrono::ParseError);

/// Why an element, or the stream that it came from, gave no record. Each variant keeps the
/// underlying cause for the caller's diagnostics.
#[derive(Debug)]
pub enum XmlError {
    /// The XML is malformed: a token of the stream, or an attribute of an element.
    XmlParse(quick_xml::Error),
    /// An attribute value that a field reads is not UTF-8.
    Utf8Conversion(std::string::FromUtf8Error),
    /// An attribute value of an integer field is not a base-10 integer of the field's width.
    IntegerParse(IntegerFault),
    /// An attribute value of a timestamp field does not follow the timestamp pattern.
    DateParse(chrono::ParseError),
}

/// What an [`XmlError`] says, without the cause it carries.
pub enum ErrorKind {
    XmlParse,
    Utf8Conversion,
    IntegerParse(IntegerFault),
    DateParse,
}

impl View for XmlError {
    type V = ErrorKind;

    open spec fn view(&self) -> ErrorKind {
        match self {
            XmlError::XmlParse(_) => ErrorKind::XmlParse,
            XmlError::Utf8Conversion(_) => ErrorKind::Utf8Conversion,
            XmlError::IntegerParse(fault) => ErrorKind::IntegerParse(*fault),
            XmlError::DateParse(_) => ErrorKind::DateParse,
        }
    }
}

} // verus!
