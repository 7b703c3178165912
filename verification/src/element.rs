//! The element that the tokenizer hands over, and what the decoders read from it.

use crate::coercion::bytes_equal;
use quick_xml::events::BytesStart;
use quick_xml::name::QName;
use vstd::prelude::*;
use vstd::string::StringSliceAdditionalSpecFns;

verus! {

/// `quick_xml::events::BytesStart`: the inside of a start tag or of a self-closing tag.
#[verifier::external_type_specification]
#[verifier::external_body]
pub struct ExBytesStart<'a>(BytesStart<'a>);

/// One attribute of an element: its name and its raw value, as bytes.
#[derive(Debug, Clone, PartialEq, Eq)]
pub struct Attribute {
    pub key: Vec<u8>,
    pub value: Vec<u8>,
}

/// An attribute as a pair of byte strings.
pub ghost struct AttributeModel {
    pub key: Seq<u8>,
    pub value: Seq<u8>,
}

impl View for Attribute {
    type V = AttributeModel;

    open spec fn view(&self) -> AttributeModel {
        AttributeModel { key: self.key@, value: self.value@ }
    }
}

/// A list of attributes as pairs of byte strings, in the same order.
pub open spec fn attributes_view(list: Seq<Attribute>) -> Seq<AttributeModel> {
    list.map_values(|a: Attribute| a@)
}

/// The bytes of an element between `<` and `>` or `/>`: its name, then its attributes.
pub uninterp spec fn element_content(element: BytesStart) -> Seq<u8>;

/// How many bytes at the start of an element's content are its name.
pub uninterp spec fn element_name_len(element: BytesStart) -> nat;

/// What quick_xml's attribute iterator reads in `content` from byte `start` on: the attributes
/// in their order, each with its name and its raw value, or `None` where the iterator reports
/// an attribute that is malformed or repeats an earlier name.
pub uninterp spec fn parsed_attributes(content: Seq<u8>, start: nat) -> Option<
    Seq<AttributeModel>,
>;

/// The name of the element lies within its content. It does in every element that the
/// tokenizer produces; one built by hand from a content and a length may break it, and
/// quick_xml then panics on reading the name or the attributes.
pub open spec fn is_sound(element: BytesStart) -> bool {
    element_name_len(element) <= element_content(element).len()
}

/// The name of an element.
pub open spec fn element_name(element: BytesStart) -> Seq<u8> {
    element_content(element).take(element_name_len(element) as int)
}

/// The attributes of an element as quick_xml reads them, or `None` where one is malformed.
pub open spec fn element_attributes(element: BytesStart) -> Option<Seq<AttributeModel>> {
    parsed_attributes(element_content(element), element_name_len(element))
}

/// Calls `BytesStart::name`. Trusted: that it returns the first `element_name_len` bytes of the
/// content.
#[verifier::external_body]
pub(crate) fn tag_name<'e>(element: &'e BytesStart<'_>) -> (name: &'e [u8])
    requires
        is_sound(*element),
    ensures
        name@ == element_content(*element).take(element_name_len(*element) as int),
{
    element.name().into_inner()
}

/// Calls `BytesStart::attributes` and walks the iterator up to its first error, copying each
/// attribute's name and raw value. Trusted: that what the iterator yields depends on the
/// element's content and name length alone.
#[verifier::external_body]
pub(crate) fn read_attributes(element: &BytesStart<'_>) -> (r: Result<
    Vec<Attribute>,
    quick_xml::Error,
>)
    requires
        is_sound(*element),
    ensures
        match r {
            Ok(list) => parsed_attributes(element_content(*element), element_name_len(*element))
                == Some(attributes_view(list@)),
            Err(_) => parsed_attributes(element_content(*element), element_name_len(*element))
                is None,
        },
{
    element.attributes().map(
        |item| match item {
            Ok(a) => Ok(
                Attribute { key: a.key.into_inner().to_vec(), value: a.value.into_owned() },
            ),
            Err(fault) => Err(quick_xml::Error::from(fault)),
        },
    ).collect()
}

/// Cuts a copy of the element down to its name with `BytesStart::clear_attributes`, and compares
/// the copy with the element that quick_xml builds from the copy's bytes taken as a name.
/// Trusted: that the two are equal exactly when the name length does not exceed the length of
/// the content; none of the calls reads the name or the attributes, so none can panic.
#[verifier::external_body]
pub(crate) fn name_lies_within(element: &BytesStart<'_>) -> (within: bool)
    ensures
        within == (element_name_len(*element) <= element_content(*element).len()),
{
    let mut head = element.to_owned();
    head.clear_attributes();
    head == BytesStart::from(QName(&head))
}

/// The tag name of the elements that carry records.
pub const ROW: &'static str = "row";

/// Whether the element is sound and named exactly `row`.
pub fn is_row(element: &BytesStart<'_>) -> (row: bool)
    ensures
        row == (is_sound(*element) && element_name(*element) == ROW.spec_bytes()),
{
    name_lies_within(element) && has_row_name(element)
}

/// Whether a sound element is named exactly `row`.
pub(crate) fn has_row_name(element: &BytesStart<'_>) -> (row: bool)
    requires
        is_sound(*element),
    ensures
        row == (element_name(*element) == ROW.spec_bytes()),
{
    bytes_equal(tag_name(element), ROW.as_bytes())
}

} // verus!
