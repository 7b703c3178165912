//! What holds of decoding and of the sequence, whatever the entity and whatever the input.

use crate::coercion::{flag_of, lemma_text_by_bytes};
use crate::element::{element_attributes, AttributeModel};
use crate::errors::{ErrorKind, XmlError};
use crate::model::{
    assigned_all, attr, coerced, decoded, decoded_element, outcome_of, FieldTable, FieldValue,
};
use crate::sequence::{is_row_token, run, step, Progress, PullModel, TokenModel};
use quick_xml::events::BytesStart;
use vstd::prelude::*;
use vstd::utf8::valid_utf8;

verus! {

/// Decoding is a function of the element: whatever decoding the same element gives on two
/// occasions is the same record, field for field, or the same failure.
pub proof fn lemma_decoding_is_deterministic<T: FieldTable>(
    element: BytesStart,
    first: Result<T, XmlError>,
    second: Result<T, XmlError>,
)
    requires
        outcome_of(first) == decoded_element::<T>(element_attributes(element)),
        outcome_of(second) == decoded_element::<T>(element_attributes(element)),
    ensures
        outcome_of(first) == outcome_of(second),
{
}

/// An element without attributes decodes to the blank record.
pub proof fn lemma_no_attributes_decode_to_blank<T: FieldTable>()
    ensures
        decoded::<T>(Seq::empty()) == Ok::<T::V, ErrorKind>(T::blank()),
        decoded_element::<T>(Some(Seq::empty())) == Ok::<T::V, ErrorKind>(T::blank()),
{
}

/// No attribute of the list is named `key`.
pub open spec fn is_absent(attributes: Seq<AttributeModel>, key: Seq<u8>) -> bool {
    forall|i: int| 0 <= i < attributes.len() ==> (#[trigger] attributes[i]).key != key
}

/// Reading attributes none of which is named `key` leaves the field of `key` as it was.
pub proof fn lemma_absent_attribute_keeps_field<T: FieldTable>(
    rec: T::V,
    attributes: Seq<AttributeModel>,
    key: Seq<u8>,
)
    requires
        is_absent(attributes, key),
        assigned_all::<T>(rec, attributes) is Ok,
    ensures
        T::field(assigned_all::<T>(rec, attributes)->Ok_0, key) == T::field(rec, key),
    decreases attributes.len(),
{
    if attributes.len() > 0 {
        let head = attributes[0];
        let next = T::assigned(rec, head.key, head.value)->Ok_0;
        T::lemma_others_kept(rec, head.key, head.value, key);
        let rest = attributes.skip(1);
        assert forall|i: int| 0 <= i < rest.len() implies (#[trigger] rest[i]).key != key by {
            assert(rest[i] == attributes[i + 1]);
        }
        lemma_absent_attribute_keeps_field::<T>(next, rest, key);
    }
}

/// An attribute that an element lacks leaves its field at the value of the blank record: zero,
/// empty, the epoch, or absent. Its absence is never the reason for a failure.
pub proof fn lemma_absent_attribute_leaves_default<T: FieldTable>(
    attributes: Seq<AttributeModel>,
    key: Seq<u8>,
)
    requires
        is_absent(attributes, key),
        decoded::<T>(attributes) is Ok,
    ensures
        T::field(decoded::<T>(attributes)->Ok_0, key) == T::field(T::blank(), key),
{
    lemma_absent_attribute_keeps_field::<T>(T::blank(), attributes, key);
}

/// The value of the attribute coerces under its column, or the table does not read the
/// attribute at all.
pub open spec fn is_readable<T: FieldTable>(attribute: AttributeModel) -> bool {
    T::column(attribute.key) matches Some(column) ==> coerced(column, attribute.value) is Ok
}

/// A list of attributes decodes exactly when each attribute that the table reads holds a value
/// that coerces: one value that does not fails the whole record, and nothing else does.
pub proof fn lemma_decodes_iff_every_value_coerces<T: FieldTable>(
    rec: T::V,
    attributes: Seq<AttributeModel>,
)
    ensures
        assigned_all::<T>(rec, attributes) is Ok <==> forall|i: int|
            0 <= i < attributes.len() ==> is_readable::<T>(#[trigger] attributes[i]),
    decreases attributes.len(),
{
    if attributes.len() > 0 {
        let head = attributes[0];
        let rest = attributes.skip(1);
        if T::column(head.key) is Some {
            T::lemma_assigned_by_column(rec, head.key, head.value);
        } else {
            T::lemma_unknown_ignored(rec, head.key, head.value);
        }
        match T::assigned(rec, head.key, head.value) {
            Ok(next) => {
                lemma_decodes_iff_every_value_coerces::<T>(next, rest);
                assert(is_readable::<T>(head));
                if assigned_all::<T>(rec, attributes) is Ok {
                    assert forall|i: int| 0 <= i < attributes.len() implies is_readable::<T>(
                        #[trigger] attributes[i],
                    ) by {
                        if i > 0 {
                            assert(attributes[i] == rest[i - 1]);
                        }
                    }
                } else {
                    let i = choose|i: int|
                        0 <= i < rest.len() && !is_readable::<T>(#[trigger] rest[i]);
                    assert(attributes[i + 1] == rest[i]);
                }
            },
            Err(_) => {
                assert(!is_readable::<T>(attributes[0]));
            },
        }
    }
}

/// The field of an attribute that is present holds the coerced value of the attribute: of its
/// last occurrence, where a list names it more than once.
pub proof fn lemma_present_attribute_sets_field<T: FieldTable>(
    rec: T::V,
    attributes: Seq<AttributeModel>,
    at: int,
)
    requires
        0 <= at < attributes.len(),
        T::column(attributes[at].key) is Some,
        forall|j: int| at < j < attributes.len() ==> (#[trigger] attributes[j]).key
            != attributes[at].key,
        assigned_all::<T>(rec, attributes) is Ok,
    ensures
        coerced(T::column(attributes[at].key)->Some_0, attributes[at].value) == Ok::<
            FieldValue,
            ErrorKind,
        >(T::field(assigned_all::<T>(rec, attributes)->Ok_0, attributes[at].key)),
    decreases attributes.len(),
{
    let head = attributes[0];
    let rest = attributes.skip(1);
    let next = T::assigned(rec, head.key, head.value)->Ok_0;
    if at == 0 {
        T::lemma_assigned_by_column(rec, head.key, head.value);
        assert forall|j: int| 0 <= j < rest.len() implies (#[trigger] rest[j]).key != head.key by {
            assert(rest[j] == attributes[j + 1]);
        }
        lemma_absent_attribute_keeps_field::<T>(next, rest, head.key);
    } else {
        assert(rest[at - 1] == attributes[at]);
        assert forall|j: int| at - 1 < j < rest.len() implies (#[trigger] rest[j]).key != rest[at
            - 1].key by {
            assert(rest[j] == attributes[j + 1]);
        }
        lemma_present_attribute_sets_field::<T>(next, rest, at - 1);
    }
}

/// An attribute whose name the table does not map is ignored: with it or without it, wherever
/// it stands among the others, the element decodes to the same outcome.
pub proof fn lemma_unknown_attribute_is_ignored<T: FieldTable>(
    rec: T::V,
    before: Seq<AttributeModel>,
    unknown: AttributeModel,
    after: Seq<AttributeModel>,
)
    requires
        T::column(unknown.key) is None,
    ensures
        assigned_all::<T>(rec, before + seq![unknown] + after) == assigned_all::<T>(
            rec,
            before + after,
        ),
    decreases before.len(),
{
    let with = before + seq![unknown] + after;
    let without = before + after;
    if before.len() == 0 {
        assert(with[0] == unknown);
        assert(with.skip(1) =~= after);
        assert(without =~= after);
        T::lemma_unknown_ignored(rec, unknown.key, unknown.value);
    } else {
        let head = before[0];
        assert(with[0] == head);
        assert(without[0] == head);
        assert(with.skip(1) =~= before.skip(1) + seq![unknown] + after);
        assert(without.skip(1) =~= before.skip(1) + after);
        match T::assigned(rec, head.key, head.value) {
            Ok(next) => {
                lemma_unknown_attribute_is_ignored::<T>(next, before.skip(1), unknown, after);
            },
            Err(_) => {},
        }
    }
}

/// The order of the attributes does not matter to a record: where an element decodes, it
/// decodes to the same record with two neighbouring attributes of different names changed
/// over, and so with its attributes in any order.
pub proof fn lemma_neighbours_may_change_places<T: FieldTable>(
    rec: T::V,
    before: Seq<AttributeModel>,
    first: AttributeModel,
    second: AttributeModel,
    after: Seq<AttributeModel>,
)
    requires
        first.key != second.key,
        assigned_all::<T>(rec, before + seq![first, second] + after) is Ok,
    ensures
        assigned_all::<T>(rec, before + seq![second, first] + after) == assigned_all::<T>(
            rec,
            before + seq![first, second] + after,
        ),
    decreases before.len(),
{
    let given = before + seq![first, second] + after;
    let changed = before + seq![second, first] + after;
    if before.len() == 0 {
        reveal_with_fuel(assigned_all, 3);
        assert(given[0] == first);
        assert(given.skip(1)[0] == second);
        assert(given.skip(1).skip(1) =~= after);
        assert(changed[0] == second);
        assert(changed.skip(1)[0] == first);
        assert(changed.skip(1).skip(1) =~= after);
        T::lemma_assignments_commute(rec, first, second);
    } else {
        let head = before[0];
        assert(given[0] == head);
        assert(changed[0] == head);
        assert(given.skip(1) =~= before.skip(1) + seq![first, second] + after);
        assert(changed.skip(1) =~= before.skip(1) + seq![second, first] + after);
        let next = T::assigned(rec, head.key, head.value)->Ok_0;
        lemma_neighbours_may_change_places::<T>(next, before.skip(1), first, second, after);
    }
}

/// A flag is set by the value `1` and by no other text.
pub proof fn lemma_flag_is_set_by_one_alone(value: Seq<u8>)
    requires
        valid_utf8(value),
    ensures
        flag_of(value) == Ok::<bool, ErrorKind>(value == attr("1")),
{
    lemma_text_by_bytes(value, "1"@);
}

/// A sequence that is over stays over: it answers `Exhausted` to every further token and
/// gives no further outcome.
pub proof fn lemma_exhaustion_is_final<T: FieldTable>(progress: Progress, tokens: Seq<TokenModel>)
    requires
        progress != Progress::Open,
    ensures
        forall|token: TokenModel| #[trigger]
            step::<T>(progress, token) == (progress, PullModel::<T::V>::Exhausted),
        run::<T>(progress, tokens) == (progress, Seq::<Result<T::V, ErrorKind>>::empty()),
    decreases tokens.len(),
{
    if tokens.len() > 0 {
        lemma_exhaustion_is_final::<T>(progress, tokens.drop_last());
    }
}

/// The outcome that a token stands for: the decoding of a `row` element, nothing for any other
/// token.
pub open spec fn row_outcome<T: FieldTable>(token: TokenModel) -> Option<Result<T::V, ErrorKind>> {
    match token {
        TokenModel::Empty { name, attributes } => if is_row_token(token) {
            Some(decoded_element::<T>(attributes))
        } else {
            None
        },
        _ => None,
    }
}

/// The stream neither ends nor breaks within `tokens`.
pub open spec fn is_unbroken(tokens: Seq<TokenModel>) -> bool {
    forall|i: int|
        0 <= i < tokens.len() ==> !((#[trigger] tokens[i]) is End) && !(tokens[i] is Failed)
}

/// Over a stretch of stream that neither ends nor breaks, the sequence gives one outcome for
/// each `row` element and none for anything else, in the order of the elements. An element
/// that fails to decode takes its place among the outcomes and stops nothing: the sequence
/// stays open.
pub proof fn lemma_every_row_gives_its_outcome<T: FieldTable>(tokens: Seq<TokenModel>)
    requires
        is_unbroken(tokens),
    ensures
        run::<T>(Progress::Open, tokens) == (
            Progress::Open,
            tokens.filter_map(|token: TokenModel| row_outcome::<T>(token)),
        ),
    decreases tokens.len(),
{
    let pick = |token: TokenModel| row_outcome::<T>(token);
    if tokens.len() > 0 {
        let front = tokens.drop_last();
        assert forall|i: int| 0 <= i < front.len() implies !((#[trigger] front[i]) is End) && !(
        front[i] is Failed) by {
            assert(front[i] == tokens[i]);
        }
        lemma_every_row_gives_its_outcome::<T>(front);
        let last = tokens.last();
        assert(last == tokens[tokens.len() - 1]);
        assert(!(last is End) && !(last is Failed));
        match pick(last) {
            Some(outcome) => {
                assert(front.filter_map(pick) + seq![outcome] =~= front.filter_map(pick).push(
                    outcome,
                ));
            },
            None => {},
        }
    }
}

/// Over a stretch of stream that neither ends nor breaks, the sequence gives as many outcomes
/// as the stretch has `row` elements.
pub proof fn lemma_outcomes_count_the_rows<T: FieldTable>(tokens: Seq<TokenModel>)
    requires
        is_unbroken(tokens),
    ensures
        run::<T>(Progress::Open, tokens).0 == Progress::Open,
        run::<T>(Progress::Open, tokens).1.len() == tokens.filter(
            |token: TokenModel| is_row_token(token),
        ).len(),
    decreases tokens.len(),
{
    reveal(Seq::filter);
    if tokens.len() > 0 {
        let front = tokens.drop_last();
        assert forall|i: int| 0 <= i < front.len() implies !((#[trigger] front[i]) is End) && !(
        front[i] is Failed) by {
            assert(front[i] == tokens[i]);
        }
        lemma_outcomes_count_the_rows::<T>(front);
        assert(tokens.last() == tokens[tokens.len() - 1]);
    }
}

/// A stream of `row` elements and other tokens, closed by its end, gives exactly as many
/// outcomes as it has `row` elements, each the decoding of its element, and leaves the
/// sequence over.
pub proof fn lemma_ended_stream_gives_every_row<T: FieldTable>(tokens: Seq<TokenModel>)
    requires
        is_unbroken(tokens),
    ensures
        run::<T>(Progress::Open, tokens.push(TokenModel::End)) == (
            Progress::Ended,
            tokens.filter_map(|token: TokenModel| row_outcome::<T>(token)),
        ),
{
    lemma_every_row_gives_its_outcome::<T>(tokens);
    assert(tokens.push(TokenModel::End).drop_last() =~= tokens);
}

/// A stream that breaks gives the outcomes of the `row` elements before the break, then one
/// failure for the break itself, and leaves the sequence over.
pub proof fn lemma_broken_stream_reports_once<T: FieldTable>(tokens: Seq<TokenModel>)
    requires
        is_unbroken(tokens),
    ensures
        run::<T>(Progress::Open, tokens.push(TokenModel::Failed)) == (
            Progress::Failed,
            tokens.filter_map(|token: TokenModel| row_outcome::<T>(token)).push(
                Err(ErrorKind::XmlParse),
            ),
        ),
{
    lemma_every_row_gives_its_outcome::<T>(tokens);
    assert(tokens.push(TokenModel::Failed).drop_last() =~= tokens);
}

} // verus!
