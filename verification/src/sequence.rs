//! The lazy sequence of records: what to do with each token that the tokenizer hands over.
//!
//! The caller owns the tokenizer and the file behind it. It pulls one token, hands it to
//! [`XmlModelIterator::next`], and does what the answer says: take the outcome, pull again, or
//! stop. Only one element is ever held at a time.

use crate::element::{
    element_attributes, element_name, has_row_name, is_sound, name_lies_within, AttributeModel, ROW,
};
use crate::errors::{ErrorKind, XmlError};
use crate::model::{attr, decoded_element, FieldTable, XmlModel};
use core::marker::PhantomData;
use quick_xml::events::BytesStart;
use vstd::prelude::*;

verus! {

/// What one pull of the tokenizer gave.
pub enum Token<'a> {
    /// The tokenizer met malformed XML, or could not read on.
    Failed(quick_xml::Error),
    /// The end of the stream.
    End,
    /// A self-closing element.
    Empty(BytesStart<'a>),
    /// Anything else: an opening or closing tag, text, a comment, a declaration.
    Other,
}

/// A token by what the sequence reads from it.
pub ghost enum TokenModel {
    Failed,
    End,
    Empty { name: Seq<u8>, attributes: Option<Seq<AttributeModel>> },
    Other,
}

impl<'a> View for Token<'a> {
    type V = TokenModel;

    open spec fn view(&self) -> TokenModel {
        match self {
            Token::Failed(_) => TokenModel::Failed,
            Token::End => TokenModel::End,
            Token::Empty(element) => TokenModel::Empty {
                name: element_name(*element),
                attributes: element_attributes(*element),
            },
            Token::Other => TokenModel::Other,
        }
    }
}

impl<'a> Token<'a> {
    /// The element of the token, if it has one, is sound.
    pub open spec fn is_sound(&self) -> bool {
        match self {
            Token::Empty(element) => is_sound(*element),
            _ => true,
        }
    }
}

/// How far a sequence has come.
#[derive(Clone, Copy, Debug, PartialEq, Eq, Structural)]
pub enum Progress {
    /// More tokens are wanted.
    Open,
    /// The stream ended; nothing more will come.
    Ended,
    /// The stream broke; the failure was reported and nothing more will come.
    Failed,
}

/// The answer to one token.
#[derive(Debug)]
pub enum Pull<T> {
    /// The next outcome of the sequence: a record, or the failure of one element or of the
    /// stream.
    Item(Result<T, XmlError>),
    /// The token carries no record; pull the next one.
    Skipped,
    /// The sequence is over.
    Exhausted,
}

/// An answer by its views.
pub ghost enum PullModel<V> {
    Item(Result<V, ErrorKind>),
    Skipped,
    Exhausted,
}

impl<T: View> View for Pull<T> {
    type V = PullModel<T::V>;

    open spec fn view(&self) -> PullModel<T::V> {
        match self {
            Pull::Item(Ok(rec)) => PullModel::Item(Ok(rec@)),
            Pull::Item(Err(e)) => PullModel::Item(Err(e@)),
            Pull::Skipped => PullModel::Skipped,
            Pull::Exhausted => PullModel::Exhausted,
        }
    }
}

/// Whether a token is a self-closing element named `row`.
pub open spec fn is_row_token(token: TokenModel) -> bool {
    token matches TokenModel::Empty { name, .. } && name == attr(ROW)
}

/// The rule of the sequence: where it stands after `token`, and what it answers.
///
/// A sequence that is over answers `Exhausted` whatever comes. An open one ends on the end of
/// the stream, reports a broken stream once and is then over, decodes every `row` element
/// into one outcome, and skips everything else.
pub open spec fn step<T: FieldTable>(progress: Progress, token: TokenModel) -> (
    Progress,
    PullModel<T::V>,
) {
    if progress != Progress::Open {
        (progress, PullModel::Exhausted)
    } else {
        match token {
            TokenModel::Failed => (Progress::Failed, PullModel::Item(Err(ErrorKind::XmlParse))),
            TokenModel::End => (Progress::Ended, PullModel::Exhausted),
            TokenModel::Empty { name, attributes } => if name == attr(ROW) {
                (Progress::Open, PullModel::Item(decoded_element::<T>(attributes)))
            } else {
                (Progress::Open, PullModel::Skipped)
            },
            TokenModel::Other => (Progress::Open, PullModel::Skipped),
        }
    }
}

/// Where a sequence stands after a run of tokens, and the outcomes that it gave on the way, in
/// their order.
pub open spec fn run<T: FieldTable>(start: Progress, tokens: Seq<TokenModel>) -> (
    Progress,
    Seq<Result<T::V, ErrorKind>>,
)
    decreases tokens.len(),
{
    if tokens.len() == 0 {
        (start, Seq::empty())
    } else {
        let (progress, outcomes) = run::<T>(start, tokens.drop_last());
        let (after, pull) = step::<T>(progress, tokens.last());
        match pull {
            PullModel::Item(outcome) => (after, outcomes.push(outcome)),
            _ => (after, outcomes),
        }
    }
}

/// The state of one lazy sequence of records of type `T`. It is forward-only: once over, it
/// stays over.
pub struct XmlModelIterator<T> {
    progress: Progress,
    record: PhantomData<T>,
}

impl<T: XmlModel> XmlModelIterator<T> {
    /// How far the sequence has come.
    pub closed spec fn progress(&self) -> Progress {
        self.progress
    }

    /// A sequence at the start of its stream.
    pub fn new() -> (sequence: Self)
        ensures
            sequence.progress() == Progress::Open,
    {
        XmlModelIterator { progress: Progress::Open, record: PhantomData }
    }

    /// Whether the sequence is over, by the end of the stream or by its failure.
    pub fn is_exhausted(&self) -> (over: bool)
        ensures
            over == (self.progress() != Progress::Open),
    {
        match self.progress {
            Progress::Open => false,
            _ => true,
        }
    }

    /// Whether the sequence is over because the stream broke.
    pub fn has_failed(&self) -> (failed: bool)
        ensures
            failed == (self.progress() == Progress::Failed),
    {
        match self.progress {
            Progress::Failed => true,
            _ => false,
        }
    }

    /// Takes the token that the tokenizer gave and answers with the next outcome, with a
    /// request for the next token, or with the end of the sequence.
    pub fn next(&mut self, token: Token<'_>) -> (pull: Pull<T>)
        requires
            token.is_sound(),
        ensures
            (final(self).progress(), pull@) == step::<T>(old(self).progress(), token@),
            pull matches Pull::Item(Ok(rec)) ==> T::well_formed(rec@),
    {
        if self.is_exhausted() {
            return Pull::Exhausted;
        }
        match token {
            Token::Failed(cause) => {
                self.progress = Progress::Failed;
                Pull::Item(Err(XmlError::XmlParse(cause)))
            },
            Token::End => {
                self.progress = Progress::Ended;
                Pull::Exhausted
            },
            Token::Empty(element) => {
                if has_row_name(&element) {
                    Pull::Item(T::from_xml_element(&element))
                } else {
                    Pull::Skipped
                }
            },
            Token::Other => Pull::Skipped,
        }
    }

    /// Takes a token of any making: answers as [`XmlModelIterator::next`] does where the
    /// token is sound, and otherwise answers `None` and stays as it was.
    pub fn try_next(&mut self, token: Token<'_>) -> (answer: Option<Pull<T>>)
        ensures
            answer is Some <==> token.is_sound(),
            match answer {
                Some(pull) => (final(self).progress(), pull@) == step::<T>(
                    old(self).progress(),
                    token@,
                ) && (pull matches Pull::Item(Ok(rec)) ==> T::well_formed(rec@)),
                None => final(self).progress() == old(self).progress(),
            },
    {
        let sound = match &token {
            Token::Empty(element) => name_lies_within(element),
            _ => true,
        };
        if sound {
            Some(self.next(token))
        } else {
            None
        }
    }
}

} // verus!
