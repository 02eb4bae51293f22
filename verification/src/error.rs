//! The ways in which a lookup can fail.

use vstd::prelude::*;
use vstd::string::*;

verus! {

/// One of the two services that a lookup asks.
#[derive(Clone, Copy, Debug, PartialEq, Eq, Structural)]
pub enum Source {
    Dictionary,
    Encyclopedia,
}

/// Why a response body could not be mapped to a result.
#[derive(Clone, Copy, Debug, PartialEq, Eq, Structural)]
pub enum ParseError {
    /// The body is not a JSON document.
    InvalidJson,
    /// The body is a JSON document, but not of the shape that the service
    /// is known to answer with.
    UnexpectedShape,
}

/// A request that got no response: the connection, the name lookup or the
/// exchange failed. The message is the transport's own.
#[derive(Clone, Debug, PartialEq, Eq)]
pub struct TransportError {
    pub message: String,
}

impl View for TransportError {
    type V = Seq<char>;

    open spec fn view(&self) -> Seq<char> {
        self.message@
    }
}

/// What went wrong with one source.
#[derive(Clone, Debug, PartialEq, Eq)]
pub enum Failure {
    Transport(TransportError),
    Parse(ParseError),
}

/// The mathematical value of a [`Failure`].
pub enum FailureValue {
    Transport(Seq<char>),
    Parse(ParseError),
}

impl View for Failure {
    type V = FailureValue;

    open spec fn view(&self) -> FailureValue {
        match self {
            Failure::Transport(e) => FailureValue::Transport(e@),
            Failure::Parse(e) => FailureValue::Parse(*e),
        }
    }
}

/// A failure together with the source that it came from.
#[derive(Clone, Debug, PartialEq, Eq)]
pub struct LookupError {
    pub source: Source,
    pub failure: Failure,
}

/// The mathematical value of a [`LookupError`].
pub struct LookupErrorValue {
    pub source: Source,
    pub failure: FailureValue,
}

impl View for LookupError {
    type V = LookupErrorValue;

    open spec fn view(&self) -> LookupErrorValue {
        LookupErrorValue { source: self.source, failure: self.failure@ }
    }
}

/// The words for a body that is not a JSON document.
pub const INVALID_JSON: &'static str = "response body is not valid JSON";

/// The words for a document of another shape than the service's.
pub const UNEXPECTED_SHAPE: &'static str = "response body does not have the expected shape";

/// The words with which the report of an error of the dictionary begins.
pub const DICTIONARY_ERROR: &'static str = "Error fetching dictionary: ";

/// The words with which the report of an error of the encyclopedia begins.
pub const ENCYCLOPEDIA_ERROR: &'static str = "Error fetching Wikipedia: ";

/// The words that describe a parse error.
pub open spec fn parse_error_text(e: ParseError) -> Seq<char> {
    match e {
        ParseError::InvalidJson => INVALID_JSON@,
        ParseError::UnexpectedShape => UNEXPECTED_SHAPE@,
    }
}

/// The words that describe a failure: the transport's message, or the
/// description of the parse error.
pub open spec fn failure_text(failure: FailureValue) -> Seq<char> {
    match failure {
        FailureValue::Transport(message) => message,
        FailureValue::Parse(e) => parse_error_text(e),
    }
}

/// The words with which the report of an error from `source` begins.
pub open spec fn error_prefix(source: Source) -> Seq<char> {
    match source {
        Source::Dictionary => DICTIONARY_ERROR@,
        Source::Encyclopedia => ENCYCLOPEDIA_ERROR@,
    }
}

/// The line that reports an error, without its line end.
pub open spec fn error_text(e: LookupErrorValue) -> Seq<char> {
    error_prefix(e.source) + failure_text(e.failure)
}

impl ParseError {
    /// A description of the error.
    pub fn message(&self) -> (r: String)
        ensures
            r@ == parse_error_text(*self),
    {
        match self {
            ParseError::InvalidJson => String::from_str(INVALID_JSON),
            ParseError::UnexpectedShape => String::from_str(UNEXPECTED_SHAPE),
        }
    }
}

impl LookupError {
    /// The line that reports the error, without its line end.
    pub fn message(&self) -> (r: String)
        ensures
            r@ == error_text(self@),
    {
        let mut out = match self.source {
            Source::Dictionary => String::from_str(DICTIONARY_ERROR),
            Source::Encyclopedia => String::from_str(ENCYCLOPEDIA_ERROR),
        };
        match &self.failure {
            Failure::Transport(e) => {
                out.append(e.message.as_str());
            },
            Failure::Parse(e) => {
                let text = e.message();
                out.append(text.as_str());
            },
        }
        out
    }
}

} // verus!
