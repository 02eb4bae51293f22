//! The lookup of one term: which requests to send, and what their responses
//! amount to.
//!
//! The two services are asked independently. Sending a request is the
//! caller's part: the library names the requests, and takes for each either
//! the response or the transport's failure. Each source ends with a result or
//! with an error of its own; neither hides the other.

use crate::dictionary::{dictionary_outcome, map_dictionary, DictionaryLookup, DictionaryValue};
use crate::encode::{encode_chars, urlencoded};
use crate::encyclopedia::{encyclopedia_outcome, extract_view, map_encyclopedia, EncyclopediaLookup};
use crate::error::{Failure, FailureValue, LookupError, LookupErrorValue, Source, TransportError};
use crate::json::{parsed_document, JsonValue};
use vstd::prelude::*;
use vstd::string::*;

verus! {

/// The word or phrase to look up: a text that is not empty.
#[derive(Debug, PartialEq, Eq)]
pub struct Term {
    text: String,
}

impl View for Term {
    type V = Seq<char>;

    closed spec fn view(&self) -> Seq<char> {
        self.text@
    }
}

impl Term {
    #[verifier::type_invariant]
    spec fn not_empty(self) -> bool {
        self.text@.len() > 0
    }

    /// The term with the given text; `None` for an empty text.
    pub fn new(text: &str) -> (r: Option<Term>)
        ensures
            match r {
                Some(term) => term@ == text@ && text@.len() > 0,
                None => text@.len() == 0,
            },
    {
        if text.is_empty() {
            None
        } else {
            Some(Term { text: String::from_str(text) })
        }
    }

    /// The text of the term.
    pub fn as_str(&self) -> (r: &str)
        ensures
            r@ == self@,
            r@.len() > 0,
    {
        proof {
            use_type_invariant(self);
        }
        self.text.as_str()
    }
}

impl Clone for Term {
    fn clone(&self) -> (r: Term)
        ensures
            r@ == self@,
    {
        proof {
            use_type_invariant(self);
        }
        Term { text: self.text.clone() }
    }
}

/// A GET request to one of the two services.
#[derive(Clone, Debug, PartialEq, Eq)]
pub struct Request {
    pub source: Source,
    pub url: String,
    /// The value of the `User-Agent` header to send, if one is to be sent.
    pub user_agent: Option<String>,
}

/// The mathematical value of a [`Request`].
pub struct RequestValue {
    pub source: Source,
    pub url: Seq<char>,
    pub user_agent: Option<Seq<char>>,
}

impl View for Request {
    type V = RequestValue;

    open spec fn view(&self) -> RequestValue {
        RequestValue {
            source: self.source,
            url: self.url@,
            user_agent: match self.user_agent {
                Some(agent) => Some(agent@),
                None => None,
            },
        }
    }
}

/// The address of an entry of the dictionary, up to the term.
pub const DICTIONARY_ENTRY: &'static str = "https://api.dictionaryapi.dev/api/v2/entries/en/";

/// The request to the dictionary for a term whose percent-encoded form is
/// `encoded`: the term is the last segment of the path.
pub open spec fn dictionary_request(encoded: Seq<char>) -> RequestValue {
    RequestValue {
        source: Source::Dictionary,
        url: DICTIONARY_ENTRY@ + encoded,
        user_agent: None,
    }
}

/// The address of a query to the encyclopedia for the plain-text
/// introduction of a page, up to the title.
pub const ENCYCLOPEDIA_QUERY: &'static str =
    "https://en.wikipedia.org/w/api.php?action=query&prop=extracts&exintro&explaintext&redirects&titles=";

/// What follows the title in a query to the encyclopedia.
pub const ENCYCLOPEDIA_FORMAT: &'static str = "&format=json";

/// The name under which the client makes itself known to the encyclopedia.
pub const USER_AGENT: &'static str = "lookup-cli/0.1 (https://github.com/example/lookup)";

/// The request to the encyclopedia for a term whose percent-encoded form is
/// `encoded`: the term is the value of `titles` in the query, and the client
/// names itself.
pub open spec fn encyclopedia_request(encoded: Seq<char>) -> RequestValue {
    RequestValue {
        source: Source::Encyclopedia,
        url: ENCYCLOPEDIA_QUERY@ + encoded + ENCYCLOPEDIA_FORMAT@,
        user_agent: Some(USER_AGENT@),
    }
}

/// The two requests of a lookup, the dictionary's first. The term is encoded
/// once, and both requests carry that form.
pub fn requests(term: &Term) -> (r: (Request, Request))
    ensures
        r.0@ == dictionary_request(encode_chars(term@)),
        r.1@ == encyclopedia_request(encode_chars(term@)),
{
    let encoded = urlencoded(term.as_str());
    let mut dictionary_url = String::from_str(DICTIONARY_ENTRY);
    dictionary_url.append(encoded.as_str());
    let mut encyclopedia_url = String::from_str(ENCYCLOPEDIA_QUERY);
    encyclopedia_url.append(encoded.as_str());
    encyclopedia_url.append(ENCYCLOPEDIA_FORMAT);
    (
        Request { source: Source::Dictionary, url: dictionary_url, user_agent: None },
        Request {
            source: Source::Encyclopedia,
            url: encyclopedia_url,
            user_agent: Some(String::from_str(USER_AGENT)),
        },
    )
}

/// What a service answered: the status and the body, as they came.
#[derive(Clone, Debug, PartialEq, Eq)]
pub struct Response {
    pub status: u16,
    pub body: Vec<u8>,
}

/// What became of one request: the response, or the transport's failure.
pub type Fetched = Result<Response, TransportError>;

/// How the dictionary's part of a lookup ends, where `parsed` is what the
/// body of a response parses to.
///
/// A transport failure and a parse error both end it with an error that
/// names the dictionary. A response that says that the term is unknown ends
/// it with a result.
pub open spec fn dictionary_result_of(fetched: Fetched, parsed: Option<JsonValue>) -> Result<
    DictionaryValue,
    LookupErrorValue,
> {
    match fetched {
        Err(e) => Err(
            LookupErrorValue { source: Source::Dictionary, failure: FailureValue::Transport(e@) },
        ),
        Ok(response) => match dictionary_outcome(response.status, parsed) {
            Ok(found) => Ok(found),
            Err(e) => Err(
                LookupErrorValue { source: Source::Dictionary, failure: FailureValue::Parse(e) },
            ),
        },
    }
}

/// How the encyclopedia's part of a lookup ends, where `parsed` is what the
/// body of a response parses to. The status of the response plays no part.
pub open spec fn encyclopedia_result_of(fetched: Fetched, parsed: Option<JsonValue>) -> Result<
    Option<Seq<char>>,
    LookupErrorValue,
> {
    match fetched {
        Err(e) => Err(
            LookupErrorValue { source: Source::Encyclopedia, failure: FailureValue::Transport(e@) },
        ),
        Ok(response) => match encyclopedia_outcome(parsed) {
            Ok(extract) => Ok(extract),
            Err(e) => Err(
                LookupErrorValue { source: Source::Encyclopedia, failure: FailureValue::Parse(e) },
            ),
        },
    }
}

/// What the body of a response parses to; `None` where there is no response.
pub open spec fn parsed_body(fetched: Fetched) -> Option<JsonValue> {
    match fetched {
        Ok(response) => parsed_document(response.body@),
        Err(_) => None,
    }
}

/// The value of the dictionary's part of an outcome.
pub open spec fn dictionary_result_view(r: Result<DictionaryLookup, LookupError>) -> Result<
    DictionaryValue,
    LookupErrorValue,
> {
    match r {
        Ok(found) => Ok(found@),
        Err(e) => Err(e@),
    }
}

/// The value of the encyclopedia's part of an outcome.
pub open spec fn encyclopedia_result_view(r: Result<EncyclopediaLookup, LookupError>) -> Result<
    Option<Seq<char>>,
    LookupErrorValue,
> {
    match r {
        Ok(extract) => Ok(extract_view(extract)),
        Err(e) => Err(e@),
    }
}

/// Maps what became of the request to the dictionary to the dictionary's
/// part of the outcome.
pub fn dictionary_result(fetched: Fetched) -> (r: Result<DictionaryLookup, LookupError>)
    ensures
        dictionary_result_view(r) == dictionary_result_of(fetched, parsed_body(fetched)),
{
    match fetched {
        Err(e) => Err(LookupError { source: Source::Dictionary, failure: Failure::Transport(e) }),
        Ok(response) => match map_dictionary(response.status, response.body.as_slice()) {
            Ok(found) => Ok(found),
            Err(e) => Err(LookupError { source: Source::Dictionary, failure: Failure::Parse(e) }),
        },
    }
}

/// Maps what became of the request to the encyclopedia to the
/// encyclopedia's part of the outcome.
pub fn encyclopedia_result(fetched: Fetched) -> (r: Result<EncyclopediaLookup, LookupError>)
    ensures
        encyclopedia_result_view(r) == encyclopedia_result_of(fetched, parsed_body(fetched)),
{
    match fetched {
        Err(e) => Err(LookupError { source: Source::Encyclopedia, failure: Failure::Transport(e) }),
        Ok(response) => match map_encyclopedia(response.body.as_slice()) {
            Ok(extract) => Ok(extract),
            Err(e) => Err(LookupError { source: Source::Encyclopedia, failure: Failure::Parse(e) }),
        },
    }
}

/// What both sources say of a term.
#[derive(Clone, Debug, PartialEq, Eq)]
pub struct LookupResult {
    pub dictionary: DictionaryLookup,
    pub encyclopedia: EncyclopediaLookup,
}

/// The mathematical value of a [`LookupResult`].
pub struct LookupValue {
    pub dictionary: DictionaryValue,
    pub encyclopedia: Option<Seq<char>>,
}

impl View for LookupResult {
    type V = LookupValue;

    open spec fn view(&self) -> LookupValue {
        LookupValue { dictionary: self.dictionary@, encyclopedia: extract_view(self.encyclopedia) }
    }
}

/// How a lookup ended: for each source, its result or its error.
#[derive(Debug, PartialEq, Eq)]
pub struct LookupOutcome {
    pub dictionary: Result<DictionaryLookup, LookupError>,
    pub encyclopedia: Result<EncyclopediaLookup, LookupError>,
}

/// The mathematical value of a [`LookupOutcome`].
pub struct OutcomeValue {
    pub dictionary: Result<DictionaryValue, LookupErrorValue>,
    pub encyclopedia: Result<Option<Seq<char>>, LookupErrorValue>,
}

impl View for LookupOutcome {
    type V = OutcomeValue;

    open spec fn view(&self) -> OutcomeValue {
        OutcomeValue {
            dictionary: dictionary_result_view(self.dictionary),
            encyclopedia: encyclopedia_result_view(self.encyclopedia),
        }
    }
}

impl OutcomeValue {
    /// Whether both sources ended with a result.
    pub open spec fn succeeded(self) -> bool {
        self.dictionary is Ok && self.encyclopedia is Ok
    }

    /// The outcome as one result: both results where both sources ended with
    /// one, and otherwise the error of the first source that failed, the
    /// dictionary before the encyclopedia.
    pub open spec fn combined(self) -> Result<LookupValue, LookupErrorValue> {
        match (self.dictionary, self.encyclopedia) {
            (Ok(dictionary), Ok(encyclopedia)) => Ok(LookupValue { dictionary, encyclopedia }),
            (Err(e), _) => Err(e),
            (Ok(_), Err(e)) => Err(e),
        }
    }

    /// The exit code of a program that reports the outcome: zero where both
    /// sources ended with a result, one otherwise.
    pub open spec fn exit_code(self) -> u8 {
        if self.succeeded() {
            0
        } else {
            1
        }
    }
}

/// Maps what became of the two requests of a lookup to its outcome. Each
/// source ends by itself: the error of one does not depend on the other.
pub fn lookup(dictionary: Fetched, encyclopedia: Fetched) -> (r: LookupOutcome)
    ensures
        r@.dictionary == dictionary_result_of(dictionary, parsed_body(dictionary)),
        r@.encyclopedia == encyclopedia_result_of(encyclopedia, parsed_body(encyclopedia)),
{
    LookupOutcome {
        dictionary: dictionary_result(dictionary),
        encyclopedia: encyclopedia_result(encyclopedia),
    }
}

/// Looks `term` up with the given sources: sends each source its request,
/// the dictionary first, and maps what comes back to the outcome.
///
/// A source is whatever sends one request and hands back the response or
/// the transport's failure. Each source is asked once, with the request that
/// [`requests`] names for it, so both requests carry the same encoded term.
/// Whatever one source hands back leaves the other's part untouched.
pub fn lookup_with<D, E>(term: &Term, dictionary_source: D, encyclopedia_source: E) -> (r:
    LookupOutcome)
    where
        D: FnOnce(&Request) -> Fetched,
        E: FnOnce(&Request) -> Fetched,
    requires
        forall|request: &Request|
            request@ == dictionary_request(encode_chars(term@)) ==> dictionary_source.requires(
                (request,),
            ),
        forall|request: &Request|
            request@ == encyclopedia_request(encode_chars(term@)) ==> encyclopedia_source.requires(
                (request,),
            ),
    ensures
        exists|to_dictionary: &Request, dictionary: Fetched|
            {
                &&& to_dictionary@ == dictionary_request(encode_chars(term@))
                &&& dictionary_source.ensures((to_dictionary,), dictionary)
                &&& r@.dictionary == dictionary_result_of(dictionary, parsed_body(dictionary))
            },
        exists|to_encyclopedia: &Request, encyclopedia: Fetched|
            {
                &&& to_encyclopedia@ == encyclopedia_request(encode_chars(term@))
                &&& encyclopedia_source.ensures((to_encyclopedia,), encyclopedia)
                &&& r@.encyclopedia == encyclopedia_result_of(
                    encyclopedia,
                    parsed_body(encyclopedia),
                )
            },
{
    let (to_dictionary, to_encyclopedia) = requests(term);
    let dictionary = dictionary_source(&to_dictionary);
    let encyclopedia = encyclopedia_source(&to_encyclopedia);
    lookup(dictionary, encyclopedia)
}

impl LookupOutcome {
    /// Whether both sources ended with a result.
    pub fn succeeded(&self) -> (r: bool)
        ensures
            r == self@.succeeded(),
    {
        self.dictionary.is_ok() && self.encyclopedia.is_ok()
    }

    /// The exit code of a program that reports the outcome.
    pub fn exit_code(&self) -> (r: u8)
        ensures
            r == self@.exit_code(),
            r == 0 <==> self@.succeeded(),
    {
        if self.succeeded() {
            0
        } else {
            1
        }
    }

    /// The outcome as one result: both results, or the error of the first
    /// source that failed.
    pub fn into_result(self) -> (r: Result<LookupResult, LookupError>)
        ensures
            match r {
                Ok(result) => self@.combined() == Ok::<LookupValue, LookupErrorValue>(result@),
                Err(e) => self@.combined() == Err::<LookupValue, LookupErrorValue>(e@),
            },
    {
        match self.dictionary {
            Err(e) => Err(e),
            Ok(dictionary) => match self.encyclopedia {
                Err(e) => Err(e),
                Ok(encyclopedia) => Ok(LookupResult { dictionary, encyclopedia }),
            },
        }
    }
}

} // verus!
