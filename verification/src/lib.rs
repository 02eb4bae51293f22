//! Looks a term up in a dictionary service and an encyclopedia service and
//! turns the two answers into one plain-text report.
//!
//! The library holds everything but the transport: it percent-encodes the
//! term ([`encode`]), says which requests to send and what their responses
//! amount to ([`aggregate`]), maps each response body to a uniform result
//! ([`dictionary`], [`encyclopedia`]), and renders the report ([`render`]).
//! Sending a request is left to the caller.
//!
//! Every function is verified against its contract, but for four whose
//! contracts are taken on trust because they call code that the verifier
//! does not read: two in [`text`], on `String::push` and `String::from_utf8`,
//! and two in [`json`], on `serde_json`. What `serde_json` makes of a body is
//! not described here but named, and the contracts of the mappers say what
//! follows from it.

pub mod aggregate;
pub mod dictionary;
pub mod encode;
pub mod encyclopedia;
pub mod error;
pub mod json;
pub mod render;
pub mod text;

pub use aggregate::{
    dictionary_result, encyclopedia_result, lookup, lookup_with, requests, Fetched, LookupOutcome,
    LookupResult, Request, Response, Term,
};
pub use dictionary::{
    dictionary_from_json, map_dictionary, DictionaryLookup, DictionarySense, NOT_FOUND,
};
pub use encode::{urldecoded, urlencoded};
pub use encyclopedia::{encyclopedia_from_json, map_encyclopedia, EncyclopediaLookup};
pub use error::{Failure, LookupError, ParseError, Source, TransportError};
pub use json::{parse_json, Json};
pub use render::{render, render_definitions, render_encyclopedia, report, Report};
