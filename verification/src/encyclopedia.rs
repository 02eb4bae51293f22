//! Maps an answer of the encyclopedia service to at most one summary.
//!
//! The service answers with an object whose member `query` holds an object
//! `pages`, keyed by page identifier. Each page may hold a string `extract`.
//! The summary is the extract of the first page, in the order in which the
//! pages are traversed, that has one which is not empty.

use crate::error::ParseError;
use crate::json::{parse_json, parsed_document, Json, JsonValue};
use vstd::prelude::*;

verus! {

/// The summary of a term: its text, or nothing where the encyclopedia has
/// no page for the term or the page has no text.
pub type EncyclopediaLookup = Option<String>;

/// The extract that a page offers: its member `extract`, if that is a string
/// and not empty.
pub open spec fn page_extract(page: JsonValue) -> Option<Seq<char>> {
    match page.member("extract"@) {
        Some(JsonValue::Text(text)) => if text.len() > 0 {
            Some(text)
        } else {
            None
        },
        _ => None,
    }
}

/// The extract of the first of `pages` that offers one.
pub open spec fn first_extract(pages: Seq<(Seq<char>, JsonValue)>) -> Option<Seq<char>>
    decreases pages.len(),
{
    if pages.len() == 0 {
        None
    } else {
        match page_extract(pages[0].1) {
            Some(text) => Some(text),
            None => first_extract(pages.drop_first()),
        }
    }
}

/// What a parsed answer maps to.
///
/// An answer without `query`, or whose `query` is without `pages`, has no
/// summary. A `query` or `pages` that is there but is no object is an error.
pub open spec fn document_extract(doc: JsonValue) -> Result<Option<Seq<char>>, ParseError> {
    match doc.member("query"@) {
        None => Ok(None),
        Some(JsonValue::Object(query)) => match JsonValue::Object(query).member("pages"@) {
            None => Ok(None),
            Some(JsonValue::Object(pages)) => Ok(first_extract(pages)),
            Some(_) => Err(ParseError::UnexpectedShape),
        },
        Some(_) => Err(ParseError::UnexpectedShape),
    }
}

/// What an answer maps to, where `parsed` is its body as a JSON document, or
/// `None` if the body is no JSON document.
pub open spec fn encyclopedia_outcome(parsed: Option<JsonValue>) -> Result<
    Option<Seq<char>>,
    ParseError,
> {
    match parsed {
        None => Err(ParseError::InvalidJson),
        Some(doc) => document_extract(doc),
    }
}

/// The value of a summary.
pub open spec fn extract_view(extract: EncyclopediaLookup) -> Option<Seq<char>> {
    match extract {
        Some(text) => Some(text@),
        None => None,
    }
}

/// The first hit wins: where page `i` offers an extract and no page before
/// it does, the extract is that of page `i`, whatever the pages after it
/// hold.
pub proof fn lemma_first_extract_found(pages: Seq<(Seq<char>, JsonValue)>, i: int)
    requires
        0 <= i < pages.len(),
        page_extract(pages[i].1) is Some,
        forall|j: int| 0 <= j < i ==> page_extract(#[trigger] pages[j].1) is None,
    ensures
        first_extract(pages) == page_extract(pages[i].1),
    decreases i,
{
    if i > 0 {
        let rest = pages.drop_first();
        assert forall|j: int| 0 <= j < i - 1 implies page_extract(#[trigger] rest[j].1) is None by {
            assert(rest[j] == pages[j + 1]);
        }
        lemma_first_extract_found(rest, i - 1);
    }
}

/// Where no page offers an extract, there is none.
pub proof fn lemma_first_extract_none(pages: Seq<(Seq<char>, JsonValue)>)
    requires
        forall|j: int| 0 <= j < pages.len() ==> page_extract(#[trigger] pages[j].1) is None,
    ensures
        first_extract(pages) is None,
    decreases pages.len(),
{
    if pages.len() > 0 {
        let rest = pages.drop_first();
        assert forall|j: int| 0 <= j < rest.len() implies page_extract(#[trigger] rest[j].1) is None by {
            assert(rest[j] == pages[j + 1]);
        }
        lemma_first_extract_none(rest);
    }
}

fn extract_of_page(page: &Json) -> (r: Option<&String>)
    ensures
        match r {
            Some(text) => page_extract(page@) == Some(text@),
            None => page_extract(page@) is None,
        },
{
    match page.member("extract") {
        Some(Json::Text(text)) => {
            if text.as_str().is_empty() {
                None
            } else {
                Some(text)
            }
        },
        _ => None,
    }
}

/// Maps a parsed answer of the encyclopedia service to its summary.
///
/// Fails with [`ParseError::UnexpectedShape`] exactly where `query`, or
/// `pages` in it, is there but is no object.
pub fn encyclopedia_from_json(doc: &Json) -> (r: Result<EncyclopediaLookup, ParseError>)
    ensures
        match r {
            Ok(extract) => document_extract(doc@) == Ok::<Option<Seq<char>>, ParseError>(
                extract_view(extract),
            ),
            Err(e) => document_extract(doc@) == Err::<Option<Seq<char>>, ParseError>(e),
        },
{
    let query = match doc.member("query") {
        None => {
            return Ok(None);
        },
        Some(query) => query,
    };
    let pages = match query {
        Json::Object(_) => match query.member("pages") {
            None => {
                return Ok(None);
            },
            Some(Json::Object(pages)) => pages,
            Some(_) => {
                return Err(ParseError::UnexpectedShape);
            },
        },
        _ => {
            return Err(ParseError::UnexpectedShape);
        },
    };
    let ghost all = Json::Object(*pages)@.members();
    let mut i: usize = 0;
    assert(all.skip(0) == all);
    while i < pages.len()
        invariant
            i <= pages.len(),
            all.len() == pages.len(),
            forall|j: int| 0 <= j < pages.len() ==> (#[trigger] all[j]).1 == pages[j].1@,
            document_extract(doc@) == Ok::<Option<Seq<char>>, ParseError>(first_extract(all)),
            first_extract(all) == first_extract(all.skip(i as int)),
        decreases pages.len() - i,
    {
        assert(all.skip(i as int).drop_first() == all.skip(i as int + 1));
        match extract_of_page(&pages[i].1) {
            Some(text) => {
                return Ok(Some(text.clone()));
            },
            None => {},
        }
        i += 1;
    }
    Ok(None)
}

/// Maps an answer of the encyclopedia service to its summary.
///
/// The body must hold a JSON document. Whatever it lacks leaves the summary
/// absent; only a `query` or `pages` of the wrong kind is an error.
pub fn map_encyclopedia(body: &[u8]) -> (r: Result<EncyclopediaLookup, ParseError>)
    ensures
        match r {
            Ok(extract) => encyclopedia_outcome(parsed_document(body@)) == Ok::<
                Option<Seq<char>>,
                ParseError,
            >(extract_view(extract)),
            Err(e) => encyclopedia_outcome(parsed_document(body@)) == Err::<
                Option<Seq<char>>,
                ParseError,
            >(e),
        },
{
    match parse_json(body) {
        Ok(doc) => encyclopedia_from_json(&doc),
        Err(e) => Err(e),
    }
}

} // verus!
