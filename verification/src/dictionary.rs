//! Maps an answer of the dictionary service to a list of senses.
//!
//! The service answers with an array of entries. Each entry holds an array
//! `meanings`; each meaning holds a string `partOfSpeech` and an array
//! `definitions`; each definition holds a string `definition`. Members beyond
//! these are ignored. The senses are the definitions in document order, each
//! with the part of speech of its meaning.

use crate::error::ParseError;
use crate::json::{parse_json, parsed_document, Json, JsonValue};
use vstd::prelude::*;

verus! {

/// One definition of a term, with the part of speech it belongs to.
#[derive(Clone, Debug, PartialEq, Eq)]
pub struct DictionarySense {
    pub part_of_speech: String,
    pub definition_text: String,
}

/// The mathematical value of a [`DictionarySense`].
pub struct Sense {
    pub part_of_speech: Seq<char>,
    pub definition_text: Seq<char>,
}

impl View for DictionarySense {
    type V = Sense;

    open spec fn view(&self) -> Sense {
        Sense { part_of_speech: self.part_of_speech@, definition_text: self.definition_text@ }
    }
}

/// The values of a list of senses, in order.
pub open spec fn senses_view(senses: Seq<DictionarySense>) -> Seq<Sense> {
    senses.map_values(|s: DictionarySense| s@)
}

/// What the dictionary knows of a term.
///
/// A term that the service does not know and a term that it knows without
/// any definition both have no senses, but are told apart.
#[derive(Clone, Debug, PartialEq, Eq)]
pub enum DictionaryLookup {
    /// The service does not know the term.
    NotFound,
    /// The service knows the term, with these senses.
    Found(Vec<DictionarySense>),
}

/// The mathematical value of a [`DictionaryLookup`].
pub enum DictionaryValue {
    NotFound,
    Found(Seq<Sense>),
}

impl DictionaryValue {
    /// The senses, in order; none for a term that was not found.
    pub open spec fn senses(self) -> Seq<Sense> {
        match self {
            DictionaryValue::NotFound => Seq::empty(),
            DictionaryValue::Found(senses) => senses,
        }
    }
}

impl View for DictionaryLookup {
    type V = DictionaryValue;

    open spec fn view(&self) -> DictionaryValue {
        match self {
            DictionaryLookup::NotFound => DictionaryValue::NotFound,
            DictionaryLookup::Found(senses) => DictionaryValue::Found(senses_view(senses@)),
        }
    }
}

/// The HTTP status with which the service says that it does not know a term.
pub const NOT_FOUND: u16 = 404;

/// The senses of all `items`, in order, where `senses_of` gives the senses of
/// one item; `None` as soon as one item has none to give.
pub open spec fn gather(
    items: Seq<JsonValue>,
    senses_of: spec_fn(JsonValue) -> Option<Seq<Sense>>,
) -> Option<Seq<Sense>>
    decreases items.len(),
{
    if items.len() == 0 {
        Some(Seq::empty())
    } else {
        match (gather(items.drop_last(), senses_of), senses_of(items.last())) {
            (Some(before), Some(last)) => Some(before + last),
            _ => None,
        }
    }
}

/// The sense that a definition gives under the part of speech `part`: its
/// member `definition`, which must be a string.
pub open spec fn definition_senses(part: Seq<char>, definition: JsonValue) -> Option<Seq<Sense>> {
    match definition.member("definition"@) {
        Some(JsonValue::Text(text)) => Some(
            seq![Sense { part_of_speech: part, definition_text: text }],
        ),
        _ => None,
    }
}

/// The senses of a meaning: those of its `definitions`, which must be an
/// array, under its `partOfSpeech`, which must be a string.
pub open spec fn meaning_senses(meaning: JsonValue) -> Option<Seq<Sense>> {
    match (meaning.member("partOfSpeech"@), meaning.member("definitions"@)) {
        (Some(JsonValue::Text(part)), Some(JsonValue::Array(definitions))) => gather(
            definitions,
            |definition: JsonValue| definition_senses(part, definition),
        ),
        _ => None,
    }
}

/// The senses of an entry: those of its `meanings`, which must be an array.
pub open spec fn entry_senses(entry: JsonValue) -> Option<Seq<Sense>> {
    match entry.member("meanings"@) {
        Some(JsonValue::Array(meanings)) => gather(
            meanings,
            |meaning: JsonValue| meaning_senses(meaning),
        ),
        _ => None,
    }
}

/// The senses of a whole answer, which must be an array of entries. `None`
/// where any part of the answer is not of the shape described above.
pub open spec fn document_senses(doc: JsonValue) -> Option<Seq<Sense>> {
    match doc {
        JsonValue::Array(entries) => gather(entries, |entry: JsonValue| entry_senses(entry)),
        _ => None,
    }
}

/// What an answer with the given status maps to, where `parsed` is its body
/// as a JSON document, or `None` if the body is no JSON document.
pub open spec fn dictionary_outcome(status: u16, parsed: Option<JsonValue>) -> Result<
    DictionaryValue,
    ParseError,
> {
    if status == NOT_FOUND {
        Ok(DictionaryValue::NotFound)
    } else {
        match parsed {
            None => Err(ParseError::InvalidJson),
            Some(doc) => match document_senses(doc) {
                Some(senses) => Ok(DictionaryValue::Found(senses)),
                None => Err(ParseError::UnexpectedShape),
            },
        }
    }
}

/// A list has senses exactly where each of its items has: one item without
/// leaves the whole list without.
pub proof fn lemma_gather_defined(
    items: Seq<JsonValue>,
    senses_of: spec_fn(JsonValue) -> Option<Seq<Sense>>,
)
    ensures
        gather(items, senses_of) is Some <==> forall|i: int|
            0 <= i < items.len() ==> (#[trigger] senses_of(items[i])) is Some,
    decreases items.len(),
{
    if items.len() > 0 {
        let front = items.drop_last();
        lemma_gather_defined(front, senses_of);
        if gather(items, senses_of) is Some {
            assert forall|i: int| 0 <= i < items.len() implies (#[trigger] senses_of(
                items[i],
            )) is Some by {
                if i < front.len() {
                    assert(front[i] == items[i]);
                }
            }
        }
    }
}

/// The senses of the first `i + 1` items are those of the first `i`
/// followed by those of item `i`.
proof fn lemma_gather_step(
    items: Seq<JsonValue>,
    senses_of: spec_fn(JsonValue) -> Option<Seq<Sense>>,
    i: int,
)
    requires
        0 <= i < items.len(),
    ensures
        gather(items.take(i + 1), senses_of) == match (
            gather(items.take(i), senses_of),
            senses_of(items[i]),
        ) {
            (Some(before), Some(last)) => Some(before + last),
            _ => None,
        },
{
    assert(items.take(i + 1).drop_last() == items.take(i));
}

/// Adds the senses in `more` to `senses`, keeping the order.
fn append_senses(senses: &mut Vec<DictionarySense>, more: Vec<DictionarySense>)
    ensures
        senses_view(final(senses)@) == senses_view(old(senses)@) + senses_view(more@),
{
    let mut more = more;
    senses.append(&mut more);
}

fn senses_of_definition(part: &String, definition: &Json) -> (r: Option<DictionarySense>)
    ensures
        match r {
            Some(sense) => definition_senses(part@, definition@) == Some(seq![sense@]),
            None => definition_senses(part@, definition@) is None,
        },
{
    match definition.member("definition") {
        Some(Json::Text(text)) => Some(
            DictionarySense { part_of_speech: part.clone(), definition_text: text.clone() },
        ),
        _ => None,
    }
}

fn senses_of_meaning(meaning: &Json) -> (r: Option<Vec<DictionarySense>>)
    ensures
        match r {
            Some(senses) => meaning_senses(meaning@) == Some(senses_view(senses@)),
            None => meaning_senses(meaning@) is None,
        },
{
    let part = match meaning.member("partOfSpeech") {
        Some(Json::Text(part)) => part,
        _ => {
            return None;
        },
    };
    let definitions = match meaning.member("definitions") {
        Some(Json::Array(definitions)) => definitions,
        _ => {
            return None;
        },
    };
    let ghost items = Json::Array(*definitions)@.items();
    let ghost senses_of = |definition: JsonValue| definition_senses(part@, definition);
    let mut senses: Vec<DictionarySense> = Vec::new();
    let mut i: usize = 0;
    while i < definitions.len()
        invariant
            i <= definitions.len(),
            items.len() == definitions.len(),
            forall|j: int| 0 <= j < definitions.len() ==> items[j] == definitions[j]@,
            senses_of == (|definition: JsonValue| definition_senses(part@, definition)),
            meaning_senses(meaning@) == gather(items, senses_of),
            gather(items.take(i as int), senses_of) == Some(senses_view(senses@)),
        decreases definitions.len() - i,
    {
        proof {
            lemma_gather_step(items, senses_of, i as int);
        }
        match senses_of_definition(part, &definitions[i]) {
            Some(sense) => {
                senses.push(sense);
            },
            None => {
                proof {
                    lemma_gather_defined(items, senses_of);
                }
                return None;
            },
        }
        i += 1;
    }
    assert(items.take(i as int) == items);
    Some(senses)
}

fn senses_of_entry(entry: &Json) -> (r: Option<Vec<DictionarySense>>)
    ensures
        match r {
            Some(senses) => entry_senses(entry@) == Some(senses_view(senses@)),
            None => entry_senses(entry@) is None,
        },
{
    let meanings = match entry.member("meanings") {
        Some(Json::Array(meanings)) => meanings,
        _ => {
            return None;
        },
    };
    let ghost items = Json::Array(*meanings)@.items();
    let ghost senses_of = |meaning: JsonValue| meaning_senses(meaning);
    let mut senses: Vec<DictionarySense> = Vec::new();
    let mut i: usize = 0;
    while i < meanings.len()
        invariant
            i <= meanings.len(),
            items.len() == meanings.len(),
            forall|j: int| 0 <= j < meanings.len() ==> items[j] == meanings[j]@,
            senses_of == (|meaning: JsonValue| meaning_senses(meaning)),
            entry_senses(entry@) == gather(items, senses_of),
            gather(items.take(i as int), senses_of) == Some(senses_view(senses@)),
        decreases meanings.len() - i,
    {
        proof {
            lemma_gather_step(items, senses_of, i as int);
        }
        match senses_of_meaning(&meanings[i]) {
            Some(more) => {
                append_senses(&mut senses, more);
            },
            None => {
                proof {
                    lemma_gather_defined(items, senses_of);
                }
                return None;
            },
        }
        i += 1;
    }
    assert(items.take(i as int) == items);
    Some(senses)
}

/// Maps a parsed answer of the dictionary service to its senses.
///
/// Fails with [`ParseError::UnexpectedShape`] exactly where the document is
/// not an array of entries of the shape that the module describes.
pub fn dictionary_from_json(doc: &Json) -> (r: Result<DictionaryLookup, ParseError>)
    ensures
        match r {
            Ok(found) => document_senses(doc@) == Some(found@.senses()) && found is Found,
            Err(e) => document_senses(doc@) is None && e == ParseError::UnexpectedShape,
        },
{
    let entries = match doc {
        Json::Array(entries) => entries,
        _ => {
            return Err(ParseError::UnexpectedShape);
        },
    };
    let ghost items = doc@.items();
    let ghost senses_of = |entry: JsonValue| entry_senses(entry);
    let mut senses: Vec<DictionarySense> = Vec::new();
    let mut i: usize = 0;
    while i < entries.len()
        invariant
            i <= entries.len(),
            items.len() == entries.len(),
            forall|j: int| 0 <= j < entries.len() ==> items[j] == entries[j]@,
            senses_of == (|entry: JsonValue| entry_senses(entry)),
            document_senses(doc@) == gather(items, senses_of),
            gather(items.take(i as int), senses_of) == Some(senses_view(senses@)),
        decreases entries.len() - i,
    {
        proof {
            lemma_gather_step(items, senses_of, i as int);
        }
        match senses_of_entry(&entries[i]) {
            Some(more) => {
                append_senses(&mut senses, more);
            },
            None => {
                proof {
                    lemma_gather_defined(items, senses_of);
                }
                return Err(ParseError::UnexpectedShape);
            },
        }
        i += 1;
    }
    assert(items.take(i as int) == items);
    Ok(DictionaryLookup::Found(senses))
}

/// Maps an answer of the dictionary service to what it says of the term.
///
/// A status of [`NOT_FOUND`] means that the service does not know the term:
/// that is a result, whatever the body holds. Any other answer must hold a
/// JSON document of the shape that the module describes.
pub fn map_dictionary(status: u16, body: &[u8]) -> (r: Result<DictionaryLookup, ParseError>)
    ensures
        match r {
            Ok(found) => dictionary_outcome(status, parsed_document(body@)) == Ok::<
                DictionaryValue,
                ParseError,
            >(found@),
            Err(e) => dictionary_outcome(status, parsed_document(body@)) == Err::<
                DictionaryValue,
                ParseError,
            >(e),
        },
        status == NOT_FOUND ==> r == Ok::<DictionaryLookup, ParseError>(DictionaryLookup::NotFound),
{
    if status == NOT_FOUND {
        return Ok(DictionaryLookup::NotFound);
    }
    match parse_json(body) {
        Ok(doc) => dictionary_from_json(&doc),
        Err(e) => Err(e),
    }
}

} // verus!
