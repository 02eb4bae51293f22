use lookup::dictionary::{
    dictionary_from_json, map_dictionary, DictionaryLookup, DictionarySense, NOT_FOUND,
};
use lookup::error::ParseError;
use lookup::json::Json;

fn sense(part: &str, text: &str) -> DictionarySense {
    DictionarySense { part_of_speech: String::from(part), definition_text: String::from(text) }
}

fn text(s: &str) -> Json {
    Json::Text(String::from(s))
}

fn object(members: Vec<(&str, Json)>) -> Json {
    Json::Object(members.into_iter().map(|(k, v)| (String::from(k), v)).collect())
}

fn definition(s: &str) -> Json {
    object(vec![("definition", text(s))])
}

fn meaning(part: &str, definitions: Vec<Json>) -> Json {
    object(vec![("partOfSpeech", text(part)), ("definitions", Json::Array(definitions))])
}

fn entry(meanings: Vec<Json>) -> Json {
    object(vec![("meanings", Json::Array(meanings))])
}

#[test]
fn not_found_status_is_an_empty_result() {
    assert_eq!(map_dictionary(404, b""), Ok(DictionaryLookup::NotFound));
    assert_eq!(NOT_FOUND, 404);
}

#[test]
fn not_found_status_never_reads_the_body() {
    assert_eq!(map_dictionary(404, b"this is not json"), Ok(DictionaryLookup::NotFound));
    assert_eq!(
        map_dictionary(404, br#"{"title": "No Definitions Found"}"#),
        Ok(DictionaryLookup::NotFound)
    );
    assert_eq!(
        map_dictionary(404, br#"[{"meanings": [{"partOfSpeech": "noun", "definitions": [{"definition": "x"}]}]}]"#),
        Ok(DictionaryLookup::NotFound)
    );
}

#[test]
fn one_entry_one_meaning_two_definitions() {
    let body = br#"[{"meanings": [{"partOfSpeech": "noun", "definitions": [
        {"definition": "a thing"}, {"definition": "another thing"}]}]}]"#;
    assert_eq!(
        map_dictionary(200, body),
        Ok(DictionaryLookup::Found(vec![sense("noun", "a thing"), sense("noun", "another thing")]))
    );
}

#[test]
fn senses_are_flattened_in_document_order() {
    let body = br#"[
        {"word": "run", "meanings": [
            {"partOfSpeech": "verb", "definitions": [{"definition": "v1"}, {"definition": "v2"}]},
            {"partOfSpeech": "noun", "definitions": [{"definition": "n1"}]}
        ]},
        {"word": "run", "meanings": [
            {"partOfSpeech": "adjective", "definitions": [{"definition": "a1"}]}
        ]}
    ]"#;
    assert_eq!(
        map_dictionary(200, body),
        Ok(DictionaryLookup::Found(vec![
            sense("verb", "v1"),
            sense("verb", "v2"),
            sense("noun", "n1"),
            sense("adjective", "a1"),
        ]))
    );
}

#[test]
fn members_beyond_the_shape_are_ignored() {
    let body = br#"[{"word": "x", "phonetics": [{"text": "/x/"}], "license": {"name": "CC"},
        "meanings": [{"partOfSpeech": "noun", "synonyms": ["y"], "antonyms": [],
            "definitions": [{"definition": "d", "example": "e", "synonyms": []}]}],
        "sourceUrls": ["https://example.org"]}]"#;
    assert_eq!(map_dictionary(200, body), Ok(DictionaryLookup::Found(vec![sense("noun", "d")])));
}

#[test]
fn found_without_senses_differs_from_not_found() {
    let found = map_dictionary(200, b"[]");
    assert_eq!(found, Ok(DictionaryLookup::Found(vec![])));
    assert_ne!(found, map_dictionary(404, b"[]"));
    assert_eq!(map_dictionary(200, br#"[{"meanings": []}]"#), Ok(DictionaryLookup::Found(vec![])));
    assert_eq!(
        map_dictionary(200, br#"[{"meanings": [{"partOfSpeech": "noun", "definitions": []}]}]"#),
        Ok(DictionaryLookup::Found(vec![]))
    );
}

#[test]
fn only_the_not_found_status_is_special() {
    let body = br#"[{"meanings": [{"partOfSpeech": "noun", "definitions": [{"definition": "d"}]}]}]"#;
    let expected = Ok(DictionaryLookup::Found(vec![sense("noun", "d")]));
    assert_eq!(map_dictionary(200, body), expected);
    assert_eq!(map_dictionary(500, body), expected);
    assert_eq!(map_dictionary(403, body), expected);
    assert_eq!(map_dictionary(500, b"Internal Server Error"), Err(ParseError::InvalidJson));
}

#[test]
fn a_dictionary_body_that_is_not_json_is_an_error() {
    assert_eq!(map_dictionary(200, b""), Err(ParseError::InvalidJson));
    assert_eq!(map_dictionary(200, b"<html>"), Err(ParseError::InvalidJson));
    assert_eq!(map_dictionary(200, b"[{\"meanings\": ["), Err(ParseError::InvalidJson));
}

#[test]
fn a_document_of_another_shape_is_an_error() {
    let shape = Err(ParseError::UnexpectedShape);
    assert_eq!(map_dictionary(200, br#"{"title": "No Definitions Found"}"#), shape);
    assert_eq!(map_dictionary(200, b"null"), shape);
    assert_eq!(map_dictionary(200, b"\"text\""), shape);
    assert_eq!(map_dictionary(200, b"[1]"), shape);
    assert_eq!(map_dictionary(200, b"[[]]"), shape);
    assert_eq!(map_dictionary(200, b"[{}]"), shape);
    assert_eq!(map_dictionary(200, br#"[{"meanings": null}]"#), shape);
    assert_eq!(map_dictionary(200, br#"[{"meanings": {}}]"#), shape);
    assert_eq!(map_dictionary(200, br#"[{"meanings": [{}]}]"#), shape);
    assert_eq!(map_dictionary(200, br#"[{"meanings": [{"definitions": []}]}]"#), shape);
    assert_eq!(map_dictionary(200, br#"[{"meanings": [{"partOfSpeech": "noun"}]}]"#), shape);
    assert_eq!(
        map_dictionary(200, br#"[{"meanings": [{"partOfSpeech": 1, "definitions": []}]}]"#),
        shape
    );
    assert_eq!(
        map_dictionary(200, br#"[{"meanings": [{"partOfSpeech": "noun", "definitions": {}}]}]"#),
        shape
    );
    assert_eq!(
        map_dictionary(200, br#"[{"meanings": [{"partOfSpeech": "noun", "definitions": [{}]}]}]"#),
        shape
    );
    assert_eq!(
        map_dictionary(
            200,
            br#"[{"meanings": [{"partOfSpeech": "noun", "definitions": [{"definition": null}]}]}]"#
        ),
        shape
    );
    assert_eq!(
        map_dictionary(
            200,
            br#"[{"meanings": [{"partOfSpeech": "noun", "definitions": ["text"]}]}]"#
        ),
        shape
    );
}

#[test]
fn one_bad_part_spoils_the_whole_answer() {
    let body = br#"[
        {"meanings": [{"partOfSpeech": "noun", "definitions": [{"definition": "good"}]}]},
        {"meanings": [{"partOfSpeech": "verb", "definitions": [{"definition": "good"}, {"text": "bad"}]}]}
    ]"#;
    assert_eq!(map_dictionary(200, body), Err(ParseError::UnexpectedShape));
    let body = br#"[
        {"meanings": [{"partOfSpeech": "noun", "definitions": [{"definition": "good"}]}]},
        {"word": "no meanings"}
    ]"#;
    assert_eq!(map_dictionary(200, body), Err(ParseError::UnexpectedShape));
}

#[test]
fn a_document_built_by_hand_maps_like_a_parsed_one() {
    let doc = Json::Array(vec![
        entry(vec![
            meaning("noun", vec![definition("a thing"), definition("another thing")]),
            meaning("verb", vec![]),
        ]),
        entry(vec![meaning("verb", vec![definition("to do")])]),
    ]);
    assert_eq!(
        dictionary_from_json(&doc),
        Ok(DictionaryLookup::Found(vec![
            sense("noun", "a thing"),
            sense("noun", "another thing"),
            sense("verb", "to do"),
        ]))
    );
}

#[test]
fn of_two_members_with_one_key_the_first_counts() {
    let doc = Json::Array(vec![Json::Object(vec![
        (String::from("meanings"), Json::Array(vec![])),
        (String::from("meanings"), Json::Null),
    ])]);
    assert_eq!(dictionary_from_json(&doc), Ok(DictionaryLookup::Found(vec![])));
    let doc = Json::Array(vec![Json::Object(vec![
        (String::from("meanings"), Json::Null),
        (String::from("meanings"), Json::Array(vec![])),
    ])]);
    assert_eq!(dictionary_from_json(&doc), Err(ParseError::UnexpectedShape));
}

#[test]
fn a_document_that_is_no_array_has_no_senses() {
    for doc in [Json::Null, Json::Bool(true), Json::Number, text("x"), object(vec![])] {
        assert_eq!(dictionary_from_json(&doc), Err(ParseError::UnexpectedShape));
    }
}

#[test]
fn text_is_kept_as_it_is() {
    let body = r#"[{"meanings": [{"partOfSpeech": "", "definitions": [{"definition": "  café\n"}]}]}]"#;
    assert_eq!(
        map_dictionary(200, body.as_bytes()),
        Ok(DictionaryLookup::Found(vec![sense("", "  café\n")]))
    );
}
