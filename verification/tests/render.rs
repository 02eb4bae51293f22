use lookup::dictionary::{DictionaryLookup, DictionarySense};
use lookup::error::{Failure, LookupError, ParseError, Source, TransportError};
use lookup::aggregate::{lookup, LookupOutcome, LookupResult, Response};
use lookup::render::{render, render_definitions, render_encyclopedia, report, Report};

fn sense(part: &str, text: &str) -> DictionarySense {
    DictionarySense { part_of_speech: String::from(part), definition_text: String::from(text) }
}

fn transport(source: Source, message: &str) -> LookupError {
    LookupError {
        source,
        failure: Failure::Transport(TransportError { message: String::from(message) }),
    }
}

#[test]
fn empty_dictionary_and_absent_encyclopedia() {
    let result = LookupResult { dictionary: DictionaryLookup::Found(vec![]), encyclopedia: None };
    assert_eq!(render(&result), "Definitions:\nN/A\n\nWikipedia:\nN/A\n");
}

#[test]
fn not_found_renders_like_found_without_senses() {
    let result = LookupResult { dictionary: DictionaryLookup::NotFound, encyclopedia: None };
    assert_eq!(render(&result), "Definitions:\nN/A\n\nWikipedia:\nN/A\n");
    assert_eq!(
        render_definitions(&DictionaryLookup::NotFound),
        render_definitions(&DictionaryLookup::Found(vec![]))
    );
}

#[test]
fn one_sense_and_a_summary_with_whitespace_around_it() {
    let result = LookupResult {
        dictionary: DictionaryLookup::Found(vec![sense("noun", "a test")]),
        encyclopedia: Some(String::from("  Summary text.  ")),
    };
    assert_eq!(render(&result), "Definitions:\n1. (noun) a test\n\nWikipedia:\nSummary text.\n");
}

#[test]
fn senses_are_numbered_from_one_in_order() {
    let senses: Vec<DictionarySense> =
        (1..=12).map(|i| sense(if i % 2 == 0 { "verb" } else { "noun" }, &format!("d{}", i))).collect();
    let expected = "Definitions:\n1. (noun) d1\n2. (verb) d2\n3. (noun) d3\n4. (verb) d4\n\
                    5. (noun) d5\n6. (verb) d6\n7. (noun) d7\n8. (verb) d8\n9. (noun) d9\n\
                    10. (verb) d10\n11. (noun) d11\n12. (verb) d12\n";
    assert_eq!(render_definitions(&DictionaryLookup::Found(senses)), expected);
}

#[test]
fn sense_text_is_printed_as_it_is() {
    let found = DictionaryLookup::Found(vec![sense("", ""), sense(" adj ", "  spaced  ")]);
    assert_eq!(render_definitions(&found), "Definitions:\n1. () \n2. ( adj )   spaced  \n");
}

#[test]
fn the_summary_is_trimmed_at_both_ends_only() {
    assert_eq!(render_encyclopedia(&None), "\nWikipedia:\nN/A\n");
    assert_eq!(render_encyclopedia(&Some(String::from("A city in France."))), "\nWikipedia:\nA city in France.\n");
    assert_eq!(
        render_encyclopedia(&Some(String::from("\n\tfirst line\nsecond  line \u{a0}\n"))),
        "\nWikipedia:\nfirst line\nsecond  line\n"
    );
    assert_eq!(render_encyclopedia(&Some(String::from("   "))), "\nWikipedia:\n\n");
}

#[test]
fn report_of_a_full_success() {
    let outcome = LookupOutcome {
        dictionary: Ok(DictionaryLookup::Found(vec![sense("noun", "a test")])),
        encyclopedia: Ok(Some(String::from("  Summary text.  "))),
    };
    assert_eq!(
        report(&outcome),
        Report {
            output: String::from("Definitions:\n1. (noun) a test\n\nWikipedia:\nSummary text.\n"),
            errors: String::new(),
            exit_code: 0,
        }
    );
}

#[test]
fn encyclopedia_failure_leaves_the_definitions_in_place() {
    let dictionary = br#"[{"meanings": [{"partOfSpeech": "noun", "definitions": [{"definition": "a test"}]}]}]"#;
    let outcome = lookup(
        Ok(Response { status: 200, body: dictionary.to_vec() }),
        Err(TransportError { message: String::from("connection reset") }),
    );
    let r = report(&outcome);
    assert_eq!(r.output, "Definitions:\n1. (noun) a test\n");
    assert_eq!(r.errors, "Error fetching Wikipedia: connection reset\n");
    assert_ne!(r.exit_code, 0);
    assert_eq!(r.exit_code, 1);
}

#[test]
fn dictionary_failure_leaves_the_summary_in_place() {
    let outcome = LookupOutcome {
        dictionary: Err(LookupError {
            source: Source::Dictionary,
            failure: Failure::Parse(ParseError::UnexpectedShape),
        }),
        encyclopedia: Ok(Some(String::from("Summary."))),
    };
    assert_eq!(
        report(&outcome),
        Report {
            output: String::from("\nWikipedia:\nSummary.\n"),
            errors: String::from(
                "Error fetching dictionary: response body does not have the expected shape\n"
            ),
            exit_code: 1,
        }
    );
}

#[test]
fn two_failures_give_two_lines_and_no_output() {
    let outcome = LookupOutcome {
        dictionary: Err(transport(Source::Dictionary, "offline")),
        encyclopedia: Err(transport(Source::Encyclopedia, "offline too")),
    };
    assert_eq!(
        report(&outcome),
        Report {
            output: String::new(),
            errors: String::from(
                "Error fetching dictionary: offline\nError fetching Wikipedia: offline too\n"
            ),
            exit_code: 1,
        }
    );
}

#[test]
fn no_data_is_reported_without_error() {
    let outcome = LookupOutcome { dictionary: Ok(DictionaryLookup::NotFound), encyclopedia: Ok(None) };
    assert_eq!(
        report(&outcome),
        Report {
            output: String::from("Definitions:\nN/A\n\nWikipedia:\nN/A\n"),
            errors: String::new(),
            exit_code: 0,
        }
    );
}
