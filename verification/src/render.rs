//! The plain-text report of a lookup.
//!
//! The report has two sections, each with a fixed header. A section without
//! data reads `N/A`. Every line ends with a line feed.

use crate::aggregate::{
    dictionary_result_of,
    encyclopedia_result_of,
    Fetched,
    LookupOutcome,
    LookupResult,
    LookupValue,
    OutcomeValue,
};
use crate::dictionary::{senses_view, DictionaryLookup, Sense};
use crate::encyclopedia::{extract_view, EncyclopediaLookup};
use crate::error::{error_text, FailureValue, LookupError, LookupErrorValue, Source, TransportError};
use crate::json::JsonValue;
use crate::text::{decimal_digits, push_decimal, push_trimmed, trim};
use vstd::prelude::*;
use vstd::string::*;

verus! {

/// The header of the section of the definitions, with its line end.
pub const DEFINITIONS_HEADER: &'static str = "Definitions:\n";

/// The header of the section of the encyclopedia, with the empty line before
/// it and its line end.
pub const ENCYCLOPEDIA_HEADER: &'static str = "\nWikipedia:\n";

/// What a section without data reads.
pub const NO_DATA: &'static str = "N/A";

/// The line of the sense with the given number: the number, the part of
/// speech in parentheses, and the definition.
pub open spec fn sense_line(number: nat, sense: Sense) -> Seq<char> {
    decimal_digits(number) + ". ("@ + sense.part_of_speech + ") "@ + sense.definition_text + "\n"@
}

/// The lines of `senses`, numbered from one in their order.
pub open spec fn sense_lines(senses: Seq<Sense>) -> Seq<char>
    decreases senses.len(),
{
    if senses.len() == 0 {
        Seq::empty()
    } else {
        sense_lines(senses.drop_last()) + sense_line(senses.len(), senses.last())
    }
}

/// The section of the definitions: its header, then the numbered senses, or
/// `N/A` where there are none.
pub open spec fn definitions_text(senses: Seq<Sense>) -> Seq<char> {
    DEFINITIONS_HEADER@ + if senses.len() == 0 {
        NO_DATA@ + "\n"@
    } else {
        sense_lines(senses)
    }
}

/// The section of the encyclopedia: an empty line, its header, then the
/// summary without the whitespace around it, or `N/A` where there is none.
pub open spec fn encyclopedia_text(extract: Option<Seq<char>>) -> Seq<char> {
    ENCYCLOPEDIA_HEADER@ + match extract {
        Some(text) => trim(text),
        None => NO_DATA@,
    } + "\n"@
}

/// The whole report: the definitions, then the encyclopedia.
pub open spec fn report_text(result: LookupValue) -> Seq<char> {
    definitions_text(result.dictionary.senses()) + encyclopedia_text(result.encyclopedia)
}

/// Renders the section of the definitions.
pub fn render_definitions(dictionary: &DictionaryLookup) -> (r: String)
    ensures
        r@ == definitions_text(dictionary@.senses()),
{
    let mut out = String::from_str(DEFINITIONS_HEADER);
    match dictionary {
        DictionaryLookup::NotFound => {
            out.append(NO_DATA);
            out.append("\n");
        },
        DictionaryLookup::Found(senses) => {
            if senses.len() == 0 {
                out.append(NO_DATA);
                out.append("\n");
            } else {
                let ghost all = senses_view(senses@);
                let mut i: usize = 0;
                while i < senses.len()
                    invariant
                        i <= senses.len(),
                        all == senses_view(senses@),
                        out@ == DEFINITIONS_HEADER@ + sense_lines(all.take(i as int)),
                    decreases senses.len() - i,
                {
                    let sense = &senses[i];
                    assert(all.take(i as int + 1).drop_last() == all.take(i as int));
                    push_decimal(&mut out, i + 1);
                    out.append(". (");
                    out.append(sense.part_of_speech.as_str());
                    out.append(") ");
                    out.append(sense.definition_text.as_str());
                    out.append("\n");
                    assert(out@ =~= DEFINITIONS_HEADER@ + (sense_lines(all.take(i as int)) + sense_line(
                        (i + 1) as nat,
                        sense@,
                    )));
                    i += 1;
                }
                assert(all.take(i as int) == all);
            }
        },
    }
    out
}

/// Renders the section of the encyclopedia.
pub fn render_encyclopedia(extract: &EncyclopediaLookup) -> (r: String)
    ensures
        r@ == encyclopedia_text(extract_view(*extract)),
{
    let mut out = String::from_str(ENCYCLOPEDIA_HEADER);
    match extract {
        Some(text) => {
            push_trimmed(&mut out, text.as_str());
        },
        None => {
            out.append(NO_DATA);
        },
    }
    out.append("\n");
    out
}

/// Renders the report of a lookup.
pub fn render(result: &LookupResult) -> (r: String)
    ensures
        r@ == report_text(result@),
{
    let mut out = render_definitions(&result.dictionary);
    let second = render_encyclopedia(&result.encyclopedia);
    out.append(second.as_str());
    out
}

/// What a program that looked a term up hands out: the text for standard
/// output, the text for standard error, and its exit code.
#[derive(Clone, Debug, PartialEq, Eq)]
pub struct Report {
    pub output: String,
    pub errors: String,
    pub exit_code: u8,
}

/// The mathematical value of a [`Report`].
pub struct ReportValue {
    pub output: Seq<char>,
    pub errors: Seq<char>,
    pub exit_code: u8,
}

impl View for Report {
    type V = ReportValue;

    open spec fn view(&self) -> ReportValue {
        ReportValue { output: self.output@, errors: self.errors@, exit_code: self.exit_code }
    }
}

/// The line that reports the error of a source that failed; nothing for a
/// source that did not.
pub open spec fn error_line<T>(part: Result<T, LookupErrorValue>) -> Seq<char> {
    match part {
        Ok(_) => Seq::empty(),
        Err(e) => error_text(e) + "\n"@,
    }
}

/// The report of an outcome.
///
/// The output holds the section of each source that ended with a result,
/// the definitions first; a source that failed has no section. The errors
/// hold one line for each source that failed, in the same order. The exit
/// code is zero only where no source failed.
pub open spec fn report_of(outcome: OutcomeValue) -> ReportValue {
    ReportValue {
        output: match outcome.dictionary {
            Ok(found) => definitions_text(found.senses()),
            Err(_) => Seq::empty(),
        } + match outcome.encyclopedia {
            Ok(extract) => encyclopedia_text(extract),
            Err(_) => Seq::empty(),
        },
        errors: error_line(outcome.dictionary) + error_line(outcome.encyclopedia),
        exit_code: outcome.exit_code(),
    }
}

/// Where both sources ended with a result, the output is the report of the
/// two results and nothing goes to the errors.
pub proof fn lemma_report_of_success(outcome: OutcomeValue)
    requires
        outcome.succeeded(),
    ensures
        report_of(outcome).output == report_text(outcome.combined()->Ok_0),
        report_of(outcome).errors == Seq::<char>::empty(),
        report_of(outcome).exit_code == 0,
{
}

/// Each section of the output depends on its own source alone: a failure of
/// one source leaves the section of the other as it is without the failure,
/// and makes the exit code other than zero.
pub proof fn lemma_report_of_partial_failure(outcome: OutcomeValue)
    ensures
        outcome.dictionary matches Ok(found) ==> report_of(outcome).output.take(
            definitions_text(found.senses()).len() as int,
        ) == definitions_text(found.senses()),
        (outcome.dictionary is Err && outcome.encyclopedia is Ok) ==> report_of(outcome).output
            == encyclopedia_text(outcome.encyclopedia->Ok_0),
        (outcome.dictionary is Ok && outcome.encyclopedia is Err) ==> report_of(outcome).output
            == definitions_text(outcome.dictionary->Ok_0.senses()),
        (outcome.dictionary is Err || outcome.encyclopedia is Err) ==> report_of(outcome).exit_code
            != 0,
{
    if let (Err(_), Ok(extract)) = (outcome.dictionary, outcome.encyclopedia) {
        assert(Seq::<char>::empty() + encyclopedia_text(extract) =~= encyclopedia_text(extract));
    }
}

/// A failure of the transport on the way to the encyclopedia does not touch
/// the dictionary's part: where the dictionary ends with a result, whatever
/// the body of its response parsed to, the output is the section of the
/// definitions as it would be without the failure, the failure is reported
/// on a line of its own, and the exit code is not zero.
pub proof fn lemma_encyclopedia_failure_keeps_definitions(
    dictionary: Fetched,
    parsed: Option<JsonValue>,
    failure: TransportError,
)
    requires
        dictionary_result_of(dictionary, parsed) is Ok,
    ensures
        ({
            let outcome = OutcomeValue {
                dictionary: dictionary_result_of(dictionary, parsed),
                encyclopedia: encyclopedia_result_of(Err(failure), None),
            };
            let found = dictionary_result_of(dictionary, parsed)->Ok_0;
            &&& report_of(outcome).output == definitions_text(found.senses())
            &&& report_of(outcome).errors == error_text(
                LookupErrorValue {
                    source: Source::Encyclopedia,
                    failure: FailureValue::Transport(failure@),
                },
            ) + "\n"@
            &&& report_of(outcome).exit_code != 0
        }),
{
    let outcome = OutcomeValue {
        dictionary: dictionary_result_of(dictionary, parsed),
        encyclopedia: encyclopedia_result_of(Err(failure), None),
    };
    lemma_report_of_partial_failure(outcome);
}

fn push_error_line(errors: &mut String, e: &LookupError)
    ensures
        final(errors)@ == old(errors)@ + (error_text(e@) + "\n"@),
{
    let line = e.message();
    errors.append(line.as_str());
    errors.append("\n");
}

/// Renders the report of an outcome.
pub fn report(outcome: &LookupOutcome) -> (r: Report)
    ensures
        r@ == report_of(outcome@),
{
    let mut output = String::new();
    let mut errors = String::new();
    match &outcome.dictionary {
        Ok(found) => {
            let section = render_definitions(found);
            output.append(section.as_str());
        },
        Err(e) => {
            push_error_line(&mut errors, e);
        },
    }
    match &outcome.encyclopedia {
        Ok(extract) => {
            let section = render_encyclopedia(extract);
            output.append(section.as_str());
        },
        Err(e) => {
            push_error_line(&mut errors, e);
        },
    }
    Report { output, errors, exit_code: outcome.exit_code() }
}

} // verus!
