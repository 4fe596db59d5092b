//! The date-to-notification pipeline: normalize the timestamp, locate the
//! day's activity in the document text, extract a count, compose the message.
use crate::compose::{
    compose, compose_tooltip, spec_subject, spec_tiered_message, spec_tooltip_message,
    spec_zero_message, Notification,
};
use crate::date::{formatted_date_from_rfc3339_timestamp, is_calendar_key, spec_normalized_key};
use crate::extract::{extract, spec_extracted_count};
use crate::locate::{locate, spec_locate, ExtractionStrategy};
use crate::PipelineError;
use vstd::prelude::*;
use vstd::string::*;

verus! {

/// The configuration resolved once per deployment: where the document comes
/// from, how the count is read off it, the fixed subject line, and the topic
/// the notification goes to.
pub struct PipelineConfig {
    pub source_url: String,
    pub extraction_strategy: ExtractionStrategy,
    pub notification_subject: String,
    pub destination: String,
}

impl PipelineConfig {
    /// Builds a configuration; the subject line is always the fixed one.
    pub fn new(source_url: String, extraction_strategy: ExtractionStrategy, destination: String) -> (c:
        PipelineConfig)
        ensures
            c.source_url@ == source_url@,
            c.extraction_strategy == extraction_strategy,
            c.notification_subject@ == spec_subject(),
            c.destination@ == destination@,
    {
        PipelineConfig {
            source_url,
            extraction_strategy,
            notification_subject: "Commit Check".to_owned(),
            destination,
        }
    }
}

/// The message text the pipeline produces for a document and a well-formed
/// key: the tiered message over the extracted count, or, in tooltip mode, the
/// captured text under its label. Absence is never an error: where the marker,
/// its identifier or the tooltip is missing, the count degrades to zero and
/// the message is the no-commit one.
pub open spec fn spec_commit_message(
    doc: Seq<char>,
    key: Seq<char>,
    strategy: ExtractionStrategy,
) -> Seq<char> {
    match strategy {
        ExtractionStrategy::NumericTiered => spec_tiered_message(
            spec_extracted_count(spec_locate(doc, key, strategy)),
            key,
        ),
        ExtractionStrategy::TextualTooltip => match spec_locate(doc, key, strategy) {
            Some(text) => spec_tooltip_message(text),
            None => spec_tiered_message(0, key),
        },
    }
}

/// Produces the notification message for a calendar key against the fetched
/// document text. A key failing the `YYYY-MM-DD` invariant is the one error;
/// every lookup or parse anomaly degrades into a defined message.
pub fn get_commit_message_for_date(
    document: &str,
    date: &str,
    strategy: ExtractionStrategy,
) -> (r: Result<String, PipelineError>)
    ensures
        r is Err <==> !is_calendar_key(date@),
        r matches Err(e) ==> e == PipelineError::InvalidKey,
        r matches Ok(message) ==> message@ == spec_commit_message(document@, date@, strategy),
{
    let located = match locate(document, date, strategy) {
        Ok(located) => located,
        Err(e) => {
            return Err(e);
        },
    };
    match strategy {
        ExtractionStrategy::NumericTiered => {
            let count = extract(&located);
            Ok(compose(count, date).message)
        },
        ExtractionStrategy::TextualTooltip => {
            match located {
                Some(fragment) => Ok(compose_tooltip(fragment.content.as_str()).message),
                None => Ok(compose(0, date).message),
            }
        },
    }
}

/// Runs the whole pipeline on one invocation's timestamp and the fetched
/// document text. The only failure is a timestamp that does not normalize;
/// otherwise the notification carries the fixed subject and the composed
/// message for the normalized key.
pub fn run_pipeline(timestamp: &str, document: &str, strategy: ExtractionStrategy) -> (r: Result<
    Notification,
    PipelineError,
>)
    ensures
        r is Err <==> spec_normalized_key(timestamp@) is None,
        r matches Err(e) ==> e == PipelineError::InvalidTimestamp,
        r matches Ok(n) ==> spec_normalized_key(timestamp@) matches Some(key) && n.subject@
            == spec_subject() && n.message@ == spec_commit_message(document@, key, strategy),
{
    match formatted_date_from_rfc3339_timestamp(timestamp) {
        None => Err(PipelineError::InvalidTimestamp),
        Some(key) => {
            match get_commit_message_for_date(document, key.as_str(), strategy) {
                Ok(message) => Ok(Notification { subject: "Commit Check".to_owned(), message }),
                Err(_) => {
                    // A normalized key always satisfies the format invariant,
                    // so the locator cannot have rejected it.
                    proof {
                        assert(false);
                    }
                    Err(PipelineError::InvalidTimestamp)
                },
            }
        },
    }
}

/// Where the locator finds nothing for a key, under either strategy, the
/// extracted count is zero and the composed message is the no-commit message.
pub proof fn lemma_absence_fallback(doc: Seq<char>, key: Seq<char>, strategy: ExtractionStrategy)
    requires
        spec_locate(doc, key, strategy) is None,
    ensures
        spec_extracted_count(spec_locate(doc, key, strategy)) == 0,
        spec_commit_message(doc, key, strategy) == spec_zero_message(),
{
}

} // verus!
