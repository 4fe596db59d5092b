use commit_check::compose::{compose, compose_tooltip, format_error_message};
use commit_check::extract::{extract, parse_count};
use commit_check::locate::{locate, ActivityFragment, ExtractionStrategy};
use commit_check::pipeline::{get_commit_message_for_date, run_pipeline, PipelineConfig};
use commit_check::PipelineError;

fn numeric_fixture() -> String {
    let mut doc = String::from("<html><body><table><tbody><tr>");
    doc.push_str("<td data-date=\"2022-01-01\" data-count=\"3\" id=\"day-1\"></td>");
    doc.push_str("<td data-date=\"2022-01-02\" data-count=\"8\" id=\"day-2\"></td>");
    doc.push_str("</tr></tbody></table></body></html>");
    doc
}

fn tooltip_fixture() -> String {
    let mut doc = String::from("<html><body><table><tbody><tr>");
    doc.push_str("<td data-date=\"2023-11-04\" id=\"contribution-day-component-6-4\"></td>");
    doc.push_str("</tr></tbody></table>");
    doc.push_str(
        "<tool-tip for=\"contribution-day-component-6-4\">6 contributions on November 4th.</tool-tip>",
    );
    doc.push_str("</body></html>");
    doc
}

#[test]
fn end_to_end_numeric_tiered() {
    let doc = numeric_fixture();
    let n = run_pipeline("2022-01-02T18:44:49Z", &doc, ExtractionStrategy::NumericTiered).unwrap();
    assert_eq!(n.subject, "Commit Check");
    assert_eq!(n.message, "Nice job! You made 8 commits on 2022-01-02");
}

#[test]
fn end_to_end_textual_tooltip() {
    let doc = tooltip_fixture();
    let n = run_pipeline("2023-11-04T18:44:49Z", &doc, ExtractionStrategy::TextualTooltip).unwrap();
    assert_eq!(n.subject, "Commit Check");
    assert_eq!(n.message, "Commit Checker: 6 contributions on November 4th.");
}

#[test]
fn end_to_end_bad_timestamp_fails() {
    let doc = numeric_fixture();
    let r = run_pipeline("yesterday", &doc, ExtractionStrategy::NumericTiered);
    assert_eq!(r.unwrap_err(), PipelineError::InvalidTimestamp);
}

#[test]
fn absent_marker_degrades_to_zero_message() {
    let doc = numeric_fixture();
    let message =
        get_commit_message_for_date(&doc, "2022-01-03", ExtractionStrategy::NumericTiered)
            .unwrap();
    assert_eq!(
        message,
        "You haven't made a commit yet today - make sure to have a commit in!"
    );
}

#[test]
fn absent_tooltip_degrades_to_zero_message() {
    let doc = numeric_fixture();
    // The marker for 2022-01-01 exists but no tool-tip references its id,
    // and 2022-01-03 has no marker at all: both degrade to the zero tier.
    for key in ["2022-01-01", "2022-01-03"] {
        let message =
            get_commit_message_for_date(&doc, key, ExtractionStrategy::TextualTooltip).unwrap();
        assert_eq!(
            message,
            "You haven't made a commit yet today - make sure to have a commit in!"
        );
    }
}

#[test]
fn malformed_count_attribute_degrades_to_zero() {
    let doc = "<html><body><table><tbody><tr>\
               <td data-date=\"2022-01-02\" data-count=\"lots\"></td>\
               </tr></tbody></table></body></html>";
    let message =
        get_commit_message_for_date(doc, "2022-01-02", ExtractionStrategy::NumericTiered).unwrap();
    assert_eq!(
        message,
        "You haven't made a commit yet today - make sure to have a commit in!"
    );
}

#[test]
fn malformed_key_is_rejected_before_any_query() {
    let doc = numeric_fixture();
    for bad in ["2022-1-02", "", "td\"] <script>", "2022-01-02 "] {
        let r = locate(&doc, bad, ExtractionStrategy::NumericTiered);
        assert_eq!(r.unwrap_err(), PipelineError::InvalidKey);
        let r = get_commit_message_for_date(&doc, bad, ExtractionStrategy::TextualTooltip);
        assert_eq!(r.unwrap_err(), PipelineError::InvalidKey);
    }
}

#[test]
fn locate_finds_first_marker_in_document_order() {
    let doc = "<html><body><table><tbody><tr>\
               <td data-date=\"2022-01-02\" data-count=\"5\"></td>\
               <td data-date=\"2022-01-02\" data-count=\"9\"></td>\
               </tr></tbody></table></body></html>";
    let located = locate(doc, "2022-01-02", ExtractionStrategy::NumericTiered)
        .unwrap()
        .unwrap();
    assert_eq!(located.content, "5");
}

#[test]
fn extract_falls_back_to_zero_on_absence() {
    assert_eq!(extract(&None), 0);
    let frag = ActivityFragment {
        content: String::from("17"),
    };
    assert_eq!(extract(&Some(frag)), 17);
}

#[test]
fn parse_count_reads_digits_and_degrades() {
    assert_eq!(parse_count("0"), 0);
    assert_eq!(parse_count("8"), 8);
    assert_eq!(parse_count("4294967295"), u32::MAX);
    assert_eq!(parse_count("4294967296"), 0);
    assert_eq!(parse_count("99999999999999999999"), 0);
    assert_eq!(parse_count(""), 0);
    assert_eq!(parse_count("12a"), 0);
    assert_eq!(parse_count("-3"), 0);
    assert_eq!(parse_count(" 3"), 0);
}

#[test]
fn tiering_boundaries() {
    let d = "2022-01-02";
    assert!(compose(0, d).message.contains("haven't made a commit"));
    assert_eq!(
        compose(1, d).message,
        "Nice job on the commit you made on 2022-01-02"
    );
    assert_eq!(
        compose(2, d).message,
        "Nice job! You made 2 commits on 2022-01-02"
    );
}

#[test]
fn composing_twice_is_byte_identical() {
    let a = compose(7, "2022-01-02");
    let b = compose(7, "2022-01-02");
    assert_eq!(a.subject, b.subject);
    assert_eq!(a.message, b.message);
    let ta = compose_tooltip("6 contributions on November 4th.");
    let tb = compose_tooltip("6 contributions on November 4th.");
    assert_eq!(ta.subject, tb.subject);
    assert_eq!(ta.message, tb.message);
}

#[test]
fn subject_is_always_fixed() {
    for count in [0u32, 1, 2, 100] {
        assert_eq!(compose(count, "2022-01-02").subject, "Commit Check");
    }
    assert_eq!(compose_tooltip("anything").subject, "Commit Check");
}

#[test]
fn error_message_names_the_date() {
    let message = format_error_message(&String::from("2022-01-02"));
    assert_eq!(message, "No commits found on 2022-01-02");
}

#[test]
fn config_holds_fixed_subject() {
    let config = PipelineConfig::new(
        String::from("https://github.com/DioneJM"),
        ExtractionStrategy::TextualTooltip,
        String::from("some topic"),
    );
    assert_eq!(config.notification_subject, "Commit Check");
    assert_eq!(config.source_url, "https://github.com/DioneJM");
    assert_eq!(config.destination, "some topic");
    assert_eq!(config.extraction_strategy, ExtractionStrategy::TextualTooltip);
}
