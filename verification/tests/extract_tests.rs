use zaiko_edge::extract::{extract, tag_capture, ExtractionPattern, ExtractionResult};
use zaiko_edge::pipeline::{
    event_after_first, event_after_second, event_url, redirect_pattern, site_name_pattern, Step,
};
use zaiko_edge::response::{Failure, FailureKind};
use zaiko_edge::text::{decimal_text, has_prefix};

const EVENT_PAGE: &str =
    "<html><head><meta http-equiv=\"refresh\" content=\"0;url='https://shop.zaiko.io/item/42'\" /></head></html>";
const SHOP_PAGE: &str =
    "<html><head><meta property=\"og:site_name\" content=\"Tom &amp; Jerry&#39;s\" /></head></html>";

fn pattern(expression: &str, label: &str, html_attribute: bool) -> ExtractionPattern {
    ExtractionPattern {
        expression: expression.to_string(),
        label: label.to_string(),
        html_attribute,
    }
}

fn extracted(result: ExtractionResult) -> Result<String, String> {
    match result {
        ExtractionResult::Extracted(value) => Ok(value),
        ExtractionResult::Failed(label) => Err(label),
    }
}

#[test]
fn decimal_text_renders_without_leading_zeros() {
    assert_eq!(decimal_text(0), "0");
    assert_eq!(decimal_text(7), "7");
    assert_eq!(decimal_text(10), "10");
    assert_eq!(decimal_text(1203), "1203");
    assert_eq!(decimal_text(9_876_543_210), "9876543210");
    assert_eq!(decimal_text(u64::MAX), "18446744073709551615");
}

#[test]
fn event_url_appends_the_id() {
    assert_eq!(event_url(0), "https://zaiko.io/event/0");
    assert_eq!(event_url(364_812), "https://zaiko.io/event/364812");
}

#[test]
fn tag_capture_keeps_the_value_or_the_label() {
    assert_eq!(extracted(tag_capture(Some("v".to_string()), "label")), Ok("v".to_string()));
    assert_eq!(extracted(tag_capture(None, "label")), Err("label".to_string()));
}

#[test]
fn extract_returns_the_first_capture_of_the_first_match() {
    let found = extract("a=1; a=2; a=3", &pattern("a=([0-9])", "no a", false));
    assert_eq!(extracted(found), Ok("1".to_string()));
}

#[test]
fn extract_fails_with_the_label_when_nothing_matches() {
    let found = extract("b=1", &pattern("a=([0-9])", "no a", false));
    assert_eq!(extracted(found), Err("no a".to_string()));
    let empty = extract("", &pattern("a=([0-9])", "no a in empty", true));
    assert_eq!(extracted(empty), Err("no a in empty".to_string()));
}

#[test]
fn extract_fails_with_the_label_on_an_expression_that_does_not_compile() {
    let found = extract("a=1", &pattern("a=([0-9]", "broken", false));
    assert_eq!(extracted(found), Err("broken".to_string()));
}

#[test]
fn extract_decodes_entities_only_in_attribute_context() {
    let document = "content=\"R&amp;D &lt;3\"";
    let decoded = extract(document, &pattern("content=\"(.+)\"", "x", true));
    assert_eq!(extracted(decoded), Ok("R&D <3".to_string()));
    let raw = extract(document, &pattern("content=\"(.+)\"", "x", false));
    assert_eq!(extracted(raw), Ok("R&amp;D &lt;3".to_string()));
}

#[test]
fn the_two_patterns_carry_their_own_labels() {
    let first = redirect_pattern();
    assert_eq!(first.expression, ";url='(.+)'\" />");
    assert_eq!(first.label, "first: no context");
    assert!(!first.html_attribute);
    let second = site_name_pattern();
    assert_eq!(second.expression, "<meta property=\"og:site_name\" content=\"(.+)\" />");
    assert_eq!(second.label, "second: og:site_name no context");
    assert!(second.html_attribute);
}

#[test]
fn first_hop_finds_the_redirect_target() {
    match event_after_first(Ok(EVENT_PAGE.to_string())) {
        Step::Fetch(url) => assert_eq!(url, "https://shop.zaiko.io/item/42"),
        other => panic!("unexpected step {other:?}"),
    }
}

#[test]
fn first_hop_without_marker_fails_as_first() {
    match event_after_first(Ok("<html></html>".to_string())) {
        Step::Failed(failure) => {
            assert_eq!(failure.kind, FailureKind::Extraction);
            assert_eq!(failure.detail, "first: no context");
            assert_eq!(failure.status(), 500);
            assert_eq!(failure.text(), "Something went wrong: first: no context");
        }
        other => panic!("unexpected step {other:?}"),
    }
}

#[test]
fn first_hop_passes_a_fetch_failure_on() {
    match event_after_first(Err("upstream said 404".to_string())) {
        Step::Failed(failure) => {
            assert_eq!(failure.kind, FailureKind::UpstreamFetch);
            assert_eq!(failure.detail, "upstream said 404");
            assert_eq!(failure.status(), 500);
        }
        other => panic!("unexpected step {other:?}"),
    }
}

#[test]
fn second_hop_finds_and_decodes_the_site_name() {
    let owner = event_after_second(Ok(SHOP_PAGE.to_string())).unwrap();
    assert_eq!(owner, "Tom & Jerry's");
}

#[test]
fn second_hop_without_name_fails_as_second() {
    let failure = event_after_second(Ok(EVENT_PAGE.to_string())).unwrap_err();
    assert_eq!(failure.kind, FailureKind::Extraction);
    assert_eq!(failure.detail, "second: og:site_name no context");
    assert_eq!(failure.text(), "Something went wrong: second: og:site_name no context");
}

#[test]
fn second_hop_passes_a_fetch_failure_on() {
    let failure = event_after_second(Err("timeout".to_string())).unwrap_err();
    assert_eq!(failure.kind, FailureKind::UpstreamFetch);
    assert_eq!(failure.text(), "Something went wrong: timeout");
}

fn run_event(
    event_id: u64,
    pages: &[(&str, &str)],
    fetched: &mut Vec<String>,
) -> Result<String, Failure> {
    let mut fetch = |url: &str| -> Result<String, String> {
        fetched.push(url.to_string());
        pages
            .iter()
            .find(|(address, _)| *address == url)
            .map(|(_, body)| body.to_string())
            .ok_or_else(|| format!("no page at {url}"))
    };
    let first = fetch(&event_url(event_id));
    match event_after_first(first) {
        Step::Fetch(url) => {
            let second = fetch(&url);
            event_after_second(second)
        }
        Step::Failed(failure) => Err(failure),
    }
}

#[test]
fn chained_extraction_returns_the_owner_name() {
    let pages = [
        ("https://zaiko.io/event/42", EVENT_PAGE),
        ("https://shop.zaiko.io/item/42", SHOP_PAGE),
    ];
    let mut fetched = Vec::new();
    assert_eq!(run_event(42, &pages, &mut fetched).unwrap(), "Tom & Jerry's");
    assert_eq!(fetched, ["https://zaiko.io/event/42", "https://shop.zaiko.io/item/42"]);
}

#[test]
fn chained_extraction_stops_after_a_failed_first_hop() {
    let pages = [
        ("https://zaiko.io/event/42", "<html>nothing to see</html>"),
        ("https://shop.zaiko.io/item/42", SHOP_PAGE),
    ];
    let mut fetched = Vec::new();
    let failure = run_event(42, &pages, &mut fetched).unwrap_err();
    assert_eq!(failure.kind, FailureKind::Extraction);
    assert_eq!(failure.detail, "first: no context");
    assert_eq!(fetched.len(), 1);
}

#[test]
fn chained_extraction_stops_after_a_failed_first_fetch() {
    let mut fetched = Vec::new();
    let failure = run_event(7, &[], &mut fetched).unwrap_err();
    assert_eq!(failure.kind, FailureKind::UpstreamFetch);
    assert_eq!(fetched, ["https://zaiko.io/event/7"]);
}

#[test]
fn has_prefix_compares_character_by_character() {
    assert!(has_prefix("https://media.zaiko.io/a", "https://media.zaiko.io/"));
    assert!(has_prefix("abc", ""));
    assert!(has_prefix("", ""));
    assert!(has_prefix("abc", "abc"));
    assert!(!has_prefix("ab", "abc"));
    assert!(!has_prefix("abd", "abc"));
    assert!(!has_prefix("", "a"));
    assert!(has_prefix("\u{65e5}\u{672c}\u{8a9e}", "\u{65e5}\u{672c}"));
    assert!(!has_prefix("\u{65e5}\u{672c}\u{8a9e}", "\u{65e5}\u{8a9e}"));
    assert!(!has_prefix("\u{e9}", "\u{c3}"));
}
