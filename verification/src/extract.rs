//! Pulling one field out of a fetched document by pattern.
use vstd::prelude::*;

verus! {

/// What capture group 1 of the first match of the regular expression
/// `expression` holds in `document`, as the `regex` crate finds it; `None`
/// where the expression does not compile, nothing matches, or the group
/// took no part in the match.
pub uninterp spec fn first_capture(expression: Seq<char>, document: Seq<char>) -> Option<Seq<char>>;

/// `text` with its HTML character references decoded, as
/// `html_escape::decode_html_entities` decodes them.
pub uninterp spec fn entity_decoded(text: Seq<char>) -> Seq<char>;

/// A textual shape with one capture region, and the label that tags a
/// failure to find it.
pub struct ExtractionPattern {
    /// The regular expression; its first group is the capture region.
    pub expression: String,
    /// Names the document and field in a failure.
    pub label: String,
    /// Whether the captured text sits in an HTML attribute and must have
    /// its character references decoded.
    pub html_attribute: bool,
}

/// The outcome of one extraction.
#[derive(Debug)]
pub enum ExtractionResult {
    /// The captured value.
    Extracted(String),
    /// Nothing matched; holds the pattern's label.
    Failed(String),
}

impl ExtractionResult {
    /// The outcome as plain text: `Ok` of the value or `Err` of the label.
    pub open spec fn view(&self) -> Result<Seq<char>, Seq<char>> {
        match self {
            ExtractionResult::Extracted(value) => Ok(value@),
            ExtractionResult::Failed(label) => Err(label@),
        }
    }
}

/// The outcome that a capture gives under a label: the captured text, or a
/// failure tagged with the label.
pub open spec fn tagged(capture: Option<Seq<char>>, label: Seq<char>) -> Result<
    Seq<char>,
    Seq<char>,
> {
    match capture {
        Some(value) => Ok(value),
        None => Err(label),
    }
}

/// What `extract` returns given the raw capture.
pub open spec fn extraction_of(
    capture: Option<Seq<char>>,
    label: Seq<char>,
    html_attribute: bool,
) -> Result<Seq<char>, Seq<char>> {
    match capture {
        Some(raw) => Ok(
            if html_attribute {
                entity_decoded(raw)
            } else {
                raw
            },
        ),
        None => Err(label),
    }
}

/// Compiles `expression` with `regex::Regex::new`, runs `Regex::captures`
/// on `document` and copies out group 1. The result depends on the two
/// texts alone.
#[verifier::external_body]
fn capture_first_group(expression: &str, document: &str) -> (r: Option<String>)
    ensures
        r.is_some() == first_capture(expression@, document@).is_some(),
        r.is_some() ==> r.unwrap()@ == first_capture(expression@, document@).unwrap(),
{
    match regex::Regex::new(expression) {
        Ok(compiled) => compiled.captures(document).and_then(|found| found.get(1)).map(
            |group| group.as_str().to_owned(),
        ),
        Err(_) => None,
    }
}

/// Calls `html_escape::decode_html_entities`. The result depends on the
/// text alone.
#[verifier::external_body]
fn decode_entities(text: &str) -> (r: String)
    ensures
        r@ == entity_decoded(text@),
{
    html_escape::decode_html_entities(text).into_owned()
}

/// Turns a capture into an outcome: the captured text, or a failure that
/// carries `label`.
pub fn tag_capture(capture: Option<String>, label: &str) -> (r: ExtractionResult)
    ensures
        r@ == tagged(
            match capture {
                Some(value) => Some(value@),
                None => None,
            },
            label@,
        ),
{
    match capture {
        Some(value) => ExtractionResult::Extracted(value),
        None => ExtractionResult::Failed(label.to_owned()),
    }
}

/// Extracts the first capture of the first match of `pattern` in
/// `document`, decoding character references where the pattern asks for
/// it; fails with the pattern's label where nothing matches.
pub fn extract(document: &str, pattern: &ExtractionPattern) -> (r: ExtractionResult)
    ensures
        r@ == extraction_of(
            first_capture(pattern.expression@, document@),
            pattern.label@,
            pattern.html_attribute,
        ),
{
    let capture = capture_first_group(pattern.expression.as_str(), document);
    match tag_capture(capture, pattern.label.as_str()) {
        ExtractionResult::Extracted(raw) => {
            if pattern.html_attribute {
                ExtractionResult::Extracted(decode_entities(raw.as_str()))
            } else {
                ExtractionResult::Extracted(raw)
            }
        },
        ExtractionResult::Failed(label) => ExtractionResult::Failed(label),
    }
}

} // verus!
