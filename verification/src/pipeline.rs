//! The decisions of the two request handlers. Fetching is left to the
//! caller: each function here takes what a fetch returned and says what to
//! do next.
use vstd::prelude::*;
use vstd::string::*;
use crate::extract::{extract, extraction_of, first_capture, ExtractionPattern, ExtractionResult};
use crate::response::{failure_status, failure_text};
use crate::fit::{fit, fitted_into};
use crate::raster::{CanvasSpec, Raster};
use crate::response::{
    content_type_name, Failure, FailureKind, Header, Response, ResponseView, STATUS_OK,
};
use crate::text::{decimal, decimal_text, has_prefix};

verus! {

/// The side of the square canvas that thumbnails are rendered onto.
pub const THUMBNAIL_SIDE: u32 = 400;

/// What a handler does once it has looked at what it was given.
#[derive(Debug)]
pub enum Step {
    /// Fetch this URL and come back with what it returned.
    Fetch(String),
    /// Answer with this failure.
    Failed(Failure),
}

/// A step as plain values.
pub enum StepView {
    Fetch(Seq<char>),
    Failed(FailureKind, Seq<char>),
}

impl Step {
    /// The step as plain values.
    pub open spec fn view(&self) -> StepView {
        match self {
            Step::Fetch(url) => StepView::Fetch(url@),
            Step::Failed(failure) => StepView::Failed(failure.kind, failure.detail@),
        }
    }
}

/// The end of a request as plain values: the answer, or the kind and
/// detail of the failure.
pub open spec fn outcome_view(outcome: Result<String, Failure>) -> Result<
    Seq<char>,
    (FailureKind, Seq<char>),
> {
    match outcome {
        Ok(value) => Ok(value@),
        Err(failure) => Err((failure.kind, failure.detail@)),
    }
}

/// What a fetch returned, as plain values: the body text, or the
/// description of the failure.
pub open spec fn fetched_text(fetched: Result<String, String>) -> Result<Seq<char>, Seq<char>> {
    match fetched {
        Ok(body) => Ok(body@),
        Err(detail) => Err(detail@),
    }
}

/// The expression that captures the redirect target in an event page.
pub open spec fn redirect_expression() -> Seq<char> {
    ";url='(.+)'\" />"@
}

/// The label of a failure to find the redirect target.
pub open spec fn redirect_label() -> Seq<char> {
    "first: no context"@
}

/// The expression that captures the site name on the page an event
/// redirects to.
pub open spec fn site_name_expression() -> Seq<char> {
    "<meta property=\"og:site_name\" content=\"(.+)\" />"@
}

/// The label of a failure to find the site name.
pub open spec fn site_name_label() -> Seq<char> {
    "second: og:site_name no context"@
}

/// The prefix an image URL must start with to be served.
pub open spec fn allowed_prefix() -> Seq<char> {
    "https://media.zaiko.io/"@
}

/// The pattern that finds the redirect target in an event page.
pub fn redirect_pattern() -> (p: ExtractionPattern)
    ensures
        p.expression@ == redirect_expression(),
        p.label@ == redirect_label(),
        !p.html_attribute,
{
    ExtractionPattern {
        expression: String::from_str(";url='(.+)'\" />"),
        label: String::from_str("first: no context"),
        html_attribute: false,
    }
}

/// The pattern that finds the site name on the page an event redirects to;
/// the name sits in an attribute, so its character references are decoded.
pub fn site_name_pattern() -> (p: ExtractionPattern)
    ensures
        p.expression@ == site_name_expression(),
        p.label@ == site_name_label(),
        p.html_attribute,
{
    ExtractionPattern {
        expression: String::from_str("<meta property=\"og:site_name\" content=\"(.+)\" />"),
        label: String::from_str("second: og:site_name no context"),
        html_attribute: true,
    }
}

/// The address of the page of event `event_id`.
pub fn event_url(event_id: u64) -> (url: String)
    ensures
        url@ == "https://zaiko.io/event/"@ + decimal(event_id as nat),
{
    String::from_str("https://zaiko.io/event/").concat(decimal_text(event_id).as_str())
}

/// What one hop yields, given what its fetch returned: a failed fetch and a
/// missing field are failures of their own kinds; otherwise the field.
pub open spec fn hop_outcome(
    fetched: Result<Seq<char>, Seq<char>>,
    expression: Seq<char>,
    label: Seq<char>,
    html_attribute: bool,
) -> Result<Seq<char>, (FailureKind, Seq<char>)> {
    match fetched {
        Err(detail) => Err((FailureKind::UpstreamFetch, detail)),
        Ok(document) => match extraction_of(
            first_capture(expression, document),
            label,
            html_attribute,
        ) {
            Ok(value) => Ok(value),
            Err(tag) => Err((FailureKind::Extraction, tag)),
        },
    }
}

/// The step after the first hop: fetch the redirect target found in the
/// event page, or fail.
pub open spec fn after_first_hop(fetched: Result<Seq<char>, Seq<char>>) -> StepView {
    match hop_outcome(fetched, redirect_expression(), redirect_label(), false) {
        Ok(url) => StepView::Fetch(url),
        Err((kind, detail)) => StepView::Failed(kind, detail),
    }
}

/// The step after the second hop: answer with the site name found on the
/// redirect target, or fail.
pub open spec fn after_second_hop(fetched: Result<Seq<char>, Seq<char>>) -> Result<
    Seq<char>,
    (FailureKind, Seq<char>),
> {
    hop_outcome(fetched, site_name_expression(), site_name_label(), true)
}

fn hop(fetched: Result<String, String>, pattern: &ExtractionPattern) -> (r: Result<String, Failure>)
    ensures
        outcome_view(r) == hop_outcome(
            fetched_text(fetched),
            pattern.expression@,
            pattern.label@,
            pattern.html_attribute,
        ),
{
    match fetched {
        Err(detail) => Err(Failure { kind: FailureKind::UpstreamFetch, detail }),
        Ok(document) => match extract(document.as_str(), pattern) {
            ExtractionResult::Extracted(value) => Ok(value),
            ExtractionResult::Failed(label) => Err(
                Failure { kind: FailureKind::Extraction, detail: label },
            ),
        },
    }
}

/// Decides what follows the fetch of an event page: fetch the redirect
/// target it names, or fail without another fetch.
pub fn event_after_first(fetched: Result<String, String>) -> (step: Step)
    ensures
        step@ == after_first_hop(fetched_text(fetched)),
{
    let pattern = redirect_pattern();
    match hop(fetched, &pattern) {
        Ok(url) => Step::Fetch(url),
        Err(failure) => Step::Failed(failure),
    }
}

/// Decides what follows the fetch of the redirect target: answer with the
/// owner's name found on it, or fail.
pub fn event_after_second(fetched: Result<String, String>) -> (owner: Result<String, Failure>)
    ensures
        outcome_view(owner) == after_second_hop(fetched_text(fetched)),
{
    let pattern = site_name_pattern();
    hop(fetched, &pattern)
}

/// A first hop that does not yield a redirect target, because its fetch
/// failed or its document lacks the marker, ends the pipeline with a failure
/// that names the first hop: no second fetch is asked for.
pub proof fn lemma_failed_first_hop_stops(fetched: Result<Seq<char>, Seq<char>>)
    requires
        fetched is Err || first_capture(redirect_expression(), fetched->Ok_0) is None,
    ensures
        !(after_first_hop(fetched) is Fetch),
        fetched is Ok ==> after_first_hop(fetched) == StepView::Failed(
            FailureKind::Extraction,
            redirect_label(),
        ),
        fetched is Err ==> after_first_hop(fetched) == StepView::Failed(
            FailureKind::UpstreamFetch,
            fetched->Err_0,
        ),
{
}

/// The first step of a thumbnail request: fetch the image if its URL is on
/// the allow-list, else refuse.
pub open spec fn square_first_step(url: Seq<char>) -> StepView {
    if allowed_prefix().is_prefix_of(url) {
        StepView::Fetch(url)
    } else {
        StepView::Failed(FailureKind::Validation, Seq::empty())
    }
}

/// Decides whether the image at `url` may be fetched: only URLs under the
/// allowed upstream prefix are.
pub fn square_request(url: &str) -> (step: Step)
    ensures
        step@ == square_first_step(url@),
{
    if has_prefix(url, "https://media.zaiko.io/") {
        Step::Fetch(url.to_owned())
    } else {
        Step::Failed(Failure { kind: FailureKind::Validation, detail: String::new() })
    }
}

/// A URL outside the allowed prefix is refused before anything is fetched,
/// with status 400 and the body `url not allowed`.
pub proof fn lemma_disallowed_url_is_refused(url: Seq<char>)
    requires
        !allowed_prefix().is_prefix_of(url),
    ensures
        !(square_first_step(url) is Fetch),
        square_first_step(url) == StepView::Failed(FailureKind::Validation, Seq::empty()),
        failure_status(FailureKind::Validation) == 400,
        failure_text(FailureKind::Validation, Seq::empty()) == "url not allowed"@,
{
}

/// What decoding returned, as plain values.
pub open spec fn decoded_view(decoded: Result<(u32, u32, Vec<u8>), String>) -> Result<
    (nat, nat, Seq<u8>),
    Seq<char>,
> {
    match decoded {
        Ok((width, height, pixels)) => Ok((width as nat, height as nat, pixels@)),
        Err(detail) => Err(detail@),
    }
}

/// Calls `image::load_from_memory` and hands out the decoded image as
/// 8-bit RGBA (`DynamicImage::into_rgba8`), or the error as text. Nothing
/// is claimed of the outcome: which decoder reads the bytes can change
/// while the process runs, and a decoder may pick routines by the machine.
#[verifier::external_body]
fn load_rgba(bytes: &[u8]) -> (r: Result<(u32, u32, Vec<u8>), String>) {
    match image::load_from_memory(bytes) {
        Ok(loaded) => {
            let rgba = loaded.into_rgba8();
            Ok((rgba.width(), rgba.height(), rgba.into_raw()))
        },
        Err(error) => Err(error.to_string()),
    }
}

/// The PNG file that the `image` crate's encoder writes for a grid of 8-bit
/// RGBA pixels of the given size, or the text of the error it reports.
pub uninterp spec fn png_encoding(width: nat, height: nat, pixels: Seq<u8>) -> Result<
    Seq<u8>,
    Seq<char>,
>;

/// What encoding returned, as plain values.
pub open spec fn encoded_view(encoded: Result<Vec<u8>, String>) -> Result<Seq<u8>, Seq<char>> {
    match encoded {
        Ok(png) => Ok(png@),
        Err(detail) => Err(detail@),
    }
}

/// Calls `image::DynamicImage::write_to` with the PNG format, into memory,
/// and hands out the file, or the error as text. The outcome depends on the
/// size and the pixels alone: the encoder is given nothing else, and its
/// settings are its defaults.
#[verifier::external_body]
fn encode_png(image: &Raster) -> (r: Result<Vec<u8>, String>)
    requires
        image.wf(),
    ensures
        encoded_view(r) == png_encoding(image.width as nat, image.height as nat, image.pixels@),
{
    let mut out = std::io::Cursor::new(Vec::new());
    let buffer = image::RgbaImage::from_raw(image.width, image.height, image.pixels.clone());
    match image::DynamicImage::ImageRgba8(buffer.unwrap()).write_to(
        &mut out,
        image::ImageFormat::Png,
    ) {
        Ok(()) => Ok(out.into_inner()),
        Err(error) => Err(error.to_string()),
    }
}

/// The canvas thumbnails are rendered onto, as a plain value.
pub open spec fn square_canvas() -> CanvasSpec {
    CanvasSpec { width: 400, height: 400 }
}

/// The canvas thumbnails are rendered onto.
pub fn thumbnail_canvas() -> (canvas: CanvasSpec)
    ensures
        canvas.valid(),
        canvas == square_canvas(),
        canvas.width == THUMBNAIL_SIDE,
        canvas.height == THUMBNAIL_SIDE,
{
    CanvasSpec { width: THUMBNAIL_SIDE, height: THUMBNAIL_SIDE }
}

/// Makes a grid of the parts of a decoded image, if they fit; an image
/// without pixels, or with a buffer of the wrong length, is a decode
/// failure.
pub fn decoded_raster(width: u32, height: u32, pixels: Vec<u8>) -> (r: Result<Raster, Failure>)
    ensures
        r is Ok == (width > 0 && height > 0 && pixels@.len() == 4 * width * height),
        r is Ok ==> r->Ok_0.wf() && r->Ok_0.width == width && r->Ok_0.height == height
            && r->Ok_0.pixels@ == pixels@,
        r is Err ==> r->Err_0.kind == FailureKind::Decode && r->Err_0.detail@
            == "decoded image has no pixels"@,
{
    match Raster::from_parts(width, height, pixels) {
        Some(image) => Ok(image),
        None => Err(
            Failure {
                kind: FailureKind::Decode,
                detail: String::from_str("decoded image has no pixels"),
            },
        ),
    }
}

/// Encoding the decoded image of the given parts, fitted into the
/// thumbnail canvas, gives `encoded`: the PNG file, or the encoder's error.
pub open spec fn renders(
    width: nat,
    height: nat,
    pixels: Seq<u8>,
    encoded: Result<Seq<u8>, Seq<char>>,
) -> bool {
    exists|image: Raster, fitted: Raster|
        {
            &&& image.wf()
            &&& image.width == width
            &&& image.height == height
            &&& image.pixels@ == pixels
            &&& #[trigger] fitted_into(image, square_canvas(), fitted)
            &&& png_encoding(fitted.width as nat, fitted.height as nat, fitted.pixels@) == encoded
        }
}

/// Whether decoded parts describe an image that can be held: positive
/// sides that fit in 32 bits, and exactly four bytes for each pixel.
pub open spec fn is_image(width: nat, height: nat, pixels: Seq<u8>) -> bool {
    &&& 0 < width <= u32::MAX
    &&& 0 < height <= u32::MAX
    &&& pixels.len() == 4 * width * height
}

/// `r` is what rendering returns once decoding has come back with
/// `decoded`. A failed decoding is passed on with its description, and
/// parts that are no image are a decode failure too. An image is fitted
/// into the thumbnail canvas and encoded: the result is the PNG file of the
/// fitted image, or an encode failure with the encoder's own words.
pub open spec fn thumbnail_result(
    decoded: Result<(nat, nat, Seq<u8>), Seq<char>>,
    r: Result<Vec<u8>, Failure>,
) -> bool {
    match decoded {
        Err(detail) => r is Err && r->Err_0.kind == FailureKind::Decode && r->Err_0.detail@
            == detail,
        Ok((width, height, pixels)) => if is_image(width, height, pixels) {
            match r {
                Ok(png) => renders(width, height, pixels, Ok(png@)),
                Err(failure) => failure.kind == FailureKind::Encode && renders(
                    width,
                    height,
                    pixels,
                    Err(failure.detail@),
                ),
            }
        } else {
            r is Err && r->Err_0.kind == FailureKind::Decode && r->Err_0.detail@
                == "decoded image has no pixels"@
        },
    }
}

/// Renders the thumbnail of a decoded image: given the width, height and
/// RGBA bytes that decoding produced, or the description of its failure,
/// fits the image into the thumbnail canvas and encodes it as PNG.
pub fn thumbnail_of(decoded: Result<(u32, u32, Vec<u8>), String>) -> (r: Result<Vec<u8>, Failure>)
    ensures
        thumbnail_result(decoded_view(decoded), r),
{
    let (width, height, pixels) = match decoded {
        Ok(parts) => parts,
        Err(detail) => {
            return Err(Failure { kind: FailureKind::Decode, detail });
        },
    };
    let image = match decoded_raster(width, height, pixels) {
        Ok(image) => image,
        Err(failure) => {
            return Err(failure);
        },
    };
    let fitted = fit(&image, thumbnail_canvas());
    let encoded = encode_png(&fitted);
    proof {
        assert(fitted_into(image, square_canvas(), fitted));
    }
    match encoded {
        Ok(png) => Ok(png),
        Err(detail) => Err(Failure { kind: FailureKind::Encode, detail }),
    }
}

/// Decodes `bytes`, fits the image into the thumbnail canvas and encodes
/// the result as PNG. What the bytes decode to is for the decoder to say;
/// what is returned is the rendering of whatever it said.
pub fn thumbnail(bytes: &[u8]) -> (r: Result<Vec<u8>, Failure>)
    ensures
        exists|decoded: Result<(nat, nat, Seq<u8>), Seq<char>>| #[trigger]
            thumbnail_result(decoded, r),
{
    let loaded = load_rgba(bytes);
    let ghost seen = decoded_view(loaded);
    let r = thumbnail_of(loaded);
    assert(thumbnail_result(seen, r));
    r
}

/// The response that carries a rendered thumbnail: success, typed as a PNG
/// image, with the file as its body.
pub fn thumbnail_response(png: Vec<u8>) -> (response: Response)
    ensures
        response@ == (ResponseView {
            status: 200,
            headers: seq![(content_type_name(), "image/png"@)],
            body: png@,
        }),
{
    let mut headers: Vec<Header> = Vec::new();
    headers.push(
        Header { name: String::from_str("content-type"), value: String::from_str("image/png") },
    );
    let response = Response { status: STATUS_OK, headers, body: png };
    assert(response@.headers =~= seq![(content_type_name(), "image/png"@)]);
    response
}

/// Decides what follows the fetch of an image: a failed fetch is passed on
/// as such; fetched bytes are rendered into a thumbnail.
pub fn square_after_fetch(fetched: Result<Vec<u8>, String>) -> (r: Result<Vec<u8>, Failure>)
    ensures
        fetched is Err ==> r is Err && r->Err_0.kind == FailureKind::UpstreamFetch
            && r->Err_0.detail@ == fetched->Err_0@,
        fetched is Ok ==> exists|decoded: Result<(nat, nat, Seq<u8>), Seq<char>>| #[trigger]
            thumbnail_result(decoded, r),
{
    match fetched {
        Err(detail) => Err(Failure { kind: FailureKind::UpstreamFetch, detail }),
        Ok(bytes) => thumbnail(bytes.as_slice()),
    }
}

} // verus!
