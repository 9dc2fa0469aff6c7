//! Responses as the service stores and returns them, the failures a
//! request can end in, and the cache-control policy.
use vstd::prelude::*;
use vstd::string::*;
use crate::text::{decimal, decimal_text};

verus! {

/// The status of a successful response.
pub const STATUS_OK: u16 = 200;

/// The status of a response to a request the service will not serve.
pub const STATUS_BAD_REQUEST: u16 = 400;

/// The status of a response to a request that failed upstream or inside.
pub const STATUS_INTERNAL_ERROR: u16 = 500;

/// Seconds a successful response may be kept by clients.
pub const SUCCESS_MAX_AGE: u32 = 3600;

/// Seconds any other response may be kept by clients.
pub const FAILURE_MAX_AGE: u32 = 300;

/// What went wrong with a request.
#[derive(Clone, Copy, Debug, PartialEq, Eq, Structural)]
pub enum FailureKind {
    /// The upstream fetch failed or answered with a non-success status.
    UpstreamFetch,
    /// An expected pattern was not found in a fetched document.
    Extraction,
    /// The requested image URL is not on the allow-list.
    Validation,
    /// The fetched bytes are not a decodable image.
    Decode,
    /// The thumbnail could not be encoded.
    Encode,
}

/// A failed request: its kind, and the upstream detail or the label of the
/// extraction that failed.
#[derive(Debug)]
pub struct Failure {
    pub kind: FailureKind,
    pub detail: String,
}

/// The status a failure of the given kind is answered with.
pub open spec fn failure_status(kind: FailureKind) -> u16 {
    if kind == FailureKind::Validation {
        400
    } else {
        500
    }
}

/// The plain-text body a failure is answered with.
pub open spec fn failure_text(kind: FailureKind, detail: Seq<char>) -> Seq<char> {
    if kind == FailureKind::Validation {
        "url not allowed"@
    } else {
        "Something went wrong: "@ + detail
    }
}

impl Failure {
    /// The HTTP status of the response to this failure: 400 for a
    /// disallowed URL, 500 for everything else.
    pub fn status(&self) -> (status: u16)
        ensures
            status == failure_status(self.kind),
    {
        match self.kind {
            FailureKind::Validation => STATUS_BAD_REQUEST,
            _ => STATUS_INTERNAL_ERROR,
        }
    }

    /// The plain-text body of the response to this failure.
    pub fn text(&self) -> (text: String)
        ensures
            text@ == failure_text(self.kind, self.detail@),
    {
        match self.kind {
            FailureKind::Validation => String::from_str("url not allowed"),
            _ => String::from_str("Something went wrong: ").concat(self.detail.as_str()),
        }
    }
}

/// One header of a response. Names are compared as written, so they are
/// held in lower case, as they travel.
#[derive(Debug)]
pub struct Header {
    pub name: String,
    pub value: String,
}

/// A full response: status, headers in their order, and body.
#[derive(Debug)]
pub struct Response {
    pub status: u16,
    pub headers: Vec<Header>,
    pub body: Vec<u8>,
}

/// A response as plain values; each header is its name and its value.
pub struct ResponseView {
    pub status: u16,
    pub headers: Seq<(Seq<char>, Seq<char>)>,
    pub body: Seq<u8>,
}

/// Headers as plain values.
pub open spec fn headers_view(headers: Seq<Header>) -> Seq<(Seq<char>, Seq<char>)> {
    headers.map_values(|header: Header| (header.name@, header.value@))
}

/// The name of the header that carries the freshness directive.
pub open spec fn cache_control_name() -> Seq<char> {
    "cache-control"@
}

/// The name of the header that types the body.
pub open spec fn content_type_name() -> Seq<char> {
    "content-type"@
}

/// `headers` without those called `name`, the others in their order.
pub open spec fn without(headers: Seq<(Seq<char>, Seq<char>)>, name: Seq<char>) -> Seq<
    (Seq<char>, Seq<char>),
>
    decreases headers.len(),
{
    if headers.len() == 0 {
        Seq::empty()
    } else if headers.last().0 == name {
        without(headers.drop_last(), name)
    } else {
        without(headers.drop_last(), name).push(headers.last())
    }
}

/// The value of the last header called `name`, if there is one.
pub open spec fn value_of(headers: Seq<(Seq<char>, Seq<char>)>, name: Seq<char>) -> Option<
    Seq<char>,
>
    decreases headers.len(),
{
    if headers.len() == 0 {
        None
    } else if headers.last().0 == name {
        Some(headers.last().1)
    } else {
        value_of(headers.drop_last(), name)
    }
}

/// Whether a status is one of success: 200 to 299.
pub open spec fn is_success(status: u16) -> bool {
    200 <= status <= 299
}

/// The seconds of freshness granted to a response of the given status.
pub open spec fn max_age_of(status: u16) -> u32 {
    if is_success(status) {
        3600
    } else {
        300
    }
}

/// The cache-control directive for a response of the given status: public,
/// with the status's seconds of freshness in decimal.
pub open spec fn directive_of(status: u16) -> Seq<char> {
    "public, max-age="@ + decimal(max_age_of(status) as nat)
}

/// The seconds of freshness granted to a response of the given status:
/// long for success, short for anything else.
pub fn max_age(status: u16) -> (seconds: u32)
    ensures
        seconds == max_age_of(status),
{
    if 200 <= status && status <= 299 {
        SUCCESS_MAX_AGE
    } else {
        FAILURE_MAX_AGE
    }
}

/// The cache-control directive for a response of the given status.
pub fn cache_control(status: u16) -> (value: String)
    ensures
        value@ == directive_of(status),
{
    let seconds = max_age(status);
    String::from_str("public, max-age=").concat(decimal_text(seconds as u64).as_str())
}

fn copy_bytes(bytes: &Vec<u8>) -> (copy: Vec<u8>)
    ensures
        copy@ == bytes@,
{
    let mut copy: Vec<u8> = Vec::new();
    let mut i: usize = 0;
    while i < bytes.len()
        invariant
            i <= bytes.len(),
            copy@ == bytes@.take(i as int),
        decreases bytes.len() - i,
    {
        copy.push(bytes[i]);
        assert(bytes@.take(i as int).push(bytes@[i as int]) =~= bytes@.take(i + 1));
        i = i + 1;
    }
    assert(bytes@.take(bytes.len() as int) =~= bytes@);
    copy
}

/// A response stamped with the directive that its status calls for: every
/// cache-control header it had is gone, and one with the directive stands
/// last; status, the other headers and the body are kept.
pub open spec fn stamped(response: ResponseView) -> ResponseView {
    ResponseView {
        headers: without(response.headers, cache_control_name()).push(
            (cache_control_name(), directive_of(response.status)),
        ),
        ..response
    }
}

impl Response {
    /// The response as plain values.
    pub open spec fn view(&self) -> ResponseView {
        ResponseView {
            status: self.status,
            headers: headers_view(self.headers@),
            body: self.body@,
        }
    }

    /// A copy of this response.
    pub fn duplicate(&self) -> (copy: Response)
        ensures
            copy@ == self@,
    {
        let mut headers: Vec<Header> = Vec::new();
        let mut i: usize = 0;
        while i < self.headers.len()
            invariant
                i <= self.headers.len(),
                headers_view(headers@) == headers_view(self.headers@).take(i as int),
            decreases self.headers.len() - i,
        {
            let ghost before = headers@;
            let header = Header {
                name: self.headers[i].name.clone(),
                value: self.headers[i].value.clone(),
            };
            headers.push(header);
            assert(headers_view(headers@) =~= headers_view(before).push(
                (header.name@, header.value@),
            ));
            assert(headers_view(self.headers@).take(i + 1) =~= headers_view(self.headers@).take(
                i as int,
            ).push(headers_view(self.headers@)[i as int]));
            i = i + 1;
        }
        assert(headers_view(self.headers@).take(self.headers.len() as int) =~= headers_view(
            self.headers@,
        ));
        Response { status: self.status, headers, body: copy_bytes(&self.body) }
    }

    /// The value of the last header called `name`, if there is one.
    pub fn header(&self, name: &str) -> (value: Option<String>)
        ensures
            match value {
                Some(text) => value_of(self@.headers, name@) == Some(text@),
                None => value_of(self@.headers, name@) is None,
            },
    {
        let wanted = name.to_owned();
        let ghost all = headers_view(self.headers@);
        let mut i: usize = self.headers.len();
        assert(all.take(i as int) =~= all);
        while i > 0
            invariant
                i <= self.headers.len(),
                wanted@ == name@,
                all == headers_view(self.headers@),
                value_of(all, name@) == value_of(all.take(i as int), name@),
            decreases i,
        {
            assert(all.take(i as int).last() == all[i - 1]);
            assert(all.take(i as int).drop_last() =~= all.take(i - 1));
            i = i - 1;
            if self.headers[i].name == wanted {
                return Some(self.headers[i].value.clone());
            }
        }
        assert(all.take(0).len() == 0);
        None
    }

    /// Stamps the cache-control directive that the response's status calls
    /// for, replacing any directive already there; the rest is kept.
    pub fn annotate(self) -> (marked: Response)
        ensures
            marked@ == stamped(self@),
    {
        let name = String::from_str("cache-control");
        let ghost all = headers_view(self.headers@);
        let mut kept: Vec<Header> = Vec::new();
        let mut i: usize = 0;
        while i < self.headers.len()
            invariant
                i <= self.headers.len(),
                name@ == cache_control_name(),
                all == headers_view(self.headers@),
                headers_view(kept@) == without(all.take(i as int), cache_control_name()),
            decreases self.headers.len() - i,
        {
            assert(all.take(i + 1).last() == all[i as int]);
            assert(all.take(i + 1).drop_last() =~= all.take(i as int));
            if !(self.headers[i].name == name) {
                let ghost before = kept@;
                let header = Header {
                    name: self.headers[i].name.clone(),
                    value: self.headers[i].value.clone(),
                };
                kept.push(header);
                assert(headers_view(kept@) =~= headers_view(before).push(
                    (header.name@, header.value@),
                ));
            }
            i = i + 1;
        }
        assert(all.take(self.headers.len() as int) =~= all);
        let ghost before = kept@;
        let directive = Header { name, value: cache_control(self.status) };
        kept.push(directive);
        assert(headers_view(kept@) =~= headers_view(before).push(
            (directive.name@, directive.value@),
        ));
        Response { status: self.status, headers: kept, body: self.body }
    }
}

/// No header called `name` is left in `without(headers, name)`, so taking
/// them out again changes nothing.
pub proof fn lemma_without(headers: Seq<(Seq<char>, Seq<char>)>, name: Seq<char>)
    ensures
        forall|i: int|
            0 <= i < without(headers, name).len() ==> (#[trigger] without(headers, name)[i]).0
                != name,
        without(without(headers, name), name) == without(headers, name),
    decreases headers.len(),
{
    if headers.len() > 0 {
        lemma_without(headers.drop_last(), name);
        let rest = without(headers.drop_last(), name);
        if headers.last().0 != name {
            let grown = rest.push(headers.last());
            assert(grown.drop_last() =~= rest);
            assert(grown.last() == headers.last());
        }
    }
}

/// Taking out the headers called `name` leaves what every other name
/// reads.
pub proof fn lemma_without_keeps_others(
    headers: Seq<(Seq<char>, Seq<char>)>,
    name: Seq<char>,
    other: Seq<char>,
)
    requires
        other != name,
    ensures
        value_of(without(headers, name), other) == value_of(headers, other),
    decreases headers.len(),
{
    if headers.len() > 0 {
        lemma_without_keeps_others(headers.drop_last(), name, other);
        let rest = without(headers.drop_last(), name);
        if headers.last().0 != name {
            let grown = rest.push(headers.last());
            assert(grown.drop_last() =~= rest);
            assert(grown.last() == headers.last());
        }
    }
}

/// A stamped response carries its directive once: the cache-control header
/// reads the directive of the status, every other header reads as before,
/// and stamping again changes nothing.
pub proof fn lemma_stamped_once(response: ResponseView, other: Seq<char>)
    requires
        other != cache_control_name(),
    ensures
        value_of(stamped(response).headers, cache_control_name()) == Some(
            directive_of(response.status),
        ),
        value_of(stamped(response).headers, other) == value_of(response.headers, other),
        stamped(stamped(response)) == stamped(response),
{
    let name = cache_control_name();
    let kept = without(response.headers, name);
    let marked = stamped(response).headers;
    lemma_without(response.headers, name);
    lemma_without_keeps_others(response.headers, name, other);
    assert(marked.drop_last() =~= kept);
    assert(marked.last() == (name, directive_of(response.status)));
}

/// A successful response's freshness differs from that of every other
/// response.
pub proof fn lemma_freshness_by_status(success: u16, other: u16)
    requires
        is_success(success),
        !is_success(other),
    ensures
        max_age_of(success) == 3600,
        max_age_of(other) == 300,
        max_age_of(success) != max_age_of(other),
        directive_of(success) == "public, max-age=3600"@,
        directive_of(other) == "public, max-age=300"@,
        directive_of(success) != directive_of(other),
{
    reveal_with_fuel(decimal, 4);
    assert(decimal(3600).len() == 4);
    assert(decimal(300).len() == 3);
    assert(directive_of(success).len() != directive_of(other).len());
    reveal_strlit("public, max-age=");
    reveal_strlit("public, max-age=3600");
    reveal_strlit("public, max-age=300");
    assert(decimal(3600) =~= seq!['3', '6', '0', '0']);
    assert(decimal(300) =~= seq!['3', '0', '0']);
    assert(directive_of(success) =~= "public, max-age=3600"@);
    assert(directive_of(other) =~= "public, max-age=300"@);
}

} // verus!
