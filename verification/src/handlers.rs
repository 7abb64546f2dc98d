//! The two request handlers: static file service and the fixed JSON API
//! route table, including the CORS preflight answer.

use vstd::prelude::*;
use vstd::utf8::encode_utf8;

use crate::content_type::ext_of;
use crate::content_type::get_content_type;
use crate::content_type::mime_of;
use crate::content_type::str_eq;
use crate::http::HandlerOutcome;
use crate::http::HttpMethod;
use crate::http::HttpResponse;
use crate::http::OutcomeModel;
use crate::http::ResponseModel;
use crate::http::spec_text_plain;

verus! {

/// What the filesystem reported for a resolved static path. The
/// surrounding program probes the filesystem and hands the result in as
/// a plain value.
pub enum FileProbe {
    /// No regular file exists at the path.
    NotAFile,
    /// A regular file exists but could not be opened or read.
    Unreadable,
    /// The file's full content.
    Contents(Vec<u8>),
}

/// Mathematical model of a filesystem probe.
pub enum ProbeModel {
    NotAFile,
    Unreadable,
    Contents(Seq<u8>),
}

impl View for FileProbe {
    type V = ProbeModel;

    open spec fn view(&self) -> ProbeModel {
        match self {
            FileProbe::NotAFile => ProbeModel::NotAFile,
            FileProbe::Unreadable => ProbeModel::Unreadable,
            FileProbe::Contents(data) => ProbeModel::Contents(data@),
        }
    }
}

/// The filesystem path a URL path is served from: the URL with its
/// leading slash stripped, or the default document for the bare root.
pub open spec fn spec_resolved_path(url: Seq<char>) -> Seq<char> {
    if url.len() == 1 {
        "sieve_interface.html"@
    } else {
        url.subrange(1, url.len() as int)
    }
}

/// Resolves a URL path to the relative filesystem path it is served
/// from.
pub fn resolve_static_path(url: &str) -> (r: String)
    requires
        url@.len() > 0,
        url@[0] == '/',
    ensures
        r@ == spec_resolved_path(url@),
{
    let n = url.unicode_len();
    let rest = url.substring_char(1, n);
    if rest.is_empty() {
        String::from_str("sieve_interface.html")
    } else {
        rest.to_owned()
    }
}

/// The static file handler's outcome: the probed file served unchanged
/// under the extension table's content type, `NotMine` where no file
/// exists, and a failure where one exists but could not be read.
pub open spec fn spec_request_file(url: Seq<char>, probe: ProbeModel) -> OutcomeModel {
    match probe {
        ProbeModel::NotAFile => OutcomeModel::NotMine,
        ProbeModel::Unreadable => OutcomeModel::Failed("could not open file"@),
        ProbeModel::Contents(data) => OutcomeModel::Claimed(
            ResponseModel {
                status: 200,
                body: data,
                content_type: Some(mime_of(ext_of(spec_resolved_path(url)))),
                cors: false,
            },
        ),
    }
}

/// Serves the file, if any, that `url` resolves to. `probe` must be the
/// filesystem's answer for `resolve_static_path(url)`; this handler
/// never reads a request body and never attaches CORS headers.
pub fn request_file(url: &str, probe: FileProbe) -> (o: HandlerOutcome)
    requires
        url@.len() > 0,
        url@[0] == '/',
    ensures
        o@ == spec_request_file(url@, probe@),
{
    match probe {
        FileProbe::NotAFile => HandlerOutcome::NotMine,
        FileProbe::Unreadable => HandlerOutcome::Failed(String::from_str("could not open file")),
        FileProbe::Contents(data) => {
            let path = resolve_static_path(url);
            let ct = get_content_type(path.as_str());
            HandlerOutcome::Claimed(
                HttpResponse {
                    status: 200,
                    body: data,
                    content_type: Some(ct.to_owned()),
                    cors: false,
                },
            )
        },
    }
}

/// Which fixed API route a request falls on.
#[derive(Debug, Copy, Clone, PartialEq, Eq, Structural)]
pub enum ApiRoute {
    /// The fixed diagnostic payload.
    Foo,
    /// A non-POST request to the trigger route: answered as a CORS
    /// preflight probe, without reading the body.
    SamPreflight,
    /// A POST to the trigger route: runs the segmentation pipeline.
    SamTrigger,
    /// No API route matches; the handler reports `NotMine`.
    Unrouted,
}

/// The fixed route table, keyed by exact URL path; only the trigger
/// route distinguishes methods.
pub open spec fn spec_api_route(method: HttpMethod, url: Seq<char>) -> ApiRoute {
    if url == "/backend/foo"@ {
        ApiRoute::Foo
    } else if url == "/backend/sam_trigger"@ {
        if method is Post {
            ApiRoute::SamTrigger
        } else {
            ApiRoute::SamPreflight
        }
    } else {
        ApiRoute::Unrouted
    }
}

/// Classifies a request against the fixed API route table.
pub fn backend_api_route(method: HttpMethod, url: &str) -> (r: ApiRoute)
    ensures
        r == spec_api_route(method, url@),
{
    if str_eq(url, "/backend/foo") {
        ApiRoute::Foo
    } else if str_eq(url, "/backend/sam_trigger") {
        match method {
            HttpMethod::Post => ApiRoute::SamTrigger,
            _ => ApiRoute::SamPreflight,
        }
    } else {
        ApiRoute::Unrouted
    }
}

/// The diagnostic route's response: the fixed JSON object, pretty
/// printed, with CORS headers.
pub open spec fn spec_foo_response() -> ResponseModel {
    ResponseModel {
        status: 200,
        body: encode_utf8("{\n  \"z\": 3\n}"@),
        content_type: Some(spec_text_plain()),
        cors: true,
    }
}

/// Answers the diagnostic route.
pub fn foo_response() -> (o: HandlerOutcome)
    ensures
        o@ == OutcomeModel::Claimed(spec_foo_response()),
{
    let body = "{\n  \"z\": 3\n}";
    let r = HttpResponse {
        status: 200,
        body: body.as_bytes_vec(),
        content_type: Some(String::from_str("text/plain; charset=UTF-8")),
        cors: false,
    };
    HandlerOutcome::Claimed(r.allow_cors())
}

/// The preflight answer for a non-POST request to the trigger route:
/// status 200, the empty JSON string as body, CORS headers attached.
pub open spec fn spec_preflight_response() -> ResponseModel {
    ResponseModel {
        status: 200,
        body: encode_utf8("\"\""@),
        content_type: Some(spec_text_plain()),
        cors: true,
    }
}

/// Answers a CORS preflight probe of the trigger route.
pub fn preflight_response() -> (o: HandlerOutcome)
    ensures
        o@ == OutcomeModel::Claimed(spec_preflight_response()),
{
    let body = "\"\"";
    let r = HttpResponse {
        status: 200,
        body: body.as_bytes_vec(),
        content_type: Some(String::from_str("text/plain; charset=UTF-8")),
        cors: false,
    };
    HandlerOutcome::Claimed(r.allow_cors())
}

/// Answers every API route that needs neither the request body nor the
/// inference collaborator: the diagnostic route, the preflight probe,
/// and unrouted paths. For a POST to the trigger route it returns
/// `None`, and the caller runs the trigger pipeline around the
/// collaborator; no other route reads the body.
pub fn backend_api(method: HttpMethod, url: &str) -> (r: Option<HandlerOutcome>)
    ensures
        match spec_api_route(method, url@) {
            ApiRoute::Foo => r matches Some(o) && o@ == OutcomeModel::Claimed(spec_foo_response()),
            ApiRoute::SamPreflight => r matches Some(o) && o@ == OutcomeModel::Claimed(
                spec_preflight_response(),
            ),
            ApiRoute::Unrouted => r matches Some(o) && o@ is NotMine,
            ApiRoute::SamTrigger => r is None,
        },
{
    match backend_api_route(method, url) {
        ApiRoute::Foo => Some(foo_response()),
        ApiRoute::SamPreflight => Some(preflight_response()),
        ApiRoute::Unrouted => Some(HandlerOutcome::NotMine),
        ApiRoute::SamTrigger => None,
    }
}

/// Every non-POST request to the trigger route is answered as a CORS
/// preflight: status 200, the empty JSON string as body, and the
/// permissive CORS headers attached.
pub proof fn lemma_non_post_trigger_is_preflight(method: HttpMethod, url: Seq<char>)
    requires
        url == "/backend/sam_trigger"@,
        !(method is Post),
    ensures
        spec_api_route(method, url) is SamPreflight,
        spec_preflight_response().status == 200,
        spec_preflight_response().body == encode_utf8("\"\""@),
        spec_preflight_response().cors,
{
    reveal_strlit("/backend/foo");
    reveal_strlit("/backend/sam_trigger");
    assert(url != "/backend/foo"@) by {
        assert("/backend/foo"@.len() != "/backend/sam_trigger"@.len());
    }
}

} // verus!
