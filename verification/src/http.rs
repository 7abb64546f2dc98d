//! Plain-value model of the HTTP surface: methods, responses and the
//! tri-state outcome a handler reports for one request.
//!
//! The surrounding program converts between these values and its socket
//! library; every decision about status codes, bodies, content types and
//! CORS is made here, under contract.

use vstd::prelude::*;
use vstd::utf8::encode_utf8;

verus! {

/// An HTTP request method. Only `Post` changes any decision in this
/// library; every other method is kept for faithful conversion.
#[derive(Debug, Copy, Clone, PartialEq, Eq, Structural)]
pub enum HttpMethod {
    Get,
    Head,
    Post,
    Put,
    Delete,
    Connect,
    Options,
    Trace,
    Patch,
    NonStandard,
}

/// Mathematical model of a response: status, body bytes, optional
/// content type, and whether the permissive CORS headers are attached.
pub struct ResponseModel {
    pub status: int,
    pub body: Seq<u8>,
    pub content_type: Option<Seq<char>>,
    pub cors: bool,
}

/// A response about to be handed back to the socket layer.
///
/// `cors == true` stands for the pair of headers
/// `Access-Control-Allow-Origin: *` and `Access-Control-Allow-Headers: *`.
#[derive(Debug)]
pub struct HttpResponse {
    pub status: u16,
    pub body: Vec<u8>,
    pub content_type: Option<String>,
    pub cors: bool,
}

impl View for HttpResponse {
    type V = ResponseModel;

    open spec fn view(&self) -> ResponseModel {
        ResponseModel {
            status: self.status as int,
            body: self.body@,
            content_type: match self.content_type {
                Some(s) => Some(s@),
                None => None,
            },
            cors: self.cors,
        }
    }
}

impl HttpResponse {
    /// Attaches the permissive cross-origin policy, leaving everything
    /// else untouched. Applied to every response the API handler emits,
    /// and never to static file responses.
    pub fn allow_cors(self) -> (r: HttpResponse)
        ensures
            r@ == (ResponseModel { cors: true, ..self@ }),
    {
        HttpResponse { cors: true, ..self }
    }
}

/// Mathematical model of a handler outcome.
pub enum OutcomeModel {
    Claimed(ResponseModel),
    NotMine,
    Failed(Seq<char>),
}

/// What one handler reports for one request: it answered it, it is not
/// responsible for it, or it tried and failed with a description.
#[derive(Debug)]
pub enum HandlerOutcome {
    Claimed(HttpResponse),
    NotMine,
    Failed(String),
}

impl View for HandlerOutcome {
    type V = OutcomeModel;

    open spec fn view(&self) -> OutcomeModel {
        match self {
            HandlerOutcome::Claimed(r) => OutcomeModel::Claimed(r@),
            HandlerOutcome::NotMine => OutcomeModel::NotMine,
            HandlerOutcome::Failed(e) => OutcomeModel::Failed(e@),
        }
    }
}

/// The content type of every response built from a text body: the
/// fixed plain-text header the socket library stamps on string
/// responses.
pub open spec fn spec_text_plain() -> Seq<char> {
    "text/plain; charset=UTF-8"@
}

/// The response for a request no handler claimed: a server error with a
/// fixed diagnostic body and no CORS headers.
pub open spec fn spec_unhandled_response() -> ResponseModel {
    ResponseModel {
        status: 500,
        body: encode_utf8("Nothing handles this request"@),
        content_type: Some(spec_text_plain()),
        cors: false,
    }
}

/// The response for a handler failure: a server error carrying the
/// error's textual description.
pub open spec fn spec_failure_response(msg: Seq<char>) -> ResponseModel {
    ResponseModel {
        status: 500,
        body: encode_utf8(msg),
        content_type: Some(spec_text_plain()),
        cors: false,
    }
}

/// Builds the response for a request no handler claimed.
pub fn unhandled_response() -> (r: HttpResponse)
    ensures
        r@ == spec_unhandled_response(),
{
    let text = "Nothing handles this request";
    HttpResponse {
        status: 500,
        body: text.as_bytes_vec(),
        content_type: Some(String::from_str("text/plain; charset=UTF-8")),
        cors: false,
    }
}

/// Builds the response for a handler failure from its description.
pub fn failure_response(msg: &String) -> (r: HttpResponse)
    ensures
        r@ == spec_failure_response(msg@),
{
    HttpResponse {
        status: 500,
        body: msg.as_str().as_bytes_vec(),
        content_type: Some(String::from_str("text/plain; charset=UTF-8")),
        cors: false,
    }
}

} // verus!
