//! Method dispatch and response construction: the one piece of logic the
//! endpoint performs. Every branch's response is specified exactly, and
//! the properties the endpoint promises are proved below the handler.

use vstd::prelude::*;
use vstd::string::*;

use crate::frame::{
    render_get_frame, render_post_frame, spec_content_attribute, spec_get_frame_html,
    spec_placeholder_image_url, spec_post_frame_html, spec_sprite_image_url,
};
use crate::payload::{FrameActionPayload, PayloadParse};
use crate::text::{contains_substring, lemma_concat_contains, str_eq};

verus! {

/// The media type named in a response's `Content-Type` header.
#[derive(Clone, Copy, Debug, PartialEq, Eq, Structural)]
pub enum ContentType {
    TextHtml,
    ApplicationJson,
    TextPlain,
}

impl ContentType {
    /// The header value for this media type.
    pub open spec fn spec_as_str(self) -> Seq<char> {
        match self {
            ContentType::TextHtml => "text/html"@,
            ContentType::ApplicationJson => "application/json"@,
            ContentType::TextPlain => "text/plain"@,
        }
    }

    /// The header value for this media type.
    pub fn as_str(self) -> (r: &'static str)
        ensures
            r@ == self.spec_as_str(),
    {
        match self {
            ContentType::TextHtml => "text/html",
            ContentType::ApplicationJson => "application/json",
            ContentType::TextPlain => "text/plain",
        }
    }
}

/// The mathematical model of a response: its status, its media type and
/// the text of its body.
#[verifier::ext_equal]
pub struct SpecResponse {
    pub status: int,
    pub content_type: ContentType,
    pub body: Seq<char>,
}

/// A response of the endpoint, constructed fresh for each request and
/// never mutated afterwards.
#[derive(Debug)]
pub struct FrameResponse {
    pub status: u16,
    pub content_type: ContentType,
    pub body: String,
}

impl View for FrameResponse {
    type V = SpecResponse;

    open spec fn view(&self) -> SpecResponse {
        SpecResponse {
            status: self.status as int,
            content_type: self.content_type,
            body: self.body@,
        }
    }
}

/// The body sent with a 400 response: a message for humans and a
/// machine-readable code.
#[derive(Debug)]
pub struct ApiError {
    pub message: String,
    pub code: String,
}

/// The JSON rendering of an [`ApiError`], fields in declaration order.
pub open spec fn spec_api_error_body(message: Seq<char>, code: Seq<char>) -> Seq<char> {
    "{\"message\":\""@ + message + "\",\"code\":\""@ + code + "\"}"@
}

impl ApiError {
    /// Renders the error as the JSON body of a response.
    pub fn to_body(&self) -> (r: String)
        ensures
            r@ == spec_api_error_body(self.message@, self.code@),
    {
        let mut body = String::from_str("{\"message\":\"");
        body.append(self.message.as_str());
        body.append("\",\"code\":\"");
        body.append(self.code.as_str());
        body.append("\"}");
        proof {
            assert(body@ =~= spec_api_error_body(self.message@, self.code@));
        }
        body
    }
}

/// The response to an unsupported method.
pub open spec fn spec_method_not_allowed() -> SpecResponse {
    SpecResponse { status: 405, content_type: ContentType::TextPlain, body: "Method Not Allowed"@ }
}

/// The response to a GET request with the given URI.
pub open spec fn spec_get_response(uri: Seq<char>) -> SpecResponse {
    SpecResponse {
        status: 200,
        content_type: ContentType::TextHtml,
        body: spec_get_frame_html(uri),
    }
}

/// A payload rejection: status 400 with the JSON error body.
pub open spec fn spec_bad_request(message: Seq<char>, code: Seq<char>) -> SpecResponse {
    SpecResponse {
        status: 400,
        content_type: ContentType::ApplicationJson,
        body: spec_api_error_body(message, code),
    }
}

/// The label a lookup answer resolves to: absence is not an error, it
/// degrades to the empty label.
pub open spec fn spec_resolved_label(character: Option<Seq<char>>) -> Seq<char> {
    match character {
        Some(label) => label,
        None => Seq::empty(),
    }
}

/// The response to a POST request, by the outcome of deserializing its
/// body. `character` is the lookup collaborator's answer for the parsed
/// payload's `fid`.
pub open spec fn spec_post_response(
    payload: PayloadParse,
    character: Option<Seq<char>>,
) -> SpecResponse {
    match payload {
        PayloadParse::Malformed => spec_bad_request("Invalid payload"@, "invalid_payload"@),
        PayloadParse::Empty => spec_bad_request("No payload"@, "no_payload"@),
        PayloadParse::Parsed(_) => SpecResponse {
            status: 200,
            content_type: ContentType::TextHtml,
            body: spec_post_frame_html(spec_resolved_label(character)),
        },
    }
}

/// The response to any request: dispatch on the method, then the branch's
/// own response. The result is a function of the request and the lookup
/// answer alone, so repeating a request yields an identical response.
pub open spec fn spec_handle(
    method: Seq<char>,
    uri: Seq<char>,
    payload: PayloadParse,
    character: Option<Seq<char>>,
) -> SpecResponse {
    if method == "GET"@ {
        spec_get_response(uri)
    } else if method == "POST"@ {
        spec_post_response(payload, character)
    } else {
        spec_method_not_allowed()
    }
}

/// The view of a lookup answer.
pub open spec fn spec_label_of(character: Option<String>) -> Option<Seq<char>> {
    match character {
        Some(label) => Some(label@),
        None => None,
    }
}

/// Coerces the lookup collaborator's answer to a label at the call site:
/// no match is not an error, it degrades to the empty label.
pub fn resolve_character(character: Option<String>) -> (r: String)
    ensures
        r@ == spec_resolved_label(spec_label_of(character)),
{
    match character {
        Some(label) => label,
        None => String::new(),
    }
}

/// Serves a GET request: the initial frame document, declaring the
/// request's own URI as the post-back target. This branch cannot fail.
pub fn handle_get_request(uri: &str) -> (r: FrameResponse)
    ensures
        r@ == spec_get_response(uri@),
{
    FrameResponse {
        status: 200,
        content_type: ContentType::TextHtml,
        body: render_get_frame(uri),
    }
}

/// Serves a POST request from the outcome of deserializing its body and
/// the lookup collaborator's answer for the payload's `fid`.
pub fn handle_post_request(payload: PayloadParse, character: Option<String>) -> (r: FrameResponse)
    ensures
        r@ == spec_post_response(payload, spec_label_of(character)),
{
    match payload {
        PayloadParse::Malformed => {
            let error = ApiError {
                message: String::from_str("Invalid payload"),
                code: String::from_str("invalid_payload"),
            };
            let body = error.to_body();
            FrameResponse { status: 400, content_type: ContentType::ApplicationJson, body }
        },
        PayloadParse::Empty => {
            let error = ApiError {
                message: String::from_str("No payload"),
                code: String::from_str("no_payload"),
            };
            let body = error.to_body();
            FrameResponse { status: 400, content_type: ContentType::ApplicationJson, body }
        },
        PayloadParse::Parsed(_) => {
            let label = resolve_character(character);
            FrameResponse {
                status: 200,
                content_type: ContentType::TextHtml,
                body: render_post_frame(label.as_str()),
            }
        },
    }
}

/// Rejects an unsupported method.
pub fn method_not_allowed() -> (r: FrameResponse)
    ensures
        r@ == spec_method_not_allowed(),
{
    FrameResponse {
        status: 405,
        content_type: ContentType::TextPlain,
        body: String::from_str("Method Not Allowed"),
    }
}

/// Handles one request: dispatches on the HTTP method and constructs the
/// branch's response. `payload` is the outcome of deserializing the body
/// (consulted only for POST) and `character` is the lookup collaborator's
/// answer for the payload's `fid` (`None` where there was no match or no
/// payload to look up).
pub fn handler(
    method: &str,
    uri: &str,
    payload: PayloadParse,
    character: Option<String>,
) -> (r: FrameResponse)
    ensures
        r@ == spec_handle(method@, uri@, payload, spec_label_of(character)),
{
    if str_eq(method, "GET") {
        handle_get_request(uri)
    } else if str_eq(method, "POST") {
        handle_post_request(payload, character)
    } else {
        method_not_allowed()
    }
}

} // verus!
