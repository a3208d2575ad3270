//! The properties the endpoint promises, each proved from the handler's
//! specification.

use vstd::prelude::*;

use crate::frame::{
    spec_content_attribute, spec_get_frame_html, spec_placeholder_image_url, spec_post_frame_html,
    spec_sprite_image_url,
};
use crate::handler::{
    spec_api_error_body, spec_handle, spec_post_response, ContentType, SpecResponse,
};
use crate::payload::{FrameActionPayload, PayloadParse};
use crate::text::{contains_substring, lemma_concat_contains};

verus! {

proof fn lemma_post_is_not_get()
    ensures
        "POST"@ != "GET"@,
{
    reveal_strlit("GET");
    reveal_strlit("POST");
    assert("POST"@.len() == 4);
    assert("GET"@.len() == 3);
}

/// Law: any method other than GET and POST is rejected with status 405
/// and the plain-text body `Method Not Allowed`.
pub proof fn lemma_unsupported_method_rejected(
    method: Seq<char>,
    uri: Seq<char>,
    payload: PayloadParse,
    character: Option<Seq<char>>,
)
    requires
        method != "GET"@,
        method != "POST"@,
    ensures
        spec_handle(method, uri, payload, character).status == 405,
        spec_handle(method, uri, payload, character).content_type == ContentType::TextPlain,
        spec_handle(method, uri, payload, character).body == "Method Not Allowed"@,
{
}

/// Law: a GET request never fails: the response has status 200 and media
/// type `text/html`, its body declares the request's own URI as the
/// post-back target, and it carries the fixed sprite image URL.
pub proof fn lemma_get_frame_declares_targets(
    method: Seq<char>,
    uri: Seq<char>,
    payload: PayloadParse,
    character: Option<Seq<char>>,
)
    requires
        method == "GET"@,
    ensures
        spec_handle(method, uri, payload, character).status == 200,
        spec_handle(method, uri, payload, character).content_type == ContentType::TextHtml,
        contains_substring(
            spec_handle(method, uri, payload, character).body,
            "content=\""@ + uri + "\""@,
        ),
        contains_substring(spec_handle(method, uri, payload, character).body, spec_sprite_image_url()),
{
    let body = spec_get_frame_html(uri);
    let image = spec_sprite_image_url();
    let head = "<!DOCTYPE html>\n<html lang=\"en\">\n<head>\n    <meta property=\"og:image\" "@;
    let between = " />\n    <meta property=\"fc:frame\" content=\"vNext\" />\n    <meta property=\"fc:frame:post_url\" "@;
    let after_url = " />\n    <meta property=\"fc:frame:image\" "@;
    let tail = " />\n    <meta property=\"fc:frame:button:1\" content=\"Woah, Cool Fusion!\" />\n    <title>Farcaster Frames Template</title>\n</head>\n<body>\n    <h1>Woah, Cool Fusion!</h1>\n</body>\n</html>"@;

    let pre_url = head + spec_content_attribute(image) + between;
    let post_url = after_url + spec_content_attribute(image) + tail;
    assert(body =~= pre_url + spec_content_attribute(uri) + post_url);
    lemma_concat_contains(pre_url, spec_content_attribute(uri), post_url);

    let pre_image = head + "content=\""@;
    let post_image = "\""@ + between + spec_content_attribute(uri) + after_url
        + spec_content_attribute(image) + tail;
    assert(body =~= pre_image + image + post_image);
    lemma_concat_contains(pre_image, image, post_image);
}

/// Law: the JSON error body carries its machine-readable code under the
/// `code` key.
pub proof fn lemma_api_error_body_encodes_code(message: Seq<char>, code: Seq<char>)
    ensures
        contains_substring(spec_api_error_body(message, code), "\"code\":\""@ + code + "\""@),
{
    let pre = "{\"message\":\""@ + message + "\","@;
    let mid = "\"code\":\""@ + code + "\""@;
    let post = "}"@;
    reveal_strlit("{\"message\":\"");
    reveal_strlit("\",\"code\":\"");
    reveal_strlit("\"}");
    reveal_strlit("\",");
    reveal_strlit("\"code\":\"");
    reveal_strlit("\"");
    reveal_strlit("}");
    assert(spec_api_error_body(message, code) =~= pre + mid + post);
    lemma_concat_contains(pre, mid, post);
}

/// Law: a POST whose body fails to deserialize is rejected with status
/// 400 and a body encoding the code `invalid_payload`.
pub proof fn lemma_malformed_payload_rejected(
    uri: Seq<char>,
    character: Option<Seq<char>>,
)
    ensures
        spec_handle("POST"@, uri, PayloadParse::Malformed, character).status == 400,
        spec_handle("POST"@, uri, PayloadParse::Malformed, character).body
            == spec_api_error_body("Invalid payload"@, "invalid_payload"@),
        contains_substring(
            spec_handle("POST"@, uri, PayloadParse::Malformed, character).body,
            "\"code\":\""@ + "invalid_payload"@ + "\""@,
        ),
{
    lemma_post_is_not_get();
    assert(spec_handle("POST"@, uri, PayloadParse::Malformed, character)
        == spec_post_response(PayloadParse::Malformed, character));
    lemma_api_error_body_encodes_code("Invalid payload"@, "invalid_payload"@);
}

/// Law: a POST whose body deserializes but yields no payload is rejected
/// with status 400 and a body encoding the code `no_payload`.
pub proof fn lemma_empty_payload_rejected(
    uri: Seq<char>,
    character: Option<Seq<char>>,
)
    ensures
        spec_handle("POST"@, uri, PayloadParse::Empty, character).status == 400,
        spec_handle("POST"@, uri, PayloadParse::Empty, character).body
            == spec_api_error_body("No payload"@, "no_payload"@),
        contains_substring(
            spec_handle("POST"@, uri, PayloadParse::Empty, character).body,
            "\"code\":\""@ + "no_payload"@ + "\""@,
        ),
{
    lemma_post_is_not_get();
    assert(spec_handle("POST"@, uri, PayloadParse::Empty, character)
        == spec_post_response(PayloadParse::Empty, character));
    lemma_api_error_body_encodes_code("No payload"@, "no_payload"@);
}

/// Law: a POST with a parsed payload succeeds, and its body carries the
/// placeholder image URL with the label the lookup collaborator returned.
pub proof fn lemma_parsed_payload_renders_label(
    uri: Seq<char>,
    payload: FrameActionPayload,
    label: Seq<char>,
)
    ensures
        spec_handle("POST"@, uri, PayloadParse::Parsed(payload), Some(label)).status == 200,
        spec_handle("POST"@, uri, PayloadParse::Parsed(payload), Some(label)).content_type
            == ContentType::TextHtml,
        contains_substring(
            spec_handle("POST"@, uri, PayloadParse::Parsed(payload), Some(label)).body,
            "https://placehold.co/600x400/black/yellow?text="@ + label,
        ),
{
    lemma_post_is_not_get();
    assert(spec_handle("POST"@, uri, PayloadParse::Parsed(payload), Some(label))
        == spec_post_response(PayloadParse::Parsed(payload), Some(label)));
    let body = spec_post_frame_html(label);
    let image = spec_placeholder_image_url(label);
    assert(spec_post_response(PayloadParse::Parsed(payload), Some(label)).body == body);
    assert("https://placehold.co/600x400/black/yellow?text="@ + label == image);
    let head = "<!DOCTYPE html>\n<html lang=\"en\">\n<head>\n    <meta property=\"og:image\" "@;
    let between = " />\n    <meta property=\"fc:frame\" content=\"vNext\" />\n    <meta property=\"fc:frame:image\" "@;
    let tail = " />\n    <title>Farcaster Frames Template</title>\n</head>\n</html>"@;

    let pre_image = head + "content=\""@;
    let post_image = "\""@ + between + spec_content_attribute(image) + tail;
    assert(body =~= pre_image + image + post_image);
    lemma_concat_contains(pre_image, image, post_image);
}

/// Law: when the lookup collaborator has no match the label degrades to
/// the empty string: the response equals the one for an empty label, and
/// its body carries the placeholder URL with a bare trailing `text=`.
pub proof fn lemma_absent_character_renders_empty(uri: Seq<char>, payload: FrameActionPayload)
    ensures
        spec_handle("POST"@, uri, PayloadParse::Parsed(payload), None).status == 200,
        spec_handle("POST"@, uri, PayloadParse::Parsed(payload), None)
            == spec_handle("POST"@, uri, PayloadParse::Parsed(payload), Some(Seq::empty())),
        contains_substring(
            spec_handle("POST"@, uri, PayloadParse::Parsed(payload), None).body,
            "https://placehold.co/600x400/black/yellow?text="@,
        ),
{
    lemma_post_is_not_get();
    let label = Seq::<char>::empty();
    lemma_parsed_payload_renders_label(uri, payload, label);
    assert("https://placehold.co/600x400/black/yellow?text="@ + label
        =~= "https://placehold.co/600x400/black/yellow?text="@);
}

/// Law: the response is a function of the request and the lookup answer
/// alone — the handler holds no state, so repeating the same request
/// yields a byte-identical response.
pub proof fn lemma_response_deterministic(
    method: Seq<char>,
    uri: Seq<char>,
    payload: PayloadParse,
    character: Option<Seq<char>>,
    first: SpecResponse,
    second: SpecResponse,
)
    requires
        first == spec_handle(method, uri, payload, character),
        second == spec_handle(method, uri, payload, character),
    ensures
        first == second,
{
}

} // verus!
