use frame_handler::frame::{
    placeholder_image_url, render_get_frame, render_post_frame, sprite_image_url, SPRITE_BODY,
    SPRITE_HEAD,
};
use frame_handler::handler::{
    handle_get_request, handle_post_request, handler, method_not_allowed, resolve_character,
    ApiError, ContentType,
};
use frame_handler::payload::{FrameActionPayload, PayloadParse, UntrustedData};
use frame_handler::text::{decimal_string, str_eq};

const SPRITE_URL: &str = "https://fusioncalc.com/wp-content/themes/twentytwentyone/pokemon/custom-fusion-sprites-main/CustomBattlers/282.25.png";
const PLACEHOLDER_PREFIX: &str = "https://placehold.co/600x400/black/yellow?text=";

fn parsed(fid: u64) -> PayloadParse {
    PayloadParse::Parsed(FrameActionPayload {
        untrusted_data: UntrustedData { fid },
    })
}

#[test]
fn put_is_method_not_allowed() {
    let r = handler("PUT", "https://example.test/api", PayloadParse::Empty, None);
    assert_eq!(r.status, 405);
    assert_eq!(r.content_type, ContentType::TextPlain);
    assert_eq!(r.body, "Method Not Allowed");
}

#[test]
fn delete_is_method_not_allowed() {
    let r = handler(
        "DELETE",
        "https://example.test/api",
        PayloadParse::Malformed,
        Some("Pikachu".to_string()),
    );
    assert_eq!(r.status, 405);
    assert_eq!(r.body, "Method Not Allowed");
}

#[test]
fn method_not_allowed_response_is_plain() {
    let r = method_not_allowed();
    assert_eq!(r.status, 405);
    assert_eq!(r.content_type.as_str(), "text/plain");
    assert_eq!(r.body, "Method Not Allowed");
}

#[test]
fn get_returns_initial_frame() {
    let uri = "https://example.test/api/frame";
    let r = handler("GET", uri, PayloadParse::Empty, None);
    assert_eq!(r.status, 200);
    assert_eq!(r.content_type, ContentType::TextHtml);
    assert_eq!(r.content_type.as_str(), "text/html");
    assert!(r.body.contains(&format!("content=\"{}\"", uri)));
    assert!(r.body.contains(SPRITE_URL));
}

#[test]
fn get_frame_declares_all_meta_properties() {
    let uri = "https://example.test/api/frame";
    let body = render_get_frame(uri);
    assert!(body.contains(&format!(
        "<meta property=\"og:image\" content=\"{}\" />",
        SPRITE_URL
    )));
    assert!(body.contains("<meta property=\"fc:frame\" content=\"vNext\" />"));
    assert!(body.contains(&format!(
        "<meta property=\"fc:frame:post_url\" content=\"{}\" />",
        uri
    )));
    assert!(body.contains(&format!(
        "<meta property=\"fc:frame:image\" content=\"{}\" />",
        SPRITE_URL
    )));
    assert!(body.contains("<meta property=\"fc:frame:button:1\" content=\"Woah, Cool Fusion!\" />"));
}

#[test]
fn get_branch_matches_handle_get_request() {
    let uri = "https://example.test/api";
    let via_handler = handler("GET", uri, PayloadParse::Empty, None);
    let direct = handle_get_request(uri);
    assert_eq!(via_handler.status, direct.status);
    assert_eq!(via_handler.body, direct.body);
}

#[test]
fn post_malformed_payload_is_rejected() {
    let r = handler(
        "POST",
        "https://example.test/api",
        PayloadParse::Malformed,
        None,
    );
    assert_eq!(r.status, 400);
    assert_eq!(r.content_type, ContentType::ApplicationJson);
    assert_eq!(
        r.body,
        "{\"message\":\"Invalid payload\",\"code\":\"invalid_payload\"}"
    );
}

#[test]
fn post_empty_payload_is_rejected() {
    let r = handler("POST", "https://example.test/api", PayloadParse::Empty, None);
    assert_eq!(r.status, 400);
    assert_eq!(r.content_type, ContentType::ApplicationJson);
    assert_eq!(r.body, "{\"message\":\"No payload\",\"code\":\"no_payload\"}");
}

#[test]
fn post_with_character_renders_label() {
    let r = handler(
        "POST",
        "https://example.test/api",
        parsed(42),
        Some("Pikachu".to_string()),
    );
    assert_eq!(r.status, 200);
    assert_eq!(r.content_type, ContentType::TextHtml);
    assert!(r
        .body
        .contains("https://placehold.co/600x400/black/yellow?text=Pikachu"));
}

#[test]
fn post_frame_has_no_button_and_no_post_url() {
    let r = handle_post_request(parsed(42), Some("Pikachu".to_string()));
    assert!(!r.body.contains("fc:frame:button"));
    assert!(!r.body.contains("fc:frame:post_url"));
    assert!(r.body.contains("<meta property=\"fc:frame\" content=\"vNext\" />"));
    assert!(r.body.contains(&format!(
        "<meta property=\"og:image\" content=\"{}Pikachu\" />",
        PLACEHOLDER_PREFIX
    )));
    assert!(r.body.contains(&format!(
        "<meta property=\"fc:frame:image\" content=\"{}Pikachu\" />",
        PLACEHOLDER_PREFIX
    )));
}

#[test]
fn post_without_character_renders_empty_label() {
    let r = handler("POST", "https://example.test/api", parsed(7), None);
    assert_eq!(r.status, 200);
    assert!(r
        .body
        .contains("https://placehold.co/600x400/black/yellow?text=\""));
}

#[test]
fn repeated_request_is_byte_identical() {
    let first = handler("POST", "https://example.test/api", parsed(7), None);
    let second = handler("POST", "https://example.test/api", parsed(7), None);
    assert_eq!(first.status, second.status);
    assert_eq!(first.content_type, second.content_type);
    assert_eq!(first.body, second.body);
}

#[test]
fn resolve_character_defaults_to_empty() {
    assert_eq!(resolve_character(Some("Mew".to_string())), "Mew");
    assert_eq!(resolve_character(None), "");
}

#[test]
fn api_error_renders_as_json() {
    let error = ApiError {
        message: "No payload".to_string(),
        code: "no_payload".to_string(),
    };
    assert_eq!(
        error.to_body(),
        "{\"message\":\"No payload\",\"code\":\"no_payload\"}"
    );
}

#[test]
fn sprite_url_uses_fixed_identifiers() {
    assert_eq!(SPRITE_HEAD, 282);
    assert_eq!(SPRITE_BODY, 25);
    assert_eq!(sprite_image_url(), SPRITE_URL);
}

#[test]
fn placeholder_url_carries_label() {
    assert_eq!(
        placeholder_image_url("Pikachu"),
        format!("{}Pikachu", PLACEHOLDER_PREFIX)
    );
    assert_eq!(placeholder_image_url(""), PLACEHOLDER_PREFIX);
}

#[test]
fn post_frame_for_empty_label_matches_absent_character() {
    let absent = handle_post_request(parsed(3), None);
    let empty = handle_post_request(parsed(3), Some(String::new()));
    assert_eq!(absent.body, empty.body);
    assert_eq!(absent.body, render_post_frame(""));
}

#[test]
fn decimal_rendering_is_exact() {
    assert_eq!(decimal_string(0), "0");
    assert_eq!(decimal_string(7), "7");
    assert_eq!(decimal_string(10), "10");
    assert_eq!(decimal_string(282), "282");
    assert_eq!(decimal_string(65535), "65535");
}

#[test]
fn str_eq_compares_contents() {
    assert!(str_eq("GET", "GET"));
    assert!(!str_eq("GET", "POST"));
    assert!(!str_eq("GET", "GE"));
    assert!(str_eq("", ""));
}
