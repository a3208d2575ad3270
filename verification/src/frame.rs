//! The frame documents the endpoint serves: the image URLs they point at
//! and the HTML they are rendered as, each specified character by
//! character.

use vstd::prelude::*;
use vstd::string::*;

use crate::text::{push_decimal, spec_decimal};

verus! {

/// The sprite identifier of the fusion's head.
pub const SPRITE_HEAD: u16 = 282;

/// The sprite identifier of the fusion's body.
pub const SPRITE_BODY: u16 = 25;

/// The URL of the fixed fusion sprite: the base URL with the head and
/// body identifiers formatted into `{base}{head}.{body}.png`.
pub open spec fn spec_sprite_image_url() -> Seq<char> {
    "https://fusioncalc.com/wp-content/themes/twentytwentyone/pokemon/custom-fusion-sprites-main/CustomBattlers/"@
        + spec_decimal(SPRITE_HEAD as nat) + "."@ + spec_decimal(SPRITE_BODY as nat) + ".png"@
}

/// Builds the fixed fusion sprite URL.
pub fn sprite_image_url() -> (r: String)
    ensures
        r@ == spec_sprite_image_url(),
{
    let mut url = String::from_str(
        "https://fusioncalc.com/wp-content/themes/twentytwentyone/pokemon/custom-fusion-sprites-main/CustomBattlers/",
    );
    push_decimal(&mut url, SPRITE_HEAD);
    url.append(".");
    push_decimal(&mut url, SPRITE_BODY);
    url.append(".png");
    proof {
        assert(url@ =~= spec_sprite_image_url());
    }
    url
}

/// The placeholder-image URL carrying a character label. An empty label
/// leaves a trailing `text=` with no value.
pub open spec fn spec_placeholder_image_url(label: Seq<char>) -> Seq<char> {
    "https://placehold.co/600x400/black/yellow?text="@ + label
}

/// Builds the placeholder-image URL for a character label.
pub fn placeholder_image_url(label: &str) -> (r: String)
    ensures
        r@ == spec_placeholder_image_url(label@),
{
    let mut url = String::from_str("https://placehold.co/600x400/black/yellow?text=");
    url.append(label);
    url
}

/// An HTML `content` attribute holding a value.
pub open spec fn spec_content_attribute(value: Seq<char>) -> Seq<char> {
    "content=\""@ + value + "\""@
}

/// The initial frame document served on GET: it declares the sprite image
/// and points the client's next action back at `post_url`.
pub open spec fn spec_get_frame_html(post_url: Seq<char>) -> Seq<char> {
    "<!DOCTYPE html>\n<html lang=\"en\">\n<head>\n    <meta property=\"og:image\" "@
        + spec_content_attribute(spec_sprite_image_url())
        + " />\n    <meta property=\"fc:frame\" content=\"vNext\" />\n    <meta property=\"fc:frame:post_url\" "@
        + spec_content_attribute(post_url)
        + " />\n    <meta property=\"fc:frame:image\" "@
        + spec_content_attribute(spec_sprite_image_url())
        + " />\n    <meta property=\"fc:frame:button:1\" content=\"Woah, Cool Fusion!\" />\n    <title>Farcaster Frames Template</title>\n</head>\n<body>\n    <h1>Woah, Cool Fusion!</h1>\n</body>\n</html>"@
}

/// Renders the initial frame document for a post-back URL.
pub fn render_get_frame(post_url: &str) -> (r: String)
    ensures
        r@ == spec_get_frame_html(post_url@),
{
    let image = sprite_image_url();
    let mut html = String::from_str(
        "<!DOCTYPE html>\n<html lang=\"en\">\n<head>\n    <meta property=\"og:image\" ",
    );
    html.append("content=\"");
    html.append(image.as_str());
    html.append("\"");
    html.append(
        " />\n    <meta property=\"fc:frame\" content=\"vNext\" />\n    <meta property=\"fc:frame:post_url\" ",
    );
    html.append("content=\"");
    html.append(post_url);
    html.append("\"");
    html.append(" />\n    <meta property=\"fc:frame:image\" ");
    html.append("content=\"");
    html.append(image.as_str());
    html.append("\"");
    html.append(
        " />\n    <meta property=\"fc:frame:button:1\" content=\"Woah, Cool Fusion!\" />\n    <title>Farcaster Frames Template</title>\n</head>\n<body>\n    <h1>Woah, Cool Fusion!</h1>\n</body>\n</html>",
    );
    proof {
        assert(html@ =~= spec_get_frame_html(post_url@));
    }
    html
}

/// The action-response document served on a successful POST: it declares
/// the placeholder image for the resolved label, with no button and no
/// post-back URL.
pub open spec fn spec_post_frame_html(label: Seq<char>) -> Seq<char> {
    "<!DOCTYPE html>\n<html lang=\"en\">\n<head>\n    <meta property=\"og:image\" "@
        + spec_content_attribute(spec_placeholder_image_url(label))
        + " />\n    <meta property=\"fc:frame\" content=\"vNext\" />\n    <meta property=\"fc:frame:image\" "@
        + spec_content_attribute(spec_placeholder_image_url(label))
        + " />\n    <title>Farcaster Frames Template</title>\n</head>\n</html>"@
}

/// Renders the action-response document for a resolved character label.
pub fn render_post_frame(label: &str) -> (r: String)
    ensures
        r@ == spec_post_frame_html(label@),
{
    let image = placeholder_image_url(label);
    let mut html = String::from_str(
        "<!DOCTYPE html>\n<html lang=\"en\">\n<head>\n    <meta property=\"og:image\" ",
    );
    html.append("content=\"");
    html.append(image.as_str());
    html.append("\"");
    html.append(
        " />\n    <meta property=\"fc:frame\" content=\"vNext\" />\n    <meta property=\"fc:frame:image\" ",
    );
    html.append("content=\"");
    html.append(image.as_str());
    html.append("\"");
    html.append(" />\n    <title>Farcaster Frames Template</title>\n</head>\n</html>");
    proof {
        assert(html@ =~= spec_post_frame_html(label@));
    }
    html
}

} // verus!
