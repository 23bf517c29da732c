//! The webhook notification: a JSON document that names the page whose product
//! is available. Its shape and fixed values are what webhook receivers read.
use vstd::prelude::*;
use vstd::string::*;

use crate::config::WebsiteConfig;

verus! {

#[verifier::external_type_specification]
#[verifier::external_body]
pub struct ExJsonError(serde_json::Error);

/// The JSON string literal (quotes and escapes included) that encodes `s`.
pub uninterp spec fn json_string_of(s: Seq<char>) -> Seq<char>;

/// A character that a JSON string literal holds as itself: neither a quote, a
/// backslash, nor a control character below U+0020.
pub open spec fn plain_json_char(c: char) -> bool {
    c != '"' && c != '\\' && c as u32 >= 0x20
}

/// Every character of `s` stands for itself in a JSON string literal.
pub open spec fn plain_json_text(s: Seq<char>) -> bool {
    forall|i: int| 0 <= i < s.len() ==> plain_json_char(#[trigger] s[i])
}

/// `s` between double quotes.
pub open spec fn quoted(s: Seq<char>) -> Seq<char> {
    seq!['"'] + s + seq!['"']
}

/// Relies on serde_json::to_string on a `str`: it writes `s` as one JSON string
/// literal, which depends on the characters of `s` alone. It always succeeds:
/// the string is written into a `Vec<u8>`, whose writes never fail, and a `str`
/// has no other way to fail. A text without quotes, backslashes or control
/// characters is written as itself between quotes.
#[verifier::external_body]
fn json_string(s: &str) -> (r: Result<String, serde_json::Error>)
    ensures
        r is Ok,
        r matches Ok(t) ==> t@ == json_string_of(s@),
        r matches Ok(t) ==> (plain_json_text(s@) ==> t@ == quoted(s@)),
{
    serde_json::to_string(s)
}

/// The sentence that announces availability on the page named `name`.
pub open spec fn description_spec(name: Seq<char>) -> Seq<char> {
    "The product is available on "@ + name
}

/// The document up to the description's value.
pub open spec fn body_head() -> Seq<char> {
    "{\"embeds\":[{\"color\":1841963,\"description\":"@
}

/// The document between the description's value and the page's URL: footer
/// text and title are fixed.
pub open spec fn body_middle() -> Seq<char> {
    ",\"footer\":{\"text\":\"built by peet with \u{2764}\u{fe0f}\"},\"title\":\"Monitor triggered\",\"url\":"@
}

/// The document after the page's URL: the fixed user name.
pub open spec fn body_tail() -> Seq<char> {
    "}],\"username\":\"\u{1f5a5}  - Monitor\"}"@
}

/// The document around two JSON values already encoded: the description and
/// the URL.
pub open spec fn frame_spec(description_json: Seq<char>, url_json: Seq<char>) -> Seq<char> {
    body_head() + description_json + body_middle() + url_json + body_tail()
}

/// The notification for a page named `name` at `url`.
pub open spec fn webhook_body_spec(name: Seq<char>, url: Seq<char>) -> Seq<char> {
    frame_spec(json_string_of(description_spec(name)), json_string_of(url))
}

/// The sentence that announces availability on the page named `name`.
pub fn description(name: &str) -> (r: String)
    ensures
        r@ == description_spec(name@),
{
    let mut r = "The product is available on ".to_owned();
    r.append(name);
    r
}

/// Places the encoded description and URL in the notification document.
pub fn frame_body(description_json: &str, url_json: &str) -> (r: String)
    ensures
        r@ == frame_spec(description_json@, url_json@),
{
    let mut r = "{\"embeds\":[{\"color\":1841963,\"description\":".to_owned();
    r.append(description_json);
    r.append(
        ",\"footer\":{\"text\":\"built by peet with \u{2764}\u{fe0f}\"},\"title\":\"Monitor triggered\",\"url\":",
    );
    r.append(url_json);
    r.append("}],\"username\":\"\u{1f5a5}  - Monitor\"}");
    r
}

/// The fixed opening of the description is plain JSON text.
proof fn lemma_description_prefix_plain()
    ensures
        plain_json_text("The product is available on "@),
{
    reveal_strlit("The product is available on ");
}

/// The JSON encoding of `s`, which always succeeds.
fn encode(s: &str) -> (r: String)
    ensures
        r@ == json_string_of(s@),
        plain_json_text(s@) ==> r@ == quoted(s@),
{
    match json_string(s) {
        Ok(t) => t,
        // Never taken: the encoding of a `str` does not fail.
        Err(_) => String::new(),
    }
}

/// The notification for `site`, as JSON text. Only the site's name and URL
/// reach it; where both are plain JSON text they stand in it as they are.
pub fn webhook_body(site: &WebsiteConfig) -> (r: String)
    ensures
        r@ == webhook_body_spec(site.name@, site.url@),
        plain_json_text(site.name@) && plain_json_text(site.url@) ==> r@ == frame_spec(
            quoted(description_spec(site.name@)),
            quoted(site.url@),
        ),
{
    let d = description(site.name.as_str());
    proof {
        lemma_description_prefix_plain();
        let p = "The product is available on "@;
        if plain_json_text(site.name@) {
            assert forall|i: int| 0 <= i < d@.len() implies plain_json_char(#[trigger] d@[i]) by {
                if i >= p.len() {
                    assert(d@[i] == site.name@[i - p.len()]);
                }
            }
        }
    }
    let dj = encode(d.as_str());
    let uj = encode(site.url.as_str());
    frame_body(dj.as_str(), uj.as_str())
}

/// Only a site's name and URL reach its notification: sites that agree on both
/// get the same document, whatever their interval or marker, and the rest of
/// it (user name, title, colour, footer) is fixed text.
pub proof fn lemma_body_depends_on_name_and_url(a: WebsiteConfig, b: WebsiteConfig)
    requires
        a.name@ == b.name@,
        a.url@ == b.url@,
    ensures
        webhook_body_spec(a.name@, a.url@) == webhook_body_spec(b.name@, b.url@),
        webhook_body_spec(a.name@, a.url@) == body_head() + json_string_of(
            description_spec(a.name@),
        ) + body_middle() + json_string_of(a.url@) + body_tail(),
{
}

} // verus!
