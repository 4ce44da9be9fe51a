//! The content-preview formatting pipeline: pick the text to show from the
//! raw payload and the content type, then wrap it to the render width.
//!
//! Dispatch rules, in order: a JSON payload is pretty-printed (or, when it
//! does not parse, shown behind an explanatory banner); an image becomes a
//! one-line placeholder; an octet stream or an undecodable payload becomes
//! the binary placeholder; any other non-text type gets a banner above the
//! raw payload; text and untyped payloads pass through unchanged.  A render
//! width of 0 yields the whole text as a single unwrapped line.

use vstd::prelude::*;
use vstd::string::{StrSliceExecFns, StringExecFns};

use crate::text::{has_prefix, str_eq, str_starts_with};

verus! {

/// What `serde_json::from_str::<Value>` decides about a candidate document.
pub uninterp spec fn json_parses(s: Seq<char>) -> bool;

/// The pretty-printed rendering of the JSON document `s`.
pub uninterp spec fn json_pretty(s: Seq<char>) -> Seq<char>;

/// The lines `textwrap::wrap` produces for a text at a given width.
pub uninterp spec fn wrap_of(s: Seq<char>, width: int) -> Seq<Seq<char>>;

/// The fixed placeholder a payload decodes to when it is not valid text.
pub open spec fn binary_sentinel() -> Seq<char> {
    "[Binary content - not valid UTF-8]"@
}

/// Relies on `serde_json::from_str::<serde_json::Value>` and
/// `serde_json::to_string_pretty`: parsing succeeds on exactly the strings
/// that are valid JSON documents, pretty-printing a parsed `Value` never
/// fails (a `Value` holds only string map keys and its serializer reports
/// no errors), and both results depend on the input string alone.
#[verifier::external_body]
fn pretty_print_json(s: &str) -> (r: Option<String>)
    ensures
        r is Some <==> json_parses(s@),
        r matches Some(p) ==> p@ == json_pretty(s@),
{
    match serde_json::from_str::<serde_json::Value>(s) {
        Ok(v) => serde_json::to_string_pretty(&v).ok(),
        Err(_) => Option::None,
    }
}

/// Relies on `textwrap::wrap`: greedy word-wrapping of each input line to
/// the given width; the result depends on the text and the width alone.
#[verifier::external_body]
fn wrap_text(s: &str, width: usize) -> (r: Vec<String>)
    requires
        width >= 1,
    ensures
        r.deep_view() == wrap_of(s@, width as int),
{
    textwrap::wrap(s, width).into_iter().map(|line| line.into_owned()).collect()
}

/// The view of an optional content-type string.
pub open spec fn ct_view(ct: Option<String>) -> Option<Seq<char>> {
    match ct {
        Option::Some(c) => Option::Some(c@),
        Option::None => Option::None,
    }
}

/// The text the preview pane will wrap, chosen from the raw payload and the
/// content type by the dispatch rules (see the module comment).
pub open spec fn preview_text(raw: Seq<char>, ct: Option<Seq<char>>) -> Seq<char> {
    match ct {
        Option::Some(c) => if has_prefix(c, "application/json"@) && raw != binary_sentinel() {
            if json_parses(raw) {
                json_pretty(raw)
            } else {
                "[Content-Type: application/json, but failed to parse as JSON]\n\n"@ + raw
            }
        } else if has_prefix(c, "image/"@) {
            "[Image: "@ + c + "]"@
        } else if has_prefix(c, "application/octet-stream"@) || raw == binary_sentinel() {
            if raw == binary_sentinel() {
                raw
            } else {
                "[Binary Data: "@ + c + "]"@
            }
        } else if !has_prefix(c, "text/"@) {
            "[Preview for Content-Type: "@ + c + "]\n\n"@ + raw
        } else {
            raw
        },
        Option::None => raw,
    }
}

/// The lines the preview pane shows: at width 0 the whole chosen text as
/// one line, otherwise the chosen text wrapped to the width.
pub open spec fn preview_lines(raw: Seq<char>, ct: Option<Seq<char>>, width: int) -> Seq<
    Seq<char>,
> {
    if width == 0 {
        seq![preview_text(raw, ct)]
    } else {
        wrap_of(preview_text(raw, ct), width)
    }
}

/// Chooses the text to show for a payload with the given content type.
pub fn format_preview_text(raw: &String, content_type: &Option<String>) -> (r: String)
    ensures
        r@ == preview_text(raw@, ct_view(*content_type)),
{
    match content_type {
        Option::Some(ct) => {
            let is_sentinel = str_eq(raw.as_str(), "[Binary content - not valid UTF-8]");
            if str_starts_with(ct.as_str(), "application/json") && !is_sentinel {
                match pretty_print_json(raw.as_str()) {
                    Option::Some(p) => p,
                    Option::None => {
                        let mut s = String::from_str(
                            "[Content-Type: application/json, but failed to parse as JSON]\n\n",
                        );
                        s.append(raw.as_str());
                        s
                    },
                }
            } else if str_starts_with(ct.as_str(), "image/") {
                let mut s = String::from_str("[Image: ");
                s.append(ct.as_str());
                s.append("]");
                s
            } else if str_starts_with(ct.as_str(), "application/octet-stream") || is_sentinel {
                if is_sentinel {
                    raw.clone()
                } else {
                    let mut s = String::from_str("[Binary Data: ");
                    s.append(ct.as_str());
                    s.append("]");
                    s
                }
            } else if !str_starts_with(ct.as_str(), "text/") {
                let mut s = String::from_str("[Preview for Content-Type: ");
                s.append(ct.as_str());
                s.append("]\n\n");
                s.append(raw.as_str());
                s
            } else {
                raw.clone()
            }
        },
        Option::None => raw.clone(),
    }
}

/// Wraps the chosen text to the render width; a width of 0 yields exactly
/// one line holding the whole text.
pub fn wrap_preview_lines(text: &String, available_width: u16) -> (r: Vec<String>)
    ensures
        r.deep_view() == (if available_width == 0 {
            seq![text@]
        } else {
            wrap_of(text@, available_width as int)
        }),
        available_width == 0 ==> r@.len() == 1 && r@[0]@ == text@,
{
    if available_width == 0 {
        let mut lines: Vec<String> = Vec::new();
        lines.push(text.clone());
        proof {
            assert(lines.deep_view() =~= seq![text@]);
        }
        lines
    } else {
        wrap_text(text.as_str(), available_width as usize)
    }
}

} // verus!
