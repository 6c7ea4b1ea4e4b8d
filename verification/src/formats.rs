//! Classification of text payloads into structured-data tiers, in a fixed
//! priority order: JSON first, then TOML, then plain text. The parsers of
//! the serde_json and toml crates decide membership; their results are
//! named, never restated.

use vstd::prelude::*;

verus! {

/// Whether a string is a valid JSON document, as `serde_json::from_str`
/// decides it. The answer depends on the characters alone.
pub uninterp spec fn json_ok(s: Seq<char>) -> bool;

/// The canonical indented re-serialization that `serde_json::to_string_pretty`
/// gives to a valid JSON document. Only consulted where `json_ok` holds; the
/// result depends on the characters alone.
pub uninterp spec fn json_pretty_of(s: Seq<char>) -> Seq<char>;

/// Whether a string is a valid TOML document, as `toml::from_str` decides
/// it. The answer depends on the characters alone.
pub uninterp spec fn toml_ok(s: Seq<char>) -> bool;

/// The classification tier of a text payload.
pub enum TextTier {
    Json,
    Toml,
    Plain,
}

/// The tier a text payload falls into: JSON is checked first, then TOML;
/// everything else is plain text.
pub open spec fn spec_tier(t: Seq<char>) -> TextTier {
    if json_ok(t) {
        TextTier::Json
    } else if toml_ok(t) {
        TextTier::Toml
    } else {
        TextTier::Plain
    }
}

/// The exact characters persisted for a text payload: the pretty-printed
/// form for JSON, the text itself unchanged for TOML and plain text.
pub open spec fn text_payload_view(t: Seq<char>) -> Seq<char> {
    if json_ok(t) {
        json_pretty_of(t)
    } else {
        t
    }
}

/// Relies on `serde_json::from_str::<Value>` and
/// `serde_json::to_string_pretty`: whether a string parses as JSON, and the
/// pretty form of one that does, depend on the characters alone, and
/// serializing a `serde_json::Value` cannot fail (its maps have string keys
/// and its `Serialize` impl never errors).
#[verifier::external_body]
pub(crate) fn json_pretty(s: &str) -> (r: Option<String>)
    ensures
        (r is Some) == json_ok(s@),
        r is Some ==> r->0@ == json_pretty_of(s@),
{
    match serde_json::from_str::<serde_json::Value>(s) {
        Ok(v) => match serde_json::to_string_pretty(&v) {
            Ok(p) => Some(p),
            Err(_) => None,
        },
        Err(_) => None,
    }
}

/// Relies on `toml::from_str::<Value>`: whether a string parses as a TOML
/// document depends on the characters alone.
#[verifier::external_body]
pub(crate) fn is_toml(s: &str) -> (r: bool)
    ensures
        r == toml_ok(s@),
{
    toml::from_str::<toml::Value>(s).is_ok()
}

} // verus!
