//! Trusted boundary to `serde_json` and `serde_yaml`: structured values are
//! carried opaquely as `serde_json::Value`; parsing and serialisation are
//! named, and the serialise-then-parse round trip is recorded on the
//! serialiser for every value the parser itself can yield.

use vstd::prelude::*;

verus! {

#[verifier::external_type_specification]
#[verifier::external_body]
pub struct ExJsonValue(serde_json::Value);

/// The structured value that `serde_json::from_str::<Value>` yields on a
/// text, `None` where the text is not valid JSON. Parsing depends on the
/// text alone.
pub uninterp spec fn json_parsed(s: Seq<char>) -> Option<serde_json::Value>;

/// The pretty-printed JSON text that `serde_json::to_string_pretty` yields
/// for a value; it depends on the value alone.
pub uninterp spec fn json_pretty(v: serde_json::Value) -> Seq<char>;

/// The YAML text that `serde_yaml::to_string` yields for a value; it depends
/// on the value alone.
pub uninterp spec fn yaml_text(v: serde_json::Value) -> Seq<char>;

/// Relies on `serde_json::from_str::<Value>`: parses a JSON text into a
/// structured value, `None` on a syntax error.
#[verifier::external_body]
pub(crate) fn parse_json(s: &str) -> (r: Option<serde_json::Value>)
    ensures
        r == json_parsed(s@),
{
    match serde_json::from_str::<serde_json::Value>(s) {
        Ok(v) => Some(v),
        Err(_) => None,
    }
}

/// Relies on `serde_json::to_string_pretty` for `Value`: serialisation of a
/// `Value` cannot fail (string keys, in-memory writer). The round trip is
/// stated only for values the parser itself can yield: the parser refuses
/// nesting past its recursion limit, so such a value serialises to a text
/// within that limit, which parses back to an equal `Value`. A deeper
/// value — which no parse can produce — serialises to a text the parser
/// refuses, so no more is claimed.
#[verifier::external_body]
pub(crate) fn json_to_string_pretty(v: &serde_json::Value) -> (r: String)
    ensures
        r@ == json_pretty(*v),
        (exists|s: Seq<char>| json_parsed(s) == Some(*v)) ==> json_parsed(r@) == Some(*v),
{
    serde_json::to_string_pretty(v).unwrap()
}

/// Relies on `serde_yaml::to_string` for `serde_json::Value`: serialisation
/// of a `Value` to YAML cannot fail (string keys only).
#[verifier::external_body]
pub(crate) fn json_to_yaml_string(v: &serde_json::Value) -> (r: String)
    ensures
        r@ == yaml_text(*v),
{
    serde_yaml::to_string(v).unwrap()
}

} // verus!