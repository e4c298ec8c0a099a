//! The trusted bridge to the JSON and YAML codecs.
//!
//! Configuration values are carried as opaque `serde_json::Value` payloads:
//! the library never looks inside one, it only files them under string keys.
//! Parsing, serialization and the comment-stripping preprocessor are the work
//! of outside crates; each call is wrapped here with the contract the rest of
//! the library is verified against.  What a parse yields, and what the
//! stripper leaves, is named rather than restated: both are functions of the
//! input text alone.

use vstd::prelude::*;

use crate::dict::{pairs_map, pairs_unique};

verus! {

#[verifier::external_type_specification]
#[verifier::external_body]
pub struct ExValue(serde_json::Value);

/// Relies on the derived `Clone` of `serde_json::Value`: a clone equals the
/// original value.
pub assume_specification[ <serde_json::Value as Clone>::clone ](
    v: &serde_json::Value,
) -> (r: serde_json::Value)
    ensures
        r == *v,
;

/// What the comment-stripping pattern leaves of `text`: every `/*...*/`
/// block and every `//`-to-end-of-line stretch removed.  The pattern pays
/// no regard to string literals, so text inside a quoted string can be
/// removed too; an empty text stays empty.
pub uninterp spec fn stripped_of(text: Seq<char>) -> Seq<char>;

/// Relies on `regex::Regex::replace_all` with the fixed comment pattern:
/// the result is a function of the text alone, and replacing matches of a
/// pattern that needs at least two characters leaves empty text empty.
#[verifier::external_body]
pub(crate) fn strip_json_comments(text: &str) -> (r: String)
    ensures
        r@ == stripped_of(text@),
        text@.len() == 0 ==> r@.len() == 0,
{
    let re = regex::Regex::new(r"(/\*([^*]|[\r\n]|(\*+([^*/]|[\r\n])))*\*+/)|(//.*)").unwrap();
    re.replace_all(text, "").into_owned()
}

/// What parsing `text` as a JSON object yields: its key-value mapping, or
/// nothing when `text` is not a JSON object with string keys.  When a key
/// repeats, the last value is kept, so the mapping is a function of the
/// text alone.
pub uninterp spec fn json_object_of(text: Seq<char>) -> Option<Map<Seq<char>, serde_json::Value>>;

/// Relies on `serde_json::from_str` deserializing a JSON object into a
/// string-keyed map, keeping the last value of a repeated key; the
/// intermediate map's iteration order is not depended on, as the entry list
/// is only described by the mapping it denotes.
#[verifier::external_body]
pub(crate) fn parse_json_object(text: &str) -> (r: Option<Vec<(String, serde_json::Value)>>)
    ensures
        r is Some <==> json_object_of(text@) is Some,
        r matches Some(pairs) ==> pairs_unique(pairs@) && Some(pairs_map(pairs@)) == json_object_of(
            text@,
        ),
{
    match serde_json::from_str::<std::collections::HashMap<String, serde_json::Value>>(text) {
        Ok(m) => Some(m.into_iter().collect()),
        Err(_) => None,
    }
}

/// What parsing `text` as a YAML mapping yields: its key-value mapping with
/// the values read as JSON-compatible data, or nothing when `text` is not
/// such a mapping.  YAML parsing is deterministic, so the mapping is a
/// function of the text alone.
pub uninterp spec fn yaml_object_of(text: Seq<char>) -> Option<Map<Seq<char>, serde_json::Value>>;

/// Relies on `serde_yaml::from_str` deserializing a YAML mapping into a
/// string-keyed map of JSON-compatible values.
#[verifier::external_body]
pub(crate) fn parse_yaml_object(text: &str) -> (r: Option<Vec<(String, serde_json::Value)>>)
    ensures
        r is Some <==> yaml_object_of(text@) is Some,
        r matches Some(pairs) ==> pairs_unique(pairs@) && Some(pairs_map(pairs@)) == yaml_object_of(
            text@,
        ),
{
    match serde_yaml::from_str::<std::collections::HashMap<String, serde_json::Value>>(text) {
        Ok(m) => Some(m.into_iter().collect()),
        Err(_) => None,
    }
}

/// Relies on `serde_json::to_string_pretty`: the output of serializing a
/// string-keyed map is a JSON object that `serde_json` parses back to an
/// equal mapping.  Serializing string-keyed JSON-compatible data cannot
/// fail.
#[verifier::external_body]
pub(crate) fn object_to_json(pairs: &Vec<(String, serde_json::Value)>) -> (r: String)
    ensures
        json_object_of(r@) == Some(pairs_map(pairs@)),
{
    let map: std::collections::BTreeMap<&str, &serde_json::Value> =
        pairs.iter().map(|p| (p.0.as_str(), &p.1)).collect();
    serde_json::to_string_pretty(&map).expect("serializing a string-keyed map cannot fail")
}

/// Relies on `serde_yaml::to_string`: the output of serializing a
/// string-keyed map is a YAML mapping that `serde_yaml` parses back to an
/// equal mapping (ambiguous plain scalars are quoted by the emitter).
/// Serializing string-keyed JSON-compatible data cannot fail.
#[verifier::external_body]
pub(crate) fn object_to_yaml(pairs: &Vec<(String, serde_json::Value)>) -> (r: String)
    ensures
        yaml_object_of(r@) == Some(pairs_map(pairs@)),
{
    let map: std::collections::BTreeMap<&str, &serde_json::Value> =
        pairs.iter().map(|p| (p.0.as_str(), &p.1)).collect();
    serde_yaml::to_string(&map).expect("serializing a string-keyed map cannot fail")
}

} // verus!
