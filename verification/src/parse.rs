use vstd::prelude::*;

use crate::error::{ConfigError, FieldErrorKind};
use crate::merge::{merge_section, merged_document};
use crate::value::{entries_of, keyed, lookup, value_wf, find_entry, ConfigValue};

verus! {

/// Declares serde_json::Value, the parser's tree, so that the conversion
/// below may take it; the library never looks inside such a value.
#[verifier::external_type_specification]
#[verifier::external_body]
pub struct ExJsonValue(serde_json::Value);

/// The document that a configuration text denotes, if it is well formed: the
/// parse depends on the text alone.
pub uninterp spec fn parsed_document(text: Seq<char>) -> Option<ConfigValue>;

/// Relies on serde_json::Value's variants: rebuilds a parsed tree as the
/// library's document value, one arm per variant; a number is kept as the
/// decimal lexeme that serde_json formats for it.
#[verifier::external_body]
fn value_from_json(v: serde_json::Value) -> (r: ConfigValue) {
    match v {
        serde_json::Value::Null => ConfigValue::Null,
        serde_json::Value::Bool(b) => ConfigValue::Bool(b),
        serde_json::Value::Number(n) => ConfigValue::Number(n.to_string()),
        serde_json::Value::String(s) => ConfigValue::Text(s),
        serde_json::Value::Array(a) => ConfigValue::Array(
            a.into_iter().map(value_from_json).collect(),
        ),
        serde_json::Value::Object(o) => ConfigValue::Object(
            o.into_iter().map(|(k, x)| (k, value_from_json(x))).collect(),
        ),
    }
}

/// Relies on serde_json::from_str::<serde_json::Value>: whether a text parses,
/// and to what tree, depends on the text alone; every object in the result has
/// unique keys, a later duplicate in the text replacing an earlier one.
#[verifier::external_body]
fn parse_json_text(text: &str) -> (r: Result<ConfigValue, String>)
    ensures
        r matches Ok(v) ==> parsed_document(text@) == Some(v) && value_wf(v),
        r is Err ==> parsed_document(text@) is None,
{
    match serde_json::from_str::<serde_json::Value>(text) {
        Ok(v) => Ok(value_from_json(v)),
        Err(e) => Err(e.to_string()),
    }
}

/// Parse a configuration text into its generic document tree.
pub fn parse_document(text: &str) -> (r: Result<ConfigValue, ConfigError>)
    ensures
        r is Ok <==> parsed_document(text@) is Some,
        r matches Ok(v) ==> parsed_document(text@) == Some(v) && value_wf(v),
        r matches Err(e) ==> e is Parse,
{
    match parse_json_text(text) {
        Ok(v) => Ok(v),
        Err(message) => Err(ConfigError::Parse { message }),
    }
}

/// Parse a configuration text and merge the section named `service_name`
/// into its root: the whole document-resolution pipeline short of typed
/// extraction.
///
/// The text must denote an object at the top level, carrying a section of
/// that name whose value is an object; each way the input can fall short is
/// answered with the matching error.
pub fn resolve_document(text: &str, service_name: &str) -> (r: Result<ConfigValue, ConfigError>)
    ensures
        parsed_document(text@) is None ==> (r matches Err(e) && e is Parse),
        (parsed_document(text@) matches Some(d) && !(d is Object)) ==> (r matches Err(e)
            && e matches ConfigError::Parse { message } && message@
            == "the top level of the config is not an object"@),
        (parsed_document(text@) matches Some(d) && d is Object && !keyed(
            entries_of(d),
            service_name@,
        )) ==> (r matches Err(e) && e matches ConfigError::SectionNotFound { name } && name@
            == service_name@),
        (parsed_document(text@) matches Some(d) && lookup(entries_of(d), service_name@)
            matches Some(s) && !(s is Object)) ==> (r matches Err(e) && e
            matches ConfigError::Deserialize { path, kind } && path@ == service_name@ && kind
            == FieldErrorKind::TypeMismatch),
        r matches Ok(m) ==> (parsed_document(text@) matches Some(d) && d is Object
            && merged_document(d, service_name@, m)),
        r is Ok <==> ({
            &&& parsed_document(text@) matches Some(d)
            &&& d is Object
            &&& lookup(entries_of(d), service_name@) matches Some(s)
            &&& s is Object
        }),
{
    let document = match parse_document(text) {
        Ok(v) => v,
        Err(e) => return Err(e),
    };
    let section_is_object: bool = match &document {
        ConfigValue::Object(entries) => match find_entry(entries, service_name) {
            Some(i) => match &entries[i].1 {
                ConfigValue::Object(_) => true,
                _ => {
                    return Err(
                        ConfigError::Deserialize {
                            path: service_name.to_owned(),
                            kind: FieldErrorKind::TypeMismatch,
                        },
                    );
                },
            },
            None => {
                return Err(ConfigError::SectionNotFound { name: service_name.to_owned() });
            },
        },
        _ => {
            return Err(
                ConfigError::Parse { message: "the top level of the config is not an object".to_owned() },
            );
        },
    };
    assert(section_is_object);
    merge_section(document, service_name)
}

} // verus!
