//! Loading a circuit descriptor from its JSON resource.

use vstd::prelude::*;
use crate::error::ErrorKind;

verus! {

/// `serde_json::Value`, a parsed JSON document. Nothing inside it is visible
/// to the verifier.
#[verifier::external_type_specification]
#[verifier::external_body]
pub struct ExJsonValue(serde_json::Value);

/// `serde_json::Error`, carried from the parser to the point where it is
/// mapped to [`ErrorKind`].
#[verifier::external_type_specification]
#[verifier::external_body]
pub struct ExJsonError(serde_json::Error);

/// The members of the JSON object `doc` whose values are strings, by key.
/// Empty where `doc` is not an object.
pub uninterp spec fn json_string_members(doc: serde_json::Value) -> Map<Seq<char>, Seq<char>>;

/// The string that the JSON value `value` is, if it is one.
pub uninterp spec fn json_string(value: serde_json::Value) -> Option<Seq<char>>;

/// What `serde_json::from_str` makes of `text`: the string members of the
/// parsed document, or `None` where `text` is not one JSON document.
pub uninterp spec fn json_parse(text: Seq<char>) -> Option<Map<Seq<char>, Seq<char>>>;

/// `serde_json::from_str::<Value>`. Parsing depends on the text alone, so
/// success and the string members of the result are named by `json_parse`.
#[verifier::external_body]
fn parse_document(text: &str) -> (r: Result<serde_json::Value, serde_json::Error>)
    ensures
        match r {
            Ok(doc) => json_parse(text@) == Some(json_string_members(doc)),
            Err(_) => json_parse(text@) is None,
        },
{
    serde_json::from_str::<serde_json::Value>(text)
}

/// Indexing a `serde_json::Value` by a string key. The source returns the
/// member where `doc` is an object that has the key, and JSON `null`
/// elsewhere; so the result is a string exactly where `doc` has a string
/// member under `key`.
#[verifier::external_body]
fn member<'a>(doc: &'a serde_json::Value, key: &str) -> (r: &'a serde_json::Value)
    ensures
        json_string(*r) == (if json_string_members(*doc).contains_key(key@) {
            Some(json_string_members(*doc)[key@])
        } else {
            None
        }),
{
    &doc[key]
}

/// `serde_json::Value::as_str`: the text of a JSON string, `None` for any
/// other value.
#[verifier::external_body]
fn as_string<'a>(value: &'a serde_json::Value) -> (r: Option<&'a str>)
    ensures
        match r {
            Some(s) => json_string(*value) == Some(s@),
            None => json_string(*value) is None,
        },
{
    value.as_str()
}

/// An immutable circuit definition: the engine's serialized constraint
/// system, taken from the resource as it stands.
#[derive(Clone, Debug, PartialEq, Eq)]
pub struct CircuitDescriptor {
    pub bytecode: String,
}

impl View for CircuitDescriptor {
    type V = Seq<char>;

    open spec fn view(&self) -> Seq<char> {
        self.bytecode@
    }
}

/// The bytecode that a resource text holds: the string member `bytecode` of
/// the JSON object it spells.
pub open spec fn resource_bytecode(text: Seq<char>) -> Option<Seq<char>> {
    match json_parse(text) {
        Some(members) => if members.contains_key("bytecode"@) {
            Some(members["bytecode"@])
        } else {
            None
        },
        None => None,
    }
}

impl CircuitDescriptor {
    /// The descriptor for a looked-up `bytecode` member, or the failure where
    /// the lookup found no string.
    pub fn from_member(found: Option<&str>) -> (r: Result<CircuitDescriptor, ErrorKind>)
        ensures
            match found {
                Some(s) => r matches Ok(d) && d@ == s@,
                None => r == Err::<CircuitDescriptor, ErrorKind>(
                    ErrorKind::MalformedCircuitResource,
                ),
            },
    {
        match found {
            Some(s) => Ok(CircuitDescriptor { bytecode: s.to_owned() }),
            None => Err(ErrorKind::MalformedCircuitResource),
        }
    }

    /// The serialized circuit program, as the engine takes it.
    pub fn bytecode(&self) -> (r: &str)
        ensures
            r@ == self@,
    {
        self.bytecode.as_str()
    }
}

/// Loads the descriptor from a resource text.
///
/// Succeeds exactly when the text is a JSON document whose top level has a
/// string member `bytecode`; the descriptor then holds that string unchanged.
pub fn load_circuit(resource: &str) -> (r: Result<CircuitDescriptor, ErrorKind>)
    ensures
        match resource_bytecode(resource@) {
            Some(code) => r matches Ok(d) && d@ == code,
            None => r == Err::<CircuitDescriptor, ErrorKind>(ErrorKind::MalformedCircuitResource),
        },
{
    match parse_document(resource) {
        Ok(doc) => CircuitDescriptor::from_member(as_string(member(&doc, "bytecode"))),
        Err(_) => Err(ErrorKind::MalformedCircuitResource),
    }
}

} // verus!
