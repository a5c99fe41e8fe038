//! Flat JSON objects and their pretty-printed text.
//!
//! An object is kept as the list of its members in the order they were added.
//! Turning it into text is left to `serde_json`; what that text is, character
//! for character, is not spelled out here but named by [`pretty_json`].
//! Serialising such an object always succeeds: its keys are strings, its
//! values strings or `null`, and the text is written into memory.

use vstd::prelude::*;

verus! {

/// The error type of `serde_json`, carried through unopened.
#[verifier::external_type_specification]
#[verifier::external_body]
pub struct ExSerdeJsonError(serde_json::Error);

/// One member of a JSON object: a key and either a string or `null`.
#[derive(Debug)]
pub struct JsonEntry {
    pub key: String,
    /// `None` stands for JSON `null`.
    pub value: Option<String>,
}

/// The mathematical content of a [`JsonEntry`].
pub type EntryModel = (Seq<char>, Option<Seq<char>>);

/// The characters of an optional string.
pub open spec fn text_of(value: Option<String>) -> Option<Seq<char>> {
    match value {
        Some(s) => Some(s@),
        None => None,
    }
}

impl View for JsonEntry {
    type V = EntryModel;

    open spec fn view(&self) -> EntryModel {
        (self.key@, text_of(self.value))
    }
}

/// A JSON object whose members are strings or `null`.
#[derive(Debug)]
pub struct JsonObject {
    pub entries: Vec<JsonEntry>,
}

impl View for JsonObject {
    type V = Seq<EntryModel>;

    open spec fn view(&self) -> Seq<EntryModel> {
        self.entries@.map_values(|e: JsonEntry| e@)
    }
}

/// The text that `serde_json::to_string_pretty` produces for the JSON object
/// whose members are `entries`, collected in this order into a
/// `serde_json::Map`.
pub uninterp spec fn pretty_json(entries: Seq<EntryModel>) -> Seq<char>;

/// Hands the object to `serde_json::to_string_pretty` as a
/// `serde_json::Value::Object`. Each member goes in through
/// `serde_json::Value::from`, which maps `None` to `Value::Null` and a string
/// to `Value::String`.
///
/// Trusted, on two counts. The call succeeds: `serde_json` fails only when a
/// write fails, when a map key is not a string or when a `Serialize` impl
/// gives up, and here the writer is a `Vec<u8>`, every key is a `String` and
/// every value is `Value::Null` or `Value::String`. And the text it returns is
/// the one named [`pretty_json`].
#[verifier::external_body]
pub(crate) fn serde_to_string_pretty(object: &JsonObject) -> (outcome: Result<
    String,
    serde_json::Error,
>)
    ensures
        outcome is Ok,
        outcome matches Ok(text) ==> text@ == pretty_json(object@),
{
    let members = object.entries.iter().map(
        |e| (e.key.clone(), serde_json::Value::from(e.value.clone())),
    );
    serde_json::to_string_pretty(&serde_json::Value::Object(members.collect()))
}

impl JsonObject {
    /// The object without members, `{}`.
    pub fn new() -> (object: JsonObject)
        ensures
            object@ == Seq::<EntryModel>::empty(),
    {
        JsonObject { entries: Vec::new() }
    }

    /// Adds the member `key: value`, a string, after those already present.
    pub fn with_text(self, key: &str, value: &str) -> (object: JsonObject)
        ensures
            object@ == self@.push((key@, Some(value@))),
    {
        let mut entries = self.entries;
        entries.push(JsonEntry { key: String::from_str(key), value: Some(String::from_str(value)) });
        JsonObject { entries }
    }

    /// Adds the member `key: null` after those already present.
    pub fn with_null(self, key: &str) -> (object: JsonObject)
        ensures
            object@ == self@.push((key@, None)),
    {
        let mut entries = self.entries;
        entries.push(JsonEntry { key: String::from_str(key), value: None });
        JsonObject { entries }
    }
}

} // verus!
