//! JSON documents: a parsed `serde_json::Value`, seen through the compact
//! text that `serde_json` writes for it.

use vstd::prelude::*;

verus! {

/// `serde_json::Value`, carried through the library as it is.
#[verifier::external_type_specification]
#[verifier::external_body]
pub struct ExJsonValue(serde_json::Value);

/// A parsed JSON document: the value, and the compact text `serde_json` writes
/// for it, which is what the contracts speak of.
#[derive(Debug)]
pub struct JsonDocument {
    value: serde_json::Value,
    text: String,
}

impl View for JsonDocument {
    type V = Seq<char>;

    closed spec fn view(&self) -> Seq<char> {
        self.text@
    }
}

/// The compact text that `serde_json` writes for a value (its `Display`).
pub uninterp spec fn compact_json_text(value: serde_json::Value) -> Seq<char>;

impl JsonDocument {
    /// The value the document holds.
    pub closed spec fn json_value(self) -> serde_json::Value {
        self.value
    }

    /// A document's text is always the compact text of its value.
    #[verifier::type_invariant]
    closed spec fn text_is_printed_value(self) -> bool {
        self.text@ == compact_json_text(self.value)
    }

    /// The document of a value.
    pub fn from_value(value: serde_json::Value) -> (r: JsonDocument)
        ensures
            r.json_value() == value,
            r@ == compact_json_text(value),
    {
        let text = print_json(&value);
        JsonDocument { value, text }
    }

    /// The value the document holds.
    pub fn into_value(self) -> (r: serde_json::Value)
        ensures
            r == self.json_value(),
    {
        self.value
    }

    /// The compact text of the document: what a write stores.
    pub fn stored_text(&self) -> (r: &String)
        ensures
            r@ == self@,
            r@ == compact_json_text(self.json_value()),
    {
        proof {
            use_type_invariant(self);
        }
        &self.text
    }
}

/// What `serde_json::from_str::<serde_json::Value>` makes of a text: the
/// compact text of the parsed value, or the text its error shows.
pub uninterp spec fn json_parse_result(text: Seq<char>) -> Result<Seq<char>, Seq<char>>;

/// What removing the member `field` from the JSON object whose compact text is
/// `doc` gives (`serde_json::Map::remove`), as compact text; nothing when `doc`
/// is not the text of an object.
pub uninterp spec fn json_object_without(doc: Seq<char>, field: Seq<char>) -> Option<Seq<char>>;

/// The view of a parse: the document's text, or the error's text.
pub open spec fn parsed_view(r: Result<JsonDocument, String>) -> Result<Seq<char>, Seq<char>> {
    match r {
        Ok(d) => Ok(d@),
        Err(e) => Err(e@),
    }
}

/// `serde_json::Value`'s `Display` (compact text): named `compact_json_text`
/// of the value.
#[verifier::external_body]
fn print_json(value: &serde_json::Value) -> (r: String)
    ensures
        r@ == compact_json_text(*value),
{
    value.to_string()
}

/// `serde_json::from_str` into a `serde_json::Value`, kept with its compact
/// text (the value's `Display`, as the document's invariant says); an error is
/// kept as the text it shows. The result is named
/// `json_parse_result` of the text.
#[verifier::external_body]
pub(crate) fn parse_json(text: &str) -> (r: Result<JsonDocument, String>)
    ensures
        parsed_view(r) == json_parse_result(text@),
{
    match serde_json::from_str::<serde_json::Value>(text) {
        Ok(value) => Ok(JsonDocument { text: value.to_string(), value }),
        Err(e) => Err(e.to_string()),
    }
}

/// When the document holds an object, removes its member `field`
/// (`serde_json::Map::remove`) and gives the object with its compact text (the
/// value's `Display`; named `json_object_without`); any other document comes back unchanged as
/// the error.
#[verifier::external_body]
pub(crate) fn remove_object_member(doc: JsonDocument, field: &str) -> (r: Result<
    JsonDocument,
    JsonDocument,
>)
    ensures
        match r {
            Ok(d) => json_object_without(doc@, field@) == Some(d@),
            Err(d) => json_object_without(doc@, field@) is None && d@ == doc@,
        },
{
    match doc.value {
        serde_json::Value::Object(mut members) => {
            members.remove(field);
            let value = serde_json::Value::Object(members);
            Ok(JsonDocument { text: value.to_string(), value })
        },
        value => Err(JsonDocument { value, text: doc.text }),
    }
}

} // verus!
