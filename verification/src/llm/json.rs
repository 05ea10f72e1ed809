//! What a JSON text holds, as far as the agent has to know.

use vstd::prelude::*;

verus! {

/// The kinds of JSON value.
#[derive(Debug, Clone, Copy, PartialEq, Eq, Structural)]
pub enum JsonKind {
    Null,
    Bool,
    Number,
    Text,
    Array,
    Object,
}

/// What `serde_json::from_str::<serde_json::Value>` makes of a text: the kind
/// of the value that it reads, or the words of its error where it refuses the
/// text. Nothing more is known of it here than that it is a function of the
/// text.
pub uninterp spec fn json_reading(text: Seq<char>) -> Result<JsonKind, Seq<char>>;

/// The views of the two sides of a reading.
pub open spec fn reading_view(reading: Result<JsonKind, String>) -> Result<JsonKind, Seq<char>> {
    match reading {
        Ok(kind) => Ok(kind),
        Err(cause) => Err(cause@),
    }
}

/// Reads `text` with `serde_json::from_str::<serde_json::Value>` and tells the
/// kind of the value that was read, or gives the words of the error. It is
/// taken on trust that the parser's answer depends on the text alone: the
/// contract gives that answer its name, [`json_reading`], and says nothing
/// else of it.
#[verifier::external_body]
pub(crate) fn read_json(text: &str) -> (r: Result<JsonKind, String>)
    ensures
        reading_view(r) == json_reading(text@),
{
    match serde_json::from_str::<serde_json::Value>(text) {
        Ok(serde_json::Value::Null) => Ok(JsonKind::Null),
        Ok(serde_json::Value::Bool(_)) => Ok(JsonKind::Bool),
        Ok(serde_json::Value::Number(_)) => Ok(JsonKind::Number),
        Ok(serde_json::Value::String(_)) => Ok(JsonKind::Text),
        Ok(serde_json::Value::Array(_)) => Ok(JsonKind::Array),
        Ok(serde_json::Value::Object(_)) => Ok(JsonKind::Object),
        Err(e) => Err(e.to_string()),
    }
}

} // verus!
