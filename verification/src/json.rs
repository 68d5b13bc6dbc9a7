//! JSON text for flat objects whose members are all strings, produced by
//! `serde_json`.
use vstd::prelude::*;

verus! {

/// The compact JSON text that `serde_json` writes for an object built by
/// inserting, in order, each `(key, value)` pair as a string member.
pub uninterp spec fn json_object_text(fields: Seq<(Seq<char>, Seq<char>)>) -> Seq<char>;

/// The pairs of `fields` as pairs of character sequences.
pub open spec fn field_views(fields: Seq<(String, String)>) -> Seq<(Seq<char>, Seq<char>)> {
    fields.map_values(|f: (String, String)| (f.0@, f.1@))
}

/// Builds a `serde_json::Map` by inserting each pair of `fields` as a string
/// member, and writes the object with `serde_json`'s compact `Display`.
/// Claimed: the text is `json_object_text` of the pairs, a function of the
/// pairs alone.
#[verifier::external_body]
pub(crate) fn json_object_of_strings(fields: &Vec<(String, String)>) -> (text: String)
    ensures
        text@ == json_object_text(field_views(fields@)),
{
    let mut object = serde_json::Map::new();
    for (key, value) in fields.iter() {
        object.insert(key.clone(), serde_json::Value::String(value.clone()));
    }
    serde_json::Value::Object(object).to_string()
}

} // verus!
