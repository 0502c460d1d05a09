//! A small model of the JSON documents this crate produces.
//!
//! Every JSON body rendered here is a flat object whose members are
//! strings, so the model holds exactly that: a string, or an object of
//! string-valued members in insertion order.

use vstd::prelude::*;

verus! {

/// A JSON document: a string, or a flat object mapping member names to
/// string values, in order.
#[derive(Debug, Clone, PartialEq)]
pub enum JsonValue {
    Str(String),
    Object(Vec<(String, String)>),
}

/// The mathematical shape of a JSON document: a string of characters, or
/// an ordered sequence of members, each a name and a string value.
pub enum JsonValueV {
    Str(Seq<char>),
    Object(Seq<(Seq<char>, Seq<char>)>),
}

impl View for JsonValue {
    type V = JsonValueV;

    open spec fn view(&self) -> JsonValueV {
        match self {
            JsonValue::Str(s) => JsonValueV::Str(s@),
            JsonValue::Object(m) => JsonValueV::Object(m.deep_view()),
        }
    }
}

} // verus!
