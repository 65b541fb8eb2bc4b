//! The structural check of a request body before it is decoded: nesting is
//! bounded, and no object may carry the key that serde_json's
//! arbitrary-precision numbers travel under.

use vstd::prelude::*;
use vstd::string::*;

use crate::text::text_eq;

verus! {

/// The shape of a JSON value: objects with their fields (one per key, in
/// key order), arrays with their elements, and everything else.
#[derive(Debug, PartialEq, Eq)]
pub enum JsonNode {
    Object(Vec<(String, JsonNode)>),
    Array(Vec<JsonNode>),
    Scalar,
}

/// The nesting depth at which a body is refused.
pub const MAX_DEPTH: usize = 128;

/// The key serde_json's arbitrary-precision numbers travel under.
pub open spec fn number_key() -> Seq<char> {
    "$serde_json::private::Number"@
}

/// The refusal of a body nested too deep.
pub open spec fn nesting_text() -> Seq<char> {
    "request JSON nesting limit exceeded"@
}

/// The refusal of an object carrying the number key.
pub open spec fn number_object_text() -> Seq<char> {
    "expected a decimal string or JSON number, not a number object"@
}

/// The first refusal met walking `node` at `depth`, depth-first in field
/// order: a node at the depth limit, or an object with the number key
/// (checked field by field, before the field's value).
pub open spec fn json_refusal(node: JsonNode, depth: nat) -> Option<Seq<char>>
    decreases node, 0nat,
{
    if depth >= MAX_DEPTH {
        Some(nesting_text())
    } else {
        match node {
            JsonNode::Object(fields) => fields_refusal(fields@, 0, depth),
            JsonNode::Array(items) => items_refusal(items@, 0, depth),
            JsonNode::Scalar => None,
        }
    }
}

/// The first refusal among `fields[i..]` of an object at `depth`.
pub open spec fn fields_refusal(fields: Seq<(String, JsonNode)>, i: int, depth: nat) -> Option<Seq<char>>
    decreases fields, fields.len() - i, 1nat,
    via fields_refusal_decreases
{
    if i < 0 || i >= fields.len() {
        None
    } else if fields[i].0@ == number_key() {
        Some(number_object_text())
    } else {
        match json_refusal(fields[i].1, depth + 1) {
            Some(e) => Some(e),
            None => fields_refusal(fields, i + 1, depth),
        }
    }
}

#[via_fn]
proof fn fields_refusal_decreases(fields: Seq<(String, JsonNode)>, i: int, depth: nat) {
    if 0 <= i < fields.len() {
        assert(decreases_to!(fields => fields[i]));
    }
}

/// The first refusal among `items[i..]` of an array at `depth`.
pub open spec fn items_refusal(items: Seq<JsonNode>, i: int, depth: nat) -> Option<Seq<char>>
    decreases items, items.len() - i, 1nat,
    via items_refusal_decreases
{
    if i < 0 || i >= items.len() {
        None
    } else {
        match json_refusal(items[i], depth + 1) {
            Some(e) => Some(e),
            None => items_refusal(items, i + 1, depth),
        }
    }
}

#[via_fn]
proof fn items_refusal_decreases(items: Seq<JsonNode>, i: int, depth: nat) {
    if 0 <= i < items.len() {
        assert(decreases_to!(items => items[i]));
    }
}

/// The structural check of a body's JSON at `depth`: the first refusal met,
/// or none.
pub fn check_json_objects(node: &JsonNode, depth: usize) -> (r: Result<(), String>)
    ensures
        match json_refusal(*node, depth as nat) {
            Some(e) => r matches Err(t) && t@ == e,
            None => r is Ok,
        },
    decreases *node, 0nat,
{
    if depth >= MAX_DEPTH {
        return Err(String::from_str("request JSON nesting limit exceeded"));
    }
    match node {
        JsonNode::Object(fields) => {
            let mut i: usize = 0;
            while i < fields.len()
                invariant
                    i <= fields@.len(),
                    depth < MAX_DEPTH,
                    *node == JsonNode::Object(*fields),
                    fields_refusal(fields@, 0, depth as nat) == fields_refusal(fields@, i as int, depth as nat),
                decreases fields@.len() - i,
            {
                let (key, value) = &fields[i];
                if text_eq(key.as_str(), "$serde_json::private::Number") {
                    return Err(String::from_str("expected a decimal string or JSON number, not a number object"));
                }
                proof {
                    assert(decreases_to!(fields@ => fields@[i as int]));
                }
                match check_json_objects(value, depth + 1) {
                    Err(e) => return Err(e),
                    Ok(()) => {},
                }
                i = i + 1;
            }
            Ok(())
        },
        JsonNode::Array(items) => {
            let mut i: usize = 0;
            while i < items.len()
                invariant
                    i <= items@.len(),
                    depth < MAX_DEPTH,
                    *node == JsonNode::Array(*items),
                    items_refusal(items@, 0, depth as nat) == items_refusal(items@, i as int, depth as nat),
                decreases items@.len() - i,
            {
                proof {
                    assert(decreases_to!(items@ => items@[i as int]));
                }
                match check_json_objects(&items[i], depth + 1) {
                    Err(e) => return Err(e),
                    Ok(()) => {},
                }
                i = i + 1;
            }
            Ok(())
        },
        JsonNode::Scalar => Ok(()),
    }
}

} // verus!
