//! A plain-value JSON tree. Response bodies are parsed into this tree by a
//! trusted call into `serde_json`; everything that reads the tree afterwards
//! is verified code.

use vstd::prelude::*;

use crate::text::str_eq;

verus! {

/// A parsed JSON document as plain values. Numbers keep their integer faces:
/// a value that fits in `u64` is `UInt`, a negative value that fits in `i64`
/// is `Int`, and any other number (fractional, exponent, out of range) is
/// `NumOther`. An object holds its field names and field values as two
/// vectors paired by position.
pub enum JsonNode {
    Null,
    Bool(bool),
    UInt(u64),
    Int(i64),
    NumOther,
    Str(String),
    Arr(Vec<JsonNode>),
    Obj { names: Vec<String>, values: Vec<JsonNode> },
}

/// The first value whose name matches `key`, searching from the front and
/// walking both vectors in step.
pub open spec fn spec_lookup(names: Seq<String>, values: Seq<JsonNode>, key: Seq<char>) -> Option<
    JsonNode,
>
    decreases names.len(),
{
    if names.len() == 0 || values.len() == 0 {
        None
    } else if names[0]@ == key {
        Some(values[0])
    } else {
        spec_lookup(names.drop_first(), values.drop_first(), key)
    }
}

proof fn lemma_lookup_found(names: Seq<String>, values: Seq<JsonNode>, key: Seq<char>, i: int)
    requires
        0 <= i < names.len(),
        i < values.len(),
        names[i]@ == key,
        forall|j: int| 0 <= j < i ==> names[j]@ != key,
    ensures
        spec_lookup(names, values, key) == Some(values[i]),
    decreases i,
{
    if i > 0 {
        lemma_lookup_found(names.drop_first(), values.drop_first(), key, i - 1);
    }
}

proof fn lemma_lookup_short(names: Seq<String>, values: Seq<JsonNode>, key: Seq<char>, i: int)
    requires
        i >= names.len() || i >= values.len(),
        i >= 0,
        forall|j: int| 0 <= j < i && j < names.len() ==> names[j]@ != key,
    ensures
        spec_lookup(names, values, key) is None,
    decreases names.len(),
{
    if names.len() > 0 && values.len() > 0 {
        lemma_lookup_short(names.drop_first(), values.drop_first(), key, i - 1);
    }
}

/// Finds the first field named `key` in an object's paired name and value
/// vectors.
pub fn lookup<'a>(names: &Vec<String>, values: &'a Vec<JsonNode>, key: &str) -> (r: Option<
    &'a JsonNode,
>)
    ensures
        match r {
            Some(n) => spec_lookup(names@, values@, key@) == Some(*n),
            None => spec_lookup(names@, values@, key@) is None,
        },
{
    let len = if names.len() < values.len() {
        names.len()
    } else {
        values.len()
    };
    let mut i: usize = 0;
    while i < len
        invariant
            i <= len,
            len <= names@.len(),
            len <= values@.len(),
            names@.len() == len || values@.len() == len,
            forall|j: int| 0 <= j < i ==> names@[j]@ != key@,
        decreases len - i,
    {
        if str_eq(names[i].as_str(), key) {
            proof {
                lemma_lookup_found(names@, values@, key@, i as int);
            }
            return Some(&values[i]);
        }
        i += 1;
    }
    proof {
        lemma_lookup_short(names@, values@, key@, i as int);
    }
    None
}

/// Finds the position of the first field named `key`, so a caller can move
/// the value out of the vector.
pub fn lookup_pos(names: &Vec<String>, values: &Vec<JsonNode>, key: &str) -> (r: Option<usize>)
    ensures
        match r {
            Some(i) => i < values@.len() && spec_lookup(names@, values@, key@) == Some(
                values@[i as int],
            ),
            None => spec_lookup(names@, values@, key@) is None,
        },
{
    let len = if names.len() < values.len() {
        names.len()
    } else {
        values.len()
    };
    let mut i: usize = 0;
    while i < len
        invariant
            i <= len,
            len <= names@.len(),
            len <= values@.len(),
            names@.len() == len || values@.len() == len,
            forall|j: int| 0 <= j < i ==> names@[j]@ != key@,
        decreases len - i,
    {
        if str_eq(names[i].as_str(), key) {
            proof {
                lemma_lookup_found(names@, values@, key@, i as int);
            }
            return Some(i);
        }
        i += 1;
    }
    proof {
        lemma_lookup_short(names@, values@, key@, i as int);
    }
    None
}

/// The parsed form of a byte sequence, named so that contracts can speak of
/// it: `serde_json` parses deterministically, so the tree (or the absence of
/// one) is a function of the bytes alone.
pub uninterp spec fn json_doc_of(bytes: Seq<u8>) -> Option<JsonNode>;

/// Relies on `serde_json::Value`: the parsed form a JSON body takes before
/// it is converted to this crate's own tree.
#[verifier::external_type_specification]
#[verifier::external_body]
pub struct ExValue(serde_json::Value);

/// Relies on `serde_json::Value`'s own accessors (`as_u64`, `as_i64`):
/// converts the parsed value, arm by arm, into this crate's plain tree.
/// Only `parse_json` calls it.
#[verifier::external_body]
fn value_to_node(v: serde_json::Value) -> JsonNode {
    match v {
        serde_json::Value::Null => JsonNode::Null,
        serde_json::Value::Bool(b) => JsonNode::Bool(b),
        serde_json::Value::Number(n) => match (n.as_u64(), n.as_i64()) {
            (Some(u), _) => JsonNode::UInt(u),
            (None, Some(i)) => JsonNode::Int(i),
            _ => JsonNode::NumOther,
        },
        serde_json::Value::String(s) => JsonNode::Str(s),
        serde_json::Value::Array(a) => JsonNode::Arr(a.into_iter().map(value_to_node).collect()),
        serde_json::Value::Object(o) => {
            let (names, values) = o.into_iter().map(|(k, x)| (k, value_to_node(x))).unzip();
            JsonNode::Obj { names, values }
        },
    }
}

/// Relies on `serde_json::from_slice`: parsing is a pure function of the
/// bytes; on failure the parser's message is returned.
#[verifier::external_body]
pub fn parse_json(bytes: &[u8]) -> (r: Result<JsonNode, String>)
    ensures
        r is Ok <==> json_doc_of(bytes@) is Some,
        r matches Ok(n) ==> json_doc_of(bytes@) == Some(n),
{
    match serde_json::from_slice::<serde_json::Value>(bytes) {
        Ok(v) => Ok(value_to_node(v)),
        Err(e) => Err(e.to_string()),
    }
}

} // verus!
