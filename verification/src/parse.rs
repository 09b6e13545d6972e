//! Parsing one raw line into the generic tree. The text grammar is handled
//! by the serde_json crate behind the trusted declarations below; everything
//! downstream of the parse is verified against the tree model.

use vstd::prelude::*;
use crate::tree::{JValue, NumberVal, VJson, jv_view};

verus! {

#[verifier::external_type_specification]
#[verifier::external_body]
pub struct ExValue(serde_json::Value);

/// What one line parses to, if it parses at all. Parsing is a function of
/// the text alone: the same line always yields the same tree.
pub uninterp spec fn parsed_line(s: Seq<char>) -> Option<VJson>;

/// What a parsed value holds, seen as the library's own tree.
pub uninterp spec fn tree_of(v: serde_json::Value) -> VJson;

/// Relies on serde_json::from_str: a well-formed line parses to a value
/// determined by the text alone; any other line is refused.
#[verifier::external_body]
fn parse_raw(s: &str) -> (r: Option<serde_json::Value>)
    ensures
        match r {
            Some(v) => parsed_line(s@) == Some(tree_of(v)),
            None => parsed_line(s@) is None,
        },
{
    serde_json::from_str::<serde_json::Value>(s).ok()
}

/// Relies on serde_json::Value: matching its variants, Number::as_i64 and
/// as_u64 for exact integers with Number's textual rendering otherwise, and
/// the object's ordered iteration, to move a parsed value into the
/// library's tree one node for one node.
#[verifier::external_body]
fn value_to_tree(v: serde_json::Value) -> (r: JValue)
    ensures
        jv_view(r) == tree_of(v),
{
    match v {
        serde_json::Value::Null => JValue::Null,
        serde_json::Value::Bool(b) => JValue::Bool(b),
        serde_json::Value::Number(n) => JValue::Num(if let Some(i) = n.as_i64() {
            NumberVal::Int(i)
        } else if let Some(u) = n.as_u64() {
            NumberVal::Uint(u)
        } else {
            NumberVal::Raw(n.to_string())
        }),
        serde_json::Value::String(s) => JValue::Str(s),
        serde_json::Value::Array(a) => JValue::Arr(a.into_iter().map(value_to_tree).collect()),
        serde_json::Value::Object(m) => JValue::Obj(m.into_iter().map(|(k, w)| (k, value_to_tree(w))).collect()),
    }
}

/// Parses one raw line into the generic tree, or nothing if the line is not
/// a well-formed structured value.
pub fn parse_line(s: &str) -> (r: Option<JValue>)
    ensures
        match r {
            Some(v) => parsed_line(s@) == Some(jv_view(v)),
            None => parsed_line(s@) is None,
        },
{
    match parse_raw(s) {
        Some(v) => Some(value_to_tree(v)),
        None => None,
    }
}

} // verus!
