//! The JSON layer: a mathematical model of JSON documents and the trusted
//! boundary to `serde_json`.
//!
//! Parsing and printing of JSON text is done by `serde_json` behind the
//! trusted items below; everything layered on top of them — looking fields
//! up by their wire names, checking shapes, mapping tokens — is verified.

use vstd::prelude::*;
use crate::text::str_eq;

verus! {

/// The model of a JSON document.
///
/// Numbers that are representable as unsigned 64-bit integers — the only
/// numbers the wire format of this library uses — are modelled exactly;
/// every other JSON number (negative, fractional, or too large) is modelled
/// as [`JsonV::NumOther`], which every decoder of this library rejects.
#[verifier::ext_equal]
pub enum JsonV {
    Null,
    Bool(bool),
    Num(u64),
    /// A JSON number that is not an unsigned 64-bit integer.
    NumOther,
    Str(Seq<char>),
    Arr(Seq<JsonV>),
    Obj(Seq<(Seq<char>, JsonV)>),
}

/// What `serde_json::from_str::<serde_json::Value>` returns on a given text:
/// `Some` with the model of the parsed document, or `None` where the text is
/// not valid JSON.
pub uninterp spec fn text_json(text: Seq<char>) -> Option<JsonV>;

/// What `serde_json::to_string` prints for a value with the given model.
/// It is a function of the model alone only where the model is exact, so the
/// printing wrapper applies it only to documents without [`JsonV::NumOther`].
pub uninterp spec fn json_dump(j: JsonV) -> Seq<char>;

/// The model of a `serde_json::Value`.
pub uninterp spec fn value_view(v: serde_json::Value) -> JsonV;

#[verifier::external_type_specification]
#[verifier::external_body]
pub struct ExValue(serde_json::Value);

/// One level of a JSON value, taken apart: the scalars as plain values, the
/// children of arrays and objects still as `serde_json::Value`s.
pub enum VNode {
    Null,
    Bool(bool),
    Num(u64),
    /// A JSON number that is not an unsigned 64-bit integer.
    NumOther,
    Str(String),
    Arr(Vec<serde_json::Value>),
    Obj(Vec<(String, serde_json::Value)>),
}

/// The models of an object's entries: each key as its character sequence,
/// each value as its model.
pub open spec fn entries_view(kvs: Seq<(String, serde_json::Value)>) -> Seq<(Seq<char>, JsonV)> {
    kvs.map_values(|p: (String, serde_json::Value)| (p.0@, value_view(p.1)))
}

/// The models of the elements of an array of `serde_json::Value`s.
pub open spec fn items_view(items: Seq<serde_json::Value>) -> Seq<JsonV> {
    items.map_values(|v: serde_json::Value| value_view(v))
}

/// The model of a one-level node, in terms of the models of its children.
pub open spec fn vnode_view(n: VNode) -> JsonV {
    match n {
        VNode::Null => JsonV::Null,
        VNode::Bool(b) => JsonV::Bool(b),
        VNode::Num(u) => JsonV::Num(u),
        VNode::NumOther => JsonV::NumOther,
        VNode::Str(s) => JsonV::Str(s@),
        VNode::Arr(items) => JsonV::Arr(items@.map_values(|v: serde_json::Value| value_view(v))),
        VNode::Obj(kvs) => JsonV::Obj(entries_view(kvs@)),
    }
}

/// Holds where the document contains no JSON number outside the unsigned
/// 64-bit range. Documents built by this library's encoders always satisfy it.
pub open spec fn num_exact(j: JsonV) -> bool
    decreases j,
{
    match j {
        JsonV::NumOther => false,
        JsonV::Arr(items) => forall|i: int|
            0 <= i < items.len() ==> num_exact(#[trigger] items[i]),
        JsonV::Obj(entries) => forall|i: int|
            0 <= i < entries.len() ==> num_exact(#[trigger] entries[i].1),
        _ => true,
    }
}

/// Holds where no path in the document nests deeper than `d` levels, every
/// value — scalar, array or object — counting one level. `serde_json`'s
/// parser refuses documents beyond a fixed nesting limit, so the printing
/// wrapper promises a successful reparse only under this bound.
pub open spec fn depth_at_most(j: JsonV, d: nat) -> bool
    decreases j,
{
    if d == 0 {
        false
    } else {
        match j {
            JsonV::Arr(items) => forall|i: int|
                0 <= i < items.len() ==> depth_at_most(#[trigger] items[i], (d - 1) as nat),
            JsonV::Obj(entries) => forall|i: int|
                0 <= i < entries.len() ==> depth_at_most(#[trigger] entries[i].1, (d - 1) as nat),
            _ => true,
        }
    }
}

/// A depth bound also holds at every larger bound.
pub proof fn lemma_depth_at_most_widen(j: JsonV, d1: nat, d2: nat)
    requires
        depth_at_most(j, d1),
        d1 <= d2,
    ensures
        depth_at_most(j, d2),
    decreases j,
{
    match j {
        JsonV::Arr(items) => {
            assert forall|i: int| 0 <= i < items.len() implies depth_at_most(
                #[trigger] items[i],
                (d2 - 1) as nat,
            ) by {
                lemma_depth_at_most_widen(items[i], (d1 - 1) as nat, (d2 - 1) as nat);
            }
        },
        JsonV::Obj(entries) => {
            assert forall|i: int| 0 <= i < entries.len() implies depth_at_most(
                #[trigger] entries[i].1,
                (d2 - 1) as nat,
            ) by {
                lemma_depth_at_most_widen(entries[i].1, (d1 - 1) as nat, (d2 - 1) as nat);
            }
        },
        _ => {},
    }
}

/// The value of the first entry with the given key, if any.
pub open spec fn obj_get(entries: Seq<(Seq<char>, JsonV)>, key: Seq<char>) -> Option<JsonV>
    decreases entries.len(),
{
    if entries.len() == 0 {
        None
    } else if entries[0].0 == key {
        Some(entries[0].1)
    } else {
        obj_get(entries.drop_first(), key)
    }
}

/// Holds where the keys of the entries are pairwise distinct.
pub open spec fn keys_distinct(entries: Seq<(Seq<char>, JsonV)>) -> bool {
    forall|i: int, j: int| 0 <= i < j < entries.len() ==> (#[trigger] entries[i].0) != (#[trigger] entries[j].0)
}

/// Relies on `serde_json::from_str::<serde_json::Value>`: parses a JSON
/// document, or reports why the text is not one.
#[verifier::external_body]
pub(crate) fn parse_value(text: &str) -> (r: Result<serde_json::Value, String>)
    ensures
        r matches Ok(v) ==> text_json(text@) == Some(value_view(v)),
        r is Err ==> text_json(text@) is None,
{
    serde_json::from_str::<serde_json::Value>(text).map_err(|e| e.to_string())
}

/// Relies on the variants of `serde_json::Value`: takes a value apart one
/// level, moving its children out unchanged.
#[verifier::external_body]
pub(crate) fn value_node(v: serde_json::Value) -> (r: VNode)
    ensures
        vnode_view(r) == value_view(v),
{
    match v {
        serde_json::Value::Null => VNode::Null,
        serde_json::Value::Bool(b) => VNode::Bool(b),
        serde_json::Value::Number(n) => match n.as_u64() {
            Some(u) => VNode::Num(u),
            None => VNode::NumOther,
        },
        serde_json::Value::String(s) => VNode::Str(s),
        serde_json::Value::Array(items) => VNode::Arr(items),
        serde_json::Value::Object(m) => VNode::Obj(m.into_iter().collect()),
    }
}

/// Relies on `serde_json::Value::clone`: a deep copy holds the same document.
#[verifier::external_body]
pub(crate) fn value_clone(v: &serde_json::Value) -> (r: serde_json::Value)
    ensures
        value_view(r) == value_view(*v),
{
    v.clone()
}

/// Relies on `serde_json::Value::Null`.
#[verifier::external_body]
pub(crate) fn value_null() -> (r: serde_json::Value)
    ensures
        value_view(r) == JsonV::Null,
{
    serde_json::Value::Null
}

/// Relies on `serde_json::Value::Bool`.
#[verifier::external_body]
pub(crate) fn value_bool(b: bool) -> (r: serde_json::Value)
    ensures
        value_view(r) == JsonV::Bool(b),
{
    serde_json::Value::Bool(b)
}

/// Relies on `serde_json::Value::from` for `u64`, which stores the number
/// exactly.
#[verifier::external_body]
pub(crate) fn value_num(n: u64) -> (r: serde_json::Value)
    ensures
        value_view(r) == JsonV::Num(n),
{
    serde_json::Value::from(n)
}

/// Relies on `serde_json::Value::String`.
#[verifier::external_body]
pub(crate) fn value_str(s: String) -> (r: serde_json::Value)
    ensures
        value_view(r) == JsonV::Str(s@),
{
    serde_json::Value::String(s)
}

/// Relies on `serde_json::Value::Array`.
#[verifier::external_body]
pub(crate) fn value_arr(items: Vec<serde_json::Value>) -> (r: serde_json::Value)
    ensures
        value_view(r) == JsonV::Arr(items@.map_values(|v: serde_json::Value| value_view(v))),
{
    serde_json::Value::Array(items)
}

/// Relies on `serde_json::Value::Object` over `serde_json::Map`, built with
/// the `preserve_order` feature: inserting pairwise-distinct keys in order
/// yields an object with exactly those entries in that order.
#[verifier::external_body]
pub(crate) fn value_obj(kvs: Vec<(String, serde_json::Value)>) -> (r: serde_json::Value)
    requires
        keys_distinct(entries_view(kvs@)),
    ensures
        value_view(r) == JsonV::Obj(entries_view(kvs@)),
{
    serde_json::Value::Object(kvs.into_iter().collect())
}

/// Relies on `serde_json::to_string`: printing a `serde_json::Value` cannot
/// fail, and parsing the printed text yields a value with the same model
/// (keys stay in order under the `preserve_order` feature, and `serde_json`
/// prints numbers and strings losslessly). The printer has no nesting limit,
/// but the parser refuses documents with more than 127 nested containers, so
/// the reparse is promised only under that depth bound — far above the depth
/// of anything this library encodes.
#[verifier::external_body]
pub(crate) fn value_to_text(v: &serde_json::Value) -> (r: String)
    ensures
        num_exact(value_view(*v)) ==> r@ == json_dump(value_view(*v)),
        depth_at_most(value_view(*v), 127) ==> text_json(r@) == Some(value_view(*v)),
{
    serde_json::to_string(v).expect("printing a serde_json::Value cannot fail")
}

/// The value of the first entry with the given key, as an executable lookup.
pub fn obj_lookup(entries: &Vec<(String, serde_json::Value)>, key: &str) -> (r: Option<
    serde_json::Value,
>)
    ensures
        match obj_get(entries_view(entries@), key@) {
            Some(j) => r matches Some(v) && value_view(v) == j,
            None => r is None,
        },
{
    let ghost model = entries_view(entries@);
    proof {
        assert(model.skip(0) =~= model);
    }
    let mut i: usize = 0;
    while i < entries.len()
        invariant
            0 <= i <= entries@.len(),
            model == entries_view(entries@),
            obj_get(model, key@) == obj_get(model.skip(i as int), key@),
        decreases entries@.len() - i,
    {
        proof {
            assert(model.skip(i as int)[0] == model[i as int]);
            assert(model.skip(i as int).drop_first() =~= model.skip(i as int + 1));
        }
        if str_eq(entries[i].0.as_str(), key) {
            return Some(value_clone(&entries[i].1));
        }
        i += 1;
    }
    proof {
        assert(model.skip(i as int) =~= Seq::<(Seq<char>, JsonV)>::empty());
    }
    None
}

} // verus!
