//! The codec: between JSON documents and the typed domain records.
//!
//! Decoding accepts exactly the documented wire field names, rejects unknown
//! enumeration tokens naming the offending token, reads numbers as unsigned
//! 64-bit integers, and ignores unknown fields. Encoding reproduces the exact
//! wire names and tokens. The field-name translation is a fixed, field-by-field
//! table, written out below once as spec functions and once as executable code
//! proved against them.

use vstd::prelude::*;
use crate::data::{
    string_pairs_view, strings_view, symbols_view, BidAsk, Fill, HeartBeatResponse,
    HeartBeatResponseV, Level, LevelV, Order, OrderDirection, OrderResponse, OrderResponseV,
    OrderType, OrderV, OrderbookResponse, OrderbookResponseV, QuoteResponse, QuoteResponseV,
    StockListResponse, StockListResponseV, StockSymbol, StockSymbolV, VenueHeartBeatResponse,
    VenueHeartBeatResponseV,
};
use crate::error::Error;
use crate::json::{entries_view, items_view, obj_get, obj_lookup, parse_value, value_clone,
    value_node, value_view, vnode_view, text_json, JsonV, VNode};
use crate::text::{str_concat, str_concat3, str_eq};
use crate::time::{instant_of_text, Instant};

verus! {

// ---------------------------------------------------------------------------
// Wire tokens for the two enumerations.
// ---------------------------------------------------------------------------

/// The wire token of an order direction.
pub open spec fn direction_token(d: OrderDirection) -> Seq<char> {
    match d {
        OrderDirection::Buy => "buy"@,
        OrderDirection::Sell => "sell"@,
    }
}

/// The direction a wire token denotes, if any.
pub open spec fn direction_of_token(t: Seq<char>) -> Option<OrderDirection> {
    if t == "buy"@ {
        Some(OrderDirection::Buy)
    } else if t == "sell"@ {
        Some(OrderDirection::Sell)
    } else {
        None
    }
}

/// The wire token of an order type.
pub open spec fn order_type_token(t: OrderType) -> Seq<char> {
    match t {
        OrderType::Limit => "limit"@,
        OrderType::Market => "market"@,
        OrderType::FillOrKill => "fill-or-kill"@,
        OrderType::ImmediateOrCancel => "immediate-or-cancel"@,
    }
}

/// The order type a wire token denotes, if any.
pub open spec fn order_type_of_token(t: Seq<char>) -> Option<OrderType> {
    if t == "limit"@ {
        Some(OrderType::Limit)
    } else if t == "market"@ {
        Some(OrderType::Market)
    } else if t == "fill-or-kill"@ {
        Some(OrderType::FillOrKill)
    } else if t == "immediate-or-cancel"@ {
        Some(OrderType::ImmediateOrCancel)
    } else {
        None
    }
}

/// The message of the decode error for a token that is no order direction.
pub open spec fn bad_direction_msg(t: Seq<char>) -> Seq<char> {
    "unknown order direction token "@ + t + "; expected one of: buy, sell"@
}

/// The message of the decode error for a token that is no order type.
pub open spec fn bad_order_type_msg(t: Seq<char>) -> Seq<char> {
    "unknown order type token "@ + t
        + "; expected one of: limit, market, fill-or-kill, immediate-or-cancel"@
}

/// The wire token of a direction, as text.
pub fn direction_wire_token(d: &OrderDirection) -> (r: &'static str)
    ensures
        r@ == direction_token(*d),
{
    match d {
        OrderDirection::Buy => "buy",
        OrderDirection::Sell => "sell",
    }
}

/// The wire token of an order type, as text.
pub fn order_type_wire_token(t: &OrderType) -> (r: &'static str)
    ensures
        r@ == order_type_token(*t),
{
    match t {
        OrderType::Limit => "limit",
        OrderType::Market => "market",
        OrderType::FillOrKill => "fill-or-kill",
        OrderType::ImmediateOrCancel => "immediate-or-cancel",
    }
}

/// The direction a wire token denotes; any token outside the fixed set fails
/// with a decode error naming the token and the expected set.
pub fn direction_from_token(t: &str) -> (r: Result<OrderDirection, Error>)
    ensures
        match direction_of_token(t@) {
            Some(d) => r matches Ok(x) && x == d,
            None => r matches Err(e) && e matches Error::Decode(m) && m@ == bad_direction_msg(t@),
        },
{
    if str_eq(t, "buy") {
        Ok(OrderDirection::Buy)
    } else if str_eq(t, "sell") {
        Ok(OrderDirection::Sell)
    } else {
        Err(Error::Decode(str_concat3("unknown order direction token ", t,
            "; expected one of: buy, sell")))
    }
}

/// The order type a wire token denotes; any token outside the fixed set fails
/// with a decode error naming the token and the expected set.
pub fn order_type_from_token(t: &str) -> (r: Result<OrderType, Error>)
    ensures
        match order_type_of_token(t@) {
            Some(x) => r matches Ok(y) && y == x,
            None => r matches Err(e) && e matches Error::Decode(m) && m@ == bad_order_type_msg(t@),
        },
{
    if str_eq(t, "limit") {
        Ok(OrderType::Limit)
    } else if str_eq(t, "market") {
        Ok(OrderType::Market)
    } else if str_eq(t, "fill-or-kill") {
        Ok(OrderType::FillOrKill)
    } else if str_eq(t, "immediate-or-cancel") {
        Ok(OrderType::ImmediateOrCancel)
    } else {
        Err(Error::Decode(str_concat3("unknown order type token ", t,
            "; expected one of: limit, market, fill-or-kill, immediate-or-cancel")))
    }
}

// ---------------------------------------------------------------------------
// Spec-level field access on a decoded object's entries.
// ---------------------------------------------------------------------------

/// The boolean at `key`, or nothing where it is absent or not a boolean.
pub open spec fn sget_bool(es: Seq<(Seq<char>, JsonV)>, key: Seq<char>) -> Option<bool> {
    match obj_get(es, key) {
        Some(JsonV::Bool(b)) => Some(b),
        _ => None,
    }
}

/// The unsigned integer at `key`, or nothing where it is absent, negative,
/// fractional, too large, or not a number.
pub open spec fn sget_u64(es: Seq<(Seq<char>, JsonV)>, key: Seq<char>) -> Option<u64> {
    match obj_get(es, key) {
        Some(JsonV::Num(u)) => Some(u),
        _ => None,
    }
}

/// The string at `key`, or nothing where it is absent or not a string.
pub open spec fn sget_str(es: Seq<(Seq<char>, JsonV)>, key: Seq<char>) -> Option<Seq<char>> {
    match obj_get(es, key) {
        Some(JsonV::Str(s)) => Some(s),
        _ => None,
    }
}

/// The optional unsigned integer at `key`: absent and `null` decode to an
/// explicit "absent" value; anything but a representable number is an error.
pub open spec fn sget_opt_u64(es: Seq<(Seq<char>, JsonV)>, key: Seq<char>) -> Option<Option<u64>> {
    match obj_get(es, key) {
        Option::None => Some(None),
        Some(JsonV::Null) => Some(None),
        Some(JsonV::Num(u)) => Some(Some(u)),
        _ => None,
    }
}

/// The timestamp at `key`: a string holding valid RFC 3339 text.
pub open spec fn sget_instant(es: Seq<(Seq<char>, JsonV)>, key: Seq<char>) -> Option<Instant> {
    match obj_get(es, key) {
        Some(JsonV::Str(s)) => instant_of_text(s),
        _ => None,
    }
}

/// The optional timestamp at `key`: absent and `null` decode to an explicit
/// "absent" value, never a sentinel; invalid timestamp text is an error.
pub open spec fn sget_opt_instant(es: Seq<(Seq<char>, JsonV)>, key: Seq<char>) -> Option<
    Option<Instant>,
> {
    match obj_get(es, key) {
        Option::None => Some(None),
        Some(JsonV::Null) => Some(None),
        Some(JsonV::Str(s)) => match instant_of_text(s) {
            Some(i) => Some(Some(i)),
            None => None,
        },
        _ => None,
    }
}

/// The direction token at `key`.
pub open spec fn sget_direction(es: Seq<(Seq<char>, JsonV)>, key: Seq<char>) -> Option<
    OrderDirection,
> {
    match obj_get(es, key) {
        Some(JsonV::Str(s)) => direction_of_token(s),
        _ => None,
    }
}

/// The optional direction token at `key`: absent and `null` decode to an
/// explicit "absent" value; an unknown token is an error.
pub open spec fn sget_opt_direction(es: Seq<(Seq<char>, JsonV)>, key: Seq<char>) -> Option<
    Option<OrderDirection>,
> {
    match obj_get(es, key) {
        Option::None => Some(None),
        Some(JsonV::Null) => Some(None),
        Some(JsonV::Str(s)) => match direction_of_token(s) {
            Some(d) => Some(Some(d)),
            None => None,
        },
        _ => None,
    }
}

/// The order-type token at `key`.
pub open spec fn sget_order_type(es: Seq<(Seq<char>, JsonV)>, key: Seq<char>) -> Option<OrderType> {
    match obj_get(es, key) {
        Some(JsonV::Str(s)) => order_type_of_token(s),
        _ => None,
    }
}

// ---------------------------------------------------------------------------
// Executable field access, proved against the spec-level access.
// ---------------------------------------------------------------------------

/// A decode error whose message names what was wrong and the field.
fn decode_err(what: &str, key: &str) -> (r: Error)
    ensures
        r matches Error::Decode(_),
{
    Error::Decode(str_concat(what, key))
}

/// The boolean field at `key`.
pub fn take_bool(entries: &Vec<(String, serde_json::Value)>, key: &str) -> (r: Result<bool, Error>)
    ensures
        match sget_bool(entries_view(entries@), key@) {
            Some(b) => r matches Ok(x) && x == b,
            None => r matches Err(e) && e matches Error::Decode(_),
        },
{
    match obj_lookup(entries, key) {
        Some(v) => match value_node(v) {
            VNode::Bool(b) => Ok(b),
            _ => Err(decode_err("expected a boolean at field ", key)),
        },
        None => Err(decode_err("missing required field ", key)),
    }
}

/// The unsigned 64-bit integer field at `key`. A negative, fractional or
/// too-large number is a decode error.
pub fn take_u64(entries: &Vec<(String, serde_json::Value)>, key: &str) -> (r: Result<u64, Error>)
    ensures
        match sget_u64(entries_view(entries@), key@) {
            Some(u) => r matches Ok(x) && x == u,
            None => r matches Err(e) && e matches Error::Decode(_),
        },
{
    match obj_lookup(entries, key) {
        Some(v) => match value_node(v) {
            VNode::Num(u) => Ok(u),
            _ => Err(decode_err("expected an unsigned 64-bit integer at field ", key)),
        },
        None => Err(decode_err("missing required field ", key)),
    }
}

/// The string field at `key`.
pub fn take_string(entries: &Vec<(String, serde_json::Value)>, key: &str) -> (r: Result<
    String,
    Error,
>)
    ensures
        match sget_str(entries_view(entries@), key@) {
            Some(s) => r matches Ok(x) && x@ == s,
            None => r matches Err(e) && e matches Error::Decode(_),
        },
{
    match obj_lookup(entries, key) {
        Some(v) => match value_node(v) {
            VNode::Str(s) => Ok(s),
            _ => Err(decode_err("expected a string at field ", key)),
        },
        None => Err(decode_err("missing required field ", key)),
    }
}

/// The optional unsigned integer field at `key`; absent and `null` are an
/// explicit "absent" value.
pub fn take_opt_u64(entries: &Vec<(String, serde_json::Value)>, key: &str) -> (r: Result<
    Option<u64>,
    Error,
>)
    ensures
        match sget_opt_u64(entries_view(entries@), key@) {
            Some(o) => r matches Ok(x) && x == o,
            None => r matches Err(e) && e matches Error::Decode(_),
        },
{
    match obj_lookup(entries, key) {
        Some(v) => match value_node(v) {
            VNode::Num(u) => Ok(Some(u)),
            VNode::Null => Ok(None),
            _ => Err(decode_err("expected an unsigned 64-bit integer or null at field ", key)),
        },
        None => Ok(None),
    }
}

/// The timestamp field at `key`: RFC 3339 text.
pub fn take_instant(entries: &Vec<(String, serde_json::Value)>, key: &str) -> (r: Result<
    Instant,
    Error,
>)
    ensures
        match sget_instant(entries_view(entries@), key@) {
            Some(i) => r matches Ok(x) && x == i,
            None => r matches Err(e) && e matches Error::Decode(_),
        },
{
    match obj_lookup(entries, key) {
        Some(v) => match value_node(v) {
            VNode::Str(s) => match Instant::parse(s.as_str()) {
                Some(i) => Ok(i),
                None => Err(decode_err("expected an RFC 3339 timestamp at field ", key)),
            },
            _ => Err(decode_err("expected a timestamp string at field ", key)),
        },
        None => Err(decode_err("missing required field ", key)),
    }
}

/// The optional timestamp field at `key`; absent and `null` decode to an
/// explicit "absent" value, never a sentinel.
pub fn take_opt_instant(entries: &Vec<(String, serde_json::Value)>, key: &str) -> (r: Result<
    Option<Instant>,
    Error,
>)
    ensures
        match sget_opt_instant(entries_view(entries@), key@) {
            Some(o) => r matches Ok(x) && x == o,
            None => r matches Err(e) && e matches Error::Decode(_),
        },
{
    match obj_lookup(entries, key) {
        Some(v) => match value_node(v) {
            VNode::Str(s) => match Instant::parse(s.as_str()) {
                Some(i) => Ok(Some(i)),
                None => Err(decode_err("expected an RFC 3339 timestamp at field ", key)),
            },
            VNode::Null => Ok(None),
            _ => Err(decode_err("expected a timestamp string or null at field ", key)),
        },
        None => Ok(None),
    }
}

/// The direction field at `key`. An unknown token is a decode error naming
/// the token.
pub fn take_direction(entries: &Vec<(String, serde_json::Value)>, key: &str) -> (r: Result<
    OrderDirection,
    Error,
>)
    ensures
        match sget_direction(entries_view(entries@), key@) {
            Some(d) => r matches Ok(x) && x == d,
            None => r matches Err(e) && e matches Error::Decode(_),
        },
        (match obj_get(entries_view(entries@), key@) {
            Some(JsonV::Str(s)) => direction_of_token(s) is None ==> (r matches Err(e)
                && e matches Error::Decode(m) && m@ == bad_direction_msg(s)),
            _ => true,
        }),
{
    match obj_lookup(entries, key) {
        Some(v) => match value_node(v) {
            VNode::Str(s) => direction_from_token(s.as_str()),
            _ => Err(decode_err("expected a direction token at field ", key)),
        },
        None => Err(decode_err("missing required field ", key)),
    }
}

/// The optional direction field at `key`; absent and `null` are an explicit
/// "absent" value, and an unknown token is a decode error naming the token.
pub fn take_opt_direction(entries: &Vec<(String, serde_json::Value)>, key: &str) -> (r: Result<
    Option<OrderDirection>,
    Error,
>)
    ensures
        match sget_opt_direction(entries_view(entries@), key@) {
            Some(o) => r matches Ok(x) && x == o,
            None => r matches Err(e) && e matches Error::Decode(_),
        },
{
    match obj_lookup(entries, key) {
        Some(v) => match value_node(v) {
            VNode::Str(s) => match direction_from_token(s.as_str()) {
                Ok(d) => Ok(Some(d)),
                Err(e) => Err(e),
            },
            VNode::Null => Ok(None),
            _ => Err(decode_err("expected a direction token or null at field ", key)),
        },
        None => Ok(None),
    }
}

/// The order-type field at `key`. An unknown token is a decode error naming
/// the token.
pub fn take_order_type(entries: &Vec<(String, serde_json::Value)>, key: &str) -> (r: Result<
    OrderType,
    Error,
>)
    ensures
        match sget_order_type(entries_view(entries@), key@) {
            Some(t) => r matches Ok(x) && x == t,
            None => r matches Err(e) && e matches Error::Decode(_),
        },
        (match obj_get(entries_view(entries@), key@) {
            Some(JsonV::Str(s)) => order_type_of_token(s) is None ==> (r matches Err(e)
                && e matches Error::Decode(m) && m@ == bad_order_type_msg(s)),
            _ => true,
        }),
{
    match obj_lookup(entries, key) {
        Some(v) => match value_node(v) {
            VNode::Str(s) => order_type_from_token(s.as_str()),
            _ => Err(decode_err("expected an order type token at field ", key)),
        },
        None => Err(decode_err("missing required field ", key)),
    }
}

// ---------------------------------------------------------------------------
// Spec-level decoding of arrays, element by element.
// ---------------------------------------------------------------------------

/// The strings of a JSON array of strings.
pub open spec fn strings_of(items: Seq<JsonV>) -> Option<Seq<Seq<char>>>
    decreases items.len(),
{
    if items.len() == 0 {
        Some(Seq::empty())
    } else {
        match items[0] {
            JsonV::Str(s) => match strings_of(items.drop_first()) {
                Some(rest) => Some(seq![s] + rest),
                _ => None,
            },
            _ => None,
        }
    }
}

/// One step of [`strings_of`] at position `i` of the array.
proof fn lemma_strings_of_step(items: Seq<JsonV>, i: int)
    requires
        0 <= i < items.len(),
    ensures
        (match items[i] {
            JsonV::Str(s) => (match strings_of(items.skip(i + 1)) {
                Some(rest) => strings_of(items.skip(i)) == Some(seq![s] + rest),
                None => strings_of(items.skip(i)) is None,
            }),
            _ => strings_of(items.skip(i)) is None,
        }),
{
    assert(items.skip(i)[0] == items[i]);
    assert(items.skip(i).drop_first() =~= items.skip(i + 1));
}

/// One book entry: an object with the wire fields `price`, `qty` and `isBuy`.
pub open spec fn bidask_of_json(j: JsonV) -> Option<BidAsk> {
    match j {
        JsonV::Obj(es) => match (sget_u64(es, "price"@), sget_u64(es, "qty"@), sget_bool(
            es,
            "isBuy"@,
        )) {
            (Some(price), Some(qty), Some(is_buy)) => Some(BidAsk { price, qty, is_buy }),
            _ => None,
        },
        _ => None,
    }
}

/// The book entries of a JSON array.
pub open spec fn bidasks_of(items: Seq<JsonV>) -> Option<Seq<BidAsk>>
    decreases items.len(),
{
    if items.len() == 0 {
        Some(Seq::empty())
    } else {
        match bidask_of_json(items[0]) {
            Some(b) => match bidasks_of(items.drop_first()) {
                Some(rest) => Some(seq![b] + rest),
                _ => None,
            },
            _ => None,
        }
    }
}

/// One step of [`bidasks_of`] at position `i` of the array.
proof fn lemma_bidasks_of_step(items: Seq<JsonV>, i: int)
    requires
        0 <= i < items.len(),
    ensures
        (match bidask_of_json(items[i]) {
            Some(b) => (match bidasks_of(items.skip(i + 1)) {
                Some(rest) => bidasks_of(items.skip(i)) == Some(seq![b] + rest),
                None => bidasks_of(items.skip(i)) is None,
            }),
            None => bidasks_of(items.skip(i)) is None,
        }),
{
    assert(items.skip(i)[0] == items[i]);
    assert(items.skip(i).drop_first() =~= items.skip(i + 1));
}

/// One stock symbol: an object with the wire fields `name` and `symbol`.
pub open spec fn symbol_of_json(j: JsonV) -> Option<StockSymbolV> {
    match j {
        JsonV::Obj(es) => match (sget_str(es, "name"@), sget_str(es, "symbol"@)) {
            (Some(name), Some(symbol)) => Some(StockSymbolV { name, symbol }),
            _ => None,
        },
        _ => None,
    }
}

/// The stock symbols of a JSON array.
pub open spec fn symbols_of(items: Seq<JsonV>) -> Option<Seq<StockSymbolV>>
    decreases items.len(),
{
    if items.len() == 0 {
        Some(Seq::empty())
    } else {
        match symbol_of_json(items[0]) {
            Some(s) => match symbols_of(items.drop_first()) {
                Some(rest) => Some(seq![s] + rest),
                _ => None,
            },
            _ => None,
        }
    }
}

/// One step of [`symbols_of`] at position `i` of the array.
proof fn lemma_symbols_of_step(items: Seq<JsonV>, i: int)
    requires
        0 <= i < items.len(),
    ensures
        (match symbol_of_json(items[i]) {
            Some(s) => (match symbols_of(items.skip(i + 1)) {
                Some(rest) => symbols_of(items.skip(i)) == Some(seq![s] + rest),
                None => symbols_of(items.skip(i)) is None,
            }),
            None => symbols_of(items.skip(i)) is None,
        }),
{
    assert(items.skip(i)[0] == items[i]);
    assert(items.skip(i).drop_first() =~= items.skip(i + 1));
}

/// One fill: an object with the wire fields `price`, `qty` and `ts`.
pub open spec fn fill_of_json(j: JsonV) -> Option<Fill> {
    match j {
        JsonV::Obj(es) => match (sget_u64(es, "price"@), sget_u64(es, "qty"@), sget_instant(
            es,
            "ts"@,
        )) {
            (Some(price), Some(qty), Some(ts)) => Some(Fill { price, qty, ts }),
            _ => None,
        },
        _ => None,
    }
}

/// The fills of a JSON array.
pub open spec fn fills_of(items: Seq<JsonV>) -> Option<Seq<Fill>>
    decreases items.len(),
{
    if items.len() == 0 {
        Some(Seq::empty())
    } else {
        match fill_of_json(items[0]) {
            Some(x) => match fills_of(items.drop_first()) {
                Some(rest) => Some(seq![x] + rest),
                _ => None,
            },
            _ => None,
        }
    }
}

/// One step of [`fills_of`] at position `i` of the array.
proof fn lemma_fills_of_step(items: Seq<JsonV>, i: int)
    requires
        0 <= i < items.len(),
    ensures
        (match fill_of_json(items[i]) {
            Some(x) => (match fills_of(items.skip(i + 1)) {
                Some(rest) => fills_of(items.skip(i)) == Some(seq![x] + rest),
                None => fills_of(items.skip(i)) is None,
            }),
            None => fills_of(items.skip(i)) is None,
        }),
{
    assert(items.skip(i)[0] == items[i]);
    assert(items.skip(i).drop_first() =~= items.skip(i + 1));
}

/// The instruction pairs of a JSON object whose values are all strings, in
/// wire order.
pub open spec fn str_pairs_of(es: Seq<(Seq<char>, JsonV)>) -> Option<Seq<(Seq<char>, Seq<char>)>>
    decreases es.len(),
{
    if es.len() == 0 {
        Some(Seq::empty())
    } else {
        match es[0].1 {
            JsonV::Str(s) => match str_pairs_of(es.drop_first()) {
                Some(rest) => Some(seq![(es[0].0, s)] + rest),
                _ => None,
            },
            _ => None,
        }
    }
}

// ---------------------------------------------------------------------------
// Executable decoding of arrays.
// ---------------------------------------------------------------------------

/// Decodes an array of strings.
fn decode_strings(items: Vec<serde_json::Value>) -> (r: Result<Vec<String>, Error>)
    ensures
        match strings_of(items_view(items@)) {
            Some(ss) => r matches Ok(out) && strings_view(out@) == ss,
            None => r matches Err(e) && e matches Error::Decode(_),
        },
{
    let ghost jitems = items_view(items@);
    proof {
        assert(jitems.skip(0) =~= jitems);
    }
    let mut out: Vec<String> = Vec::new();
    let mut i: usize = 0;
    while i < items.len()
        invariant
            0 <= i <= items.len(),
            jitems == items_view(items@),
            out@.len() == i,
            (match strings_of(jitems.skip(i as int)) {
                Some(rest) => strings_of(jitems) == Some(strings_view(out@) + rest),
                None => strings_of(jitems) is None,
            }),
        decreases items.len() - i,
    {
        proof {
            lemma_strings_of_step(jitems, i as int);
            assert(jitems[i as int] == value_view(items@[i as int]));
        }
        let ghost prev = out@;
        let elem = value_clone(&items[i]);
        let node = value_node(elem);
        let ghost gnode = node;
        proof {
            assert(vnode_view(gnode) == jitems[i as int]);
        }
        match node {
            VNode::Str(s) => {
                let ghost sv = s@;
                out.push(s);
                proof {
                    assert(gnode == VNode::Str(out@[i as int]));
                    assert(jitems[i as int] == JsonV::Str(sv));
                    assert(strings_view(out@) =~= strings_view(prev) + seq![sv]);
                    if let Some(rest) = strings_of(jitems.skip(i as int + 1)) {
                        assert(strings_view(prev) + (seq![sv] + rest)
                            =~= strings_view(out@) + rest);
                    }
                }
            },
            _ => {
                return Err(decode_err("expected a string inside the array at field ", ""));
            },
        }
        i += 1;
    }
    proof {
        assert(jitems.skip(i as int) =~= Seq::<JsonV>::empty());
        if strings_of(jitems) is Some {
            assert(strings_view(out@) + Seq::<Seq<char>>::empty() =~= strings_view(out@));
        }
    }
    Ok(out)
}

/// Decodes one book entry: an object with `price`, `qty` and `isBuy`.
fn decode_bidask(v: serde_json::Value) -> (r: Result<BidAsk, Error>)
    ensures
        match bidask_of_json(value_view(v)) {
            Some(b) => r matches Ok(x) && x == b,
            None => r matches Err(e) && e matches Error::Decode(_),
        },
{
    let node = value_node(v);
    match node {
        VNode::Obj(kvs) => {
            proof {
                assert(value_view(v) == JsonV::Obj(entries_view(kvs@)));
            }
            let price = match take_u64(&kvs, "price") {
                Ok(x) => x,
                Err(e) => return Err(e),
            };
            let qty = match take_u64(&kvs, "qty") {
                Ok(x) => x,
                Err(e) => return Err(e),
            };
            let is_buy = match take_bool(&kvs, "isBuy") {
                Ok(x) => x,
                Err(e) => return Err(e),
            };
            Ok(BidAsk { price, qty, is_buy })
        },
        _ => Err(decode_err("expected an object for a book entry", "")),
    }
}

/// Decodes an array of book entries.
fn decode_bidasks(items: Vec<serde_json::Value>) -> (r: Result<Vec<BidAsk>, Error>)
    ensures
        match bidasks_of(items_view(items@)) {
            Some(bs) => r matches Ok(out) && out@ == bs,
            None => r matches Err(e) && e matches Error::Decode(_),
        },
{
    let ghost jitems = items_view(items@);
    proof {
        assert(jitems.skip(0) =~= jitems);
    }
    let mut out: Vec<BidAsk> = Vec::new();
    let mut i: usize = 0;
    while i < items.len()
        invariant
            0 <= i <= items.len(),
            jitems == items_view(items@),
            out@.len() == i,
            (match bidasks_of(jitems.skip(i as int)) {
                Some(rest) => bidasks_of(jitems) == Some(out@ + rest),
                None => bidasks_of(jitems) is None,
            }),
        decreases items.len() - i,
    {
        proof {
            lemma_bidasks_of_step(jitems, i as int);
            assert(jitems[i as int] == value_view(items@[i as int]));
        }
        let ghost prev = out@;
        let elem = value_clone(&items[i]);
        match decode_bidask(elem) {
            Ok(b) => {
                out.push(b);
                proof {
                    if let Some(rest) = bidasks_of(jitems.skip(i as int + 1)) {
                        assert(prev + (seq![b] + rest) =~= out@ + rest);
                    }
                }
            },
            Err(e) => {
                return Err(e);
            },
        }
        i += 1;
    }
    proof {
        assert(jitems.skip(i as int) =~= Seq::<JsonV>::empty());
        if bidasks_of(jitems) is Some {
            assert(out@ + Seq::<BidAsk>::empty() =~= out@);
        }
    }
    Ok(out)
}

/// Decodes one stock symbol: an object with `name` and `symbol`.
fn decode_symbol(v: serde_json::Value) -> (r: Result<StockSymbol, Error>)
    ensures
        match symbol_of_json(value_view(v)) {
            Some(s) => r matches Ok(x) && x@ == s,
            None => r matches Err(e) && e matches Error::Decode(_),
        },
{
    let node = value_node(v);
    match node {
        VNode::Obj(kvs) => {
            proof {
                assert(value_view(v) == JsonV::Obj(entries_view(kvs@)));
            }
            let name = match take_string(&kvs, "name") {
                Ok(x) => x,
                Err(e) => return Err(e),
            };
            let symbol = match take_string(&kvs, "symbol") {
                Ok(x) => x,
                Err(e) => return Err(e),
            };
            Ok(StockSymbol { name, symbol })
        },
        _ => Err(decode_err("expected an object for a stock symbol", "")),
    }
}

/// Decodes an array of stock symbols.
fn decode_symbols(items: Vec<serde_json::Value>) -> (r: Result<Vec<StockSymbol>, Error>)
    ensures
        match symbols_of(items_view(items@)) {
            Some(ss) => r matches Ok(out) && symbols_view(out@) == ss,
            None => r matches Err(e) && e matches Error::Decode(_),
        },
{
    let ghost jitems = items_view(items@);
    proof {
        assert(jitems.skip(0) =~= jitems);
    }
    let mut out: Vec<StockSymbol> = Vec::new();
    let mut i: usize = 0;
    while i < items.len()
        invariant
            0 <= i <= items.len(),
            jitems == items_view(items@),
            out@.len() == i,
            (match symbols_of(jitems.skip(i as int)) {
                Some(rest) => symbols_of(jitems) == Some(symbols_view(out@) + rest),
                None => symbols_of(jitems) is None,
            }),
        decreases items.len() - i,
    {
        proof {
            lemma_symbols_of_step(jitems, i as int);
            assert(jitems[i as int] == value_view(items@[i as int]));
        }
        let ghost prev = out@;
        let elem = value_clone(&items[i]);
        match decode_symbol(elem) {
            Ok(s) => {
                let ghost sv = s@;
                out.push(s);
                proof {
                    assert(symbols_view(out@) =~= symbols_view(prev) + seq![sv]);
                    if let Some(rest) = symbols_of(jitems.skip(i as int + 1)) {
                        assert(symbols_view(prev) + (seq![sv] + rest)
                            =~= symbols_view(out@) + rest);
                    }
                }
            },
            Err(e) => {
                return Err(e);
            },
        }
        i += 1;
    }
    proof {
        assert(jitems.skip(i as int) =~= Seq::<JsonV>::empty());
        if symbols_of(jitems) is Some {
            assert(symbols_view(out@) + Seq::<StockSymbolV>::empty() =~= symbols_view(out@));
        }
    }
    Ok(out)
}

/// Decodes one fill: an object with `price`, `qty` and `ts`.
fn decode_fill(v: serde_json::Value) -> (r: Result<Fill, Error>)
    ensures
        match fill_of_json(value_view(v)) {
            Some(x) => r matches Ok(y) && y == x,
            None => r matches Err(e) && e matches Error::Decode(_),
        },
{
    let node = value_node(v);
    match node {
        VNode::Obj(kvs) => {
            proof {
                assert(value_view(v) == JsonV::Obj(entries_view(kvs@)));
            }
            let price = match take_u64(&kvs, "price") {
                Ok(x) => x,
                Err(e) => return Err(e),
            };
            let qty = match take_u64(&kvs, "qty") {
                Ok(x) => x,
                Err(e) => return Err(e),
            };
            let ts = match take_instant(&kvs, "ts") {
                Ok(x) => x,
                Err(e) => return Err(e),
            };
            Ok(Fill { price, qty, ts })
        },
        _ => Err(decode_err("expected an object for a fill", "")),
    }
}

/// Decodes an array of fills.
fn decode_fills(items: Vec<serde_json::Value>) -> (r: Result<Vec<Fill>, Error>)
    ensures
        match fills_of(items_view(items@)) {
            Some(fs) => r matches Ok(out) && out@ == fs,
            None => r matches Err(e) && e matches Error::Decode(_),
        },
{
    let ghost jitems = items_view(items@);
    proof {
        assert(jitems.skip(0) =~= jitems);
    }
    let mut out: Vec<Fill> = Vec::new();
    let mut i: usize = 0;
    while i < items.len()
        invariant
            0 <= i <= items.len(),
            jitems == items_view(items@),
            out@.len() == i,
            (match fills_of(jitems.skip(i as int)) {
                Some(rest) => fills_of(jitems) == Some(out@ + rest),
                None => fills_of(jitems) is None,
            }),
        decreases items.len() - i,
    {
        proof {
            lemma_fills_of_step(jitems, i as int);
            assert(jitems[i as int] == value_view(items@[i as int]));
        }
        let ghost prev = out@;
        let elem = value_clone(&items[i]);
        match decode_fill(elem) {
            Ok(x) => {
                out.push(x);
                proof {
                    if let Some(rest) = fills_of(jitems.skip(i as int + 1)) {
                        assert(prev + (seq![x] + rest) =~= out@ + rest);
                    }
                }
            },
            Err(e) => {
                return Err(e);
            },
        }
        i += 1;
    }
    proof {
        assert(jitems.skip(i as int) =~= Seq::<JsonV>::empty());
        if fills_of(jitems) is Some {
            assert(out@ + Seq::<Fill>::empty() =~= out@);
        }
    }
    Ok(out)
}

/// One step of [`str_pairs_of`] at position `i` of the entries.
proof fn lemma_str_pairs_of_step(es: Seq<(Seq<char>, JsonV)>, i: int)
    requires
        0 <= i < es.len(),
    ensures
        (match es[i].1 {
            JsonV::Str(s) => (match str_pairs_of(es.skip(i + 1)) {
                Some(rest) => str_pairs_of(es.skip(i)) == Some(seq![(es[i].0, s)] + rest),
                None => str_pairs_of(es.skip(i)) is None,
            }),
            _ => str_pairs_of(es.skip(i)) is None,
        }),
{
    assert(es.skip(i)[0] == es[i]);
    assert(es.skip(i).drop_first() =~= es.skip(i + 1));
}

/// Decodes an object whose values are all strings into its pairs, in wire
/// order.
fn decode_string_pairs(kvs: Vec<(String, serde_json::Value)>) -> (r: Result<
    Vec<(String, String)>,
    Error,
>)
    ensures
        match str_pairs_of(entries_view(kvs@)) {
            Some(ps) => r matches Ok(out) && string_pairs_view(out@) == ps,
            None => r matches Err(e) && e matches Error::Decode(_),
        },
{
    let ghost jentries = entries_view(kvs@);
    proof {
        assert(jentries.skip(0) =~= jentries);
    }
    let mut out: Vec<(String, String)> = Vec::new();
    let mut i: usize = 0;
    while i < kvs.len()
        invariant
            0 <= i <= kvs.len(),
            jentries == entries_view(kvs@),
            out@.len() == i,
            (match str_pairs_of(jentries.skip(i as int)) {
                Some(rest) => str_pairs_of(jentries) == Some(string_pairs_view(out@) + rest),
                None => str_pairs_of(jentries) is None,
            }),
        decreases kvs.len() - i,
    {
        proof {
            lemma_str_pairs_of_step(jentries, i as int);
            assert(jentries[i as int] == (kvs@[i as int].0@, value_view(kvs@[i as int].1)));
        }
        let ghost prev = out@;
        let key = kvs[i].0.clone();
        let elem = value_clone(&kvs[i].1);
        let node = value_node(elem);
        let ghost gnode = node;
        proof {
            assert(vnode_view(gnode) == jentries[i as int].1);
        }
        match node {
            VNode::Str(s) => {
                let ghost pv = (key@, s@);
                out.push((key, s));
                proof {
                    assert(string_pairs_view(out@) =~= string_pairs_view(prev) + seq![pv]);
                    if let Some(rest) = str_pairs_of(jentries.skip(i as int + 1)) {
                        assert(string_pairs_view(prev) + (seq![pv] + rest)
                            =~= string_pairs_view(out@) + rest);
                    }
                }
            },
            _ => {
                return Err(decode_err("expected a string instruction value", ""));
            },
        }
        i += 1;
    }
    proof {
        assert(jentries.skip(i as int) =~= Seq::<(Seq<char>, JsonV)>::empty());
        if str_pairs_of(jentries) is Some {
            assert(string_pairs_view(out@) + Seq::<(Seq<char>, Seq<char>)>::empty()
                =~= string_pairs_view(out@));
        }
    }
    Ok(out)
}

// ---------------------------------------------------------------------------
// Entry-level access to array- and object-valued fields.
// ---------------------------------------------------------------------------

/// The array of strings at `key`.
pub open spec fn sget_str_arr(es: Seq<(Seq<char>, JsonV)>, key: Seq<char>) -> Option<
    Seq<Seq<char>>,
> {
    match obj_get(es, key) {
        Some(JsonV::Arr(items)) => strings_of(items),
        _ => None,
    }
}

/// The instruction pairs at `key`: an object whose values are all strings.
pub open spec fn sget_instructions(es: Seq<(Seq<char>, JsonV)>, key: Seq<char>) -> Option<
    Seq<(Seq<char>, Seq<char>)>,
> {
    match obj_get(es, key) {
        Some(JsonV::Obj(inner)) => str_pairs_of(inner),
        _ => None,
    }
}

/// The optional array of book entries at `key`: absent and `null` decode to
/// an explicit "absent" value.
pub open spec fn sget_opt_bidasks(es: Seq<(Seq<char>, JsonV)>, key: Seq<char>) -> Option<
    Option<Seq<BidAsk>>,
> {
    match obj_get(es, key) {
        Option::None => Some(None),
        Some(JsonV::Null) => Some(None),
        Some(JsonV::Arr(items)) => match bidasks_of(items) {
            Some(bs) => Some(Some(bs)),
            None => None,
        },
        _ => None,
    }
}

/// The array of stock symbols at `key`.
pub open spec fn sget_symbols(es: Seq<(Seq<char>, JsonV)>, key: Seq<char>) -> Option<
    Seq<StockSymbolV>,
> {
    match obj_get(es, key) {
        Some(JsonV::Arr(items)) => symbols_of(items),
        _ => None,
    }
}

/// The array of fills at `key`.
pub open spec fn sget_fills(es: Seq<(Seq<char>, JsonV)>, key: Seq<char>) -> Option<Seq<Fill>> {
    match obj_get(es, key) {
        Some(JsonV::Arr(items)) => fills_of(items),
        _ => None,
    }
}

/// The array-of-strings field at `key`.
pub fn take_strings(entries: &Vec<(String, serde_json::Value)>, key: &str) -> (r: Result<
    Vec<String>,
    Error,
>)
    ensures
        match sget_str_arr(entries_view(entries@), key@) {
            Some(ss) => r matches Ok(out) && strings_view(out@) == ss,
            None => r matches Err(e) && e matches Error::Decode(_),
        },
{
    match obj_lookup(entries, key) {
        Some(v) => {
            let node = value_node(v);
            match node {
                VNode::Arr(items) => decode_strings(items),
                _ => Err(decode_err("expected an array of strings at field ", key)),
            }
        },
        None => Err(decode_err("missing required field ", key)),
    }
}

/// The instructions field at `key`: an object mapping names to texts.
pub fn take_instructions(entries: &Vec<(String, serde_json::Value)>, key: &str) -> (r: Result<
    Vec<(String, String)>,
    Error,
>)
    ensures
        match sget_instructions(entries_view(entries@), key@) {
            Some(ps) => r matches Ok(out) && string_pairs_view(out@) == ps,
            None => r matches Err(e) && e matches Error::Decode(_),
        },
{
    match obj_lookup(entries, key) {
        Some(v) => {
            let node = value_node(v);
            match node {
                VNode::Obj(kvs) => decode_string_pairs(kvs),
                _ => Err(decode_err("expected an object of strings at field ", key)),
            }
        },
        None => Err(decode_err("missing required field ", key)),
    }
}

/// The optional array-of-book-entries field at `key`; absent and `null`
/// decode to an explicit "absent" value.
pub fn take_opt_bidasks(entries: &Vec<(String, serde_json::Value)>, key: &str) -> (r: Result<
    Option<Vec<BidAsk>>,
    Error,
>)
    ensures
        match sget_opt_bidasks(entries_view(entries@), key@) {
            Some(o) => (match o {
                Some(bs) => r matches Ok(x) && x matches Some(v) && v@ == bs,
                None => r matches Ok(x) && x is None,
            }),
            None => r matches Err(e) && e matches Error::Decode(_),
        },
{
    match obj_lookup(entries, key) {
        Some(v) => {
            let node = value_node(v);
            match node {
                VNode::Arr(items) => match decode_bidasks(items) {
                    Ok(bs) => Ok(Some(bs)),
                    Err(e) => Err(e),
                },
                VNode::Null => Ok(None),
                _ => Err(decode_err("expected an array of book entries or null at field ", key)),
            }
        },
        None => Ok(None),
    }
}

/// The array-of-stock-symbols field at `key`.
pub fn take_symbols(entries: &Vec<(String, serde_json::Value)>, key: &str) -> (r: Result<
    Vec<StockSymbol>,
    Error,
>)
    ensures
        match sget_symbols(entries_view(entries@), key@) {
            Some(ss) => r matches Ok(out) && symbols_view(out@) == ss,
            None => r matches Err(e) && e matches Error::Decode(_),
        },
{
    match obj_lookup(entries, key) {
        Some(v) => {
            let node = value_node(v);
            match node {
                VNode::Arr(items) => decode_symbols(items),
                _ => Err(decode_err("expected an array of stock symbols at field ", key)),
            }
        },
        None => Err(decode_err("missing required field ", key)),
    }
}

/// The array-of-fills field at `key`.
pub fn take_fills(entries: &Vec<(String, serde_json::Value)>, key: &str) -> (r: Result<
    Vec<Fill>,
    Error,
>)
    ensures
        match sget_fills(entries_view(entries@), key@) {
            Some(fs) => r matches Ok(out) && out@ == fs,
            None => r matches Err(e) && e matches Error::Decode(_),
        },
{
    match obj_lookup(entries, key) {
        Some(v) => {
            let node = value_node(v);
            match node {
                VNode::Arr(items) => decode_fills(items),
                _ => Err(decode_err("expected an array of fills at field ", key)),
            }
        },
        None => Err(decode_err("missing required field ", key)),
    }
}

// ---------------------------------------------------------------------------
// Whole records.
// ---------------------------------------------------------------------------

/// A record that the codec can decode from a JSON document.
pub trait FromJson: View + Sized {
    /// The record a JSON document denotes: nothing where a required field is
    /// absent or of the wrong shape. Unknown fields are ignored.
    spec fn of_json(j: JsonV) -> Option<Self::V>;

    /// Decodes one JSON value into the record.
    fn from_value(v: serde_json::Value) -> (r: Result<Self, Error>)
        ensures
            match Self::of_json(value_view(v)) {
                Some(t) => r matches Ok(x) && x@ == t,
                None => r matches Err(e) && e matches Error::Decode(_),
            },
    ;
}

/// The record a whole response body denotes: the text parsed as JSON, then
/// decoded. A function of the body alone — whichever operation fetched the
/// body, decoding it yields the same record.
pub open spec fn response_of<T: FromJson>(body: Seq<char>) -> Option<T::V> {
    match text_json(body) {
        Some(j) => T::of_json(j),
        None => None,
    }
}

/// Decodes a whole response body: parses the text as JSON and decodes the
/// record. Malformed JSON, a missing required field and a mistyped field all
/// fail with a decode error; a well-formed body decodes to exactly the record
/// [`response_of`] gives, never to a partially populated one.
pub fn parse_response<T: FromJson>(buf: &str) -> (r: Result<T, Error>)
    ensures
        match response_of::<T>(buf@) {
            Some(t) => r matches Ok(x) && x@ == t,
            None => r matches Err(e) && e matches Error::Decode(_),
        },
{
    match parse_value(buf) {
        Ok(v) => T::from_value(v),
        Err(msg) => Err(Error::Decode(msg)),
    }
}

/// The level a JSON document denotes.
pub open spec fn level_of_json(j: JsonV) -> Option<LevelV> {
    match j {
        JsonV::Obj(es) => {
            if sget_bool(es, "ok"@) is Some && sget_u64(es, "instanceId"@) is Some && sget_str(
                es,
                "account"@,
            ) is Some && sget_instructions(es, "instructions"@) is Some && sget_str_arr(
                es,
                "tickers"@,
            ) is Some && sget_str_arr(es, "venues"@) is Some {
                Some(
                    LevelV {
                        ok: sget_bool(es, "ok"@).unwrap(),
                        instance_id: sget_u64(es, "instanceId"@).unwrap(),
                        account: sget_str(es, "account"@).unwrap(),
                        instructions: sget_instructions(es, "instructions"@).unwrap(),
                        tickers: sget_str_arr(es, "tickers"@).unwrap(),
                        venues: sget_str_arr(es, "venues"@).unwrap(),
                    },
                )
            } else {
                None
            }
        },
        _ => None,
    }
}

impl FromJson for Level {
    open spec fn of_json(j: JsonV) -> Option<LevelV> {
        level_of_json(j)
    }

    fn from_value(v: serde_json::Value) -> (r: Result<Self, Error>) {
        let node = value_node(v);
        match node {
            VNode::Obj(kvs) => {
                proof {
                    assert(value_view(v) == JsonV::Obj(entries_view(kvs@)));
                }
                let ok = match take_bool(&kvs, "ok") {
                    Ok(x) => x,
                    Err(e) => return Err(e),
                };
                let instance_id = match take_u64(&kvs, "instanceId") {
                    Ok(x) => x,
                    Err(e) => return Err(e),
                };
                let account = match take_string(&kvs, "account") {
                    Ok(x) => x,
                    Err(e) => return Err(e),
                };
                let instructions = match take_instructions(&kvs, "instructions") {
                    Ok(x) => x,
                    Err(e) => return Err(e),
                };
                let tickers = match take_strings(&kvs, "tickers") {
                    Ok(x) => x,
                    Err(e) => return Err(e),
                };
                let venues = match take_strings(&kvs, "venues") {
                    Ok(x) => x,
                    Err(e) => return Err(e),
                };
                Ok(Level { ok, instance_id, account, instructions, tickers, venues })
            },
            _ => Err(decode_err("expected a JSON object for a level", "")),
        }
    }
}

/// The heartbeat response a JSON document denotes.
pub open spec fn heart_beat_of_json(j: JsonV) -> Option<HeartBeatResponseV> {
    match j {
        JsonV::Obj(es) => match (sget_bool(es, "ok"@), sget_str(es, "error"@)) {
            (Some(ok), Some(error)) => Some(HeartBeatResponseV { ok, error }),
            _ => None,
        },
        _ => None,
    }
}

impl FromJson for HeartBeatResponse {
    open spec fn of_json(j: JsonV) -> Option<HeartBeatResponseV> {
        heart_beat_of_json(j)
    }

    fn from_value(v: serde_json::Value) -> (r: Result<Self, Error>) {
        let node = value_node(v);
        match node {
            VNode::Obj(kvs) => {
                proof {
                    assert(value_view(v) == JsonV::Obj(entries_view(kvs@)));
                }
                let ok = match take_bool(&kvs, "ok") {
                    Ok(x) => x,
                    Err(e) => return Err(e),
                };
                let error = match take_string(&kvs, "error") {
                    Ok(x) => x,
                    Err(e) => return Err(e),
                };
                Ok(HeartBeatResponse { ok, error })
            },
            _ => Err(decode_err("expected a JSON object for a heartbeat", "")),
        }
    }
}

/// The venue heartbeat response a JSON document denotes.
pub open spec fn venue_heart_beat_of_json(j: JsonV) -> Option<VenueHeartBeatResponseV> {
    match j {
        JsonV::Obj(es) => match (sget_bool(es, "ok"@), sget_str(es, "venue"@)) {
            (Some(ok), Some(venue)) => Some(VenueHeartBeatResponseV { ok, venue }),
            _ => None,
        },
        _ => None,
    }
}

impl FromJson for VenueHeartBeatResponse {
    open spec fn of_json(j: JsonV) -> Option<VenueHeartBeatResponseV> {
        venue_heart_beat_of_json(j)
    }

    fn from_value(v: serde_json::Value) -> (r: Result<Self, Error>) {
        let node = value_node(v);
        match node {
            VNode::Obj(kvs) => {
                proof {
                    assert(value_view(v) == JsonV::Obj(entries_view(kvs@)));
                }
                let ok = match take_bool(&kvs, "ok") {
                    Ok(x) => x,
                    Err(e) => return Err(e),
                };
                let venue = match take_string(&kvs, "venue") {
                    Ok(x) => x,
                    Err(e) => return Err(e),
                };
                Ok(VenueHeartBeatResponse { ok, venue })
            },
            _ => Err(decode_err("expected a JSON object for a venue heartbeat", "")),
        }
    }
}

impl FromJson for StockSymbol {
    open spec fn of_json(j: JsonV) -> Option<StockSymbolV> {
        symbol_of_json(j)
    }

    fn from_value(v: serde_json::Value) -> (r: Result<Self, Error>) {
        decode_symbol(v)
    }
}

impl FromJson for BidAsk {
    open spec fn of_json(j: JsonV) -> Option<BidAsk> {
        bidask_of_json(j)
    }

    fn from_value(v: serde_json::Value) -> (r: Result<Self, Error>) {
        decode_bidask(v)
    }
}

impl FromJson for Fill {
    open spec fn of_json(j: JsonV) -> Option<Fill> {
        fill_of_json(j)
    }

    fn from_value(v: serde_json::Value) -> (r: Result<Self, Error>) {
        decode_fill(v)
    }
}

/// The stock list a JSON document denotes.
pub open spec fn stock_list_of_json(j: JsonV) -> Option<StockListResponseV> {
    match j {
        JsonV::Obj(es) => match (sget_bool(es, "ok"@), sget_symbols(es, "symbols"@)) {
            (Some(ok), Some(symbols)) => Some(StockListResponseV { ok, symbols }),
            _ => None,
        },
        _ => None,
    }
}

impl FromJson for StockListResponse {
    open spec fn of_json(j: JsonV) -> Option<StockListResponseV> {
        stock_list_of_json(j)
    }

    fn from_value(v: serde_json::Value) -> (r: Result<Self, Error>) {
        let node = value_node(v);
        match node {
            VNode::Obj(kvs) => {
                proof {
                    assert(value_view(v) == JsonV::Obj(entries_view(kvs@)));
                }
                let ok = match take_bool(&kvs, "ok") {
                    Ok(x) => x,
                    Err(e) => return Err(e),
                };
                let symbols = match take_symbols(&kvs, "symbols") {
                    Ok(x) => x,
                    Err(e) => return Err(e),
                };
                Ok(StockListResponse { ok, symbols })
            },
            _ => Err(decode_err("expected a JSON object for a stock list", "")),
        }
    }
}

/// The order book snapshot a JSON document denotes.
pub open spec fn orderbook_of_json(j: JsonV) -> Option<OrderbookResponseV> {
    match j {
        JsonV::Obj(es) => {
            if sget_bool(es, "ok"@) is Some && sget_str(es, "venue"@) is Some && sget_str(
                es,
                "symbol"@,
            ) is Some && sget_opt_bidasks(es, "bids"@) is Some && sget_opt_bidasks(
                es,
                "asks"@,
            ) is Some && sget_str(es, "ts"@) is Some {
                Some(
                    OrderbookResponseV {
                        ok: sget_bool(es, "ok"@).unwrap(),
                        venue: sget_str(es, "venue"@).unwrap(),
                        symbol: sget_str(es, "symbol"@).unwrap(),
                        bids: sget_opt_bidasks(es, "bids"@).unwrap(),
                        asks: sget_opt_bidasks(es, "asks"@).unwrap(),
                        ts: sget_str(es, "ts"@).unwrap(),
                    },
                )
            } else {
                None
            }
        },
        _ => None,
    }
}

impl FromJson for OrderbookResponse {
    open spec fn of_json(j: JsonV) -> Option<OrderbookResponseV> {
        orderbook_of_json(j)
    }

    fn from_value(v: serde_json::Value) -> (r: Result<Self, Error>) {
        let node = value_node(v);
        match node {
            VNode::Obj(kvs) => {
                proof {
                    assert(value_view(v) == JsonV::Obj(entries_view(kvs@)));
                }
                let ok = match take_bool(&kvs, "ok") {
                    Ok(x) => x,
                    Err(e) => return Err(e),
                };
                let venue = match take_string(&kvs, "venue") {
                    Ok(x) => x,
                    Err(e) => return Err(e),
                };
                let symbol = match take_string(&kvs, "symbol") {
                    Ok(x) => x,
                    Err(e) => return Err(e),
                };
                let bids = match take_opt_bidasks(&kvs, "bids") {
                    Ok(x) => x,
                    Err(e) => return Err(e),
                };
                let asks = match take_opt_bidasks(&kvs, "asks") {
                    Ok(x) => x,
                    Err(e) => return Err(e),
                };
                let ts = match take_string(&kvs, "ts") {
                    Ok(x) => x,
                    Err(e) => return Err(e),
                };
                Ok(OrderbookResponse { ok, venue, symbol, bids, asks, ts })
            },
            _ => Err(decode_err("expected a JSON object for an order book", "")),
        }
    }
}

/// The quote a JSON document denotes.
pub open spec fn quote_of_json(j: JsonV) -> Option<QuoteResponseV> {
    match j {
        JsonV::Obj(es) => {
            if sget_bool(es, "ok"@) is Some && sget_str(es, "symbol"@) is Some && sget_str(
                es,
                "venue"@,
            ) is Some && sget_opt_u64(es, "bid"@) is Some && sget_opt_u64(es, "ask"@) is Some
                && sget_u64(es, "bidSize"@) is Some && sget_u64(es, "askSize"@) is Some && sget_u64(
                es,
                "bidDepth"@,
            ) is Some && sget_u64(es, "askDepth"@) is Some && sget_opt_u64(es, "last"@) is Some
                && sget_opt_u64(es, "lastSize"@) is Some && sget_opt_instant(
                es,
                "lastTrade"@,
            ) is Some && sget_opt_instant(es, "quoteTime"@) is Some {
                Some(
                    QuoteResponseV {
                        ok: sget_bool(es, "ok"@).unwrap(),
                        symbol: sget_str(es, "symbol"@).unwrap(),
                        venue: sget_str(es, "venue"@).unwrap(),
                        bid: sget_opt_u64(es, "bid"@).unwrap(),
                        ask: sget_opt_u64(es, "ask"@).unwrap(),
                        bid_size: sget_u64(es, "bidSize"@).unwrap(),
                        ask_size: sget_u64(es, "askSize"@).unwrap(),
                        bid_depth: sget_u64(es, "bidDepth"@).unwrap(),
                        ask_depth: sget_u64(es, "askDepth"@).unwrap(),
                        last: sget_opt_u64(es, "last"@).unwrap(),
                        last_size: sget_opt_u64(es, "lastSize"@).unwrap(),
                        last_trade: sget_opt_instant(es, "lastTrade"@).unwrap(),
                        quote_time: sget_opt_instant(es, "quoteTime"@).unwrap(),
                    },
                )
            } else {
                None
            }
        },
        _ => None,
    }
}

impl FromJson for QuoteResponse {
    open spec fn of_json(j: JsonV) -> Option<QuoteResponseV> {
        quote_of_json(j)
    }

    fn from_value(v: serde_json::Value) -> (r: Result<Self, Error>) {
        let node = value_node(v);
        match node {
            VNode::Obj(kvs) => {
                proof {
                    assert(value_view(v) == JsonV::Obj(entries_view(kvs@)));
                }
                let ok = match take_bool(&kvs, "ok") {
                    Ok(x) => x,
                    Err(e) => return Err(e),
                };
                let symbol = match take_string(&kvs, "symbol") {
                    Ok(x) => x,
                    Err(e) => return Err(e),
                };
                let venue = match take_string(&kvs, "venue") {
                    Ok(x) => x,
                    Err(e) => return Err(e),
                };
                let bid = match take_opt_u64(&kvs, "bid") {
                    Ok(x) => x,
                    Err(e) => return Err(e),
                };
                let ask = match take_opt_u64(&kvs, "ask") {
                    Ok(x) => x,
                    Err(e) => return Err(e),
                };
                let bid_size = match take_u64(&kvs, "bidSize") {
                    Ok(x) => x,
                    Err(e) => return Err(e),
                };
                let ask_size = match take_u64(&kvs, "askSize") {
                    Ok(x) => x,
                    Err(e) => return Err(e),
                };
                let bid_depth = match take_u64(&kvs, "bidDepth") {
                    Ok(x) => x,
                    Err(e) => return Err(e),
                };
                let ask_depth = match take_u64(&kvs, "askDepth") {
                    Ok(x) => x,
                    Err(e) => return Err(e),
                };
                let last = match take_opt_u64(&kvs, "last") {
                    Ok(x) => x,
                    Err(e) => return Err(e),
                };
                let last_size = match take_opt_u64(&kvs, "lastSize") {
                    Ok(x) => x,
                    Err(e) => return Err(e),
                };
                let last_trade = match take_opt_instant(&kvs, "lastTrade") {
                    Ok(x) => x,
                    Err(e) => return Err(e),
                };
                let quote_time = match take_opt_instant(&kvs, "quoteTime") {
                    Ok(x) => x,
                    Err(e) => return Err(e),
                };
                Ok(
                    QuoteResponse {
                        ok,
                        symbol,
                        venue,
                        bid,
                        ask,
                        bid_size,
                        ask_size,
                        bid_depth,
                        ask_depth,
                        last,
                        last_size,
                        last_trade,
                        quote_time,
                    },
                )
            },
            _ => Err(decode_err("expected a JSON object for a quote", "")),
        }
    }
}

/// The outbound order a JSON document denotes; needed to read an encoded
/// order back.
pub open spec fn order_of_json(j: JsonV) -> Option<OrderV> {
    match j {
        JsonV::Obj(es) => {
            if sget_str(es, "account"@) is Some && sget_str(es, "venue"@) is Some && sget_str(
                es,
                "stock"@,
            ) is Some && sget_u64(es, "price"@) is Some && sget_u64(es, "qty"@) is Some
                && sget_direction(es, "direction"@) is Some && sget_order_type(
                es,
                "orderType"@,
            ) is Some {
                Some(
                    OrderV {
                        account: sget_str(es, "account"@).unwrap(),
                        venue: sget_str(es, "venue"@).unwrap(),
                        stock: sget_str(es, "stock"@).unwrap(),
                        price: sget_u64(es, "price"@).unwrap(),
                        qty: sget_u64(es, "qty"@).unwrap(),
                        direction: sget_direction(es, "direction"@).unwrap(),
                        order_type: sget_order_type(es, "orderType"@).unwrap(),
                    },
                )
            } else {
                None
            }
        },
        _ => None,
    }
}

impl FromJson for Order {
    open spec fn of_json(j: JsonV) -> Option<OrderV> {
        order_of_json(j)
    }

    fn from_value(v: serde_json::Value) -> (r: Result<Self, Error>) {
        let node = value_node(v);
        match node {
            VNode::Obj(kvs) => {
                proof {
                    assert(value_view(v) == JsonV::Obj(entries_view(kvs@)));
                }
                let account = match take_string(&kvs, "account") {
                    Ok(x) => x,
                    Err(e) => return Err(e),
                };
                let venue = match take_string(&kvs, "venue") {
                    Ok(x) => x,
                    Err(e) => return Err(e),
                };
                let stock = match take_string(&kvs, "stock") {
                    Ok(x) => x,
                    Err(e) => return Err(e),
                };
                let price = match take_u64(&kvs, "price") {
                    Ok(x) => x,
                    Err(e) => return Err(e),
                };
                let qty = match take_u64(&kvs, "qty") {
                    Ok(x) => x,
                    Err(e) => return Err(e),
                };
                let direction = match take_direction(&kvs, "direction") {
                    Ok(x) => x,
                    Err(e) => return Err(e),
                };
                let order_type = match take_order_type(&kvs, "orderType") {
                    Ok(x) => x,
                    Err(e) => return Err(e),
                };
                Ok(Order { account, venue, stock, price, qty, direction, order_type })
            },
            _ => Err(decode_err("expected a JSON object for an order", "")),
        }
    }
}

/// The order snapshot a JSON document denotes.
pub open spec fn order_response_of_json(j: JsonV) -> Option<OrderResponseV> {
    match j {
        JsonV::Obj(es) => {
            if sget_bool(es, "ok"@) is Some && sget_str(es, "symbol"@) is Some && sget_str(
                es,
                "venue"@,
            ) is Some && sget_opt_direction(es, "direction"@) is Some && sget_u64(
                es,
                "originalQty"@,
            ) is Some && sget_u64(es, "qty"@) is Some && sget_u64(es, "price"@) is Some
                && sget_order_type(es, "orderType"@) is Some && sget_u64(es, "id"@) is Some
                && sget_str(es, "account"@) is Some && sget_instant(es, "ts"@) is Some && sget_fills(
                es,
                "fills"@,
            ) is Some && sget_u64(es, "totalFilled"@) is Some && sget_bool(es, "open"@) is Some {
                Some(
                    OrderResponseV {
                        ok: sget_bool(es, "ok"@).unwrap(),
                        symbol: sget_str(es, "symbol"@).unwrap(),
                        venue: sget_str(es, "venue"@).unwrap(),
                        direction: sget_opt_direction(es, "direction"@).unwrap(),
                        original_qty: sget_u64(es, "originalQty"@).unwrap(),
                        qty: sget_u64(es, "qty"@).unwrap(),
                        price: sget_u64(es, "price"@).unwrap(),
                        order_type: sget_order_type(es, "orderType"@).unwrap(),
                        id: sget_u64(es, "id"@).unwrap(),
                        account: sget_str(es, "account"@).unwrap(),
                        ts: sget_instant(es, "ts"@).unwrap(),
                        fills: sget_fills(es, "fills"@).unwrap(),
                        total_filled: sget_u64(es, "totalFilled"@).unwrap(),
                        open: sget_bool(es, "open"@).unwrap(),
                    },
                )
            } else {
                None
            }
        },
        _ => None,
    }
}

impl FromJson for OrderResponse {
    open spec fn of_json(j: JsonV) -> Option<OrderResponseV> {
        order_response_of_json(j)
    }

    fn from_value(v: serde_json::Value) -> (r: Result<Self, Error>) {
        let node = value_node(v);
        match node {
            VNode::Obj(kvs) => {
                proof {
                    assert(value_view(v) == JsonV::Obj(entries_view(kvs@)));
                }
                let ok = match take_bool(&kvs, "ok") {
                    Ok(x) => x,
                    Err(e) => return Err(e),
                };
                let symbol = match take_string(&kvs, "symbol") {
                    Ok(x) => x,
                    Err(e) => return Err(e),
                };
                let venue = match take_string(&kvs, "venue") {
                    Ok(x) => x,
                    Err(e) => return Err(e),
                };
                let direction = match take_opt_direction(&kvs, "direction") {
                    Ok(x) => x,
                    Err(e) => return Err(e),
                };
                let original_qty = match take_u64(&kvs, "originalQty") {
                    Ok(x) => x,
                    Err(e) => return Err(e),
                };
                let qty = match take_u64(&kvs, "qty") {
                    Ok(x) => x,
                    Err(e) => return Err(e),
                };
                let price = match take_u64(&kvs, "price") {
                    Ok(x) => x,
                    Err(e) => return Err(e),
                };
                let order_type = match take_order_type(&kvs, "orderType") {
                    Ok(x) => x,
                    Err(e) => return Err(e),
                };
                let id = match take_u64(&kvs, "id") {
                    Ok(x) => x,
                    Err(e) => return Err(e),
                };
                let account = match take_string(&kvs, "account") {
                    Ok(x) => x,
                    Err(e) => return Err(e),
                };
                let ts = match take_instant(&kvs, "ts") {
                    Ok(x) => x,
                    Err(e) => return Err(e),
                };
                let fills = match take_fills(&kvs, "fills") {
                    Ok(x) => x,
                    Err(e) => return Err(e),
                };
                let total_filled = match take_u64(&kvs, "totalFilled") {
                    Ok(x) => x,
                    Err(e) => return Err(e),
                };
                let open = match take_bool(&kvs, "open") {
                    Ok(x) => x,
                    Err(e) => return Err(e),
                };
                Ok(
                    OrderResponse {
                        ok,
                        symbol,
                        venue,
                        direction,
                        original_qty,
                        qty,
                        price,
                        order_type,
                        id,
                        account,
                        ts,
                        fills,
                        total_filled,
                        open,
                    },
                )
            },
            _ => Err(decode_err("expected a JSON object for an order response", "")),
        }
    }
}

} // verus!
