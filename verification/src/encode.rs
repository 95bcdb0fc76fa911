//! Encoding of records into JSON documents.
//!
//! Each encoder builds a JSON value field by field, reproducing the exact
//! documented wire names and enumeration tokens, and then prints it through
//! `serde_json`. The document each record encodes to is written out as a spec
//! function, and the executable encoder is proved to produce exactly it.

use vstd::prelude::*;
use crate::codec::{direction_token, direction_wire_token, order_type_token,
    order_type_wire_token};
use crate::data::{string_pairs_view, strings_view, BidAsk, Fill, Level, LevelV, Order,
    OrderDirection, OrderResponse, OrderResponseV, OrderV, QuoteResponse, QuoteResponseV};
use crate::error::Error;
use crate::json::{depth_at_most, entries_view, items_view, keys_distinct,
    lemma_depth_at_most_widen, num_exact, value_arr, value_bool, value_null, value_num, value_obj,
    value_str, value_to_text, value_view, json_dump, text_json, JsonV};
use crate::text::str_eq;
use crate::time::{instant_in_range, instant_text, Instant};

verus! {

/// A record that the codec can encode into a JSON document.
pub trait ToJson: View + Sized {
    /// The JSON document the record encodes to.
    spec fn to_json(v: Self::V) -> JsonV;

    /// The records whose encoding is owed to succeed: every timestamp is
    /// printable and every encoded object has distinct keys.
    spec fn encodable(v: Self::V) -> bool;

    /// Encodes the record into a JSON value.
    fn to_value(&self) -> (r: Result<serde_json::Value, Error>)
        ensures
            r matches Ok(v) ==> value_view(v) == Self::to_json(self@),
            Self::encodable(self@) ==> r is Ok,
            r matches Err(e) ==> e matches Error::Encode(_) && !Self::encodable(self@),
    ;

    /// The encoded document is well formed: it holds no number outside the
    /// unsigned 64-bit range, and it nests no deeper than eight levels —
    /// far inside the parser's nesting limit, so the printed text is owed
    /// to parse back.
    proof fn to_json_wf(v: Self::V)
        ensures
            num_exact(Self::to_json(v)),
            depth_at_most(Self::to_json(v), 8),
    ;
}

/// Encodes a record into JSON text. The text is exactly the printed form of
/// [`ToJson::to_json`], and parsing it back yields that document.
pub fn encode<T: ToJson>(value: &T) -> (r: Result<String, Error>)
    ensures
        r matches Ok(s) ==> s@ == json_dump(T::to_json(value@)) && text_json(s@) == Some(
            T::to_json(value@),
        ),
        T::encodable(value@) ==> r is Ok,
        r matches Err(e) ==> e matches Error::Encode(_) && !T::encodable(value@),
{
    match value.to_value() {
        Ok(v) => {
            proof {
                T::to_json_wf(value@);
                lemma_depth_at_most_widen(T::to_json(value@), 8, 127);
            }
            Ok(value_to_text(&v))
        },
        Err(e) => Err(e),
    }
}

// ---------------------------------------------------------------------------
// Shared pieces of encoded documents.
// ---------------------------------------------------------------------------

/// An optional number: `null` where absent.
pub open spec fn opt_num_json(o: Option<u64>) -> JsonV {
    match o {
        Some(u) => JsonV::Num(u),
        None => JsonV::Null,
    }
}

/// An optional timestamp: `null` where absent.
pub open spec fn opt_instant_json(o: Option<Instant>) -> JsonV {
    match o {
        Some(i) => JsonV::Str(instant_text(i)),
        None => JsonV::Null,
    }
}

/// An optional direction token: `null` where absent.
pub open spec fn opt_direction_json(o: Option<OrderDirection>) -> JsonV {
    match o {
        Some(d) => JsonV::Str(direction_token(d)),
        None => JsonV::Null,
    }
}

/// An array of strings.
pub open spec fn strs_json(ss: Seq<Seq<char>>) -> JsonV {
    JsonV::Arr(ss.map_values(|s: Seq<char>| JsonV::Str(s)))
}

/// An object of string-valued entries, in order.
pub open spec fn str_pairs_json(ps: Seq<(Seq<char>, Seq<char>)>) -> JsonV {
    JsonV::Obj(ps.map_values(|p: (Seq<char>, Seq<char>)| (p.0, JsonV::Str(p.1))))
}

/// Whether the keys of string pairs are pairwise distinct.
pub open spec fn pair_keys_distinct(ps: Seq<(Seq<char>, Seq<char>)>) -> bool {
    forall|i: int, j: int|
        0 <= i < j < ps.len() ==> (#[trigger] ps[i].0) != (#[trigger] ps[j].0)
}

/// Encodes an array of strings.
fn strings_to_values(ss: &Vec<String>) -> (r: Vec<serde_json::Value>)
    ensures
        JsonV::Arr(items_view(r@)) == strs_json(strings_view(ss@)),
{
    let mut out: Vec<serde_json::Value> = Vec::new();
    let mut i: usize = 0;
    while i < ss.len()
        invariant
            0 <= i <= ss@.len(),
            out@.len() == i,
            forall|k: int| 0 <= k < i ==> value_view(#[trigger] out@[k]) == JsonV::Str(ss@[k]@),
        decreases ss@.len() - i,
    {
        out.push(value_str(ss[i].clone()));
        i += 1;
    }
    proof {
        assert(items_view(out@) =~= strings_view(ss@).map_values(|s: Seq<char>| JsonV::Str(s)));
    }
    out
}

/// Tests whether the instruction names are pairwise distinct; only then can
/// they stand as the keys of one JSON object.
fn check_pair_keys_distinct(ps: &Vec<(String, String)>) -> (r: bool)
    ensures
        r == pair_keys_distinct(string_pairs_view(ps@)),
{
    let ghost model = string_pairs_view(ps@);
    let mut i: usize = 0;
    while i < ps.len()
        invariant
            0 <= i <= ps@.len(),
            model == string_pairs_view(ps@),
            forall|a: int, b: int| 0 <= a < b < i ==> (#[trigger] model[a].0) != (#[trigger] model[b].0),
        decreases ps@.len() - i,
    {
        let mut j: usize = 0;
        while j < i
            invariant
                0 <= j <= i < ps@.len(),
                model == string_pairs_view(ps@),
                forall|b: int| 0 <= b < j ==> (#[trigger] model[b].0) != model[i as int].0,
            decreases i - j,
        {
            if str_eq(ps[j].0.as_str(), ps[i].0.as_str()) {
                proof {
                    assert(model[j as int].0 == model[i as int].0);
                    assert(!pair_keys_distinct(model));
                }
                return false;
            }
            j += 1;
        }
        i += 1;
    }
    true
}

/// Encodes the instructions as one JSON object, name to text.
fn pairs_to_value(ps: &Vec<(String, String)>) -> (r: Result<serde_json::Value, Error>)
    ensures
        r matches Ok(v) ==> value_view(v) == str_pairs_json(string_pairs_view(ps@)),
        pair_keys_distinct(string_pairs_view(ps@)) ==> r is Ok,
        r matches Err(e) ==> e matches Error::Encode(_) && !pair_keys_distinct(
            string_pairs_view(ps@),
        ),
{
    if !check_pair_keys_distinct(ps) {
        return Err(Error::Encode("instruction names are not distinct".to_owned()));
    }
    let mut kvs: Vec<(String, serde_json::Value)> = Vec::new();
    let mut i: usize = 0;
    while i < ps.len()
        invariant
            0 <= i <= ps@.len(),
            pair_keys_distinct(string_pairs_view(ps@)),
            kvs@.len() == i,
            forall|k: int| 0 <= k < i ==> (#[trigger] kvs@[k]).0@ == string_pairs_view(ps@)[k].0
                && value_view(kvs@[k].1) == JsonV::Str(string_pairs_view(ps@)[k].1),
        decreases ps@.len() - i,
    {
        kvs.push((ps[i].0.clone(), value_str(ps[i].1.clone())));
        i += 1;
    }
    proof {
        assert(entries_view(kvs@) =~= string_pairs_view(ps@).map_values(
            |p: (Seq<char>, Seq<char>)| (p.0, JsonV::Str(p.1)),
        ));
        assert(keys_distinct(entries_view(kvs@)));
    }
    Ok(value_obj(kvs))
}

// ---------------------------------------------------------------------------
// Orders.
// ---------------------------------------------------------------------------

/// The document an outbound order encodes to, with the exact wire names
/// `account`, `venue`, `stock`, `price`, `qty`, `direction` and `orderType`.
pub open spec fn order_json(o: OrderV) -> JsonV {
    JsonV::Obj(
        seq![
            ("account"@, JsonV::Str(o.account)),
            ("venue"@, JsonV::Str(o.venue)),
            ("stock"@, JsonV::Str(o.stock)),
            ("price"@, JsonV::Num(o.price)),
            ("qty"@, JsonV::Num(o.qty)),
            ("direction"@, JsonV::Str(direction_token(o.direction))),
            ("orderType"@, JsonV::Str(order_type_token(o.order_type))),
        ],
    )
}

/// The seven wire keys of an encoded order are pairwise distinct.
pub proof fn lemma_order_keys_distinct()
    ensures
        keys_distinct(order_json(arbitrary::<OrderV>())->Obj_0),
        forall|o: OrderV| keys_distinct(#[trigger] order_json(o)->Obj_0),
{
    reveal_strlit("account");
    reveal_strlit("venue");
    reveal_strlit("stock");
    reveal_strlit("price");
    reveal_strlit("qty");
    reveal_strlit("direction");
    reveal_strlit("orderType");
    assert forall|o: OrderV| keys_distinct(#[trigger] order_json(o)->Obj_0) by {
        let es = order_json(o)->Obj_0;
        assert(es[0].0 == "account"@ && es[1].0 == "venue"@ && es[2].0 == "stock"@ && es[3].0
            == "price"@ && es[4].0 == "qty"@ && es[5].0 == "direction"@ && es[6].0
            == "orderType"@);
        assert("venue"@[0] != "stock"@[0]);
        assert("venue"@[0] != "price"@[0]);
        assert("stock"@[0] != "price"@[0]);
        assert("direction"@[0] != "orderType"@[0]);
    }
}

impl ToJson for Order {
    open spec fn to_json(o: OrderV) -> JsonV {
        order_json(o)
    }

    open spec fn encodable(o: OrderV) -> bool {
        true
    }

    fn to_value(&self) -> (r: Result<serde_json::Value, Error>) {
        let mut kvs: Vec<(String, serde_json::Value)> = Vec::new();
        kvs.push(("account".to_owned(), value_str(self.account.clone())));
        kvs.push(("venue".to_owned(), value_str(self.venue.clone())));
        kvs.push(("stock".to_owned(), value_str(self.stock.clone())));
        kvs.push(("price".to_owned(), value_num(self.price)));
        kvs.push(("qty".to_owned(), value_num(self.qty)));
        kvs.push(("direction".to_owned(), value_str(
            direction_wire_token(&self.direction).to_owned(),
        )));
        kvs.push(("orderType".to_owned(), value_str(
            order_type_wire_token(&self.order_type).to_owned(),
        )));
        proof {
            lemma_order_keys_distinct();
            assert(entries_view(kvs@) =~= order_json(self@)->Obj_0);
        }
        Ok(value_obj(kvs))
    }

    proof fn to_json_wf(o: OrderV) {
        let es = order_json(o)->Obj_0;
        assert forall|i: int| 0 <= i < es.len() implies num_exact(#[trigger] es[i].1)
            && depth_at_most(es[i].1, 7) by {
            assert(num_exact(es[0].1) && depth_at_most(es[0].1, 7));
            assert(num_exact(es[1].1) && depth_at_most(es[1].1, 7));
            assert(num_exact(es[2].1) && depth_at_most(es[2].1, 7));
            assert(num_exact(es[3].1) && depth_at_most(es[3].1, 7));
            assert(num_exact(es[4].1) && depth_at_most(es[4].1, 7));
            assert(num_exact(es[5].1) && depth_at_most(es[5].1, 7));
            assert(num_exact(es[6].1) && depth_at_most(es[6].1, 7));
        }
        assert(num_exact(order_json(o)));
        assert(depth_at_most(order_json(o), 8));
    }
}

/// The document one book entry encodes to, with the exact wire names
/// `price`, `qty` and `isBuy`.
pub open spec fn bidask_json(b: BidAsk) -> JsonV {
    JsonV::Obj(
        seq![
            ("price"@, JsonV::Num(b.price)),
            ("qty"@, JsonV::Num(b.qty)),
            ("isBuy"@, JsonV::Bool(b.is_buy)),
        ],
    )
}

/// The three wire keys of an encoded book entry are pairwise distinct.
pub proof fn lemma_bidask_keys_distinct()
    ensures
        forall|b: BidAsk| keys_distinct(#[trigger] bidask_json(b)->Obj_0),
{
    reveal_strlit("price");
    reveal_strlit("qty");
    reveal_strlit("isBuy");
    assert forall|b: BidAsk| keys_distinct(#[trigger] bidask_json(b)->Obj_0) by {
        let es = bidask_json(b)->Obj_0;
        assert(es[0].0 == "price"@ && es[1].0 == "qty"@ && es[2].0 == "isBuy"@);
        assert("price"@[0] != "isBuy"@[0]);
    }
}

impl ToJson for BidAsk {
    open spec fn to_json(b: BidAsk) -> JsonV {
        bidask_json(b)
    }

    open spec fn encodable(b: BidAsk) -> bool {
        true
    }

    fn to_value(&self) -> (r: Result<serde_json::Value, Error>) {
        let mut kvs: Vec<(String, serde_json::Value)> = Vec::new();
        kvs.push(("price".to_owned(), value_num(self.price)));
        kvs.push(("qty".to_owned(), value_num(self.qty)));
        kvs.push(("isBuy".to_owned(), value_bool(self.is_buy)));
        proof {
            lemma_bidask_keys_distinct();
            assert(entries_view(kvs@) =~= bidask_json(self@)->Obj_0);
        }
        Ok(value_obj(kvs))
    }

    proof fn to_json_wf(b: BidAsk) {
        let es = bidask_json(b)->Obj_0;
        assert forall|i: int| 0 <= i < es.len() implies num_exact(#[trigger] es[i].1)
            && depth_at_most(es[i].1, 7) by {
            assert(num_exact(es[0].1) && depth_at_most(es[0].1, 7));
            assert(num_exact(es[1].1) && depth_at_most(es[1].1, 7));
            assert(num_exact(es[2].1) && depth_at_most(es[2].1, 7));
        }
        assert(num_exact(bidask_json(b)));
        assert(depth_at_most(bidask_json(b), 8));
    }
}

// ---------------------------------------------------------------------------
// Optional fields and timestamps.
// ---------------------------------------------------------------------------

/// Whether an optional timestamp is printable.
pub open spec fn opt_instant_in_range(o: Option<Instant>) -> bool {
    match o {
        Some(i) => instant_in_range(i),
        None => true,
    }
}

/// Encodes an optional number.
fn opt_num_to_value(o: &Option<u64>) -> (r: serde_json::Value)
    ensures
        value_view(r) == opt_num_json(*o),
{
    match o {
        Some(u) => value_num(*u),
        None => value_null(),
    }
}

/// Encodes an optional timestamp; an unprintable one is an encode error.
fn opt_instant_to_value(o: &Option<Instant>) -> (r: Result<serde_json::Value, Error>)
    ensures
        r matches Ok(v) ==> value_view(v) == opt_instant_json(*o),
        opt_instant_in_range(*o) ==> r is Ok,
        r matches Err(e) ==> e matches Error::Encode(_) && !opt_instant_in_range(*o),
{
    match o {
        Some(i) => match i.to_text() {
            Ok(s) => Ok(value_str(s)),
            Err(e) => Err(e),
        },
        None => Ok(value_null()),
    }
}

/// [`strs_json`] holds exact numbers only.
proof fn lemma_strs_json_num_exact(ss: Seq<Seq<char>>)
    ensures
        num_exact(strs_json(ss)),
{
    let items = strs_json(ss)->Arr_0;
    assert forall|i: int| 0 <= i < items.len() implies num_exact(#[trigger] items[i]) by {
        assert(items[i] == JsonV::Str(ss[i]));
    }
}

/// [`str_pairs_json`] holds exact numbers only.
proof fn lemma_str_pairs_json_num_exact(ps: Seq<(Seq<char>, Seq<char>)>)
    ensures
        num_exact(str_pairs_json(ps)),
{
    let es = str_pairs_json(ps)->Obj_0;
    assert forall|i: int| 0 <= i < es.len() implies num_exact(#[trigger] es[i].1) by {
        assert(es[i].1 == JsonV::Str(ps[i].1));
    }
}

/// [`strs_json`] nests two levels: the array and its strings.
proof fn lemma_strs_json_depth(ss: Seq<Seq<char>>, d: nat)
    requires
        2 <= d,
    ensures
        depth_at_most(strs_json(ss), d),
{
    let items = strs_json(ss)->Arr_0;
    assert forall|i: int| 0 <= i < items.len() implies depth_at_most(
        #[trigger] items[i],
        (d - 1) as nat,
    ) by {
        assert(items[i] == JsonV::Str(ss[i]));
    }
}

/// [`str_pairs_json`] nests two levels: the object and its strings.
proof fn lemma_str_pairs_json_depth(ps: Seq<(Seq<char>, Seq<char>)>, d: nat)
    requires
        2 <= d,
    ensures
        depth_at_most(str_pairs_json(ps), d),
{
    let es = str_pairs_json(ps)->Obj_0;
    assert forall|i: int| 0 <= i < es.len() implies depth_at_most(
        #[trigger] es[i].1,
        (d - 1) as nat,
    ) by {
        assert(es[i].1 == JsonV::Str(ps[i].1));
    }
}

// ---------------------------------------------------------------------------
// Levels.
// ---------------------------------------------------------------------------

/// The document a level encodes to, with the exact wire name `instanceId`.
pub open spec fn level_json(l: LevelV) -> JsonV {
    JsonV::Obj(
        seq![
            ("ok"@, JsonV::Bool(l.ok)),
            ("instanceId"@, JsonV::Num(l.instance_id)),
            ("account"@, JsonV::Str(l.account)),
            ("instructions"@, str_pairs_json(l.instructions)),
            ("tickers"@, strs_json(l.tickers)),
            ("venues"@, strs_json(l.venues)),
        ],
    )
}

/// The six wire keys of an encoded level are pairwise distinct.
pub proof fn lemma_level_keys_distinct()
    ensures
        forall|l: LevelV| keys_distinct(#[trigger] level_json(l)->Obj_0),
{
    reveal_strlit("ok");
    reveal_strlit("instanceId");
    reveal_strlit("account");
    reveal_strlit("instructions");
    reveal_strlit("tickers");
    reveal_strlit("venues");
    assert forall|l: LevelV| keys_distinct(#[trigger] level_json(l)->Obj_0) by {
        let es = level_json(l)->Obj_0;
        assert(es[0].0 == "ok"@ && es[1].0 == "instanceId"@ && es[2].0 == "account"@ && es[3].0
            == "instructions"@ && es[4].0 == "tickers"@ && es[5].0 == "venues"@);
        assert("account"@[0] != "tickers"@[0]);
    }
}

impl ToJson for Level {
    open spec fn to_json(l: LevelV) -> JsonV {
        level_json(l)
    }

    open spec fn encodable(l: LevelV) -> bool {
        pair_keys_distinct(l.instructions)
    }

    fn to_value(&self) -> (r: Result<serde_json::Value, Error>) {
        let instructions = match pairs_to_value(&self.instructions) {
            Ok(v) => v,
            Err(e) => return Err(e),
        };
        let mut kvs: Vec<(String, serde_json::Value)> = Vec::new();
        kvs.push(("ok".to_owned(), value_bool(self.ok)));
        kvs.push(("instanceId".to_owned(), value_num(self.instance_id)));
        kvs.push(("account".to_owned(), value_str(self.account.clone())));
        kvs.push(("instructions".to_owned(), instructions));
        kvs.push(("tickers".to_owned(), value_arr(strings_to_values(&self.tickers))));
        kvs.push(("venues".to_owned(), value_arr(strings_to_values(&self.venues))));
        proof {
            lemma_level_keys_distinct();
            assert(entries_view(kvs@) =~= level_json(self@)->Obj_0);
        }
        Ok(value_obj(kvs))
    }

    proof fn to_json_wf(l: LevelV) {
        lemma_str_pairs_json_num_exact(l.instructions);
        lemma_strs_json_num_exact(l.tickers);
        lemma_strs_json_num_exact(l.venues);
        lemma_str_pairs_json_depth(l.instructions, 7);
        lemma_strs_json_depth(l.tickers, 7);
        lemma_strs_json_depth(l.venues, 7);
        let es = level_json(l)->Obj_0;
        assert forall|i: int| 0 <= i < es.len() implies num_exact(#[trigger] es[i].1)
            && depth_at_most(es[i].1, 7) by {
            assert(num_exact(es[0].1) && depth_at_most(es[0].1, 7));
            assert(num_exact(es[1].1) && depth_at_most(es[1].1, 7));
            assert(num_exact(es[2].1) && depth_at_most(es[2].1, 7));
            assert(num_exact(es[3].1) && depth_at_most(es[3].1, 7));
            assert(num_exact(es[4].1) && depth_at_most(es[4].1, 7));
            assert(num_exact(es[5].1) && depth_at_most(es[5].1, 7));
        }
        assert(num_exact(level_json(l)));
        assert(depth_at_most(level_json(l), 8));
    }
}

// ---------------------------------------------------------------------------
// Quotes.
// ---------------------------------------------------------------------------

/// The document a quote encodes to, with the exact wire names `bidSize`,
/// `askSize`, `bidDepth`, `askDepth`, `lastSize`, `lastTrade` and
/// `quoteTime`.
pub open spec fn quote_json(q: QuoteResponseV) -> JsonV {
    JsonV::Obj(
        seq![
            ("ok"@, JsonV::Bool(q.ok)),
            ("symbol"@, JsonV::Str(q.symbol)),
            ("venue"@, JsonV::Str(q.venue)),
            ("bid"@, opt_num_json(q.bid)),
            ("ask"@, opt_num_json(q.ask)),
            ("bidSize"@, JsonV::Num(q.bid_size)),
            ("askSize"@, JsonV::Num(q.ask_size)),
            ("bidDepth"@, JsonV::Num(q.bid_depth)),
            ("askDepth"@, JsonV::Num(q.ask_depth)),
            ("last"@, opt_num_json(q.last)),
            ("lastSize"@, opt_num_json(q.last_size)),
            ("lastTrade"@, opt_instant_json(q.last_trade)),
            ("quoteTime"@, opt_instant_json(q.quote_time)),
        ],
    )
}

/// The thirteen wire keys of an encoded quote are pairwise distinct.
pub proof fn lemma_quote_keys_distinct()
    ensures
        forall|q: QuoteResponseV| keys_distinct(#[trigger] quote_json(q)->Obj_0),
{
    reveal_strlit("ok");
    reveal_strlit("symbol");
    reveal_strlit("venue");
    reveal_strlit("bid");
    reveal_strlit("ask");
    reveal_strlit("bidSize");
    reveal_strlit("askSize");
    reveal_strlit("bidDepth");
    reveal_strlit("askDepth");
    reveal_strlit("last");
    reveal_strlit("lastSize");
    reveal_strlit("lastTrade");
    reveal_strlit("quoteTime");
    assert forall|q: QuoteResponseV| keys_distinct(#[trigger] quote_json(q)->Obj_0) by {
        let es = quote_json(q)->Obj_0;
        assert(es[0].0 == "ok"@ && es[1].0 == "symbol"@ && es[2].0 == "venue"@ && es[3].0 == "bid"@
            && es[4].0 == "ask"@ && es[5].0 == "bidSize"@ && es[6].0 == "askSize"@ && es[7].0
            == "bidDepth"@ && es[8].0 == "askDepth"@ && es[9].0 == "last"@ && es[10].0
            == "lastSize"@ && es[11].0 == "lastTrade"@ && es[12].0 == "quoteTime"@);
        assert("bid"@[0] != "ask"@[0]);
        assert("bidSize"@[0] != "askSize"@[0]);
        assert("bidDepth"@[0] != "askDepth"@[0]);
        assert("bidDepth"@[0] != "lastSize"@[0]);
        assert("askDepth"@[0] != "lastSize"@[0]);
        assert("lastTrade"@[0] != "quoteTime"@[0]);
    }
}

impl ToJson for QuoteResponse {
    open spec fn to_json(q: QuoteResponseV) -> JsonV {
        quote_json(q)
    }

    open spec fn encodable(q: QuoteResponseV) -> bool {
        opt_instant_in_range(q.last_trade) && opt_instant_in_range(q.quote_time)
    }

    fn to_value(&self) -> (r: Result<serde_json::Value, Error>) {
        let last_trade = match opt_instant_to_value(&self.last_trade) {
            Ok(v) => v,
            Err(e) => return Err(e),
        };
        let quote_time = match opt_instant_to_value(&self.quote_time) {
            Ok(v) => v,
            Err(e) => return Err(e),
        };
        let mut kvs: Vec<(String, serde_json::Value)> = Vec::new();
        kvs.push(("ok".to_owned(), value_bool(self.ok)));
        kvs.push(("symbol".to_owned(), value_str(self.symbol.clone())));
        kvs.push(("venue".to_owned(), value_str(self.venue.clone())));
        kvs.push(("bid".to_owned(), opt_num_to_value(&self.bid)));
        kvs.push(("ask".to_owned(), opt_num_to_value(&self.ask)));
        kvs.push(("bidSize".to_owned(), value_num(self.bid_size)));
        kvs.push(("askSize".to_owned(), value_num(self.ask_size)));
        kvs.push(("bidDepth".to_owned(), value_num(self.bid_depth)));
        kvs.push(("askDepth".to_owned(), value_num(self.ask_depth)));
        kvs.push(("last".to_owned(), opt_num_to_value(&self.last)));
        kvs.push(("lastSize".to_owned(), opt_num_to_value(&self.last_size)));
        kvs.push(("lastTrade".to_owned(), last_trade));
        kvs.push(("quoteTime".to_owned(), quote_time));
        proof {
            lemma_quote_keys_distinct();
            assert(entries_view(kvs@) =~= quote_json(self@)->Obj_0);
        }
        Ok(value_obj(kvs))
    }

    proof fn to_json_wf(q: QuoteResponseV) {
        let es = quote_json(q)->Obj_0;
        assert forall|i: int| 0 <= i < es.len() implies num_exact(#[trigger] es[i].1)
            && depth_at_most(es[i].1, 7) by {
            assert(num_exact(es[0].1) && depth_at_most(es[0].1, 7));
            assert(num_exact(es[1].1) && depth_at_most(es[1].1, 7));
            assert(num_exact(es[2].1) && depth_at_most(es[2].1, 7));
            assert(num_exact(es[3].1) && depth_at_most(es[3].1, 7));
            assert(num_exact(es[4].1) && depth_at_most(es[4].1, 7));
            assert(num_exact(es[5].1) && depth_at_most(es[5].1, 7));
            assert(num_exact(es[6].1) && depth_at_most(es[6].1, 7));
            assert(num_exact(es[7].1) && depth_at_most(es[7].1, 7));
            assert(num_exact(es[8].1) && depth_at_most(es[8].1, 7));
            assert(num_exact(es[9].1) && depth_at_most(es[9].1, 7));
            assert(num_exact(es[10].1) && depth_at_most(es[10].1, 7));
            assert(num_exact(es[11].1) && depth_at_most(es[11].1, 7));
            assert(num_exact(es[12].1) && depth_at_most(es[12].1, 7));
        }
        assert(num_exact(quote_json(q)));
        assert(depth_at_most(quote_json(q), 8));
    }
}

// ---------------------------------------------------------------------------
// Fills and order snapshots.
// ---------------------------------------------------------------------------

/// The document one fill encodes to.
pub open spec fn fill_json(f: Fill) -> JsonV {
    JsonV::Obj(
        seq![
            ("price"@, JsonV::Num(f.price)),
            ("qty"@, JsonV::Num(f.qty)),
            ("ts"@, JsonV::Str(instant_text(f.ts))),
        ],
    )
}

/// The documents of an array of fills.
pub open spec fn fills_json_items(fs: Seq<Fill>) -> Seq<JsonV> {
    fs.map_values(|f: Fill| fill_json(f))
}

/// Whether every fill's timestamp is printable.
pub open spec fn fills_in_range(fs: Seq<Fill>) -> bool {
    forall|i: int| 0 <= i < fs.len() ==> instant_in_range((#[trigger] fs[i]).ts)
}

/// The three wire keys of an encoded fill are pairwise distinct.
pub proof fn lemma_fill_keys_distinct()
    ensures
        forall|f: Fill| keys_distinct(#[trigger] fill_json(f)->Obj_0),
{
    reveal_strlit("price");
    reveal_strlit("qty");
    reveal_strlit("ts");
    assert forall|f: Fill| keys_distinct(#[trigger] fill_json(f)->Obj_0) by {
        let es = fill_json(f)->Obj_0;
        assert(es[0].0 == "price"@ && es[1].0 == "qty"@ && es[2].0 == "ts"@);
    }
}

impl ToJson for Fill {
    open spec fn to_json(f: Fill) -> JsonV {
        fill_json(f)
    }

    open spec fn encodable(f: Fill) -> bool {
        instant_in_range(f.ts)
    }

    fn to_value(&self) -> (r: Result<serde_json::Value, Error>) {
        let ts = match self.ts.to_text() {
            Ok(s) => s,
            Err(e) => return Err(e),
        };
        let mut kvs: Vec<(String, serde_json::Value)> = Vec::new();
        kvs.push(("price".to_owned(), value_num(self.price)));
        kvs.push(("qty".to_owned(), value_num(self.qty)));
        kvs.push(("ts".to_owned(), value_str(ts)));
        proof {
            lemma_fill_keys_distinct();
            assert(entries_view(kvs@) =~= fill_json(self@)->Obj_0);
        }
        Ok(value_obj(kvs))
    }

    proof fn to_json_wf(f: Fill) {
        let es = fill_json(f)->Obj_0;
        assert forall|i: int| 0 <= i < es.len() implies num_exact(#[trigger] es[i].1) by {
            assert(num_exact(es[0].1));
            assert(num_exact(es[1].1));
            assert(num_exact(es[2].1));
        }
        assert(num_exact(fill_json(f)));
        lemma_fill_json_depth(f, 8);
    }
}

/// [`fill_json`] nests two levels: the object and its scalars.
proof fn lemma_fill_json_depth(f: Fill, d: nat)
    requires
        2 <= d,
    ensures
        depth_at_most(fill_json(f), d),
{
    let es = fill_json(f)->Obj_0;
    assert forall|i: int| 0 <= i < es.len() implies depth_at_most(
        #[trigger] es[i].1,
        (d - 1) as nat,
    ) by {
        assert(depth_at_most(es[0].1, (d - 1) as nat));
        assert(depth_at_most(es[1].1, (d - 1) as nat));
        assert(depth_at_most(es[2].1, (d - 1) as nat));
    }
}

/// Encodes an array of fills; any unprintable timestamp is an encode error.
fn fills_to_values(fs: &Vec<Fill>) -> (r: Result<Vec<serde_json::Value>, Error>)
    ensures
        r matches Ok(out) ==> items_view(out@) == fills_json_items(fs@),
        fills_in_range(fs@) ==> r is Ok,
        r matches Err(e) ==> e matches Error::Encode(_) && !fills_in_range(fs@),
{
    let mut out: Vec<serde_json::Value> = Vec::new();
    let mut i: usize = 0;
    while i < fs.len()
        invariant
            0 <= i <= fs@.len(),
            out@.len() == i,
            forall|k: int| 0 <= k < i ==> value_view(#[trigger] out@[k]) == fill_json(fs@[k]),
        decreases fs@.len() - i,
    {
        match fs[i].to_value() {
            Ok(v) => {
                out.push(v);
            },
            Err(e) => {
                proof {
                    assert(!instant_in_range(fs@[i as int].ts));
                }
                return Err(e);
            },
        }
        i += 1;
    }
    proof {
        assert(items_view(out@) =~= fills_json_items(fs@));
    }
    Ok(out)
}

/// The document an order snapshot encodes to, with the exact wire names
/// `originalQty`, `orderType` and `totalFilled`.
pub open spec fn order_response_json(o: OrderResponseV) -> JsonV {
    JsonV::Obj(
        seq![
            ("ok"@, JsonV::Bool(o.ok)),
            ("symbol"@, JsonV::Str(o.symbol)),
            ("venue"@, JsonV::Str(o.venue)),
            ("direction"@, opt_direction_json(o.direction)),
            ("originalQty"@, JsonV::Num(o.original_qty)),
            ("qty"@, JsonV::Num(o.qty)),
            ("price"@, JsonV::Num(o.price)),
            ("orderType"@, JsonV::Str(order_type_token(o.order_type))),
            ("id"@, JsonV::Num(o.id)),
            ("account"@, JsonV::Str(o.account)),
            ("ts"@, JsonV::Str(instant_text(o.ts))),
            ("fills"@, JsonV::Arr(fills_json_items(o.fills))),
            ("totalFilled"@, JsonV::Num(o.total_filled)),
            ("open"@, JsonV::Bool(o.open)),
        ],
    )
}

/// The fourteen wire keys of an encoded order snapshot are pairwise distinct.
pub proof fn lemma_order_response_keys_distinct()
    ensures
        forall|o: OrderResponseV| keys_distinct(#[trigger] order_response_json(o)->Obj_0),
{
    reveal_strlit("ok");
    reveal_strlit("symbol");
    reveal_strlit("venue");
    reveal_strlit("direction");
    reveal_strlit("originalQty");
    reveal_strlit("qty");
    reveal_strlit("price");
    reveal_strlit("orderType");
    reveal_strlit("id");
    reveal_strlit("account");
    reveal_strlit("ts");
    reveal_strlit("fills");
    reveal_strlit("totalFilled");
    reveal_strlit("open");
    assert forall|o: OrderResponseV| keys_distinct(#[trigger] order_response_json(o)->Obj_0) by {
        let es = order_response_json(o)->Obj_0;
        assert(es[0].0 == "ok"@ && es[1].0 == "symbol"@ && es[2].0 == "venue"@ && es[3].0
            == "direction"@ && es[4].0 == "originalQty"@ && es[5].0 == "qty"@ && es[6].0
            == "price"@ && es[7].0 == "orderType"@ && es[8].0 == "id"@ && es[9].0 == "account"@
            && es[10].0 == "ts"@ && es[11].0 == "fills"@ && es[12].0 == "totalFilled"@ && es[13].0
            == "open"@);
        assert("ok"@[0] != "id"@[0]);
        assert("ok"@[0] != "ts"@[0]);
        assert("id"@[0] != "ts"@[0]);
        assert("direction"@[0] != "orderType"@[0]);
        assert("originalQty"@[0] != "totalFilled"@[0]);
        assert("venue"@[0] != "price"@[0]);
        assert("venue"@[0] != "fills"@[0]);
        assert("price"@[0] != "fills"@[0]);
    }
}

impl ToJson for OrderResponse {
    open spec fn to_json(o: OrderResponseV) -> JsonV {
        order_response_json(o)
    }

    open spec fn encodable(o: OrderResponseV) -> bool {
        instant_in_range(o.ts) && fills_in_range(o.fills)
    }

    fn to_value(&self) -> (r: Result<serde_json::Value, Error>) {
        let ts = match self.ts.to_text() {
            Ok(s) => s,
            Err(e) => return Err(e),
        };
        let fills = match fills_to_values(&self.fills) {
            Ok(v) => v,
            Err(e) => return Err(e),
        };
        let mut kvs: Vec<(String, serde_json::Value)> = Vec::new();
        kvs.push(("ok".to_owned(), value_bool(self.ok)));
        kvs.push(("symbol".to_owned(), value_str(self.symbol.clone())));
        kvs.push(("venue".to_owned(), value_str(self.venue.clone())));
        kvs.push((
            "direction".to_owned(),
            match &self.direction {
                Some(d) => value_str(direction_wire_token(d).to_owned()),
                None => value_null(),
            },
        ));
        kvs.push(("originalQty".to_owned(), value_num(self.original_qty)));
        kvs.push(("qty".to_owned(), value_num(self.qty)));
        kvs.push(("price".to_owned(), value_num(self.price)));
        kvs.push(("orderType".to_owned(), value_str(
            order_type_wire_token(&self.order_type).to_owned(),
        )));
        kvs.push(("id".to_owned(), value_num(self.id)));
        kvs.push(("account".to_owned(), value_str(self.account.clone())));
        kvs.push(("ts".to_owned(), value_str(ts)));
        kvs.push(("fills".to_owned(), value_arr(fills)));
        kvs.push(("totalFilled".to_owned(), value_num(self.total_filled)));
        kvs.push(("open".to_owned(), value_bool(self.open)));
        proof {
            lemma_order_response_keys_distinct();
            assert(entries_view(kvs@) =~= order_response_json(self@)->Obj_0);
        }
        Ok(value_obj(kvs))
    }

    proof fn to_json_wf(o: OrderResponseV) {
        let fitems = fills_json_items(o.fills);
        assert forall|k: int| 0 <= k < fitems.len() implies num_exact(#[trigger] fitems[k])
            && depth_at_most(fitems[k], 6) by {
            assert(fitems[k] == fill_json(o.fills[k]));
            Fill::to_json_wf(o.fills[k]);
            lemma_fill_json_depth(o.fills[k], 6);
        }
        let es = order_response_json(o)->Obj_0;
        assert forall|i: int| 0 <= i < es.len() implies num_exact(#[trigger] es[i].1)
            && depth_at_most(es[i].1, 7) by {
            assert(num_exact(es[0].1) && depth_at_most(es[0].1, 7));
            assert(num_exact(es[1].1) && depth_at_most(es[1].1, 7));
            assert(num_exact(es[2].1) && depth_at_most(es[2].1, 7));
            assert(num_exact(es[3].1) && depth_at_most(es[3].1, 7));
            assert(num_exact(es[4].1) && depth_at_most(es[4].1, 7));
            assert(num_exact(es[5].1) && depth_at_most(es[5].1, 7));
            assert(num_exact(es[6].1) && depth_at_most(es[6].1, 7));
            assert(num_exact(es[7].1) && depth_at_most(es[7].1, 7));
            assert(num_exact(es[8].1) && depth_at_most(es[8].1, 7));
            assert(num_exact(es[9].1) && depth_at_most(es[9].1, 7));
            assert(num_exact(es[10].1) && depth_at_most(es[10].1, 7));
            assert(num_exact(es[11].1) && depth_at_most(es[11].1, 7));
            assert(num_exact(es[12].1) && depth_at_most(es[12].1, 7));
            assert(num_exact(es[13].1) && depth_at_most(es[13].1, 7));
        }
        assert(num_exact(order_response_json(o)));
        assert(depth_at_most(order_response_json(o), 8));
    }
}

} // verus!
