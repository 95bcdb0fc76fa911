//! Laws the codec obeys, stated and proved once and for all inputs.
//!
//! The round-trip law says that decoding what the codec encoded yields an
//! equal record, enumeration tokens included. The fidelity laws say that
//! every encoded document carries the exact documented wire key for each
//! renamed field, holding that field's value.

use vstd::prelude::*;
use crate::codec::{direction_of_token, direction_token, order_of_json, order_type_of_token,
    order_type_token, response_of, sget_direction, sget_order_type, sget_str, sget_u64};
use crate::data::{BidAsk, LevelV, OrderDirection, OrderResponse, OrderResponseV, OrderType,
    OrderV, QuoteResponseV};
use crate::encode::{bidask_json, lemma_bidask_keys_distinct, lemma_level_keys_distinct,
    lemma_order_keys_distinct, lemma_order_response_keys_distinct, lemma_quote_keys_distinct,
    level_json, opt_instant_json, opt_num_json, order_json, order_response_json, quote_json};
use crate::json::{keys_distinct, obj_get, JsonV};

verus! {

/// Every direction token decodes back to the direction it encodes.
pub proof fn lemma_direction_token_round_trip(d: OrderDirection)
    ensures
        direction_of_token(direction_token(d)) == Some(d),
{
    reveal_strlit("buy");
    reveal_strlit("sell");
    assert("buy"@.len() == 3);
    assert("sell"@.len() == 4);
    assert("buy"@ != "sell"@);
}

/// Every order-type token decodes back to the order type it encodes.
pub proof fn lemma_order_type_token_round_trip(t: OrderType)
    ensures
        order_type_of_token(order_type_token(t)) == Some(t),
{
    reveal_strlit("limit");
    reveal_strlit("market");
    reveal_strlit("fill-or-kill");
    reveal_strlit("immediate-or-cancel");
    assert("limit"@.len() == 5);
    assert("market"@.len() == 6);
    assert("fill-or-kill"@.len() == 12);
    assert("immediate-or-cancel"@.len() == 19);
    assert("limit"@ != "market"@);
    assert("limit"@ != "fill-or-kill"@);
    assert("limit"@ != "immediate-or-cancel"@);
    assert("market"@ != "fill-or-kill"@);
    assert("market"@ != "immediate-or-cancel"@);
    assert("fill-or-kill"@ != "immediate-or-cancel"@);
}

/// In an object with pairwise-distinct keys, looking an entry's key up finds
/// exactly that entry's value.
pub proof fn lemma_obj_get_at(es: Seq<(Seq<char>, JsonV)>, i: int)
    requires
        keys_distinct(es),
        0 <= i < es.len(),
    ensures
        obj_get(es, es[i].0) == Some(es[i].1),
    decreases i,
{
    if i == 0 {
    } else {
        assert(es[0].0 != es[i].0);
        let tail = es.drop_first();
        assert forall|a: int, b: int| 0 <= a < b < tail.len() implies (#[trigger] tail[a].0) != (
        #[trigger] tail[b].0) by {
            assert(tail[a] == es[a + 1]);
            assert(tail[b] == es[b + 1]);
        }
        assert(tail[i - 1] == es[i]);
        lemma_obj_get_at(tail, i - 1);
    }
}

/// Round trip: decoding the document an order encodes to yields an equal
/// order, every field included — the strings, the numbers and both
/// enumeration tokens.
pub proof fn lemma_order_round_trip(o: OrderV)
    ensures
        order_of_json(order_json(o)) == Some(o),
{
    lemma_order_keys_distinct();
    let es = order_json(o)->Obj_0;
    lemma_obj_get_at(es, 0);
    lemma_obj_get_at(es, 1);
    lemma_obj_get_at(es, 2);
    lemma_obj_get_at(es, 3);
    lemma_obj_get_at(es, 4);
    lemma_obj_get_at(es, 5);
    lemma_obj_get_at(es, 6);
    lemma_direction_token_round_trip(o.direction);
    lemma_order_type_token_round_trip(o.order_type);
    assert(sget_str(es, "account"@) == Some(o.account));
    assert(sget_str(es, "venue"@) == Some(o.venue));
    assert(sget_str(es, "stock"@) == Some(o.stock));
    assert(sget_u64(es, "price"@) == Some(o.price));
    assert(sget_u64(es, "qty"@) == Some(o.qty));
    assert(sget_direction(es, "direction"@) == Some(o.direction));
    assert(sget_order_type(es, "orderType"@) == Some(o.order_type));
    assert(order_of_json(order_json(o)).unwrap() =~= o);
}

/// Transport substitution: checking an order's status and cancelling it both
/// decode the response body through one and the same relation,
/// [`response_of`], and that relation is a function of the body alone: one
/// body cannot denote two different order snapshots. A transport double that
/// returns one fixed body for every verb and path therefore gives
/// `order_status` and `delete_order` records that agree in every field.
pub proof fn lemma_transport_substitution(body: Seq<char>, r1: OrderResponseV, r2: OrderResponseV)
    requires
        response_of::<OrderResponse>(body) == Some(r1),
        response_of::<OrderResponse>(body) == Some(r2),
    ensures
        r1 == r2,
{
}

/// Field-name fidelity: an encoded level carries the exact wire key
/// `instanceId`, holding the instance id.
pub proof fn lemma_level_wire_keys(l: LevelV)
    ensures
        obj_get(level_json(l)->Obj_0, "instanceId"@) == Some(JsonV::Num(l.instance_id)),
{
    lemma_level_keys_distinct();
    lemma_obj_get_at(level_json(l)->Obj_0, 1);
}

/// Field-name fidelity: an encoded book entry carries the exact wire key
/// `isBuy`, holding the side.
pub proof fn lemma_bidask_wire_keys(b: BidAsk)
    ensures
        obj_get(bidask_json(b)->Obj_0, "isBuy"@) == Some(JsonV::Bool(b.is_buy)),
{
    lemma_bidask_keys_distinct();
    lemma_obj_get_at(bidask_json(b)->Obj_0, 2);
}

/// Field-name fidelity: an encoded order carries the exact wire key
/// `orderType`, holding the order type's token.
pub proof fn lemma_order_wire_keys(o: OrderV)
    ensures
        obj_get(order_json(o)->Obj_0, "orderType"@) == Some(
            JsonV::Str(order_type_token(o.order_type)),
        ),
{
    lemma_order_keys_distinct();
    lemma_obj_get_at(order_json(o)->Obj_0, 6);
}

/// Field-name fidelity: an encoded quote carries the exact wire keys
/// `bidSize`, `askSize`, `bidDepth`, `askDepth`, `lastSize`, `lastTrade` and
/// `quoteTime`, each holding its field's value.
pub proof fn lemma_quote_wire_keys(q: QuoteResponseV)
    ensures
        obj_get(quote_json(q)->Obj_0, "bidSize"@) == Some(JsonV::Num(q.bid_size)),
        obj_get(quote_json(q)->Obj_0, "askSize"@) == Some(JsonV::Num(q.ask_size)),
        obj_get(quote_json(q)->Obj_0, "bidDepth"@) == Some(JsonV::Num(q.bid_depth)),
        obj_get(quote_json(q)->Obj_0, "askDepth"@) == Some(JsonV::Num(q.ask_depth)),
        obj_get(quote_json(q)->Obj_0, "lastSize"@) == Some(opt_num_json(q.last_size)),
        obj_get(quote_json(q)->Obj_0, "lastTrade"@) == Some(opt_instant_json(q.last_trade)),
        obj_get(quote_json(q)->Obj_0, "quoteTime"@) == Some(opt_instant_json(q.quote_time)),
{
    lemma_quote_keys_distinct();
    let es = quote_json(q)->Obj_0;
    lemma_obj_get_at(es, 5);
    lemma_obj_get_at(es, 6);
    lemma_obj_get_at(es, 7);
    lemma_obj_get_at(es, 8);
    lemma_obj_get_at(es, 10);
    lemma_obj_get_at(es, 11);
    lemma_obj_get_at(es, 12);
}

/// Field-name fidelity: an encoded order snapshot carries the exact wire
/// keys `originalQty`, `orderType` and `totalFilled`, each holding its
/// field's value.
pub proof fn lemma_order_response_wire_keys(o: OrderResponseV)
    ensures
        obj_get(order_response_json(o)->Obj_0, "originalQty"@) == Some(JsonV::Num(o.original_qty)),
        obj_get(order_response_json(o)->Obj_0, "orderType"@) == Some(
            JsonV::Str(order_type_token(o.order_type)),
        ),
        obj_get(order_response_json(o)->Obj_0, "totalFilled"@) == Some(JsonV::Num(o.total_filled)),
{
    lemma_order_response_keys_distinct();
    let es = order_response_json(o)->Obj_0;
    lemma_obj_get_at(es, 4);
    lemma_obj_get_at(es, 7);
    lemma_obj_get_at(es, 12);
}

} // verus!
