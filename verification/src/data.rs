//! The domain records exchanged over the wire, with their mathematical views.
//!
//! Every record is an immutable value; every response carries an `ok` flag
//! that signals domain-level success independently of transport success.
//! All price and quantity fields are unsigned 64-bit integers (prices in
//! minor currency units); no floating point is used for money.

use vstd::prelude::*;
use crate::time::Instant;

verus! {

/// The view of a sequence of strings, character sequence by character
/// sequence.
pub open spec fn strings_view(v: Seq<String>) -> Seq<Seq<char>> {
    v.map_values(|s: String| s@)
}

/// The view of a sequence of string pairs.
pub open spec fn string_pairs_view(v: Seq<(String, String)>) -> Seq<(Seq<char>, Seq<char>)> {
    v.map_values(|p: (String, String)| (p.0@, p.1@))
}

/// A running game session: one level instance tied to an account.
#[derive(Debug, Clone)]
pub struct Level {
    pub ok: bool,
    pub instance_id: u64,
    pub account: String,
    /// Instruction name to instruction text, in wire order.
    pub instructions: Vec<(String, String)>,
    pub tickers: Vec<String>,
    pub venues: Vec<String>,
}

/// The view of a [`Level`].
#[verifier::ext_equal]
pub struct LevelV {
    pub ok: bool,
    pub instance_id: u64,
    pub account: Seq<char>,
    pub instructions: Seq<(Seq<char>, Seq<char>)>,
    pub tickers: Seq<Seq<char>>,
    pub venues: Seq<Seq<char>>,
}

impl View for Level {
    type V = LevelV;

    open spec fn view(&self) -> LevelV {
        LevelV {
            ok: self.ok,
            instance_id: self.instance_id,
            account: self.account@,
            instructions: string_pairs_view(self.instructions@),
            tickers: strings_view(self.tickers@),
            venues: strings_view(self.venues@),
        }
    }
}

/// Whether the whole game API is up.
#[derive(Debug, Clone)]
pub struct HeartBeatResponse {
    pub ok: bool,
    pub error: String,
}

/// The view of a [`HeartBeatResponse`].
#[verifier::ext_equal]
pub struct HeartBeatResponseV {
    pub ok: bool,
    pub error: Seq<char>,
}

impl View for HeartBeatResponse {
    type V = HeartBeatResponseV;

    open spec fn view(&self) -> HeartBeatResponseV {
        HeartBeatResponseV { ok: self.ok, error: self.error@ }
    }
}

/// Whether one venue is up.
#[derive(Debug, Clone)]
pub struct VenueHeartBeatResponse {
    pub ok: bool,
    pub venue: String,
}

/// The view of a [`VenueHeartBeatResponse`].
#[verifier::ext_equal]
pub struct VenueHeartBeatResponseV {
    pub ok: bool,
    pub venue: Seq<char>,
}

impl View for VenueHeartBeatResponse {
    type V = VenueHeartBeatResponseV;

    open spec fn view(&self) -> VenueHeartBeatResponseV {
        VenueHeartBeatResponseV { ok: self.ok, venue: self.venue@ }
    }
}

/// One tradable stock: its display name and its ticker symbol.
#[derive(Debug, Clone)]
pub struct StockSymbol {
    pub name: String,
    pub symbol: String,
}

/// The view of a [`StockSymbol`].
#[verifier::ext_equal]
pub struct StockSymbolV {
    pub name: Seq<char>,
    pub symbol: Seq<char>,
}

impl View for StockSymbol {
    type V = StockSymbolV;

    open spec fn view(&self) -> StockSymbolV {
        StockSymbolV { name: self.name@, symbol: self.symbol@ }
    }
}

/// The view of a sequence of stock symbols.
pub open spec fn symbols_view(v: Seq<StockSymbol>) -> Seq<StockSymbolV> {
    v.map_values(|s: StockSymbol| s@)
}

/// The stocks a venue accepts trades for.
#[derive(Debug, Clone)]
pub struct StockListResponse {
    pub ok: bool,
    pub symbols: Vec<StockSymbol>,
}

/// The view of a [`StockListResponse`].
#[verifier::ext_equal]
pub struct StockListResponseV {
    pub ok: bool,
    pub symbols: Seq<StockSymbolV>,
}

impl View for StockListResponse {
    type V = StockListResponseV;

    open spec fn view(&self) -> StockListResponseV {
        StockListResponseV { ok: self.ok, symbols: symbols_view(self.symbols@) }
    }
}

/// One resting order book entry: a price level with its quantity and side.
/// All fields are plain values, so the record is its own view.
#[derive(Debug, Clone, Copy, PartialEq, Eq, Structural)]
pub struct BidAsk {
    pub price: u64,
    pub qty: u64,
    pub is_buy: bool,
}

impl View for BidAsk {
    type V = BidAsk;

    open spec fn view(&self) -> BidAsk {
        *self
    }
}

/// A snapshot of a venue's order book for one stock.
#[derive(Debug, Clone)]
pub struct OrderbookResponse {
    pub ok: bool,
    pub venue: String,
    pub symbol: String,
    pub bids: Option<Vec<BidAsk>>,
    pub asks: Option<Vec<BidAsk>>,
    pub ts: String,
}

/// The view of an [`OrderbookResponse`].
#[verifier::ext_equal]
pub struct OrderbookResponseV {
    pub ok: bool,
    pub venue: Seq<char>,
    pub symbol: Seq<char>,
    pub bids: Option<Seq<BidAsk>>,
    pub asks: Option<Seq<BidAsk>>,
    pub ts: Seq<char>,
}

/// The view of an optional list of book entries.
pub open spec fn bidasks_view(v: Option<Vec<BidAsk>>) -> Option<Seq<BidAsk>> {
    match v {
        Some(entries) => Some(entries@),
        None => None,
    }
}

impl View for OrderbookResponse {
    type V = OrderbookResponseV;

    open spec fn view(&self) -> OrderbookResponseV {
        OrderbookResponseV {
            ok: self.ok,
            venue: self.venue@,
            symbol: self.symbol@,
            bids: bidasks_view(self.bids),
            asks: bidasks_view(self.asks),
            ts: self.ts@,
        }
    }
}

/// A quote: the current market state of one stock on one venue.
#[derive(Debug, Clone)]
pub struct QuoteResponse {
    pub ok: bool,
    pub symbol: String,
    pub venue: String,
    pub bid: Option<u64>,
    pub ask: Option<u64>,
    pub bid_size: u64,
    pub ask_size: u64,
    pub bid_depth: u64,
    pub ask_depth: u64,
    pub last: Option<u64>,
    pub last_size: Option<u64>,
    pub last_trade: Option<Instant>,
    pub quote_time: Option<Instant>,
}

/// The view of a [`QuoteResponse`].
#[verifier::ext_equal]
pub struct QuoteResponseV {
    pub ok: bool,
    pub symbol: Seq<char>,
    pub venue: Seq<char>,
    pub bid: Option<u64>,
    pub ask: Option<u64>,
    pub bid_size: u64,
    pub ask_size: u64,
    pub bid_depth: u64,
    pub ask_depth: u64,
    pub last: Option<u64>,
    pub last_size: Option<u64>,
    pub last_trade: Option<Instant>,
    pub quote_time: Option<Instant>,
}

impl View for QuoteResponse {
    type V = QuoteResponseV;

    open spec fn view(&self) -> QuoteResponseV {
        QuoteResponseV {
            ok: self.ok,
            symbol: self.symbol@,
            venue: self.venue@,
            bid: self.bid,
            ask: self.ask,
            bid_size: self.bid_size,
            ask_size: self.ask_size,
            bid_depth: self.bid_depth,
            ask_depth: self.ask_depth,
            last: self.last,
            last_size: self.last_size,
            last_trade: self.last_trade,
            quote_time: self.quote_time,
        }
    }
}

/// The side an order trades on.
#[derive(Debug, Clone, Copy, PartialEq, Eq, Structural)]
pub enum OrderDirection {
    Buy,
    Sell,
}

/// How an order executes. The four kinds form a closed set; any other wire
/// token is rejected.
#[derive(Debug, Clone, Copy, PartialEq, Eq, Structural)]
pub enum OrderType {
    Limit,
    Market,
    FillOrKill,
    ImmediateOrCancel,
}

/// An outbound order, constructed by the caller and sent exactly once.
#[derive(Debug, Clone)]
pub struct Order {
    pub account: String,
    pub venue: String,
    pub stock: String,
    pub price: u64,
    pub qty: u64,
    pub direction: OrderDirection,
    pub order_type: OrderType,
}

/// The view of an [`Order`].
#[verifier::ext_equal]
pub struct OrderV {
    pub account: Seq<char>,
    pub venue: Seq<char>,
    pub stock: Seq<char>,
    pub price: u64,
    pub qty: u64,
    pub direction: OrderDirection,
    pub order_type: OrderType,
}

impl View for Order {
    type V = OrderV;

    open spec fn view(&self) -> OrderV {
        OrderV {
            account: self.account@,
            venue: self.venue@,
            stock: self.stock@,
            price: self.price,
            qty: self.qty,
            direction: self.direction,
            order_type: self.order_type,
        }
    }
}

/// One execution of (part of) an order. All fields are plain values, so the
/// record is its own view.
#[derive(Debug, Clone, Copy, PartialEq, Eq, Structural)]
pub struct Fill {
    pub price: u64,
    pub qty: u64,
    pub ts: Instant,
}

impl View for Fill {
    type V = Fill;

    open spec fn view(&self) -> Fill {
        *self
    }
}

/// A point-in-time snapshot of an order: its identity, remaining quantity
/// and executions so far. Callers must re-query for freshness.
#[derive(Debug, Clone)]
pub struct OrderResponse {
    pub ok: bool,
    pub symbol: String,
    pub venue: String,
    pub direction: Option<OrderDirection>,
    pub original_qty: u64,
    pub qty: u64,
    pub price: u64,
    pub order_type: OrderType,
    pub id: u64,
    pub account: String,
    pub ts: Instant,
    pub fills: Vec<Fill>,
    pub total_filled: u64,
    pub open: bool,
}

/// The view of an [`OrderResponse`].
#[verifier::ext_equal]
pub struct OrderResponseV {
    pub ok: bool,
    pub symbol: Seq<char>,
    pub venue: Seq<char>,
    pub direction: Option<OrderDirection>,
    pub original_qty: u64,
    pub qty: u64,
    pub price: u64,
    pub order_type: OrderType,
    pub id: u64,
    pub account: Seq<char>,
    pub ts: Instant,
    pub fills: Seq<Fill>,
    pub total_filled: u64,
    pub open: bool,
}

impl View for OrderResponse {
    type V = OrderResponseV;

    open spec fn view(&self) -> OrderResponseV {
        OrderResponseV {
            ok: self.ok,
            symbol: self.symbol@,
            venue: self.venue@,
            direction: self.direction,
            original_qty: self.original_qty,
            qty: self.qty,
            price: self.price,
            order_type: self.order_type,
            id: self.id,
            account: self.account@,
            ts: self.ts,
            fills: self.fills@,
            total_filled: self.total_filled,
            open: self.open,
        }
    }
}

} // verus!
