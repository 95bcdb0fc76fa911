//! The domain API surface: a session-scoped client over an injectable
//! transport.
//!
//! The client is generic over anything satisfying the [`HttpClient`]
//! contract, so production code can bind a real networking implementation
//! while tests bind an in-memory double. Every operation is one blocking
//! round trip: build a URL by pure string composition, perform the verb,
//! decode the matching response type, and return it verbatim — including its
//! `ok` flag, which the client never interprets.

use vstd::prelude::*;
use crate::codec::{heart_beat_of_json, level_of_json, order_response_of_json, orderbook_of_json,
    parse_response, quote_of_json, stock_list_of_json, venue_heart_beat_of_json, FromJson};
use crate::data::{HeartBeatResponse, Level, Order, OrderResponse, OrderbookResponse,
    QuoteResponse, StockListResponse, VenueHeartBeatResponse};
use crate::encode::encode;
use crate::error::Error;
use crate::json::{text_json, JsonV};
use crate::text::{dec_digits, str_concat, str_concat3, u64_to_string};

verus! {

/// The transport capability: perform an authenticated HTTP verb against a
/// URL and hand back the raw response text, or a transport error.
///
/// Implementations attach the authorization credential themselves; the
/// domain client depends on nothing but this contract, so an in-memory
/// double that returns canned text is a valid transport. The response text
/// is whatever the other end chose to send: nothing is promised of it here,
/// and the client's own contracts hold for every possible response.
pub trait HttpClient {
    /// Performs a GET against the URL.
    fn get(&self, url: &str) -> Result<String, Error>;

    /// Performs a POST against the URL, with an optional pre-encoded body.
    fn post(&self, url: &str, body: Option<&str>) -> Result<String, Error>;

    /// Performs a DELETE against the URL.
    fn delete(&self, url: &str) -> Result<String, Error>;
}

// ---------------------------------------------------------------------------
// URL composition: pure string concatenation over already-valid segments.
// ---------------------------------------------------------------------------

/// The URL that starts (or continues) a level.
pub open spec fn spec_start_level_url(base: Seq<char>, level: Seq<char>) -> Seq<char> {
    base + "/gm/levels/"@ + level
}

/// The URL of the whole-API heartbeat.
pub open spec fn spec_heartbeat_url(base: Seq<char>) -> Seq<char> {
    base + "/ob/api/heartbeat"@
}

/// The path prefix of one venue.
pub open spec fn spec_venue_prefix(base: Seq<char>, venue: Seq<char>) -> Seq<char> {
    base + "/ob/api/venues/"@ + venue
}

/// The URL of a venue's heartbeat.
pub open spec fn spec_venue_heartbeat_url(base: Seq<char>, venue: Seq<char>) -> Seq<char> {
    spec_venue_prefix(base, venue) + "/heartbeat"@
}

/// The URL of a venue's stock list.
pub open spec fn spec_stock_list_url(base: Seq<char>, venue: Seq<char>) -> Seq<char> {
    spec_venue_prefix(base, venue) + "/stocks"@
}

/// The URL of one stock on one venue: its order book.
pub open spec fn spec_orderbook_url(base: Seq<char>, venue: Seq<char>, stock: Seq<char>) -> Seq<
    char,
> {
    spec_venue_prefix(base, venue) + "/stocks/"@ + stock
}

/// The URL of a stock's quote.
pub open spec fn spec_quote_url(base: Seq<char>, venue: Seq<char>, stock: Seq<char>) -> Seq<char> {
    spec_orderbook_url(base, venue, stock) + "/quote"@
}

/// The URL orders for a stock are submitted to.
pub open spec fn spec_orders_url(base: Seq<char>, venue: Seq<char>, stock: Seq<char>) -> Seq<
    char,
> {
    spec_orderbook_url(base, venue, stock) + "/orders"@
}

/// The URL of one existing order.
pub open spec fn spec_order_url(base: Seq<char>, venue: Seq<char>, stock: Seq<char>, id: u64) -> Seq<
    char,
> {
    spec_orders_url(base, venue, stock) + "/"@ + dec_digits(id as nat)
}

/// Builds the level-start URL.
pub fn start_level_url(base: &str, level: &str) -> (r: String)
    ensures
        r@ == spec_start_level_url(base@, level@),
{
    str_concat3(base, "/gm/levels/", level)
}

/// Builds the whole-API heartbeat URL.
pub fn heartbeat_url(base: &str) -> (r: String)
    ensures
        r@ == spec_heartbeat_url(base@),
{
    str_concat(base, "/ob/api/heartbeat")
}

/// Builds a venue's heartbeat URL.
pub fn venue_heartbeat_url(base: &str, venue: &str) -> (r: String)
    ensures
        r@ == spec_venue_heartbeat_url(base@, venue@),
{
    let prefix = str_concat3(base, "/ob/api/venues/", venue);
    str_concat(prefix.as_str(), "/heartbeat")
}

/// Builds a venue's stock-list URL.
pub fn stock_list_url(base: &str, venue: &str) -> (r: String)
    ensures
        r@ == spec_stock_list_url(base@, venue@),
{
    let prefix = str_concat3(base, "/ob/api/venues/", venue);
    str_concat(prefix.as_str(), "/stocks")
}

/// Builds a stock's order-book URL.
pub fn orderbook_url(base: &str, venue: &str, stock: &str) -> (r: String)
    ensures
        r@ == spec_orderbook_url(base@, venue@, stock@),
{
    let prefix = str_concat3(base, "/ob/api/venues/", venue);
    str_concat3(prefix.as_str(), "/stocks/", stock)
}

/// Builds a stock's quote URL.
pub fn quote_url(base: &str, venue: &str, stock: &str) -> (r: String)
    ensures
        r@ == spec_quote_url(base@, venue@, stock@),
{
    let prefix = orderbook_url(base, venue, stock);
    str_concat(prefix.as_str(), "/quote")
}

/// Builds a stock's order-submission URL.
pub fn orders_url(base: &str, venue: &str, stock: &str) -> (r: String)
    ensures
        r@ == spec_orders_url(base@, venue@, stock@),
{
    let prefix = orderbook_url(base, venue, stock);
    str_concat(prefix.as_str(), "/orders")
}

/// Builds the URL of one existing order.
pub fn order_url(base: &str, venue: &str, stock: &str, id: u64) -> (r: String)
    ensures
        r@ == spec_order_url(base@, venue@, stock@, id),
{
    let prefix = orders_url(base, venue, stock);
    let id_text = u64_to_string(id);
    str_concat3(prefix.as_str(), "/", id_text.as_str())
}

// ---------------------------------------------------------------------------
// The unstarted client.
// ---------------------------------------------------------------------------

/// Client for starting a new level: the unstarted state of the session. It
/// holds only the transport (which carries the credential) and the base URL,
/// both fixed at construction.
#[derive(Debug, Clone)]
pub struct Client<T: HttpClient + Clone> {
    http_client: T,
    base_url: String,
}

impl<T: HttpClient + Clone> Client<T> {
    /// The base URL the client was built with.
    pub closed spec fn base(&self) -> Seq<char> {
        self.base_url@
    }

    /// The transport the client was built with.
    pub closed spec fn transport(&self) -> T {
        self.http_client
    }

    /// Builds a client from a transport and a base URL. The transport
    /// carries the authorization credential; the base URL may point at the
    /// production endpoint or at a local test double.
    pub fn new(http_client: T, base_url: &str) -> (r: Client<T>)
        ensures
            r.base() == base_url@,
            r.transport() == http_client,
    {
        Client { http_client, base_url: base_url.to_owned() }
    }

    /// Starts a new level.
    ///
    /// The remote side continues a level that is already running under the
    /// same name, so the client assumes nothing about being the session's
    /// sole creator: it returns whatever session the server described. On
    /// success the result is a started, session-scoped client for the same
    /// base URL, holding a level that some JSON document denotes.
    pub fn start_level(&self, level: &str) -> (r: Result<LevelClient<T>, Error>)
        ensures
            r matches Ok(lc) ==> lc.base() == self.base() && cloned::<T>(
                self.transport(),
                lc.transport(),
            ) && (exists|j: JsonV| #[trigger] level_of_json(j) == Some(lc.spec_level()@)),
    {
        let url = start_level_url(self.base_url.as_str(), level);
        let res = match self.http_client.post(url.as_str(), None) {
            Ok(t) => t,
            Err(e) => return Err(e),
        };
        let lv = match parse_response::<Level>(res.as_str()) {
            Ok(l) => l,
            Err(e) => return Err(e),
        };
        proof {
            let j = text_json(res@).unwrap();
            assert(level_of_json(j) == Some(lv@));
        }
        let transport = self.http_client.clone();
        Ok(LevelClient::new(transport, lv, &self.base_url))
    }
}

// ---------------------------------------------------------------------------
// The started, session-scoped client.
// ---------------------------------------------------------------------------

/// A client for one running level: the started — and terminal — state of
/// the session. It composes the transport and the codec to expose one
/// operation per endpoint. It holds no mutable state, so it may be shared
/// freely; a decoded response with `ok == false` is returned successfully,
/// and judging it is left to the caller.
#[derive(Debug, Clone)]
pub struct LevelClient<T: HttpClient + Clone> {
    http_client: T,
    /// The session this client operates in, fixed at construction.
    pub level: Level,
    /// The base URL all endpoint URLs are composed over.
    pub base_url: String,
}

impl<T: HttpClient + Clone> LevelClient<T> {
    /// The session this client operates in.
    pub closed spec fn spec_level(&self) -> Level {
        self.level
    }

    /// The base URL the client was built with.
    pub closed spec fn base(&self) -> Seq<char> {
        self.base_url@
    }

    /// The transport the client was built with.
    pub closed spec fn transport(&self) -> T {
        self.http_client
    }

    /// Constructs a level client from its parts. Construction performs no
    /// transport call, and none of the three parts is changed afterwards.
    pub fn new(http_client: T, level: Level, base_url: &str) -> (r: LevelClient<T>)
        ensures
            r.spec_level() == level,
            r.base() == base_url@,
            r.transport() == http_client,
    {
        LevelClient { http_client, level, base_url: base_url.to_owned() }
    }

    /// Performs a GET and decodes the response. Whatever text the transport
    /// hands back, a successful result is exactly a record that some JSON
    /// document denotes — never a partially populated one.
    fn do_get<D: FromJson>(&self, url: &str) -> (r: Result<D, Error>)
        ensures
            r matches Ok(x) ==> exists|j: JsonV| #[trigger] D::of_json(j) == Some(x@),
    {
        let res = match self.http_client.get(url) {
            Ok(t) => t,
            Err(e) => return Err(e),
        };
        let out = parse_response::<D>(res.as_str());
        proof {
            if out is Ok {
                let j = text_json(res@).unwrap();
                assert(D::of_json(j) == Some(out.unwrap()@));
            }
        }
        out
    }

    /// Performs a DELETE and decodes the response, as [`Self::do_get`] does.
    fn do_delete<D: FromJson>(&self, url: &str) -> (r: Result<D, Error>)
        ensures
            r matches Ok(x) ==> exists|j: JsonV| #[trigger] D::of_json(j) == Some(x@),
    {
        let res = match self.http_client.delete(url) {
            Ok(t) => t,
            Err(e) => return Err(e),
        };
        let out = parse_response::<D>(res.as_str());
        proof {
            if out is Ok {
                let j = text_json(res@).unwrap();
                assert(D::of_json(j) == Some(out.unwrap()@));
            }
        }
        out
    }

    /// Sees whether the level is up. This should only be used to sanity
    /// check that the level has not been torn down.
    pub fn heart_beat(&self) -> (r: Result<HeartBeatResponse, Error>)
        ensures
            r matches Ok(h) ==> exists|j: JsonV| #[trigger] heart_beat_of_json(j) == Some(h@),
    {
        let url = heartbeat_url(self.base_url.as_str());
        self.do_get::<HeartBeatResponse>(url.as_str())
    }

    /// Checks whether a venue is up.
    pub fn venue_heart_beat(&self, venue: &str) -> (r: Result<VenueHeartBeatResponse, Error>)
        ensures
            r matches Ok(v) ==> exists|j: JsonV| #[trigger] venue_heart_beat_of_json(j) == Some(
                v@,
            ),
    {
        let url = venue_heartbeat_url(self.base_url.as_str(), venue);
        self.do_get::<VenueHeartBeatResponse>(url.as_str())
    }

    /// Lists the stocks this venue accepts trades for. Fails with a
    /// transport error where the round trip fails and a decode error where
    /// the response is not a stock list.
    pub fn stock_list(&self, venue: &str) -> (r: Result<StockListResponse, Error>)
        ensures
            r matches Ok(s) ==> exists|j: JsonV| #[trigger] stock_list_of_json(j) == Some(s@),
    {
        let url = stock_list_url(self.base_url.as_str(), venue);
        self.do_get::<StockListResponse>(url.as_str())
    }

    /// Fetches a snapshot of the venue's order book for one stock. The
    /// remote side suggests this is slow and should be done sparingly.
    pub fn orderbook(&self, venue: &str, stock: &str) -> (r: Result<OrderbookResponse, Error>)
        ensures
            r matches Ok(b) ==> exists|j: JsonV| #[trigger] orderbook_of_json(j) == Some(b@),
    {
        let url = orderbook_url(self.base_url.as_str(), venue, stock);
        self.do_get::<OrderbookResponse>(url.as_str())
    }

    /// Asks a venue about the current state of a stock.
    pub fn quote(&self, venue: &str, stock: &str) -> (r: Result<QuoteResponse, Error>)
        ensures
            r matches Ok(q) ==> exists|j: JsonV| #[trigger] quote_of_json(j) == Some(q@),
    {
        let url = quote_url(self.base_url.as_str(), venue, stock);
        self.do_get::<QuoteResponse>(url.as_str())
    }

    /// Sends in an order and returns the response: the order is encoded to
    /// its exact wire document and posted to the submission URL for its own
    /// venue and stock.
    pub fn order(&self, o: &Order) -> (r: Result<OrderResponse, Error>)
        ensures
            r matches Ok(x) ==> exists|j: JsonV| #[trigger] order_response_of_json(j) == Some(x@),
    {
        let url = orders_url(self.base_url.as_str(), o.venue.as_str(), o.stock.as_str());
        let encoded = match encode::<Order>(o) {
            Ok(s) => s,
            Err(e) => return Err(e),
        };
        let res = match self.http_client.post(url.as_str(), Some(encoded.as_str())) {
            Ok(t) => t,
            Err(e) => return Err(e),
        };
        let out = parse_response::<OrderResponse>(res.as_str());
        proof {
            if out is Ok {
                let j = text_json(res@).unwrap();
                assert(order_response_of_json(j) == Some(out.unwrap()@));
            }
        }
        out
    }

    /// Finds out how a specific order on a specific venue is doing.
    pub fn order_status(&self, venue: &str, stock: &str, id: u64) -> (r: Result<
        OrderResponse,
        Error,
    >)
        ensures
            r matches Ok(x) ==> exists|j: JsonV| #[trigger] order_response_of_json(j) == Some(x@),
    {
        let url = order_url(self.base_url.as_str(), venue, stock, id);
        self.do_get::<OrderResponse>(url.as_str())
    }

    /// Tries to cancel an order; the response reflects its (possibly now
    /// closed) final state.
    pub fn delete_order(&self, venue: &str, stock: &str, id: u64) -> (r: Result<
        OrderResponse,
        Error,
    >)
        ensures
            r matches Ok(x) ==> exists|j: JsonV| #[trigger] order_response_of_json(j) == Some(x@),
    {
        let url = order_url(self.base_url.as_str(), venue, stock, id);
        self.do_delete::<OrderResponse>(url.as_str())
    }
}

/// The API key, as handed in by the surrounding program from its
/// configuration source. The library itself reads no environment; the
/// caller must already have found a key.
pub fn get_key(value: Option<String>) -> (r: String)
    requires
        value is Some,
    ensures
        r@ == value.unwrap()@,
{
    match value {
        Some(k) => k,
        None => {
            proof {
                assert(false);
            }
            String::new()
        },
    }
}

} // verus!
