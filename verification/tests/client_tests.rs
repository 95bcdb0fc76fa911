use michromer::client::{order_url, quote_url, Client, HttpClient, LevelClient};
use michromer::data::{Level, Order, OrderDirection, OrderType};
use michromer::error::Error;
use michromer::time::Instant;

#[derive(Debug, Clone)]
struct TestHttpClient {
    post_result: String,
}

#[allow(unused_variables)]
impl HttpClient for TestHttpClient {
    fn get(&self, url: &str) -> Result<String, Error> {
        Ok("".to_string())
    }
    fn post(&self, url: &str, body: Option<&str>) -> Result<String, Error> {
        Ok(self.post_result.to_owned())
    }
    fn delete(&self, url: &str) -> Result<String, Error> {
        Ok("".to_string())
    }
}

/// A transport double that returns one fixed body for every verb and path.
#[derive(Debug, Clone)]
struct FixedBodyClient {
    body: String,
}

impl HttpClient for FixedBodyClient {
    fn get(&self, _url: &str) -> Result<String, Error> {
        Ok(self.body.clone())
    }
    fn post(&self, _url: &str, _body: Option<&str>) -> Result<String, Error> {
        Ok(self.body.clone())
    }
    fn delete(&self, _url: &str) -> Result<String, Error> {
        Ok(self.body.clone())
    }
}

/// A transport double whose every round trip fails.
#[derive(Debug, Clone)]
struct DownClient;

impl HttpClient for DownClient {
    fn get(&self, _url: &str) -> Result<String, Error> {
        Err(Error::Transport("connection refused".to_string()))
    }
    fn post(&self, _url: &str, _body: Option<&str>) -> Result<String, Error> {
        Err(Error::Transport("connection refused".to_string()))
    }
    fn delete(&self, _url: &str) -> Result<String, Error> {
        Err(Error::Transport("connection refused".to_string()))
    }
}

fn sample_level_body() -> String {
    "{\"ok\": true, \"instanceId\": 1090, \"account\": \"myac\", \"instructions\": {}, \
     \"tickers\": [\"test\"], \"venues\": [\"ven\"]}"
        .to_string()
}

const ORDER_STATUS_BODY: &str = "{\"account\": \"testacc\", \"price\": 26382757, \"id\": 2138, \
    \"open\": false, \"venue\": \"TESTEX\", \"orderType\": \"limit\", \"qty\": 0, \
    \"direction\": \"buy\", \"fills\": [{\"qty\": 5000, \"ts\": \
    \"2016-06-02T16:20:53.024563Z\", \"price\": 26382747}], \"totalFilled\": 5000, \
    \"originalQty\": 5000, \"symbol\": \"FOOBAR\", \"ts\": \"2016-06-02T16:20:53.024542Z\", \
    \"ok\": true}";

#[test]
#[should_panic]
fn test_start_level_bad_resp() {
    let json_resp = "{}";
    let c = Client::new(
        TestHttpClient { post_result: json_resp.to_string() },
        "http://localhost:8000",
    );
    c.start_level("test").unwrap();
}

#[test]
fn test_start_level() {
    let json_resp = sample_level_body();
    let c = Client::new(TestHttpClient { post_result: json_resp }, "http://localhost:8000");
    c.start_level("test").unwrap();
}

#[test]
fn test_session_continuation_same_instance_id() {
    let c = Client::new(
        FixedBodyClient { body: sample_level_body() },
        "http://localhost:8000",
    );
    let first = c.start_level("same_name").unwrap();
    let second = c.start_level("same_name").unwrap();
    assert_eq!(first.level.instance_id, second.level.instance_id);
    assert_eq!(first.level.instance_id, 1090);
    assert_eq!(first.level.account, second.level.account);
}

#[test]
fn test_transport_substitution_status_and_delete_agree() {
    let transport = FixedBodyClient { body: ORDER_STATUS_BODY.to_string() };
    let level: Level = michromer::codec::parse_response(&sample_level_body()).unwrap();
    let lc = LevelClient::new(transport, level, "http://localhost:8000");

    let from_status = lc.order_status("TESTEX", "FOOBAR", 2138).unwrap();
    let from_delete = lc.delete_order("TESTEX", "FOOBAR", 2138).unwrap();

    for o in [&from_status, &from_delete] {
        assert!(o.ok);
        assert_eq!(o.account, "testacc");
        assert_eq!(o.price, 26382757);
        assert_eq!(o.id, 2138);
        assert!(!o.open);
        assert_eq!(o.venue, "TESTEX");
        assert_eq!(o.order_type, OrderType::Limit);
        assert_eq!(o.qty, 0);
        assert_eq!(o.direction, Some(OrderDirection::Buy));
        assert_eq!(o.fills.len(), 1);
        assert_eq!(o.fills[0].qty, 5000);
        assert_eq!(o.fills[0].price, 26382747);
        assert_eq!(o.fills[0].ts, Instant::parse("2016-06-02T16:20:53.024563Z").unwrap());
        assert_eq!(o.total_filled, 5000);
        assert_eq!(o.original_qty, 5000);
        assert_eq!(o.symbol, "FOOBAR");
        assert_eq!(o.ts, Instant::parse("2016-06-02T16:20:53.024542Z").unwrap());
    }
    assert_eq!(from_status.id, from_delete.id);
    assert_eq!(from_status.account, from_delete.account);
    assert_eq!(from_status.fills.len(), from_delete.fills.len());
}

#[test]
fn test_order_decodes_fixed_body() {
    let transport = FixedBodyClient { body: ORDER_STATUS_BODY.to_string() };
    let level: Level = michromer::codec::parse_response(&sample_level_body()).unwrap();
    let lc = LevelClient::new(transport, level, "http://localhost:8000");
    let o = Order {
        account: "testacc".to_string(),
        venue: "TESTEX".to_string(),
        stock: "FOOBAR".to_string(),
        price: 26382757,
        qty: 5000,
        direction: OrderDirection::Buy,
        order_type: OrderType::Limit,
    };
    let resp = lc.order(&o).unwrap();
    assert_eq!(resp.id, 2138);
    assert_eq!(resp.total_filled, 5000);
}

#[test]
fn test_transport_error_passes_through() {
    let level: Level = michromer::codec::parse_response(&sample_level_body()).unwrap();
    let lc = LevelClient::new(DownClient, level, "http://localhost:8000");
    assert!(matches!(lc.heart_beat(), Err(Error::Transport(_))));
    assert!(matches!(lc.stock_list("ven"), Err(Error::Transport(_))));
    assert!(matches!(lc.delete_order("ven", "s", 1), Err(Error::Transport(_))));
    let c = Client::new(DownClient, "http://localhost:8000");
    assert!(matches!(c.start_level("x"), Err(Error::Transport(_))));
}

#[test]
fn test_ok_false_is_returned_not_raised() {
    let body = "{\"ok\": false, \"error\": \"level gone\"}".to_string();
    let level: Level = michromer::codec::parse_response(&sample_level_body()).unwrap();
    let lc = LevelClient::new(FixedBodyClient { body }, level, "http://localhost:8000");
    let h = lc.heart_beat().unwrap();
    assert!(!h.ok);
    assert_eq!(h.error, "level gone");
}

#[test]
fn test_url_composition() {
    assert_eq!(
        order_url("http://localhost:8000", "TESTEX", "FOOBAR", 12345),
        "http://localhost:8000/ob/api/venues/TESTEX/stocks/FOOBAR/orders/12345"
    );
    assert_eq!(
        quote_url("https://api.example", "V", "S"),
        "https://api.example/ob/api/venues/V/stocks/S/quote"
    );
}

#[test]
fn test_get_key_returns_configured_key() {
    let key = michromer::client::get_key(Some("test-api-key".to_string()));
    assert_eq!(key, "test-api-key");
}

#[test]
fn test_stock_list_decodes_symbols() {
    let body = "{\"ok\": true, \"symbols\": [{\"name\": \"Foreign Owned Occluded Bridge \
                Architecture Resources\", \"symbol\": \"FOOBAR\"}]}"
        .to_string();
    let level: Level = michromer::codec::parse_response(&sample_level_body()).unwrap();
    let lc = LevelClient::new(FixedBodyClient { body }, level, "http://localhost:8000");
    let s = lc.stock_list("TESTEX").unwrap();
    assert!(s.ok);
    assert_eq!(s.symbols.len(), 1);
    assert_eq!(s.symbols[0].symbol, "FOOBAR");
}

#[test]
fn test_orderbook_null_sides_decode_to_absent() {
    let body = "{\"ok\": true, \"venue\": \"TESTEX\", \"symbol\": \"FOOBAR\", \"bids\": null, \
                \"asks\": [{\"price\": 10, \"qty\": 1, \"isBuy\": false}], \
                \"ts\": \"2015-12-04T09:02:16.680986205Z\"}"
        .to_string();
    let level: Level = michromer::codec::parse_response(&sample_level_body()).unwrap();
    let lc = LevelClient::new(FixedBodyClient { body }, level, "http://localhost:8000");
    let ob = lc.orderbook("TESTEX", "FOOBAR").unwrap();
    assert!(ob.bids.is_none());
    let asks = ob.asks.unwrap();
    assert_eq!(asks.len(), 1);
    assert_eq!(asks[0].price, 10);
    assert!(!asks[0].is_buy);
}

#[test]
fn test_venue_heart_beat_decodes() {
    let body = "{\"ok\": true, \"venue\": \"TESTEX\"}".to_string();
    let level: Level = michromer::codec::parse_response(&sample_level_body()).unwrap();
    let lc = LevelClient::new(FixedBodyClient { body }, level, "http://localhost:8000");
    let v = lc.venue_heart_beat("TESTEX").unwrap();
    assert!(v.ok);
    assert_eq!(v.venue, "TESTEX");
}

#[test]
fn test_quote_decodes_through_client() {
    let body = "{\"ok\": true, \"symbol\": \"FOOBAR\", \"venue\": \"TESTEX\", \"bid\": 5100, \
                \"ask\": 5125, \"bidSize\": 392, \"askSize\": 711, \"bidDepth\": 2748, \
                \"askDepth\": 2237, \"last\": 5125, \"lastSize\": 52, \
                \"lastTrade\": \"2015-07-13T05:38:17.33640392Z\", \
                \"quoteTime\": \"2015-07-13T05:38:17.33640392Z\"}"
        .to_string();
    let level: Level = michromer::codec::parse_response(&sample_level_body()).unwrap();
    let lc = LevelClient::new(FixedBodyClient { body }, level, "http://localhost:8000");
    let q = lc.quote("TESTEX", "FOOBAR").unwrap();
    assert!(q.ok);
    assert_eq!(q.bid, Some(5100));
    assert_eq!(q.bid_size, 392);
    assert_eq!(q.ask_depth, 2237);
    assert!(q.last_trade.is_some());
}
